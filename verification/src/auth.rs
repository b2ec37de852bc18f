use vstd::prelude::*;

use crate::config::ValidatedAuthUrl;
use crate::error::{AppError, AuthError};
use crate::json_value::{JsonValue, json_depth, json_max_depth, member_value};
use crate::text::same_text;

verus! {

/// The authentication mode, chosen before any network access.
#[derive(Debug, Clone, Copy, PartialEq, Eq, Structural)]
pub enum AuthMode {
    /// Keycloak `client_credentials` grant.
    KeycloakClientCredentials,
    /// Local login with email and password, without an identity provider.
    LocalAuth,
    /// Keycloak password grant.
    KeycloakRopc,
    /// A bearer token given directly.
    BearerToken,
}

/// The credentials of one invocation: the secrets come from the environment
/// only; the client ID and email may also come from flags.
pub struct Credentials {
    pub bearer_token: Option<String>,
    pub client_secret: Option<String>,
    pub password: Option<String>,
    pub client_id: Option<String>,
    pub email: Option<String>,
}

/// The credentials and whether an identity-provider endpoint is configured.
pub struct RawAuthSelection {
    pub credentials: Credentials,
    pub auth_url_configured: bool,
}

/// The selected flow, owning exactly the credentials it uses.
pub enum AuthStrategy {
    BearerToken { token: String },
    KeycloakClientCredentials { client_id: Option<String>, client_secret: String },
    KeycloakRopc { client_id: String, email: String, password: String },
    LocalAuth { email: String, password: String },
}

/// The client ID used when the password grant names none.
pub open spec fn default_client_id() -> Seq<char> {
    "codemie-sdk"@
}

/// The mode that the credentials select: a bearer token first; then a
/// client secret with an identity provider; then email and password, with
/// the provider's password grant or, without a provider, local login.
pub open spec fn selected_mode(c: Credentials, auth_url_configured: bool) -> Option<AuthMode> {
    if c.bearer_token is Some {
        Some(AuthMode::BearerToken)
    } else if c.client_secret is Some && auth_url_configured {
        Some(AuthMode::KeycloakClientCredentials)
    } else if c.client_secret is None && c.email is Some && c.password is Some && auth_url_configured {
        Some(AuthMode::KeycloakRopc)
    } else if c.client_secret is None && c.email is Some && c.password is Some && !auth_url_configured {
        Some(AuthMode::LocalAuth)
    } else {
        None
    }
}

/// The configuration error of credentials that select no mode.
fn incomplete() -> (e: AppError)
    ensures
        e is Configuration && e->Configuration_0@ == "authentication configuration incomplete"@,
{
    AppError::Configuration("authentication configuration incomplete".to_owned())
}

/// Selects the authentication mode before any network access.
pub fn select_auth_mode(credentials: &Credentials, auth_url: Option<&ValidatedAuthUrl>) -> (r: Result<AuthMode, AppError>)
    ensures
        match selected_mode(*credentials, auth_url is Some) {
            Some(m) => r == Ok::<AuthMode, AppError>(m),
            None => r is Err && r->Err_0 is Configuration && r->Err_0->Configuration_0@
                == "authentication configuration incomplete"@,
        },
{
    if credentials.bearer_token.is_some() {
        return Ok(AuthMode::BearerToken);
    }
    if credentials.client_secret.is_some() && auth_url.is_some() {
        return Ok(AuthMode::KeycloakClientCredentials);
    }
    if credentials.client_secret.is_none() && credentials.email.is_some() && credentials.password.is_some()
        && auth_url.is_some() {
        return Ok(AuthMode::KeycloakRopc);
    }
    if credentials.client_secret.is_none() && credentials.email.is_some() && credentials.password.is_some()
        && auth_url.is_none() {
        return Ok(AuthMode::LocalAuth);
    }
    Err(incomplete())
}

/// The client ID a mode sends: the given one, and for the password grant
/// `codemie-sdk` when none is given.
pub fn effective_client_id(mode: &AuthMode, credentials: &Credentials) -> (r: Option<String>)
    ensures
        *mode == AuthMode::KeycloakRopc ==> (r is Some && r->0@ == match credentials.client_id {
            Some(id) => id@,
            None => default_client_id(),
        }),
        *mode != AuthMode::KeycloakRopc ==> crate::config::opt_view(r) == crate::config::opt_view(
            credentials.client_id,
        ),
{
    match mode {
        AuthMode::KeycloakRopc => match &credentials.client_id {
            Some(id) => Some(id.clone()),
            None => Some("codemie-sdk".to_owned()),
        },
        _ => match &credentials.client_id {
            Some(id) => Some(id.clone()),
            None => None,
        },
    }
}

impl AuthStrategy {
    /// Validates the selection into the strategy of its mode; the password
    /// grant names `codemie-sdk` when no client ID is given; credentials
    /// that select no mode are a configuration error.
    pub fn try_from(raw: RawAuthSelection) -> (r: Result<AuthStrategy, AppError>)
        ensures
            match selected_mode(raw.credentials, raw.auth_url_configured) {
                None => r is Err && r->Err_0 is Configuration && r->Err_0->Configuration_0@
                    == "authentication configuration incomplete"@,
                Some(AuthMode::BearerToken) => r is Ok && r->Ok_0 is BearerToken
                    && r->Ok_0->BearerToken_token == raw.credentials.bearer_token->0,
                Some(AuthMode::KeycloakClientCredentials) => r is Ok && r->Ok_0 is KeycloakClientCredentials
                    && r->Ok_0->KeycloakClientCredentials_client_secret == raw.credentials.client_secret->0
                    && r->Ok_0->KeycloakClientCredentials_client_id == raw.credentials.client_id,
                Some(AuthMode::KeycloakRopc) => r is Ok && r->Ok_0 is KeycloakRopc
                    && r->Ok_0->KeycloakRopc_email == raw.credentials.email->0
                    && r->Ok_0->KeycloakRopc_password == raw.credentials.password->0
                    && r->Ok_0->KeycloakRopc_client_id@ == match raw.credentials.client_id {
                        Some(id) => id@,
                        None => default_client_id(),
                    },
                Some(AuthMode::LocalAuth) => r is Ok && r->Ok_0 is LocalAuth
                    && r->Ok_0->LocalAuth_email == raw.credentials.email->0
                    && r->Ok_0->LocalAuth_password == raw.credentials.password->0,
            },
    {
        let RawAuthSelection { credentials, auth_url_configured } = raw;
        let Credentials { bearer_token, client_secret, password, client_id, email } = credentials;
        match bearer_token {
            Some(token) => {
                return Ok(AuthStrategy::BearerToken { token });
            },
            None => {},
        }
        match client_secret {
            Some(client_secret) => {
                return if auth_url_configured {
                    Ok(AuthStrategy::KeycloakClientCredentials { client_id, client_secret })
                } else {
                    Err(incomplete())
                };
            },
            None => {},
        }
        match (email, password) {
            (Some(email), Some(password)) => {
                if auth_url_configured {
                    let client_id = match client_id {
                        Some(id) => id,
                        None => "codemie-sdk".to_owned(),
                    };
                    Ok(AuthStrategy::KeycloakRopc { client_id, email, password })
                } else {
                    Ok(AuthStrategy::LocalAuth { email, password })
                }
            },
            _ => Err(incomplete()),
        }
    }

    /// The mode of the strategy.
    pub fn mode(&self) -> (m: AuthMode)
        ensures
            m == match *self {
                AuthStrategy::BearerToken { .. } => AuthMode::BearerToken,
                AuthStrategy::KeycloakClientCredentials { .. } => AuthMode::KeycloakClientCredentials,
                AuthStrategy::KeycloakRopc { .. } => AuthMode::KeycloakRopc,
                AuthStrategy::LocalAuth { .. } => AuthMode::LocalAuth,
            },
    {
        match self {
            AuthStrategy::BearerToken { .. } => AuthMode::BearerToken,
            AuthStrategy::KeycloakClientCredentials { .. } => AuthMode::KeycloakClientCredentials,
            AuthStrategy::KeycloakRopc { .. } => AuthMode::KeycloakRopc,
            AuthStrategy::LocalAuth { .. } => AuthMode::LocalAuth,
        }
    }

    /// The credentials that carry exactly this strategy's values.
    pub fn into_credentials(self) -> (c: Credentials)
        ensures
            selected_mode(c, !(self is LocalAuth)) == Some(self.mode_spec()),
    {
        match self {
            AuthStrategy::BearerToken { token } => Credentials {
                bearer_token: Some(token),
                client_secret: None,
                password: None,
                client_id: None,
                email: None,
            },
            AuthStrategy::KeycloakClientCredentials { client_id, client_secret } => Credentials {
                bearer_token: None,
                client_secret: Some(client_secret),
                password: None,
                client_id,
                email: None,
            },
            AuthStrategy::KeycloakRopc { client_id, email, password } => Credentials {
                bearer_token: None,
                client_secret: None,
                password: Some(password),
                client_id: Some(client_id),
                email: Some(email),
            },
            AuthStrategy::LocalAuth { email, password } => Credentials {
                bearer_token: None,
                client_secret: None,
                password: Some(password),
                client_id: None,
                email: Some(email),
            },
        }
    }

    /// The mode of the strategy.
    pub open spec fn mode_spec(self) -> AuthMode {
        match self {
            AuthStrategy::BearerToken { .. } => AuthMode::BearerToken,
            AuthStrategy::KeycloakClientCredentials { .. } => AuthMode::KeycloakClientCredentials,
            AuthStrategy::KeycloakRopc { .. } => AuthMode::KeycloakRopc,
            AuthStrategy::LocalAuth { .. } => AuthMode::LocalAuth,
        }
    }
}

// ---------------------------------------------------------------------------
// Login requests
// ---------------------------------------------------------------------------

/// What a login does.
pub enum LoginPlan {
    /// The bearer token is already known: no request.
    UseToken(String),
    /// POST a form to the identity provider.
    PostForm { endpoint: String, params: Vec<(String, String)> },
    /// POST an email and password as JSON to the local login route.
    PostJson { endpoint: String, email: String, password: String },
}

/// The texts of form parameters.
pub open spec fn params_view(params: Seq<(String, String)>) -> Seq<(Seq<char>, Seq<char>)> {
    params.map_values(|p: (String, String)| (p.0@, p.1@))
}

/// `s` without its trailing `/` characters.
pub open spec fn base_url(s: Seq<char>) -> Seq<char> {
    crate::config::without_trailing_slashes(s)
}

/// The request of each mode: the client-credentials grant sends the client
/// secret and, when given, the client ID; the password grant sends the
/// effective client ID, the email as user name and the password, and never a
/// client secret; local login posts to `<url>/v1/local-auth/login`.
pub open spec fn planned(mode: AuthMode, c: Credentials, url: Option<Seq<char>>, auth_url: Option<Seq<char>>, plan: LoginPlan) -> bool {
    match mode {
        AuthMode::BearerToken => plan is UseToken && plan->UseToken_0 == c.bearer_token->0,
        AuthMode::KeycloakClientCredentials => plan is PostForm && plan->PostForm_endpoint@
            == auth_url->0 && params_view(plan->PostForm_params@) == (seq![
            ("grant_type"@, "client_credentials"@),
            ("client_secret"@, c.client_secret->0@),
        ] + match c.client_id {
            Some(id) => seq![("client_id"@, id@)],
            None => Seq::empty(),
        }),
        AuthMode::KeycloakRopc => plan is PostForm && plan->PostForm_endpoint@ == auth_url->0
            && params_view(plan->PostForm_params@) == seq![
            ("grant_type"@, "password"@),
            ("client_id"@, match c.client_id {
                Some(id) => id@,
                None => default_client_id(),
            }),
            ("username"@, c.email->0@),
            ("password"@, c.password->0@),
        ],
        AuthMode::LocalAuth => plan is PostJson && plan->PostJson_endpoint@ == base_url(url->0)
            + "/v1/local-auth/login"@ && plan->PostJson_email == c.email->0
            && plan->PostJson_password == c.password->0,
    }
}

/// Whether the inputs a mode needs are present: the token; the provider
/// endpoint and secret; the endpoint, email and password; the URL, email
/// and password.
pub open spec fn plan_inputs_present(mode: AuthMode, c: Credentials, url: bool, auth_url: bool) -> bool {
    match mode {
        AuthMode::BearerToken => c.bearer_token is Some,
        AuthMode::KeycloakClientCredentials => auth_url && c.client_secret is Some,
        AuthMode::KeycloakRopc => auth_url && c.email is Some && c.password is Some,
        AuthMode::LocalAuth => url && c.email is Some && c.password is Some,
    }
}

/// A form parameter.
fn param(name: &str, value: &str) -> (p: (String, String))
    ensures
        p.0@ == name@,
        p.1@ == value@,
{
    (name.to_owned(), value.to_owned())
}

/// Plans the login of a mode; a missing endpoint is a configuration error
/// and a missing credential an authentication error.
pub fn login_plan(mode: AuthMode, credentials: &Credentials, url: Option<&str>, auth_url: Option<&str>) -> (r: Result<LoginPlan, AppError>)
    ensures
        r is Ok <==> plan_inputs_present(mode, *credentials, url is Some, auth_url is Some),
        r is Ok ==> planned(
            mode,
            *credentials,
            match url {
                Some(u) => Some(u@),
                None => None,
            },
            match auth_url {
                Some(u) => Some(u@),
                None => None,
            },
            r->Ok_0,
        ),
        r is Err ==> (r->Err_0 is Configuration || r->Err_0 is Authentication),
{
    match mode {
        AuthMode::BearerToken => match &credentials.bearer_token {
            Some(token) => Ok(LoginPlan::UseToken(token.clone())),
            None => Err(AppError::Authentication("bearer token is not set".to_owned())),
        },
        AuthMode::KeycloakClientCredentials => {
            let endpoint = match auth_url {
                Some(u) => u,
                None => {
                    return Err(
                        AppError::Configuration(
                            "auth_url is required for Keycloak client_credentials".to_owned(),
                        ),
                    );
                },
            };
            let secret = match &credentials.client_secret {
                Some(s) => s,
                None => {
                    return Err(AppError::Authentication("client_secret is not set".to_owned()));
                },
            };
            let mut params: Vec<(String, String)> = Vec::new();
            params.push(param("grant_type", "client_credentials"));
            params.push(param("client_secret", secret.as_str()));
            match effective_client_id(&mode, credentials) {
                Some(id) => {
                    params.push(param("client_id", id.as_str()));
                },
                None => {},
            }
            proof {
                assert(params_view(params@) =~= (seq![
                    ("grant_type"@, "client_credentials"@),
                    ("client_secret"@, credentials.client_secret->0@),
                ] + match credentials.client_id {
                    Some(id) => seq![("client_id"@, id@)],
                    None => Seq::empty(),
                }));
            }
            Ok(LoginPlan::PostForm { endpoint: endpoint.to_owned(), params })
        },
        AuthMode::KeycloakRopc => {
            let endpoint = match auth_url {
                Some(u) => u,
                None => {
                    return Err(AppError::Configuration("auth_url is required for Keycloak ROPC".to_owned()));
                },
            };
            let client_id = match effective_client_id(&mode, credentials) {
                Some(id) => id,
                None => "codemie-sdk".to_owned(),
            };
            let email = match &credentials.email {
                Some(e) => e,
                None => {
                    return Err(AppError::Authentication("email is not set for Keycloak ROPC".to_owned()));
                },
            };
            let password = match &credentials.password {
                Some(p) => p,
                None => {
                    return Err(
                        AppError::Authentication("password is not set for Keycloak ROPC".to_owned()),
                    );
                },
            };
            let mut params: Vec<(String, String)> = Vec::new();
            params.push(param("grant_type", "password"));
            params.push(param("client_id", client_id.as_str()));
            params.push(param("username", email.as_str()));
            params.push(param("password", password.as_str()));
            proof {
                assert(params_view(params@) =~= seq![
                    ("grant_type"@, "password"@),
                    ("client_id"@, match credentials.client_id {
                        Some(id) => id@,
                        None => default_client_id(),
                    }),
                    ("username"@, credentials.email->0@),
                    ("password"@, credentials.password->0@),
                ]);
            }
            Ok(LoginPlan::PostForm { endpoint: endpoint.to_owned(), params })
        },
        AuthMode::LocalAuth => {
            let base = match url {
                Some(u) => u,
                None => {
                    return Err(AppError::Configuration("url is required for local-auth login".to_owned()));
                },
            };
            let email = match &credentials.email {
                Some(e) => e,
                None => {
                    return Err(AppError::Authentication("email is not set for local-auth".to_owned()));
                },
            };
            let password = match &credentials.password {
                Some(p) => p,
                None => {
                    return Err(AppError::Authentication("password is not set for local-auth".to_owned()));
                },
            };
            let mut endpoint = crate::config::trim_trailing_slashes(base);
            endpoint.append("/v1/local-auth/login");
            Ok(LoginPlan::PostJson { endpoint, email: email.clone(), password: password.clone() })
        },
    }
}

/// The client-credentials grant sends the configured client ID, when one
/// is configured, beside the client secret.
pub proof fn law_client_credentials_send_client_id(c: Credentials, url: Option<Seq<char>>, auth_url: Option<Seq<char>>, plan: LoginPlan)
    requires
        planned(AuthMode::KeycloakClientCredentials, c, url, auth_url, plan),
    ensures
        exists|i: int|
            0 <= i < params_view(plan->PostForm_params@).len() && #[trigger] params_view(plan->PostForm_params@)[i]
                == ("client_secret"@, c.client_secret->0@),
        c.client_id is Some ==> exists|i: int|
            0 <= i < params_view(plan->PostForm_params@).len() && #[trigger] params_view(plan->PostForm_params@)[i]
                == ("client_id"@, c.client_id->0@),
{
    let v = params_view(plan->PostForm_params@);
    assert(v[1] == ("client_secret"@, c.client_secret->0@));
    if c.client_id is Some {
        assert(v[2] == ("client_id"@, c.client_id->0@));
    }
}

/// Which flow the credentials select: a bearer token wins over everything
/// else; otherwise a client secret with an identity provider selects the
/// client-credentials grant; email and password without a client secret
/// select the password grant with a provider and local login without one;
/// the password-based flows are never selected while a client secret is
/// configured.
pub proof fn law_auth_mode_selection(c: Credentials, auth_url_configured: bool)
    ensures
        c.bearer_token is Some ==> selected_mode(c, auth_url_configured) == Some(AuthMode::BearerToken),
        c.bearer_token is None && c.client_secret is Some && auth_url_configured ==> selected_mode(
            c,
            auth_url_configured,
        ) == Some(AuthMode::KeycloakClientCredentials),
        c.bearer_token is None && c.client_secret is None && c.email is Some && c.password is Some
            ==> selected_mode(c, auth_url_configured) == Some(
            if auth_url_configured {
                AuthMode::KeycloakRopc
            } else {
                AuthMode::LocalAuth
            },
        ),
        selected_mode(c, auth_url_configured) == Some(AuthMode::KeycloakRopc) || selected_mode(
            c,
            auth_url_configured,
        ) == Some(AuthMode::LocalAuth) ==> c.client_secret is None && c.email is Some && c.password is Some,
        c.bearer_token is None && c.client_secret is None && (c.email is None || c.password is None)
            ==> selected_mode(c, auth_url_configured) is None,
{
}

/// The password grant posts, to the identity provider, the grant type
/// `password`, the email as user name, the password, and the configured
/// client ID or, when none is configured, `codemie-sdk`.
pub proof fn law_password_grant_params(c: Credentials, url: Option<Seq<char>>, auth_url: Option<Seq<char>>, plan: LoginPlan)
    requires
        planned(AuthMode::KeycloakRopc, c, url, auth_url, plan),
    ensures
        plan is PostForm,
        plan->PostForm_endpoint@ == auth_url->0,
        ({
            let v = params_view(plan->PostForm_params@);
            &&& exists|i: int| 0 <= i < v.len() && #[trigger] v[i] == ("grant_type"@, "password"@)
            &&& exists|i: int| 0 <= i < v.len() && #[trigger] v[i] == ("username"@, c.email->0@)
            &&& exists|i: int| 0 <= i < v.len() && #[trigger] v[i] == ("password"@, c.password->0@)
            &&& exists|i: int| 0 <= i < v.len() && #[trigger] v[i] == ("client_id"@, match c.client_id {
                Some(id) => id@,
                None => "codemie-sdk"@,
            })
        }),
{
    let v = params_view(plan->PostForm_params@);
    assert(v[0] == ("grant_type"@, "password"@));
    assert(v[2] == ("username"@, c.email->0@));
    assert(v[3] == ("password"@, c.password->0@));
    assert(v[1].0 == "client_id"@);
}

/// Local login posts the email and password as JSON to the configured URL
/// followed by `/v1/local-auth/login`.
pub proof fn law_local_login_route(c: Credentials, url: Option<Seq<char>>, auth_url: Option<Seq<char>>, plan: LoginPlan)
    requires
        planned(AuthMode::LocalAuth, c, url, auth_url, plan),
    ensures
        plan is PostJson,
        plan->PostJson_email@ == c.email->0@,
        plan->PostJson_password@ == c.password->0@,
        ({
            let e = plan->PostJson_endpoint@;
            &&& e.len() >= 20
            &&& e.subrange(e.len() - 20, e.len() as int) == "/v1/local-auth/login"@
            &&& e.subrange(0, e.len() - 20) == base_url(url->0)
        }),
{
    reveal_strlit("/v1/local-auth/login");
    let e = plan->PostJson_endpoint@;
    assert(e.subrange(e.len() - 20, e.len() as int) =~= "/v1/local-auth/login"@);
    assert(e.subrange(0, e.len() - 20) =~= base_url(url->0));
}

/// The password grant never sends a client secret.
pub proof fn law_password_grant_sends_no_secret(c: Credentials, url: Option<Seq<char>>, auth_url: Option<Seq<char>>, plan: LoginPlan)
    requires
        planned(AuthMode::KeycloakRopc, c, url, auth_url, plan),
    ensures
        forall|i: int| 0 <= i < params_view(plan->PostForm_params@).len() ==> params_view(plan->PostForm_params@)[i].0 != "client_secret"@,
{
    reveal_strlit("client_secret");
    reveal_strlit("grant_type");
    reveal_strlit("client_id");
    reveal_strlit("username");
    reveal_strlit("password");
    let v = params_view(plan->PostForm_params@);
    assert forall|i: int| 0 <= i < v.len() implies v[i].0 != "client_secret"@ by {
        assert(v[i].0[0] != "client_secret"@[0] || v[i].0.len() != "client_secret"@.len());
    }
}

/// Classifies the status of an authentication response: a redirect is not
/// followed and any other non-success is an authentication failure.
pub fn check_token_status(code: u16) -> (r: Result<(), AppError>)
    ensures
        r is Ok <==> (200 <= code <= 299),
        r is Err ==> r->Err_0 is Authentication,
        (300 <= code <= 399) ==> (r is Err && r->Err_0->Authentication_0@
            == "authentication endpoint returned a redirect"@),
{
    if 300 <= code && code <= 399 {
        return Err(AppError::Authentication("authentication endpoint returned a redirect".to_owned()));
    }
    if !(200 <= code && code <= 299) {
        return Err(AppError::Authentication("authentication request failed".to_owned()));
    }
    Ok(())
}

/// The `access_token` of a token response, if it is a string.
pub open spec fn access_token_of(v: JsonValue) -> Option<Seq<char>> {
    match v {
        JsonValue::Object(members) => match member_value(members@, "access_token"@) {
            Some(JsonValue::String(s)) => Some(s@),
            _ => None,
        },
        _ => None,
    }
}

/// Reads the token of a decoded token response: nesting beyond 64 levels
/// is incompatible; a response without a string `access_token` breaks the
/// token contract.
pub fn token_from_response(value: &JsonValue) -> (r: Result<String, AppError>)
    requires
        json_depth(*value) <= usize::MAX,
    ensures
        json_depth(*value) > 64 ==> (r is Err && r->Err_0 is ApiIncompatible),
        json_depth(*value) <= 64 ==> match access_token_of(*value) {
            Some(t) => r is Ok && r->Ok_0@ == t,
            None => r == Err::<String, AppError>(AppError::AuthLayer(AuthError::TokenResponse)),
        },
{
    if json_max_depth(value, 0) > 64 {
        return Err(
            AppError::ApiIncompatible("authentication response JSON nesting exceeds 64 levels".to_owned()),
        );
    }
    match value.get("access_token") {
        Some(JsonValue::String(token)) => Ok(token.clone()),
        _ => Err(AppError::AuthLayer(AuthError::TokenResponse)),
    }
}

} // verus!
