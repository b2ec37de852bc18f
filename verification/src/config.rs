use vstd::prelude::*;

use crate::error::{AppError, ConfigError};
use crate::text::{contains_control, has_control, same_text};

verus! {

/// The parts of a parsed URL that the origin policy reads: scheme, user
/// name, password, fragment, path and the whole serialization.
#[derive(Debug, Clone)]
pub struct UrlParts {
    pub scheme: String,
    pub username: String,
    pub password: Option<String>,
    pub fragment: Option<String>,
    pub path: String,
    pub serialized: String,
}

/// The host of a parsed URL.
#[derive(Debug, Clone, Copy)]
pub enum UrlHost {
    /// A domain name (its text is kept by `UrlHostName`).
    Domain,
    /// An IPv4 address, by octets.
    Ipv4([u8; 4]),
    /// An IPv6 address, by 16-bit segments.
    Ipv6([u16; 8]),
}

/// A text option as text.
pub open spec fn opt_view(o: Option<String>) -> Option<Seq<char>> {
    match o {
        Some(s) => Some(s@),
        None => None,
    }
}

/// The texts of the parts, in order.
pub open spec fn parts_view(p: UrlParts) -> (Seq<char>, Seq<char>, Option<Seq<char>>, Option<Seq<char>>, Seq<char>, Seq<char>) {
    (p.scheme@, p.username@, opt_view(p.password), opt_view(p.fragment), p.path@, p.serialized@)
}

/// The parts that `url::Url::parse` gives of a text (scheme, user name,
/// password, fragment, path, serialization), or `None` where it refuses it.
pub uninterp spec fn url_components(raw: Seq<char>) -> Option<(Seq<char>, Seq<char>, Option<Seq<char>>, Option<Seq<char>>, Seq<char>, Seq<char>)>;

/// The host that `url::Url::parse` gives of a text, with the domain's text
/// (empty for an address), or `None` where it refuses the text or the URL
/// has no host.
pub uninterp spec fn url_host(raw: Seq<char>) -> Option<(UrlHost, Seq<char>)>;

/// `url::Url::parse`, then its `scheme`, `username`, `password`,
/// `fragment`, `path` and `as_str`: the result is the named components of
/// the text.
#[verifier::external_body]
fn parse_url_parts(raw: &str) -> (r: Option<UrlParts>)
    ensures
        match url_components(raw@) {
            None => r is None,
            Some(v) => r is Some && parts_view(r->0) == v,
        },
{
    let parsed = match url::Url::parse(raw) {
        Ok(u) => u,
        Err(_) => return None,
    };
    Some(UrlParts {
        scheme: parsed.scheme().to_owned(),
        username: parsed.username().to_owned(),
        password: parsed.password().map(str::to_owned),
        fragment: parsed.fragment().map(str::to_owned),
        path: parsed.path().to_owned(),
        serialized: parsed.as_str().to_owned(),
    })
}

/// `url::Url::parse`, then `host`: the variant of the host with the domain
/// text, the IPv4 octets or the IPv6 segments; the result is the named host
/// of the text.
#[verifier::external_body]
fn parse_url_host(raw: &str) -> (r: Option<(UrlHost, String)>)
    ensures
        match url_host(raw@) {
            None => r is None,
            Some(v) => r is Some && host_pair(r->0) == v,
        },
{
    let parsed = match url::Url::parse(raw) {
        Ok(u) => u,
        Err(_) => return None,
    };
    match parsed.host() {
        Some(url::Host::Domain(d)) => Some((UrlHost::Domain, d.to_owned())),
        Some(url::Host::Ipv4(a)) => Some((UrlHost::Ipv4(a.octets()), String::new())),
        Some(url::Host::Ipv6(a)) => Some((UrlHost::Ipv6(a.segments()), String::new())),
        None => None,
    }
}

/// A parsed host with its domain text as text.
pub open spec fn host_pair(p: (UrlHost, String)) -> (UrlHost, Seq<char>) {
    (p.0, p.1@)
}

/// The scheme of parsed URL parts.
pub open spec fn scheme_of(parts: (Seq<char>, Seq<char>, Option<Seq<char>>, Option<Seq<char>>, Seq<char>, Seq<char>)) -> Seq<char> {
    parts.0
}

/// Whether a host is missing or an empty domain.
pub open spec fn host_missing(host: Option<(UrlHost, Seq<char>)>) -> bool {
    match host {
        None => true,
        Some((h, name)) => h == UrlHost::Domain && name.len() == 0,
    }
}

/// Whether the text holds a C0 or C1 control character.
pub fn reject_controls(raw: &str) -> (r: Result<(), ConfigError>)
    ensures
        r is Ok <==> !has_control(raw@),
        r is Err ==> r->Err_0 == ConfigError::ControlCharacters,
{
    if contains_control(raw) {
        Err(ConfigError::ControlCharacters)
    } else {
        Ok(())
    }
}

/// A loopback host: `localhost`, an IPv4 address whose first octet is 127, or `::1`.
pub open spec fn loopback_host(host: Option<(UrlHost, Seq<char>)>) -> bool {
    match host {
        Some((UrlHost::Domain, name)) => name == "localhost"@,
        Some((UrlHost::Ipv4(octets), _)) => octets@[0] == 127,
        Some((UrlHost::Ipv6(segments), _)) => segments@ == seq![0u16, 0u16, 0u16, 0u16, 0u16, 0u16, 0u16, 1u16],
        None => false,
    }
}

/// Whether a parsed host is a loopback destination.
pub fn is_loopback_http(host: &Option<(UrlHost, String)>) -> (r: bool)
    ensures
        r == loopback_host(match host {
            Some((h, name)) => Some((*h, name@)),
            None => None,
        }),
{
    match host {
        Some((UrlHost::Domain, name)) => same_text(name.as_str(), "localhost"),
        Some((UrlHost::Ipv4(octets), _)) => octets[0] == 127,
        Some((UrlHost::Ipv6(segments), _)) => {
            let r = segments[0] == 0 && segments[1] == 0 && segments[2] == 0 && segments[3] == 0
                && segments[4] == 0 && segments[5] == 0 && segments[6] == 0 && segments[7] == 1;
            proof {
                if r {
                    assert(segments@ =~= seq![0u16, 0u16, 0u16, 0u16, 0u16, 0u16, 0u16, 1u16]);
                }
            }
            r
        },
        None => false,
    }
}

/// The first origin rule that a parsed URL breaks: the scheme is `http` or
/// `https`; no fragment; no user information; a non-empty host; and `http`
/// only towards a loopback host.
pub open spec fn origin_violation(
    parts: (Seq<char>, Seq<char>, Option<Seq<char>>, Option<Seq<char>>, Seq<char>, Seq<char>),
    host: Option<(UrlHost, Seq<char>)>,
) -> Option<Seq<char>> {
    let (scheme, username, password, fragment, _, _) = parts;
    if scheme != "http"@ && scheme != "https"@ {
        Some("scheme must be http or https"@)
    } else if fragment is Some {
        Some("fragment is not permitted"@)
    } else if username.len() > 0 || password is Some {
        Some("userinfo is not permitted"@)
    } else if host_missing(host) {
        Some("host must be non-empty"@)
    } else if scheme == "http"@ && !loopback_host(host) {
        Some("http is permitted only for loopback destinations"@)
    } else {
        None
    }
}

/// A validated CodeMie API origin.
#[derive(Debug, Clone)]
pub struct ValidatedUrl {
    parts: UrlParts,
}

/// The outcome of validating a text as an API origin.
pub enum UrlCheck {
    Valid,
    ControlCharacters,
    Syntax,
    Policy(Seq<char>),
}

/// What validating a text as an API origin gives: control characters,
/// then syntax, then the origin rules.
pub open spec fn url_validation(raw: Seq<char>) -> UrlCheck {
    if has_control(raw) {
        UrlCheck::ControlCharacters
    } else {
        match url_components(raw) {
            None => UrlCheck::Syntax,
            Some(parts) => match origin_violation(parts, url_host(raw)) {
                Some(rule) => UrlCheck::Policy(rule),
                None => UrlCheck::Valid,
            },
        }
    }
}

/// Whether an error is the one an outcome reports.
pub open spec fn reports(e: ConfigError, v: UrlCheck) -> bool {
    match v {
        UrlCheck::Valid => false,
        UrlCheck::ControlCharacters => e == ConfigError::ControlCharacters,
        UrlCheck::Syntax => e == ConfigError::Syntax,
        UrlCheck::Policy(rule) => e is Policy && e->Policy_0@ == rule,
    }
}

impl ValidatedUrl {
    /// The parsed parts.
    pub closed spec fn parts_spec(&self) -> (Seq<char>, Seq<char>, Option<Seq<char>>, Option<Seq<char>>, Seq<char>, Seq<char>) {
        parts_view(self.parts)
    }

    /// Validates a text as an API origin.
    pub fn try_from(raw: &str) -> (r: Result<ValidatedUrl, ConfigError>)
        ensures
            url_validation(raw@) is Valid ==> (r is Ok && r->Ok_0.parts_spec() == url_components(
                raw@,
            )->0),
            !(url_validation(raw@) is Valid) ==> (r is Err && reports(r->Err_0, url_validation(raw@))),
    {
        reject_controls(raw)?;
        let parts = match parse_url_parts(raw) {
            Some(p) => p,
            None => {
                return Err(ConfigError::Syntax);
            },
        };
        let host = parse_url_host(raw);
        let is_http = same_text(parts.scheme.as_str(), "http");
        let is_https = same_text(parts.scheme.as_str(), "https");
        if !is_http && !is_https {
            return Err(ConfigError::Policy("scheme must be http or https"));
        }
        if parts.fragment.is_some() {
            return Err(ConfigError::Policy("fragment is not permitted"));
        }
        if !parts.username.as_str().is_empty() || parts.password.is_some() {
            return Err(ConfigError::Policy("userinfo is not permitted"));
        }
        let host_missing = match &host {
            None => true,
            Some((UrlHost::Domain, name)) => name.as_str().is_empty(),
            Some(_) => false,
        };
        if host_missing {
            return Err(ConfigError::Policy("host must be non-empty"));
        }
        if is_http && !is_loopback_http(&host) {
            return Err(ConfigError::Policy("http is permitted only for loopback destinations"));
        }
        proof {
            reveal_strlit("http");
            reveal_strlit("https");
        }
        Ok(ValidatedUrl { parts })
    }

    /// The serialized URL.
    pub fn as_str(&self) -> (s: &str)
        ensures
            s@ == self.parts_spec().5,
    {
        self.parts.serialized.as_str()
    }

    /// The URL's scheme.
    pub fn scheme(&self) -> (s: &str)
        ensures
            s@ == self.parts_spec().0,
    {
        self.parts.scheme.as_str()
    }

    /// The path and query of a request: the base path without its trailing
    /// slashes, one `/`, the route path without its leading slashes; the
    /// query is what follows the route's first `?`.
    pub fn join_api_path(&self, route: &str) -> (r: (String, Option<String>))
        ensures
            r.0@ == joined_path(self.parts_spec().4, split_query(route@).0),
            opt_view(r.1) == split_query(route@).1,
    {
        let (path, query) = split_at_query(route);
        let base = trim_trailing_slashes(self.parts.path.as_str());
        let request = trim_leading_slashes(path.as_str());
        let mut joined = String::new();
        if !base.as_str().is_empty() {
            joined.append(base.as_str());
        }
        joined.append("/");
        joined.append(request.as_str());
        proof {
            assert(joined@ =~= joined_path(self.parts_spec().4, split_query(route@).0));
        }
        (joined, query)
    }
}

/// The index of the first `c` in `s`, if any.
pub open spec fn first_index(s: Seq<char>, c: char) -> Option<int>
    decreases s.len(),
{
    if s.len() == 0 {
        None
    } else if s[0] == c {
        Some(0)
    } else {
        match first_index(s.drop_first(), c) {
            Some(i) => Some(i + 1),
            None => None,
        }
    }
}

/// A route split at its first `?` into path and query.
pub open spec fn split_query(route: Seq<char>) -> (Seq<char>, Option<Seq<char>>) {
    match first_index(route, '?') {
        Some(i) => (route.take(i), Some(route.skip(i + 1))),
        None => (route, None),
    }
}

/// `s` without its trailing `/` characters.
pub open spec fn without_trailing_slashes(s: Seq<char>) -> Seq<char>
    decreases s.len(),
{
    if s.len() > 0 && s.last() == '/' {
        without_trailing_slashes(s.drop_last())
    } else {
        s
    }
}

/// `s` without its leading `/` characters.
pub open spec fn without_leading_slashes(s: Seq<char>) -> Seq<char>
    decreases s.len(),
{
    if s.len() > 0 && s[0] == '/' {
        without_leading_slashes(s.drop_first())
    } else {
        s
    }
}

/// The joined request path.
pub open spec fn joined_path(base: Seq<char>, route_path: Seq<char>) -> Seq<char> {
    without_trailing_slashes(base) + "/"@ + without_leading_slashes(route_path)
}

/// Splits a route at its first `?`.
fn split_at_query(route: &str) -> (r: (String, Option<String>))
    ensures
        r.0@ == split_query(route@).0,
        opt_view(r.1) == split_query(route@).1,
{
    let chars = crate::text::text_chars(route);
    let mut index: usize = 0;
    while index < chars.len() && chars[index] != '?'
        invariant
            0 <= index <= chars@.len(),
            chars@ == route@,
            forall|j: int| 0 <= j < index ==> chars@[j] != '?',
        decreases chars.len() - index,
    {
        index = index + 1;
    }
    proof {
        lemma_first_index(route@, '?', index as int);
    }
    let path = route.substring_char(0, index).to_owned();
    if index == chars.len() {
        proof {
            assert(route@.subrange(0, index as int) =~= route@);
        }
        return (path, None);
    }
    let query = route.substring_char(index + 1, chars.len()).to_owned();
    proof {
        assert(route@.skip(index + 1) =~= route@.subrange(index + 1, route@.len() as int));
        assert(route@.take(index as int) =~= route@.subrange(0, index as int));
    }
    (path, Some(query))
}

/// Where `first_index` points.
proof fn lemma_first_index(s: Seq<char>, c: char, n: int)
    requires
        0 <= n <= s.len(),
        forall|j: int| 0 <= j < n ==> s[j] != c,
        n < s.len() ==> s[n] == c,
    ensures
        n < s.len() ==> first_index(s, c) == Some(n),
        n == s.len() ==> first_index(s, c) is None,
    decreases n,
{
    if n > 0 {
        lemma_first_index(s.drop_first(), c, n - 1);
    } else if s.len() > 0 {
    }
}

/// `s` without its trailing slashes.
pub(crate) fn trim_trailing_slashes(s: &str) -> (r: String)
    ensures
        r@ == without_trailing_slashes(s@),
{
    let chars = crate::text::text_chars(s);
    let mut end: usize = chars.len();
    proof {
        assert(s@.take(s@.len() as int) =~= s@);
    }
    while end > 0 && chars[end - 1] == '/'
        invariant
            0 <= end <= chars@.len(),
            chars@ == s@,
            without_trailing_slashes(s@) == without_trailing_slashes(s@.take(end as int)),
        decreases end,
    {
        proof {
            assert(s@.take(end as int).drop_last() =~= s@.take(end - 1));
        }
        end = end - 1;
    }
    proof {
        assert(s@.take(end as int) =~= s@.subrange(0, end as int));
        assert(s@.take(s@.len() as int) =~= s@);
    }
    s.substring_char(0, end).to_owned()
}

/// `s` without its leading slashes.
fn trim_leading_slashes(s: &str) -> (r: String)
    ensures
        r@ == without_leading_slashes(s@),
{
    let chars = crate::text::text_chars(s);
    let mut start: usize = 0;
    proof {
        assert(s@.skip(0) =~= s@);
    }
    while start < chars.len() && chars[start] == '/'
        invariant
            0 <= start <= chars@.len(),
            chars@ == s@,
            without_leading_slashes(s@) == without_leading_slashes(s@.skip(start as int)),
        decreases chars.len() - start,
    {
        proof {
            assert(s@.skip(start as int).drop_first() =~= s@.skip(start + 1));
        }
        start = start + 1;
    }
    proof {
        assert(s@.skip(start as int) =~= s@.subrange(start as int, s@.len() as int));
        assert(s@.skip(0) =~= s@);
    }
    s.substring_char(start, chars.len()).to_owned()
}

/// A validated HTTPS identity-provider endpoint.
#[derive(Debug, Clone)]
pub struct ValidatedAuthUrl {
    parts: UrlParts,
}

impl ValidatedAuthUrl {
    /// The parsed parts.
    pub closed spec fn parts_spec(&self) -> (Seq<char>, Seq<char>, Option<Seq<char>>, Option<Seq<char>>, Seq<char>, Seq<char>) {
        parts_view(self.parts)
    }

    /// Validates a text as an API origin that uses `https`.
    pub fn try_from(raw: &str) -> (r: Result<ValidatedAuthUrl, ConfigError>)
        ensures
            !(url_validation(raw@) is Valid) ==> (r is Err && reports(r->Err_0, url_validation(raw@))),
            url_validation(raw@) is Valid ==> (if scheme_of(url_components(raw@)->0) == "https"@ {
                r is Ok && r->Ok_0.parts_spec() == url_components(raw@)->0
            } else {
                r is Err && r->Err_0 is Policy && r->Err_0->Policy_0@
                    == "authentication endpoint must use https"@
            }),
    {
        let validated = ValidatedUrl::try_from(raw)?;
        if !same_text(validated.parts.scheme.as_str(), "https") {
            return Err(ConfigError::Policy("authentication endpoint must use https"));
        }
        Ok(ValidatedAuthUrl { parts: validated.parts })
    }

    /// The serialized URL.
    pub fn as_str(&self) -> (s: &str)
        ensures
            s@ == self.parts_spec().5,
    {
        self.parts.serialized.as_str()
    }
}

/// The endpoints named on the command line or in the environment.
pub struct ResolveConfigArgs {
    pub flag_url: Option<String>,
    pub flag_auth_url: Option<String>,
}

/// The validated endpoints.
pub struct ResolvedConfig {
    pub url: Option<ValidatedUrl>,
    pub auth_url: Option<ValidatedAuthUrl>,
}

/// Validates the configured endpoints; the first invalid one is a
/// configuration error.
pub fn resolve_config(args: &ResolveConfigArgs) -> (r: Result<ResolvedConfig, AppError>)
    ensures
        r is Ok <==> ((args.flag_url is Some ==> url_validation(args.flag_url->0@) is Valid) && (
        args.flag_auth_url is Some ==> (url_validation(args.flag_auth_url->0@) is Valid && scheme_of(url_components(
            args.flag_auth_url->0@,
        )->0) == "https"@))),
        r is Err ==> r->Err_0 is ConfigurationLayer,
        r is Ok ==> (r->Ok_0.url is Some <==> args.flag_url is Some) && (r->Ok_0.auth_url is Some
            <==> args.flag_auth_url is Some),
{
    let url = match &args.flag_url {
        Some(raw) => match ValidatedUrl::try_from(raw.as_str()) {
            Ok(v) => Some(v),
            Err(e) => {
                return Err(AppError::ConfigurationLayer(e));
            },
        },
        None => None,
    };
    let auth_url = match &args.flag_auth_url {
        Some(raw) => match ValidatedAuthUrl::try_from(raw.as_str()) {
            Ok(v) => Some(v),
            Err(e) => {
                return Err(AppError::ConfigurationLayer(e));
            },
        },
        None => None,
    };
    Ok(ResolvedConfig { url, auth_url })
}

} // verus!
