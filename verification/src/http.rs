use vstd::prelude::*;

use crate::error::{AppError, TransportError};
use crate::json::{holds_char, nat_decimal};
use crate::json_value::{JsonValue, json_depth, json_max_depth};
use crate::text::{decimal_text, has_control, same_text};
use vstd::utf8::encode_utf8;

verus! {

/// Maximum response body size: 8 MiB.
pub const RESPONSE_BODY_LIMIT: usize = 8_388_608;

/// Per-request timeout in seconds.
pub const REQUEST_TIMEOUT_SECS: u64 = 60;

/// Maximum GET attempts (the first attempt and up to two retries).
pub const GET_MAX_RETRIES: u32 = 3;

/// Maximum JSON nesting depth accepted in a response.
pub const JSON_MAX_DEPTH: usize = 64;

/// Base delay between GET attempts, in milliseconds (attempt times base).
pub const RETRY_BASE_JITTER_MS: u64 = 200;

// ---------------------------------------------------------------------------
// Routes
// ---------------------------------------------------------------------------

/// An API route: starts with one `/` (not `//`), holds no `#` and no control
/// character.
pub open spec fn valid_api_route(s: Seq<char>) -> bool {
    &&& s.len() > 0
    &&& s[0] == '/'
    &&& !(s.len() > 1 && s[1] == '/')
    &&& !holds_char(s, '#')
    &&& !has_control(s)
}

/// A validated API route.
#[derive(Debug, Clone)]
pub struct ApiRoute(String);

impl ApiRoute {
    /// The route text.
    pub closed spec fn text(&self) -> Seq<char> {
        self.0@
    }

    /// Accepts exactly the routes of `valid_api_route`.
    pub fn try_from(value: &str) -> (r: Result<ApiRoute, TransportError>)
        ensures
            r is Ok <==> valid_api_route(value@),
            r is Ok ==> r->Ok_0.text() == value@,
            r is Err ==> r->Err_0 == TransportError::InvalidRoute,
    {
        let mut index: usize = 0;
        let mut first_slash = false;
        let mut second_slash = false;
        let mut forbidden = false;
        for c in it: value.chars()
            invariant
                it.seq() == value@,
                index == (if it.index() < 2 {
                    it.index() as int
                } else {
                    2
                }),
                first_slash == (it.index() > 0 && value@[0] == '/'),
                second_slash == (it.index() > 1 && value@[1] == '/'),
                forbidden == (exists|i: int|
                    0 <= i < it.index() && (value@[i] == '#' || crate::text::is_control_char(
                        #[trigger] value@[i],
                    ))),
        {
            if index == 0 {
                first_slash = c == '/';
            } else if index == 1 {
                second_slash = c == '/';
            }
            let code = c as u32;
            if c == '#' || code <= 0x1f || (0x7f <= code && code <= 0x9f) {
                forbidden = true;
            }
            if index < 2 {
                index = index + 1;
            }
        }
        if first_slash && !second_slash && !forbidden {
            Ok(ApiRoute(value.to_owned()))
        } else {
            Err(TransportError::InvalidRoute)
        }
    }

    /// The route text.
    pub fn as_str(&self) -> (s: &str)
        ensures
            s@ == self.text(),
    {
        self.0.as_str()
    }
}

// ---------------------------------------------------------------------------
// Status classification
// ---------------------------------------------------------------------------

/// Whether a status is a success (2xx).
pub open spec fn is_success_status(code: u16) -> bool {
    200 <= code <= 299
}

/// The failure a non-success status stands for: 401 is an authentication
/// failure, 403 an authorization failure, a redirect on a modifying request
/// an authentication failure, 400/404/409/422 on a modifying request a
/// server rejection, and anything else an API incompatibility.
pub open spec fn status_error(code: u16, is_modifying: bool, e: AppError) -> bool {
    if code == 401 {
        e is Authentication && e->Authentication_0@ == "API request unauthorized"@
    } else if code == 403 {
        e is Authorization && e->Authorization_0@ == "API request forbidden"@
    } else if 300 <= code <= 399 && is_modifying {
        e is Authentication && e->Authentication_0@
            == "API endpoint returned redirect on modifying request"@
    } else if is_modifying && (code == 400 || code == 404 || code == 409 || code == 422) {
        e is ServerRejected && e->ServerRejected_0@ == "API rejected write with status "@
            + nat_decimal(code as nat)
    } else {
        e is ApiIncompatible && e->ApiIncompatible_0@ == "API returned status "@ + nat_decimal(
            code as nat,
        )
    }
}

/// A modifying request answered 400, 404, 409 or 422 is a server
/// rejection, which exits with code 1; the same statuses on a read are
/// not rejections.
pub proof fn law_write_rejections(code: u16, e: AppError, read: AppError)
    requires
        code == 400 || code == 404 || code == 409 || code == 422,
        status_error(code, true, e),
        status_error(code, false, read),
    ensures
        e is ServerRejected,
        crate::error::exit_code_of(e) == 1,
        !(read is ServerRejected),
{
}

/// How each non-success status is classified: 401 is an authentication
/// failure and 403 an authorization failure on any request; a redirect on
/// a modifying request is an authentication failure; on a read, every
/// other status (a redirect, 400, 404, 409, 422, 429, a 5xx) is an API
/// incompatibility; on a write, a 5xx is an API incompatibility. None of
/// these exits with code 1 but the write rejections.
pub proof fn law_status_classes(code: u16, is_modifying: bool, e: AppError)
    requires
        status_error(code, is_modifying, e),
    ensures
        code == 401 ==> e is Authentication,
        code == 403 ==> e is Authorization,
        300 <= code && code <= 399 && is_modifying ==> e is Authentication,
        !is_modifying && code != 401 && code != 403 ==> e is ApiIncompatible,
        is_modifying && 500 <= code && code <= 599 ==> e is ApiIncompatible,
        crate::error::exit_code_of(e) == 1 <==> e is ServerRejected,
{
}

/// Classifies a non-success status into the error it stands for.
pub fn classify_error_status(code: u16, is_modifying: bool) -> (e: AppError)
    ensures
        status_error(code, is_modifying, e),
{
    if code == 401 {
        return AppError::Authentication("API request unauthorized".to_owned());
    }
    if code == 403 {
        return AppError::Authorization("API request forbidden".to_owned());
    }
    if 300 <= code && code <= 399 && is_modifying {
        return AppError::Authentication(
            "API endpoint returned redirect on modifying request".to_owned(),
        );
    }
    if is_modifying && (code == 400 || code == 404 || code == 409 || code == 422) {
        let mut message = String::from_str("API rejected write with status ");
        message.append(decimal_text(code as u64).as_str());
        return AppError::ServerRejected(message);
    }
    let mut message = String::from_str("API returned status ");
    message.append(decimal_text(code as u64).as_str());
    AppError::ApiIncompatible(message)
}

// ---------------------------------------------------------------------------
// Read retries
// ---------------------------------------------------------------------------

/// What one GET attempt produced.
#[derive(Debug, Clone, Copy, PartialEq, Eq, Structural)]
pub enum AttemptOutcome {
    /// The request could not be sent or answered.
    SendFailed,
    /// The server answered with this status.
    Responded(u16),
}

/// What the reader does after one GET attempt.
#[derive(Debug, Clone, PartialEq, Eq)]
pub enum GetDecision {
    /// Wait `attempt` times the base delay, then try again; the error is the
    /// one reported if no attempt is left.
    Retry(AppError),
    /// Stop with this error.
    Fail(AppError),
    /// The entity does not exist (an optional read answered 404).
    NotFound,
    /// Read and decode the body.
    ReadBody,
}

/// The error of a GET whose request could not be sent.
pub open spec fn read_dispatch_error(e: AppError) -> bool {
    e == AppError::TransportLayer(TransportError::ReadDispatch)
}

/// What follows GET attempt number `attempt`: a send failure, a 5xx or a
/// 429 is retried with its error while attempts are left and otherwise
/// ends the read with it; 404 on an optional read means absent; any other
/// non-success status fails at once; success reads the body.
pub open spec fn get_decided(attempt: u32, outcome: AttemptOutcome, optional: bool, d: GetDecision) -> bool {
    let last = attempt + 1 >= GET_MAX_RETRIES;
    match outcome {
        AttemptOutcome::SendFailed => if last {
            d is Fail && read_dispatch_error(d->Fail_0)
        } else {
            d is Retry && read_dispatch_error(d->Retry_0)
        },
        AttemptOutcome::Responded(code) => if optional && code == 404 {
            d is NotFound
        } else if (500 <= code <= 599) || code == 429 {
            if last {
                d is Fail && status_error(code, false, d->Fail_0)
            } else {
                d is Retry && status_error(code, false, d->Retry_0)
            }
        } else if !is_success_status(code) {
            d is Fail && status_error(code, false, d->Fail_0)
        } else {
            d is ReadBody
        },
    }
}

/// A read is tried three times at most: the first two attempts that fail
/// to send or are answered with a 5xx or a 429 are retried, and the third
/// such attempt fails with the same error; any other failure status (a 4xx
/// but 429, or 404 on a required read) fails at once, 404 on an optional
/// read means absent, and a 2xx reads the body.
pub proof fn law_get_retries(attempt: u32, outcome: AttemptOutcome, optional: bool, d: GetDecision)
    requires
        attempt < GET_MAX_RETRIES,
        get_decided(attempt, outcome, optional, d),
    ensures
        GET_MAX_RETRIES == 3,
        outcome is SendFailed ==> (attempt < 2 <==> d is Retry) && (attempt == 2 <==> d is Fail),
        outcome matches AttemptOutcome::Responded(code) && ((500 <= code && code <= 599) || code == 429)
            ==> (attempt < 2 <==> d is Retry) && (attempt == 2 <==> d is Fail),
        outcome matches AttemptOutcome::Responded(code) && 400 <= code && code <= 499 && code != 429
            && !(optional && code == 404) ==> d is Fail,
        outcome matches AttemptOutcome::Responded(code) && code == 404 && optional ==> d is NotFound,
        outcome matches AttemptOutcome::Responded(code) && 200 <= code && code <= 299 ==> d is ReadBody,
        d is Retry ==> !(d->Retry_0 is ServerRejected),
{
}

/// Decides what follows GET attempt number `attempt` (zero-based): a send
/// failure, a 5xx or a 429 is retried while attempts are left and otherwise
/// ends the read with its error; 404 on an optional read means absent; any
/// other non-success status fails at once; success reads the body.
pub fn decide_get_attempt(attempt: u32, outcome: AttemptOutcome, optional: bool) -> (d: GetDecision)
    requires
        attempt < GET_MAX_RETRIES,
    ensures
        get_decided(attempt, outcome, optional, d),
{
    let last = attempt + 1 >= GET_MAX_RETRIES;
    match outcome {
        AttemptOutcome::SendFailed => {
            let error = AppError::TransportLayer(TransportError::ReadDispatch);
            if last {
                GetDecision::Fail(error)
            } else {
                GetDecision::Retry(error)
            }
        },
        AttemptOutcome::Responded(code) => {
            if optional && code == 404 {
                GetDecision::NotFound
            } else if (500 <= code && code <= 599) || code == 429 {
                let error = classify_error_status(code, false);
                if last {
                    GetDecision::Fail(error)
                } else {
                    GetDecision::Retry(error)
                }
            } else if !(200 <= code && code <= 299) {
                GetDecision::Fail(classify_error_status(code, false))
            } else {
                GetDecision::ReadBody
            }
        },
    }
}

/// The delay before GET attempt number `attempt`, in milliseconds.
pub fn retry_delay_ms(attempt: u32) -> (ms: u64)
    requires
        attempt < GET_MAX_RETRIES,
    ensures
        ms == attempt * RETRY_BASE_JITTER_MS,
{
    RETRY_BASE_JITTER_MS * (attempt as u64)
}

/// What a modifying request does with the answer's status.
#[derive(Debug, Clone, PartialEq, Eq)]
pub enum WriteDecision {
    /// The create collided with an existing entity (a resolution signal).
    Conflict,
    /// Stop with this error.
    Fail(AppError),
    /// Read and decode the body.
    ReadBody,
}

/// What follows the answer to a modifying request: 409 is a conflict where
/// the caller treats it as a resolution signal, any other non-success
/// status fails with its classification, and success reads the body.
pub open spec fn write_decided(code: u16, conflict_is_signal: bool, d: WriteDecision) -> bool {
    &&& conflict_is_signal && code == 409 ==> d is Conflict
    &&& !(conflict_is_signal && code == 409) && !is_success_status(code) ==> (d is Fail && status_error(
        code,
        true,
        d->Fail_0,
    ))
    &&& !(conflict_is_signal && code == 409) && is_success_status(code) ==> d is ReadBody
}

/// A write is never retried: 409 is a conflict signal only where the caller
/// asks for one and a server rejection otherwise; 400, 404 and 422 are
/// server rejections (exit code 1); 401 and 403 are authentication and
/// authorization failures; a 2xx reads the body.
pub proof fn law_write_status(code: u16, conflict_is_signal: bool, d: WriteDecision)
    requires
        write_decided(code, conflict_is_signal, d),
    ensures
        code == 409 && conflict_is_signal ==> d is Conflict,
        code == 409 && !conflict_is_signal ==> d is Fail && d->Fail_0 is ServerRejected,
        code == 400 || code == 404 || code == 422 ==> d is Fail && d->Fail_0 is ServerRejected
            && crate::error::exit_code_of(d->Fail_0) == 1,
        code == 401 ==> d is Fail && d->Fail_0 is Authentication,
        code == 403 ==> d is Fail && d->Fail_0 is Authorization,
        200 <= code && code <= 299 ==> d is ReadBody,
{
}

/// Decides what follows the answer to a modifying request: 409 is a
/// conflict where the caller treats it as a resolution signal, any other
/// non-success status fails, and success reads the body.
pub fn decide_write_status(code: u16, conflict_is_signal: bool) -> (d: WriteDecision)
    ensures
        write_decided(code, conflict_is_signal, d),
{
    if conflict_is_signal && code == 409 {
        WriteDecision::Conflict
    } else if !(200 <= code && code <= 299) {
        WriteDecision::Fail(classify_error_status(code, true))
    } else {
        WriteDecision::ReadBody
    }
}

/// Refuses a body longer than 8 MiB.
pub fn check_body_length(length: u64) -> (r: Result<(), AppError>)
    ensures
        r is Ok <==> length <= RESPONSE_BODY_LIMIT,
        r is Err ==> r->Err_0 is ApiIncompatible,
{
    if length > RESPONSE_BODY_LIMIT as u64 {
        Err(AppError::ApiIncompatible("response body exceeds 8 MiB limit".to_owned()))
    } else {
        Ok(())
    }
}

/// Refuses a response nested deeper than 64 levels.
pub fn check_json_depth(value: &JsonValue) -> (r: Result<(), AppError>)
    requires
        json_depth(*value) <= usize::MAX,
    ensures
        r is Ok <==> json_depth(*value) <= JSON_MAX_DEPTH,
        r is Err ==> r->Err_0 is ApiIncompatible,
{
    if json_max_depth(value, 0) > JSON_MAX_DEPTH {
        Err(AppError::ApiIncompatible("response JSON nesting exceeds 64 levels".to_owned()))
    } else {
        Ok(())
    }
}

// ---------------------------------------------------------------------------
// Visibility preflight
// ---------------------------------------------------------------------------

/// Sealed proof that the principal can exhaustively resolve one exact project.
#[derive(Debug, Clone)]
pub struct ExactProjectVisibility {
    effective_project: String,
    authenticated_user_id: String,
}

impl ExactProjectVisibility {
    /// The project the proof is bound to.
    pub closed spec fn project_spec(&self) -> Seq<char> {
        self.effective_project@
    }

    /// The authenticated principal.
    pub closed spec fn user_spec(&self) -> Seq<char> {
        self.authenticated_user_id@
    }

    /// Whether the proof is bound to exactly this project.
    pub fn matches(&self, effective_project: &str) -> (r: bool)
        ensures
            r == (self.project_spec() == effective_project@),
    {
        same_text(self.effective_project.as_str(), effective_project)
    }

    /// The authenticated principal's identifier.
    pub fn authenticated_user_id(&self) -> (s: &str)
        ensures
            s@ == self.user_spec(),
    {
        self.authenticated_user_id.as_str()
    }
}

/// Decides the visibility preflight from the fields read from `GET /v1/user`:
/// an empty user ID or project name is an incompatible answer; membership of
/// the effective project proves visibility; anything else leaves it unproven.
pub fn decide_visibility(user_id: String, project_names: &Vec<String>, effective_project: &str) -> (r: Result<ExactProjectVisibility, AppError>)
    ensures
        (user_id@.len() == 0 || exists|i: int|
            0 <= i < project_names.len() && #[trigger] project_names@[i]@.len() == 0) ==> (r is Err
            && r->Err_0 is ApiIncompatible),
        !(user_id@.len() == 0 || exists|i: int|
            0 <= i < project_names.len() && #[trigger] project_names@[i]@.len() == 0) ==> ({
            if exists|i: int|
                0 <= i < project_names.len() && #[trigger] project_names@[i]@ == effective_project@ {
                r is Ok && r->Ok_0.project_spec() == effective_project@ && r->Ok_0.user_spec()
                    == user_id@
            } else {
                r is Err && r->Err_0 is VisibilityUnproven
            }
        }),
{
    let mut any_empty = user_id.as_str().is_empty();
    let mut member = false;
    let mut index: usize = 0;
    while index < project_names.len()
        invariant
            0 <= index <= project_names.len(),
            any_empty == (user_id@.len() == 0 || exists|i: int|
                0 <= i < index && #[trigger] project_names@[i]@.len() == 0),
            member == (exists|i: int|
                0 <= i < index && #[trigger] project_names@[i]@ == effective_project@),
        decreases project_names.len() - index,
    {
        let name = project_names[index].as_str();
        if name.is_empty() {
            any_empty = true;
        }
        if same_text(name, effective_project) {
            member = true;
        }
        index = index + 1;
    }
    if any_empty {
        return Err(AppError::ApiIncompatible("user response contains an empty consumed string".to_owned()));
    }
    if member {
        return Ok(
            ExactProjectVisibility {
                effective_project: effective_project.to_owned(),
                authenticated_user_id: user_id,
            },
        );
    }
    Err(AppError::VisibilityUnproven("principal is not a member of the effective project".to_owned()))
}

// ---------------------------------------------------------------------------
// Query-value encoding
// ---------------------------------------------------------------------------

/// A byte that form encoding keeps: `*`, `-`, `.`, `_`, ASCII digits and letters.
pub open spec fn form_unchanged_byte(b: u8) -> bool {
    b == 42 || b == 45 || b == 46 || b == 95 || (48 <= b <= 57) || (65 <= b <= 90) || (97 <= b
        <= 122)
}

/// Upper-case hexadecimal digit of `n` (`0 <= n < 16`).
pub open spec fn upper_hex_digit(n: int) -> char {
    seq!['0', '1', '2', '3', '4', '5', '6', '7', '8', '9', 'A', 'B', 'C', 'D', 'E', 'F'][n]
}

/// How form encoding spells one byte: kept bytes as themselves, a space as
/// `+`, every other byte as `%XX` with upper-case digits.
pub open spec fn form_byte(b: u8) -> Seq<char> {
    if form_unchanged_byte(b) {
        seq![b as char]
    } else if b == 32 {
        seq!['+']
    } else {
        seq!['%', upper_hex_digit(b as int / 16), upper_hex_digit(b as int % 16)]
    }
}

/// The `application/x-www-form-urlencoded` spelling of a byte string.
pub open spec fn form_encoded(bytes: Seq<u8>) -> Seq<char>
    decreases bytes.len(),
{
    if bytes.len() == 0 {
        Seq::empty()
    } else {
        form_encoded(bytes.drop_last()) + form_byte(bytes.last())
    }
}

/// `url::form_urlencoded::byte_serialize` over the UTF-8 bytes of the text,
/// collected into one string: each byte spelled as `form_byte` says
/// (form_urlencoded's `byte_serialized_unchanged` and `percent_encode_byte`).
#[verifier::external_body]
pub fn encode_query_value(value: &str) -> (r: String)
    ensures
        r@ == form_encoded(encode_utf8(value@)),
{
    url::form_urlencoded::byte_serialize(value.as_bytes()).collect()
}

/// A form-encoded byte never spells `/`, `?`, `#` or a control character.
proof fn lemma_form_byte_safe(b: u8)
    ensures
        !holds_char(form_byte(b), '/'),
        !holds_char(form_byte(b), '?'),
        !holds_char(form_byte(b), '#'),
        !has_control(form_byte(b)),
{
    let e = form_byte(b);
    if !form_unchanged_byte(b) && b != 32 {
        assert(0 <= b as int / 16 < 16 && 0 <= b as int % 16 < 16);
    }
    assert(forall|i: int| 0 <= i < e.len() ==> e[i] != '/' && e[i] != '?' && e[i] != '#'
        && !crate::text::is_control_char(#[trigger] e[i]));
}

/// A form-encoded text is a single path segment: no `/`, `?`, `#` or control
/// character can come out of it.
pub proof fn lemma_form_encoded_is_segment(bytes: Seq<u8>)
    ensures
        !holds_char(form_encoded(bytes), '/'),
        !holds_char(form_encoded(bytes), '?'),
        !holds_char(form_encoded(bytes), '#'),
        !has_control(form_encoded(bytes)),
    decreases bytes.len(),
{
    broadcast use crate::json::lemma_holds_char_concat;

    if bytes.len() > 0 {
        lemma_form_encoded_is_segment(bytes.drop_last());
        lemma_form_byte_safe(bytes.last());
        let a = form_encoded(bytes.drop_last());
        let b = form_byte(bytes.last());
        assert(form_encoded(bytes) == a + b);
        assert forall|i: int| 0 <= i < (a + b).len() implies !crate::text::is_control_char(
            #[trigger] (a + b)[i],
        ) by {
            if i < a.len() {
                assert((a + b)[i] == a[i]);
            } else {
                assert((a + b)[i] == b[i - a.len()]);
            }
        }
    }
}

} // verus!
