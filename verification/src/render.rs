use vstd::prelude::*;

use crate::error::{
    AppError, ApplicationError, AuthError, ConfigError, InputError, ParseError, ProjectionError,
    SaveError, TransportError, exit_code_of,
};
use crate::json::{
    holds_char, int_decimal, json_integer, json_quoted, json_string, lemma_int_decimal_no_newline,
    lemma_quoted_no_newline,
};
use crate::kind::kind_text;
use crate::output::{Action, OutputMode, action_text, json_member};
use crate::text::{contains_control, has_control, utf8_len, utf8_len_at_most};
use vstd::utf8::encode_utf8;

pub use crate::kind::EntityKind;

verus! {

/// `std::io::Error`, the error type of the renderer's write results.
#[verifier::external_type_specification]
#[verifier::external_body]
pub struct ExIoError(std::io::Error);

/// The natural key of an entity: `slug` for Assistant and Workflow, `name`
/// for Skill, `repo_name` for Datasource.
#[derive(Debug, Clone, PartialEq, Eq)]
pub enum EntityKey {
    Slug(String),
    Name(String),
    RepoName(String),
}

/// The JSON field name of a key.
pub open spec fn key_field_name(key: EntityKey) -> Seq<char> {
    match key {
        EntityKey::Slug(_) => "slug"@,
        EntityKey::Name(_) => "name"@,
        EntityKey::RepoName(_) => "repo_name"@,
    }
}

/// The value of a key.
pub open spec fn key_value(key: EntityKey) -> Seq<char> {
    match key {
        EntityKey::Slug(v) => v@,
        EntityKey::Name(v) => v@,
        EntityKey::RepoName(v) => v@,
    }
}

impl EntityKey {
    /// The JSON field name for this key.
    pub fn field_name(&self) -> (name: &'static str)
        ensures
            name@ == key_field_name(*self),
    {
        match self {
            EntityKey::Slug(_) => "slug",
            EntityKey::Name(_) => "name",
            EntityKey::RepoName(_) => "repo_name",
        }
    }

    /// The key value.
    pub fn value(&self) -> (v: &str)
        ensures
            v@ == key_value(*self),
    {
        match self {
            EntityKey::Slug(v) => v.as_str(),
            EntityKey::Name(v) => v.as_str(),
            EntityKey::RepoName(v) => v.as_str(),
        }
    }
}

/// The closed set of diagnostic error codes.
#[derive(Debug, Clone, Copy, PartialEq, Eq, Structural, Hash)]
pub enum ErrorCode {
    EAmbiguousIdentity,
    EIdentityMarkerInvalid,
    EResolutionUnstable,
    EAdoptionRequired,
    EMissingReference,
    EWriteUncertain,
    EEntityNotFound,
    EEntityNotExportable,
    EOutputExists,
    EOutputPath,
    EOutputWrite,
    EWorkflowAlreadyMarked,
    EServerRejected,
    EUsage,
    EYamlParse,
    ESchema,
    ESemantic,
    EReference,
    ESidecar,
    EConfiguration,
    EAuthentication,
    ETokenExpired,
    ELocalAuthUnavailable,
    ERateLimited,
    EAuthorization,
    EVisibilityUnproven,
    EWriteForbidden,
    EApiIncompatible,
    EWriteVerificationIncompatible,
    EConnectivity,
    EServerUnavailable,
    ETimeout,
    EWriteVerificationUnavailable,
    EInternal,
}

/// The schema spelling of each error code.
pub open spec fn error_code_text(code: ErrorCode) -> Seq<char> {
    match code {
        ErrorCode::EAmbiguousIdentity => "E_AMBIGUOUS_IDENTITY"@,
        ErrorCode::EIdentityMarkerInvalid => "E_IDENTITY_MARKER_INVALID"@,
        ErrorCode::EResolutionUnstable => "E_RESOLUTION_UNSTABLE"@,
        ErrorCode::EAdoptionRequired => "E_ADOPTION_REQUIRED"@,
        ErrorCode::EMissingReference => "E_MISSING_REFERENCE"@,
        ErrorCode::EWriteUncertain => "E_WRITE_UNCERTAIN"@,
        ErrorCode::EEntityNotFound => "E_ENTITY_NOT_FOUND"@,
        ErrorCode::EEntityNotExportable => "E_ENTITY_NOT_EXPORTABLE"@,
        ErrorCode::EOutputExists => "E_OUTPUT_EXISTS"@,
        ErrorCode::EOutputPath => "E_OUTPUT_PATH"@,
        ErrorCode::EOutputWrite => "E_OUTPUT_WRITE"@,
        ErrorCode::EWorkflowAlreadyMarked => "E_WORKFLOW_ALREADY_MARKED"@,
        ErrorCode::EServerRejected => "E_SERVER_REJECTED"@,
        ErrorCode::EUsage => "E_USAGE"@,
        ErrorCode::EYamlParse => "E_YAML_PARSE"@,
        ErrorCode::ESchema => "E_SCHEMA"@,
        ErrorCode::ESemantic => "E_SEMANTIC"@,
        ErrorCode::EReference => "E_REFERENCE"@,
        ErrorCode::ESidecar => "E_SIDECAR"@,
        ErrorCode::EConfiguration => "E_CONFIGURATION"@,
        ErrorCode::EAuthentication => "E_AUTHENTICATION"@,
        ErrorCode::ETokenExpired => "E_TOKEN_EXPIRED"@,
        ErrorCode::ELocalAuthUnavailable => "E_LOCAL_AUTH_UNAVAILABLE"@,
        ErrorCode::ERateLimited => "E_RATE_LIMITED"@,
        ErrorCode::EAuthorization => "E_AUTHORIZATION"@,
        ErrorCode::EVisibilityUnproven => "E_VISIBILITY_UNPROVEN"@,
        ErrorCode::EWriteForbidden => "E_WRITE_FORBIDDEN"@,
        ErrorCode::EApiIncompatible => "E_API_INCOMPATIBLE"@,
        ErrorCode::EWriteVerificationIncompatible => "E_WRITE_VERIFICATION_INCOMPATIBLE"@,
        ErrorCode::EConnectivity => "E_CONNECTIVITY"@,
        ErrorCode::EServerUnavailable => "E_SERVER_UNAVAILABLE"@,
        ErrorCode::ETimeout => "E_TIMEOUT"@,
        ErrorCode::EWriteVerificationUnavailable => "E_WRITE_VERIFICATION_UNAVAILABLE"@,
        ErrorCode::EInternal => "E_INTERNAL"@,
    }
}

impl ErrorCode {
    /// The exact schema spelling of the code.
    pub fn as_str(self) -> (text: &'static str)
        ensures
            text@ == error_code_text(self),
    {
        match self {
            ErrorCode::EAmbiguousIdentity => "E_AMBIGUOUS_IDENTITY",
            ErrorCode::EIdentityMarkerInvalid => "E_IDENTITY_MARKER_INVALID",
            ErrorCode::EResolutionUnstable => "E_RESOLUTION_UNSTABLE",
            ErrorCode::EAdoptionRequired => "E_ADOPTION_REQUIRED",
            ErrorCode::EMissingReference => "E_MISSING_REFERENCE",
            ErrorCode::EWriteUncertain => "E_WRITE_UNCERTAIN",
            ErrorCode::EEntityNotFound => "E_ENTITY_NOT_FOUND",
            ErrorCode::EEntityNotExportable => "E_ENTITY_NOT_EXPORTABLE",
            ErrorCode::EOutputExists => "E_OUTPUT_EXISTS",
            ErrorCode::EOutputPath => "E_OUTPUT_PATH",
            ErrorCode::EOutputWrite => "E_OUTPUT_WRITE",
            ErrorCode::EWorkflowAlreadyMarked => "E_WORKFLOW_ALREADY_MARKED",
            ErrorCode::EServerRejected => "E_SERVER_REJECTED",
            ErrorCode::EUsage => "E_USAGE",
            ErrorCode::EYamlParse => "E_YAML_PARSE",
            ErrorCode::ESchema => "E_SCHEMA",
            ErrorCode::ESemantic => "E_SEMANTIC",
            ErrorCode::EReference => "E_REFERENCE",
            ErrorCode::ESidecar => "E_SIDECAR",
            ErrorCode::EConfiguration => "E_CONFIGURATION",
            ErrorCode::EAuthentication => "E_AUTHENTICATION",
            ErrorCode::ETokenExpired => "E_TOKEN_EXPIRED",
            ErrorCode::ELocalAuthUnavailable => "E_LOCAL_AUTH_UNAVAILABLE",
            ErrorCode::ERateLimited => "E_RATE_LIMITED",
            ErrorCode::EAuthorization => "E_AUTHORIZATION",
            ErrorCode::EVisibilityUnproven => "E_VISIBILITY_UNPROVEN",
            ErrorCode::EWriteForbidden => "E_WRITE_FORBIDDEN",
            ErrorCode::EApiIncompatible => "E_API_INCOMPATIBLE",
            ErrorCode::EWriteVerificationIncompatible => "E_WRITE_VERIFICATION_INCOMPATIBLE",
            ErrorCode::EConnectivity => "E_CONNECTIVITY",
            ErrorCode::EServerUnavailable => "E_SERVER_UNAVAILABLE",
            ErrorCode::ETimeout => "E_TIMEOUT",
            ErrorCode::EWriteVerificationUnavailable => "E_WRITE_VERIFICATION_UNAVAILABLE",
            ErrorCode::EInternal => "E_INTERNAL",
        }
    }
}

/// The closed set of diagnostic categories.
#[derive(Debug, Clone, Copy, PartialEq, Eq, Structural, Hash)]
pub enum DiagnosticCategory {
    Reconciliation,
    ServerRejection,
    Usage,
    LocalInput,
    Configuration,
    Authentication,
    Authorization,
    Compatibility,
    Connectivity,
    Internal,
}

/// The schema spelling of each category.
pub open spec fn category_text(category: DiagnosticCategory) -> Seq<char> {
    match category {
        DiagnosticCategory::Reconciliation => "reconciliation"@,
        DiagnosticCategory::ServerRejection => "server-rejection"@,
        DiagnosticCategory::Usage => "usage"@,
        DiagnosticCategory::LocalInput => "local-input"@,
        DiagnosticCategory::Configuration => "configuration"@,
        DiagnosticCategory::Authentication => "authentication"@,
        DiagnosticCategory::Authorization => "authorization"@,
        DiagnosticCategory::Compatibility => "compatibility"@,
        DiagnosticCategory::Connectivity => "connectivity"@,
        DiagnosticCategory::Internal => "internal"@,
    }
}

impl DiagnosticCategory {
    /// The exact schema spelling of the category.
    pub fn as_str(self) -> (text: &'static str)
        ensures
            text@ == category_text(self),
    {
        match self {
            DiagnosticCategory::Reconciliation => "reconciliation",
            DiagnosticCategory::ServerRejection => "server-rejection",
            DiagnosticCategory::Usage => "usage",
            DiagnosticCategory::LocalInput => "local-input",
            DiagnosticCategory::Configuration => "configuration",
            DiagnosticCategory::Authentication => "authentication",
            DiagnosticCategory::Authorization => "authorization",
            DiagnosticCategory::Compatibility => "compatibility",
            DiagnosticCategory::Connectivity => "connectivity",
            DiagnosticCategory::Internal => "internal",
        }
    }
}

/// The closed set of warning codes.
#[derive(Debug, Clone, Copy, PartialEq, Eq, Structural, Hash)]
pub enum WarningCode {
    WSuspectedPlaintextSecret,
    WDeprecatedValue,
}

/// The schema spelling of each warning code.
pub open spec fn warning_code_text(code: WarningCode) -> Seq<char> {
    match code {
        WarningCode::WSuspectedPlaintextSecret => "W_SUSPECTED_PLAINTEXT_SECRET"@,
        WarningCode::WDeprecatedValue => "W_DEPRECATED_VALUE"@,
    }
}

impl WarningCode {
    /// The exact schema spelling of the warning code.
    pub fn as_str(self) -> (text: &'static str)
        ensures
            text@ == warning_code_text(self),
    {
        match self {
            WarningCode::WSuspectedPlaintextSecret => "W_SUSPECTED_PLAINTEXT_SECRET",
            WarningCode::WDeprecatedValue => "W_DEPRECATED_VALUE",
        }
    }
}

/// The closed set of warning categories.
#[derive(Debug, Clone, Copy, PartialEq, Eq, Structural, Hash)]
pub enum WarningCategory {
    SecretLikeField,
    DeprecatedValue,
}

/// The schema spelling of each warning category.
pub open spec fn warning_category_text(category: WarningCategory) -> Seq<char> {
    match category {
        WarningCategory::SecretLikeField => "secret-like-field"@,
        WarningCategory::DeprecatedValue => "deprecated-value"@,
    }
}

impl WarningCategory {
    /// The exact schema spelling of the warning category.
    pub fn as_str(self) -> (text: &'static str)
        ensures
            text@ == warning_category_text(self),
    {
        match self {
            WarningCategory::SecretLikeField => "secret-like-field",
            WarningCategory::DeprecatedValue => "deprecated-value",
        }
    }
}

/// Why an output context value was refused.
#[derive(Debug, Clone, Copy, PartialEq, Eq, Structural, Hash)]
pub enum InvalidOutputField {
    SourceFile,
    FieldPath,
    HttpStatus,
    RouteTemplate,
    CorrelationId,
}

/// A source file name that may be printed: non-empty, at most 4096 bytes,
/// without control characters.
pub open spec fn valid_source_file(s: Seq<char>) -> bool {
    s.len() > 0 && utf8_len(s) <= 4096 && !has_control(s)
}

/// A canonical field path: non-empty, at most 1024 bytes, without control
/// characters.
pub open spec fn valid_field_path(s: Seq<char>) -> bool {
    s.len() > 0 && utf8_len(s) <= 1024 && !has_control(s)
}

/// A route template: starts with `/`, holds no `?`, `#` or control character.
pub open spec fn valid_route_template(s: Seq<char>) -> bool {
    s.len() > 0 && s[0] == '/' && !holds_char(s, '?') && !holds_char(s, '#') && !has_control(s)
}

/// A character allowed in a correlation ID: ASCII letter or digit, `.`, `_`, `:` or `-`.
pub open spec fn correlation_char(c: char) -> bool {
    ('a' <= c && c <= 'z') || ('A' <= c && c <= 'Z') || ('0' <= c && c <= '9') || c == '.' || c
        == '_' || c == ':' || c == '-'
}

/// A correlation ID: 1 to 128 allowed characters.
pub open spec fn valid_correlation_id(s: Seq<char>) -> bool {
    1 <= s.len() <= 128 && forall|i: int| 0 <= i < s.len() ==> correlation_char(#[trigger] s[i])
}

/// A validated source file name.
#[derive(Debug, Clone)]
pub struct SourceFile(String);

impl SourceFile {
    /// The file name.
    pub closed spec fn text(&self) -> Seq<char> {
        self.0@
    }

    /// Accepts exactly the values of `valid_source_file`.
    pub fn try_new(value: String) -> (r: Result<SourceFile, InvalidOutputField>)
        ensures
            r is Ok <==> valid_source_file(value@),
            r is Ok ==> r->Ok_0.text() == value@,
            r is Err ==> r == Err::<SourceFile, InvalidOutputField>(InvalidOutputField::SourceFile),
    {
        if value.as_str().is_empty() || !utf8_len_at_most(value.as_str(), 4096) || contains_control(value.as_str()) {
            Err(InvalidOutputField::SourceFile)
        } else {
            Ok(SourceFile(value))
        }
    }

    /// The file name.
    pub fn as_str(&self) -> (s: &str)
        ensures
            s@ == self.text(),
    {
        self.0.as_str()
    }
}

/// A validated canonical field path.
#[derive(Debug, Clone)]
pub struct FieldPath(String);

impl FieldPath {
    /// The path.
    pub closed spec fn text(&self) -> Seq<char> {
        self.0@
    }

    /// Accepts exactly the values of `valid_field_path`.
    pub fn try_new(value: String) -> (r: Result<FieldPath, InvalidOutputField>)
        ensures
            r is Ok <==> valid_field_path(value@),
            r is Ok ==> r->Ok_0.text() == value@,
            r is Err ==> r == Err::<FieldPath, InvalidOutputField>(InvalidOutputField::FieldPath),
    {
        if value.as_str().is_empty() || !utf8_len_at_most(value.as_str(), 1024) || contains_control(value.as_str()) {
            Err(InvalidOutputField::FieldPath)
        } else {
            Ok(FieldPath(value))
        }
    }

    /// The path.
    pub fn as_str(&self) -> (s: &str)
        ensures
            s@ == self.text(),
    {
        self.0.as_str()
    }
}

/// A source coordinate attached to a diagnostic.
#[derive(Debug, Clone)]
pub struct SourceLocation {
    pub file: SourceFile,
    pub line: Option<u32>,
    pub column: Option<u32>,
    pub field_path: Option<FieldPath>,
}

impl SourceLocation {
    /// Validates the file and, when present, the field path.
    pub fn try_new(file: String, line: Option<u32>, column: Option<u32>, field_path: Option<String>) -> (r: Result<SourceLocation, InvalidOutputField>)
        ensures
            !valid_source_file(file@) ==> r == Err::<SourceLocation, InvalidOutputField>(
                InvalidOutputField::SourceFile,
            ),
            valid_source_file(file@) && field_path is Some && !valid_field_path(field_path->0@)
                ==> r == Err::<SourceLocation, InvalidOutputField>(InvalidOutputField::FieldPath),
            r is Ok <==> (valid_source_file(file@) && (field_path is Some ==> valid_field_path(
                field_path->0@,
            ))),
            r is Ok ==> ({
                let loc = r->Ok_0;
                &&& loc.file.text() == file@
                &&& loc.line == line
                &&& loc.column == column
                &&& (loc.field_path is Some <==> field_path is Some)
                &&& (field_path is Some ==> loc.field_path->0.text() == field_path->0@)
            }),
    {
        let file = match SourceFile::try_new(file) {
            Ok(f) => f,
            Err(e) => {
                return Err(e);
            },
        };
        let field_path = match field_path {
            Some(path) => match FieldPath::try_new(path) {
                Ok(p) => Some(p),
                Err(e) => {
                    return Err(e);
                },
            },
            None => None,
        };
        Ok(SourceLocation { file, line, column, field_path })
    }
}

/// A validated HTTP status, within 100..=599.
#[derive(Debug, Clone, Copy)]
pub struct HttpStatus(u16);

impl HttpStatus {
    /// The status number.
    pub closed spec fn code(&self) -> u16 {
        self.0
    }

    /// Accepts exactly 100..=599.
    pub fn try_new(value: u16) -> (r: Result<HttpStatus, InvalidOutputField>)
        ensures
            r is Ok <==> 100 <= value <= 599,
            r is Ok ==> r->Ok_0.code() == value,
            r is Err ==> r == Err::<HttpStatus, InvalidOutputField>(InvalidOutputField::HttpStatus),
    {
        if 100 <= value && value <= 599 {
            Ok(HttpStatus(value))
        } else {
            Err(InvalidOutputField::HttpStatus)
        }
    }

    /// The status number.
    pub fn get(&self) -> (v: u16)
        ensures
            v == self.code(),
    {
        self.0
    }
}

/// A validated route template.
#[derive(Debug, Clone)]
pub struct RouteTemplate(String);

impl RouteTemplate {
    /// The template.
    pub closed spec fn text(&self) -> Seq<char> {
        self.0@
    }

    /// Accepts exactly the values of `valid_route_template`.
    pub fn try_new(value: String) -> (r: Result<RouteTemplate, InvalidOutputField>)
        ensures
            r is Ok <==> valid_route_template(value@),
            r is Ok ==> r->Ok_0.text() == value@,
            r is Err ==> r == Err::<RouteTemplate, InvalidOutputField>(
                InvalidOutputField::RouteTemplate,
            ),
    {
        let mut starts_with_slash = false;
        let mut first = true;
        let mut forbidden = false;
        for c in it: value.as_str().chars()
            invariant
                it.seq() == value@,
                first == (it.index() == 0),
                starts_with_slash == (it.index() > 0 && value@[0] == '/'),
                forbidden == (exists|i: int|
                    0 <= i < it.index() && (value@[i] == '?' || value@[i] == '#'
                        || crate::text::is_control_char(#[trigger] value@[i]))),
        {
            if first {
                starts_with_slash = c == '/';
                first = false;
            }
            let code = c as u32;
            if c == '?' || c == '#' || code <= 0x1f || (0x7f <= code && code <= 0x9f) {
                forbidden = true;
            }
        }
        proof {
            if !forbidden {
                assert(!holds_char(value@, '?'));
                assert(!holds_char(value@, '#'));
                assert(!has_control(value@));
            } else {
                let i = choose|i: int|
                    0 <= i < value@.len() && (value@[i] == '?' || value@[i] == '#'
                        || crate::text::is_control_char(#[trigger] value@[i]));
                if value@[i] == '?' {
                    assert(holds_char(value@, '?'));
                } else if value@[i] == '#' {
                    assert(holds_char(value@, '#'));
                } else {
                    assert(has_control(value@));
                }
            }
        }
        if starts_with_slash && !forbidden {
            Ok(RouteTemplate(value))
        } else {
            Err(InvalidOutputField::RouteTemplate)
        }
    }

    /// The template.
    pub fn as_str(&self) -> (s: &str)
        ensures
            s@ == self.text(),
    {
        self.0.as_str()
    }
}

/// The HTTP methods a diagnostic may name.
#[derive(Debug, Clone, Copy, PartialEq, Eq, Structural, Hash)]
pub enum HttpMethod {
    Get,
    Post,
    Put,
}

/// The upper-case spelling of each method.
pub open spec fn method_text(method: HttpMethod) -> Seq<char> {
    match method {
        HttpMethod::Get => "GET"@,
        HttpMethod::Post => "POST"@,
        HttpMethod::Put => "PUT"@,
    }
}

impl HttpMethod {
    /// The upper-case spelling of the method.
    pub fn as_str(self) -> (text: &'static str)
        ensures
            text@ == method_text(self),
    {
        match self {
            HttpMethod::Get => "GET",
            HttpMethod::Post => "POST",
            HttpMethod::Put => "PUT",
        }
    }
}

/// HTTP context attached to a diagnostic.
#[derive(Debug, Clone)]
pub struct HttpInfo {
    pub status: HttpStatus,
    pub method: HttpMethod,
    pub route_template: RouteTemplate,
}

impl HttpInfo {
    /// Validates the status, then the route template.
    pub fn try_new(status: u16, method: HttpMethod, route_template: String) -> (r: Result<HttpInfo, InvalidOutputField>)
        ensures
            !(100 <= status <= 599) ==> r == Err::<HttpInfo, InvalidOutputField>(
                InvalidOutputField::HttpStatus,
            ),
            100 <= status <= 599 && !valid_route_template(route_template@) ==> r == Err::<
                HttpInfo,
                InvalidOutputField,
            >(InvalidOutputField::RouteTemplate),
            r is Ok <==> (100 <= status <= 599 && valid_route_template(route_template@)),
            r is Ok ==> (r->Ok_0.status.code() == status && r->Ok_0.method == method
                && r->Ok_0.route_template.text() == route_template@),
    {
        let status = match HttpStatus::try_new(status) {
            Ok(s) => s,
            Err(e) => {
                return Err(e);
            },
        };
        let route_template = match RouteTemplate::try_new(route_template) {
            Ok(t) => t,
            Err(e) => {
                return Err(e);
            },
        };
        Ok(HttpInfo { status, method, route_template })
    }
}

/// A validated correlation ID.
#[derive(Debug, Clone)]
pub struct CorrelationId(String);

impl CorrelationId {
    /// The identifier.
    pub closed spec fn text(&self) -> Seq<char> {
        self.0@
    }

    /// Accepts exactly the values of `valid_correlation_id`.
    pub fn try_new(value: String) -> (r: Result<CorrelationId, InvalidOutputField>)
        ensures
            r is Ok <==> valid_correlation_id(value@),
            r is Ok ==> r->Ok_0.text() == value@,
            r is Err ==> r == Err::<CorrelationId, InvalidOutputField>(
                InvalidOutputField::CorrelationId,
            ),
    {
        let mut count: usize = 0;
        let mut all_allowed = true;
        for c in it: value.as_str().chars()
            invariant
                it.seq() == value@,
                0 <= it.index() <= value@.len(),
                count == (if it.index() <= 129 {
                    it.index() as int
                } else {
                    129
                }),
                all_allowed == (forall|i: int|
                    0 <= i < it.index() ==> correlation_char(#[trigger] value@[i])),
        {
            let allowed = ('a' <= c && c <= 'z') || ('A' <= c && c <= 'Z') || ('0' <= c && c
                <= '9') || c == '.' || c == '_' || c == ':' || c == '-';
            if !allowed {
                all_allowed = false;
            }
            if count < 129 {
                count = count + 1;
            }
        }
        if count == 0 || count > 128 || !all_allowed {
            Err(InvalidOutputField::CorrelationId)
        } else {
            Ok(CorrelationId(value))
        }
    }

    /// The identifier.
    pub fn as_str(&self) -> (s: &str)
        ensures
            s@ == self.text(),
    {
        self.0.as_str()
    }
}

/// A typed diagnostic record ready for rendering.
#[derive(Debug, Clone)]
pub struct DiagnosticInput {
    pub error_code: ErrorCode,
    pub category: DiagnosticCategory,
    pub exit_code: i32,
    pub source: Option<SourceLocation>,
    pub http: Option<HttpInfo>,
    pub request_id: Option<CorrelationId>,
    pub server_correlation_id: Option<CorrelationId>,
}

/// Source location for a warning: `file` and `field_path` are required.
#[derive(Debug, Clone)]
pub struct WarningSource {
    pub file: SourceFile,
    pub line: Option<u32>,
    pub column: Option<u32>,
    pub field_path: FieldPath,
}

impl WarningSource {
    /// Validates the file, then the field path.
    pub fn try_new(file: String, line: Option<u32>, column: Option<u32>, field_path: String) -> (r: Result<WarningSource, InvalidOutputField>)
        ensures
            !valid_source_file(file@) ==> r == Err::<WarningSource, InvalidOutputField>(
                InvalidOutputField::SourceFile,
            ),
            valid_source_file(file@) && !valid_field_path(field_path@) ==> r == Err::<
                WarningSource,
                InvalidOutputField,
            >(InvalidOutputField::FieldPath),
            r is Ok <==> (valid_source_file(file@) && valid_field_path(field_path@)),
            r is Ok ==> (r->Ok_0.file.text() == file@ && r->Ok_0.line == line && r->Ok_0.column
                == column && r->Ok_0.field_path.text() == field_path@),
    {
        let file = match SourceFile::try_new(file) {
            Ok(f) => f,
            Err(e) => {
                return Err(e);
            },
        };
        let field_path = match FieldPath::try_new(field_path) {
            Ok(p) => p,
            Err(e) => {
                return Err(e);
            },
        };
        Ok(WarningSource { file, line, column, field_path })
    }

    /// The canonical field path of the warning.
    pub fn field_path(&self) -> (s: &str)
        ensures
            s@ == self.field_path.text(),
    {
        self.field_path.as_str()
    }
}

/// A typed warning record ready for rendering.
#[derive(Debug, Clone)]
pub struct WarningInput {
    pub warning_code: WarningCode,
    pub category: WarningCategory,
    pub source: WarningSource,
}

impl WarningInput {
    /// Assembles a warning record.
    pub fn new(warning_code: WarningCode, category: WarningCategory, source: WarningSource) -> (w: Self)
        ensures
            w.warning_code == warning_code,
            w.category == category,
            w.source == source,
    {
        WarningInput { warning_code, category, source }
    }

    /// The warning code.
    pub fn warning_code(&self) -> (c: WarningCode)
        ensures
            c == self.warning_code,
    {
        self.warning_code
    }

    /// The canonical field path of the warning.
    pub fn field_path(&self) -> (s: &str)
        ensures
            s@ == self.source.field_path.text(),
    {
        self.source.field_path()
    }
}

// ---------------------------------------------------------------------------
// Output lines
// ---------------------------------------------------------------------------

/// A record of exactly one physical line: it ends with the only line feed it holds.
pub open spec fn single_line(line: Seq<char>) -> bool {
    line.len() > 0 && line.last() == '\n' && !holds_char(line.drop_last(), '\n')
}

/// The adoption note of a text outcome.
pub open spec fn adoption_note(adoption_required: bool) -> Seq<char> {
    if adoption_required {
        " (adoption required on apply)"@
    } else {
        ""@
    }
}

/// Text outcome: `<action> <kind> <project>/<key>`, then the adoption note
/// when adoption is required.
pub open spec fn outcome_text_line(
    action: Action,
    kind: EntityKind,
    project: Seq<char>,
    key: EntityKey,
    adoption_required: bool,
) -> Seq<char> {
    action_text(action) + " "@ + kind_text(kind) + " "@ + project + "/"@ + key_value(key)
        + adoption_note(adoption_required) + "\n"@
}

/// `"name":"value"`.
pub open spec fn string_member(name: Seq<char>, value: Seq<char>) -> Seq<char> {
    json_member(name, json_quoted(value))
}

/// `,"adoptionRequired":true` when adoption is required, nothing otherwise.
pub open spec fn adoption_member(adoption_required: bool) -> Seq<char> {
    if adoption_required {
        ","@ + json_member("adoptionRequired"@, "true"@)
    } else {
        Seq::empty()
    }
}

/// The project and key members in name order (`name` sorts before
/// `project`, which sorts before `repo_name` and `slug`).
pub open spec fn identity_members(project: Seq<char>, key: EntityKey) -> Seq<char> {
    match key {
        EntityKey::Name(_) => string_member(key_field_name(key), key_value(key)) + ","@
            + string_member("project"@, project),
        _ => string_member("project"@, project) + ","@ + string_member(
            key_field_name(key),
            key_value(key),
        ),
    }
}

/// JSON outcome: one object with its members in name order: `action`,
/// `adoptionRequired` (only when required), `kind`, then the project and the
/// kind-specific key field.
pub open spec fn outcome_json_line(
    action: Action,
    kind: EntityKind,
    project: Seq<char>,
    key: EntityKey,
    adoption_required: bool,
) -> Seq<char> {
    "{"@ + string_member("action"@, action_text(action)) + adoption_member(adoption_required)
        + ","@ + string_member("kind"@, kind_text(kind)) + ","@ + identity_members(project, key)
        + "}"@ + "\n"@
}

/// The outcome line of the mode.
pub open spec fn outcome_line(
    mode: OutputMode,
    action: Action,
    kind: EntityKind,
    project: Seq<char>,
    key: EntityKey,
    adoption_required: bool,
) -> Seq<char> {
    match mode {
        OutputMode::Text => outcome_text_line(action, kind, project, key, adoption_required),
        OutputMode::Json => outcome_json_line(action, kind, project, key, adoption_required),
    }
}

/// `,"name":n` for a present number, nothing otherwise.
pub open spec fn optional_number_member(name: Seq<char>, value: Option<u32>) -> Seq<char> {
    match value {
        Some(n) => ","@ + json_member(name, int_decimal(n as int)),
        None => Seq::empty(),
    }
}

/// `,"fieldPath":"path"` for a present path, nothing otherwise.
pub open spec fn optional_path_member(value: Option<FieldPath>) -> Seq<char> {
    match value {
        Some(p) => ","@ + string_member("fieldPath"@, p.text()),
        None => Seq::empty(),
    }
}

/// The `source` object of a diagnostic.
pub open spec fn source_json(loc: SourceLocation) -> Seq<char> {
    "{"@ + string_member("file"@, loc.file.text()) + optional_number_member("line"@, loc.line)
        + optional_number_member("column"@, loc.column) + optional_path_member(loc.field_path)
        + "}"@
}

/// `,"source":{..}` for a present location, nothing otherwise.
pub open spec fn optional_source_member(value: Option<SourceLocation>) -> Seq<char> {
    match value {
        Some(loc) => ","@ + json_member("source"@, source_json(loc)),
        None => Seq::empty(),
    }
}

/// The `http` object of a diagnostic.
pub open spec fn http_json(h: HttpInfo) -> Seq<char> {
    "{"@ + json_member("status"@, int_decimal(h.status.code() as int)) + ","@ + string_member(
        "method"@,
        method_text(h.method),
    ) + ","@ + string_member("routeTemplate"@, h.route_template.text()) + "}"@
}

/// `,"http":{..}` for present HTTP context, nothing otherwise.
pub open spec fn optional_http_member(value: Option<HttpInfo>) -> Seq<char> {
    match value {
        Some(h) => ","@ + json_member("http"@, http_json(h)),
        None => Seq::empty(),
    }
}

/// `,"name":"id"` for a present correlation ID, nothing otherwise.
pub open spec fn optional_id_member(name: Seq<char>, value: Option<CorrelationId>) -> Seq<char> {
    match value {
        Some(id) => ","@ + string_member(name, id.text()),
        None => Seq::empty(),
    }
}

/// Text diagnostic: `error: <errorCode>`.
pub open spec fn diagnostic_text_line(d: DiagnosticInput) -> Seq<char> {
    "error: "@ + error_code_text(d.error_code) + "\n"@
}

/// JSON diagnostic: `errorCode`, `category`, `exitCode`, then each present
/// optional member in the order source, http, requestId, serverCorrelationId.
pub open spec fn diagnostic_json_line(d: DiagnosticInput) -> Seq<char> {
    "{"@ + string_member("errorCode"@, error_code_text(d.error_code)) + ","@ + string_member(
        "category"@,
        category_text(d.category),
    ) + ","@ + json_member("exitCode"@, int_decimal(d.exit_code as int)) + optional_source_member(
        d.source,
    ) + optional_http_member(d.http) + optional_id_member("requestId"@, d.request_id)
        + optional_id_member("serverCorrelationId"@, d.server_correlation_id) + "}"@ + "\n"@
}

/// The diagnostic line of the mode.
pub open spec fn diagnostic_line(mode: OutputMode, d: DiagnosticInput) -> Seq<char> {
    match mode {
        OutputMode::Text => diagnostic_text_line(d),
        OutputMode::Json => diagnostic_json_line(d),
    }
}

/// The `source` object of a warning.
pub open spec fn warning_source_json(s: WarningSource) -> Seq<char> {
    "{"@ + string_member("file"@, s.file.text()) + optional_number_member("line"@, s.line)
        + optional_number_member("column"@, s.column) + ","@ + string_member(
        "fieldPath"@,
        s.field_path.text(),
    ) + "}"@
}

/// Text warning: `warning: <warningCode>`.
pub open spec fn warning_text_line(w: WarningInput) -> Seq<char> {
    "warning: "@ + warning_code_text(w.warning_code) + "\n"@
}

/// JSON warning: `warningCode`, `category`, `source`.
pub open spec fn warning_json_line(w: WarningInput) -> Seq<char> {
    "{"@ + string_member("warningCode"@, warning_code_text(w.warning_code)) + ","@
        + string_member("category"@, warning_category_text(w.category)) + ","@ + json_member(
        "source"@,
        warning_source_json(w.source),
    ) + "}"@ + "\n"@
}

/// The warning line of the mode.
pub open spec fn warning_line(mode: OutputMode, w: WarningInput) -> Seq<char> {
    match mode {
        OutputMode::Text => warning_text_line(w),
        OutputMode::Json => warning_json_line(w),
    }
}

// ---------------------------------------------------------------------------
// Line assembly
// ---------------------------------------------------------------------------

/// `"name":value`, where `value` is already JSON.
pub fn member_text(name: &str, value: &str) -> (text: String)
    ensures
        text@ == json_member(name@, value@),
{
    let mut text = json_string(name);
    text.append(":");
    text.append(value);
    text
}

/// `"name":"value"`.
pub fn string_member_text(name: &str, value: &str) -> (text: String)
    ensures
        text@ == string_member(name@, value@),
{
    let quoted = json_string(value);
    member_text(name, quoted.as_str())
}

/// `,"name":n` for a present number, nothing otherwise.
fn optional_number_text(name: &str, value: Option<u32>) -> (text: String)
    ensures
        text@ == optional_number_member(name@, value),
{
    match value {
        Some(n) => {
            let mut text = String::from_str(",");
            let digits = json_integer(n as i64);
            let member = member_text(name, digits.as_str());
            text.append(member.as_str());
            text
        },
        None => String::new(),
    }
}

/// `,"fieldPath":"path"` for a present path, nothing otherwise.
fn optional_path_text(value: &Option<FieldPath>) -> (text: String)
    ensures
        text@ == optional_path_member(*value),
{
    match value {
        Some(p) => {
            let mut text = String::from_str(",");
            let member = string_member_text("fieldPath", p.as_str());
            text.append(member.as_str());
            text
        },
        None => String::new(),
    }
}

/// The `source` object of a diagnostic.
fn source_text(loc: &SourceLocation) -> (text: String)
    ensures
        text@ == source_json(*loc),
{
    let mut text = String::from_str("{");
    text.append(string_member_text("file", loc.file.as_str()).as_str());
    text.append(optional_number_text("line", loc.line).as_str());
    text.append(optional_number_text("column", loc.column).as_str());
    text.append(optional_path_text(&loc.field_path).as_str());
    text.append("}");
    text
}

/// `,"source":{..}` for a present location, nothing otherwise.
fn optional_source_text(value: &Option<SourceLocation>) -> (text: String)
    ensures
        text@ == optional_source_member(*value),
{
    match value {
        Some(loc) => {
            let mut text = String::from_str(",");
            let source = source_text(loc);
            text.append(member_text("source", source.as_str()).as_str());
            text
        },
        None => String::new(),
    }
}

/// The `http` object of a diagnostic.
fn http_text(h: &HttpInfo) -> (text: String)
    ensures
        text@ == http_json(*h),
{
    let mut text = String::from_str("{");
    let status = json_integer(h.status.get() as i64);
    text.append(member_text("status", status.as_str()).as_str());
    text.append(",");
    text.append(string_member_text("method", h.method.as_str()).as_str());
    text.append(",");
    text.append(string_member_text("routeTemplate", h.route_template.as_str()).as_str());
    text.append("}");
    text
}

/// `,"http":{..}` for present HTTP context, nothing otherwise.
fn optional_http_text(value: &Option<HttpInfo>) -> (text: String)
    ensures
        text@ == optional_http_member(*value),
{
    match value {
        Some(h) => {
            let mut text = String::from_str(",");
            let http = http_text(h);
            text.append(member_text("http", http.as_str()).as_str());
            text
        },
        None => String::new(),
    }
}

/// `,"name":"id"` for a present correlation ID, nothing otherwise.
fn optional_id_text(name: &str, value: &Option<CorrelationId>) -> (text: String)
    ensures
        text@ == optional_id_member(name@, *value),
{
    match value {
        Some(id) => {
            let mut text = String::from_str(",");
            text.append(string_member_text(name, id.as_str()).as_str());
            text
        },
        None => String::new(),
    }
}

/// The `source` object of a warning.
fn warning_source_text(s: &WarningSource) -> (text: String)
    ensures
        text@ == warning_source_json(*s),
{
    let mut text = String::from_str("{");
    text.append(string_member_text("file", s.file.as_str()).as_str());
    text.append(optional_number_text("line", s.line).as_str());
    text.append(optional_number_text("column", s.column).as_str());
    text.append(",");
    text.append(string_member_text("fieldPath", s.field_path.as_str()).as_str());
    text.append("}");
    text
}

/// `,"adoptionRequired":true` when adoption is required, nothing otherwise.
fn adoption_text(adoption_required: bool) -> (text: String)
    ensures
        text@ == adoption_member(adoption_required),
{
    if adoption_required {
        let mut text = String::from_str(",");
        text.append(member_text("adoptionRequired", "true").as_str());
        text
    } else {
        String::new()
    }
}

/// The project and key members in name order.
fn identity_text(project: &str, key: &EntityKey) -> (text: String)
    ensures
        text@ == identity_members(project@, *key),
{
    let key_member = string_member_text(key.field_name(), key.value());
    let project_member = string_member_text("project", project);
    match key {
        EntityKey::Name(_) => {
            let mut text = key_member;
            text.append(",");
            text.append(project_member.as_str());
            text
        },
        _ => {
            let mut text = project_member;
            text.append(",");
            text.append(key_member.as_str());
            text
        },
    }
}

/// The text outcome line.
fn outcome_text(action: Action, kind: EntityKind, project: &str, key: &EntityKey, adoption_required: bool) -> (line: String)
    ensures
        line@ == outcome_text_line(action, kind, project@, *key, adoption_required),
{
    let mut line = String::from_str(action.as_str());
    line.append(" ");
    line.append(kind.as_str());
    line.append(" ");
    line.append(project);
    line.append("/");
    line.append(key.value());
    let note = if adoption_required {
        " (adoption required on apply)"
    } else {
        ""
    };
    line.append(note);
    line.append("\n");
    line
}

/// The JSON outcome line.
fn outcome_json(action: Action, kind: EntityKind, project: &str, key: &EntityKey, adoption_required: bool) -> (line: String)
    ensures
        line@ == outcome_json_line(action, kind, project@, *key, adoption_required),
{
    let mut line = String::from_str("{");
    line.append(string_member_text("action", action.as_str()).as_str());
    line.append(adoption_text(adoption_required).as_str());
    line.append(",");
    line.append(string_member_text("kind", kind.as_str()).as_str());
    line.append(",");
    line.append(identity_text(project, key).as_str());
    line.append("}");
    line.append("\n");
    line
}

/// The JSON diagnostic line.
fn diagnostic_json(d: &DiagnosticInput) -> (line: String)
    ensures
        line@ == diagnostic_json_line(*d),
{
    let mut line = String::from_str("{");
    line.append(string_member_text("errorCode", d.error_code.as_str()).as_str());
    line.append(",");
    line.append(string_member_text("category", d.category.as_str()).as_str());
    line.append(",");
    let exit = json_integer(d.exit_code as i64);
    line.append(member_text("exitCode", exit.as_str()).as_str());
    line.append(optional_source_text(&d.source).as_str());
    line.append(optional_http_text(&d.http).as_str());
    line.append(optional_id_text("requestId", &d.request_id).as_str());
    line.append(optional_id_text("serverCorrelationId", &d.server_correlation_id).as_str());
    line.append("}");
    line.append("\n");
    line
}

/// The JSON warning line.
fn warning_json(w: &WarningInput) -> (line: String)
    ensures
        line@ == warning_json_line(*w),
{
    let mut line = String::from_str("{");
    line.append(string_member_text("warningCode", w.warning_code.as_str()).as_str());
    line.append(",");
    line.append(string_member_text("category", w.category.as_str()).as_str());
    line.append(",");
    let source = warning_source_text(&w.source);
    line.append(member_text("source", source.as_str()).as_str());
    line.append("}");
    line.append("\n");
    line
}

/// Appends the UTF-8 bytes of `line` to `out`.
fn push_line(out: &mut Vec<u8>, line: &String)
    ensures
        final(out)@ == old(out)@ + encode_utf8(line@),
{
    let mut bytes = line.as_str().as_bytes_vec();
    out.append(&mut bytes);
}

// ---------------------------------------------------------------------------
// Renderer
// ---------------------------------------------------------------------------

/// Renders outcomes into `stdout` and diagnostics and warnings into
/// `stderr`, one line per record, as UTF-8 bytes.
pub struct Renderer {
    pub stdout: Vec<u8>,
    pub stderr: Vec<u8>,
    pub mode: OutputMode,
}

impl Renderer {
    /// A renderer over the given buffers and mode.
    pub fn new(stdout: Vec<u8>, stderr: Vec<u8>, mode: OutputMode) -> (r: Self)
        ensures
            r.stdout@ == stdout@,
            r.stderr@ == stderr@,
            r.mode == mode,
    {
        Renderer { stdout, stderr, mode }
    }

    /// Emits a successful outcome to stdout; stderr is not touched.
    pub fn emit_outcome(&mut self, action: Action, kind: EntityKind, project: &str, key: &EntityKey) -> (r: Result<(), std::io::Error>)
        ensures
            r is Ok,
            final(self).mode == old(self).mode,
            final(self).stderr@ == old(self).stderr@,
            final(self).stdout@ == old(self).stdout@ + encode_utf8(
                outcome_line(old(self).mode, action, kind, project@, *key, false),
            ),
    {
        self.emit_outcome_with_adoption(action, kind, project, key, false)
    }

    /// Emits a successful outcome to stdout, marking a Workflow that must be
    /// adopted on apply; stderr is not touched.
    pub fn emit_outcome_with_adoption(
        &mut self,
        action: Action,
        kind: EntityKind,
        project: &str,
        key: &EntityKey,
        adoption_required: bool,
    ) -> (r: Result<(), std::io::Error>)
        ensures
            r is Ok,
            final(self).mode == old(self).mode,
            final(self).stderr@ == old(self).stderr@,
            final(self).stdout@ == old(self).stdout@ + encode_utf8(
                outcome_line(old(self).mode, action, kind, project@, *key, adoption_required),
            ),
    {
        let line = match self.mode {
            OutputMode::Text => outcome_text(action, kind, project, key, adoption_required),
            OutputMode::Json => outcome_json(action, kind, project, key, adoption_required),
        };
        push_line(&mut self.stdout, &line);
        Ok(())
    }

    /// Emits a diagnostic to stderr; stdout is not touched.
    pub fn emit_diagnostic(&mut self, diag: &DiagnosticInput) -> (r: Result<(), std::io::Error>)
        ensures
            r is Ok,
            final(self).mode == old(self).mode,
            final(self).stdout@ == old(self).stdout@,
            final(self).stderr@ == old(self).stderr@ + encode_utf8(
                diagnostic_line(old(self).mode, *diag),
            ),
    {
        let line = match self.mode {
            OutputMode::Text => {
                let mut line = String::from_str("error: ");
                line.append(diag.error_code.as_str());
                line.append("\n");
                line
            },
            OutputMode::Json => diagnostic_json(diag),
        };
        push_line(&mut self.stderr, &line);
        Ok(())
    }

    /// Emits a warning to stderr; stdout is not touched.
    pub fn emit_warning(&mut self, warning: &WarningInput) -> (r: Result<(), std::io::Error>)
        ensures
            r is Ok,
            final(self).mode == old(self).mode,
            final(self).stdout@ == old(self).stdout@,
            final(self).stderr@ == old(self).stderr@ + encode_utf8(
                warning_line(old(self).mode, *warning),
            ),
    {
        let line = match self.mode {
            OutputMode::Text => {
                let mut line = String::from_str("warning: ");
                line.append(warning.warning_code.as_str());
                line.append("\n");
                line
            },
            OutputMode::Json => warning_json(warning),
        };
        push_line(&mut self.stderr, &line);
        Ok(())
    }

    /// Flushes both buffers: the rendered bytes stay as they are.
    pub fn flush(&mut self) -> (r: Result<(), std::io::Error>)
        ensures
            r is Ok,
            final(self).stdout@ == old(self).stdout@,
            final(self).stderr@ == old(self).stderr@,
            final(self).mode == old(self).mode,
    {
        Ok(())
    }
}

// ---------------------------------------------------------------------------
// Error mapping
// ---------------------------------------------------------------------------

/// The error code and category under which each error is reported.
pub open spec fn diagnostic_class(error: AppError) -> (ErrorCode, DiagnosticCategory) {
    match error {
        AppError::Usage(_) => (ErrorCode::EUsage, DiagnosticCategory::Usage),
        AppError::Configuration(_) | AppError::ConfigurationLayer(_) => (
            ErrorCode::EConfiguration,
            DiagnosticCategory::Configuration,
        ),
        AppError::InputLayer(_) | AppError::Schema(_) => (
            ErrorCode::ESchema,
            DiagnosticCategory::LocalInput,
        ),
        AppError::ProjectionLayer(p) => if p is ServerJson {
            (ErrorCode::EApiIncompatible, DiagnosticCategory::Compatibility)
        } else {
            (ErrorCode::EInternal, DiagnosticCategory::Internal)
        },
        AppError::ParseLayer(p) => if p is Yaml || p is JsonConversion || p is RestrictedYaml {
            (ErrorCode::EYamlParse, DiagnosticCategory::LocalInput)
        } else {
            (ErrorCode::ESchema, DiagnosticCategory::LocalInput)
        },
        AppError::YamlParse(_) => (ErrorCode::EYamlParse, DiagnosticCategory::LocalInput),
        AppError::Authentication(_) => (
            ErrorCode::EAuthentication,
            DiagnosticCategory::Authentication,
        ),
        AppError::AuthLayer(a) => if a is Dispatch || a is ResponseBody {
            (ErrorCode::EConnectivity, DiagnosticCategory::Connectivity)
        } else {
            (ErrorCode::EAuthentication, DiagnosticCategory::Authentication)
        },
        AppError::Authorization(_) => (ErrorCode::EAuthorization, DiagnosticCategory::Authorization),
        AppError::VisibilityUnproven(_) => (
            ErrorCode::EVisibilityUnproven,
            DiagnosticCategory::Authorization,
        ),
        AppError::Connectivity(_) => (ErrorCode::EConnectivity, DiagnosticCategory::Connectivity),
        AppError::TransportLayer(t) => if t is MutationDispatch {
            (ErrorCode::EWriteUncertain, DiagnosticCategory::Reconciliation)
        } else if t is ResponseJson || t is ResponseShape {
            (ErrorCode::EApiIncompatible, DiagnosticCategory::Compatibility)
        } else if t is ClientBuild || t is InvalidRoute {
            (ErrorCode::EInternal, DiagnosticCategory::Internal)
        } else {
            (ErrorCode::EConnectivity, DiagnosticCategory::Connectivity)
        },
        AppError::ApiIncompatible(_) => (
            ErrorCode::EApiIncompatible,
            DiagnosticCategory::Compatibility,
        ),
        AppError::ServerRejected(_) => (
            ErrorCode::EServerRejected,
            DiagnosticCategory::ServerRejection,
        ),
        AppError::WriteUncertain(_) => (
            ErrorCode::EWriteUncertain,
            DiagnosticCategory::Reconciliation,
        ),
        AppError::WriteVerificationUnavailable(_) => (
            ErrorCode::EWriteVerificationUnavailable,
            DiagnosticCategory::Connectivity,
        ),
        AppError::WriteVerificationIncompatible(_) => (
            ErrorCode::EWriteVerificationIncompatible,
            DiagnosticCategory::Compatibility,
        ),
        AppError::Timeout(_) => (ErrorCode::EConnectivity, DiagnosticCategory::Connectivity),
        AppError::Internal(_) => (ErrorCode::EInternal, DiagnosticCategory::Internal),
        AppError::Reconciliation(_) => (
            ErrorCode::EAmbiguousIdentity,
            DiagnosticCategory::Reconciliation,
        ),
        AppError::MissingReference(_) => (
            ErrorCode::EMissingReference,
            DiagnosticCategory::Reconciliation,
        ),
        AppError::ResolutionUnstable(_) => (
            ErrorCode::EResolutionUnstable,
            DiagnosticCategory::Reconciliation,
        ),
        AppError::IdentityMarkerInvalid(_) => (
            ErrorCode::EIdentityMarkerInvalid,
            DiagnosticCategory::Reconciliation,
        ),
        AppError::EntityNotFound => (ErrorCode::EEntityNotFound, DiagnosticCategory::Reconciliation),
        AppError::EntityNotExportable => (
            ErrorCode::EEntityNotExportable,
            DiagnosticCategory::Reconciliation,
        ),
        AppError::SaveLayer(v) => if v is OutputExists {
            (ErrorCode::EOutputExists, DiagnosticCategory::LocalInput)
        } else if v is OutputPath {
            (ErrorCode::EOutputPath, DiagnosticCategory::LocalInput)
        } else if v is OutputWrite {
            (ErrorCode::EOutputWrite, DiagnosticCategory::LocalInput)
        } else if v is Incompatible {
            (ErrorCode::EApiIncompatible, DiagnosticCategory::Compatibility)
        } else {
            (ErrorCode::EInternal, DiagnosticCategory::Internal)
        },
        AppError::ApplicationLayer(_) => (ErrorCode::EInternal, DiagnosticCategory::Internal),
        AppError::WorkflowAlreadyMarked => (
            ErrorCode::EWorkflowAlreadyMarked,
            DiagnosticCategory::Reconciliation,
        ),
    }
}

/// The diagnostic of an error: its closed code, category and exit code; the
/// error's own text never reaches the record.
pub fn diagnostic_from_app_error(error: &AppError) -> (d: DiagnosticInput)
    ensures
        d.error_code == diagnostic_class(*error).0,
        d.category == diagnostic_class(*error).1,
        d.exit_code == exit_code_of(*error),
        d.source is None,
        d.http is None,
        d.request_id is None,
        d.server_correlation_id is None,
{
    let (error_code, category) = match error {
        AppError::Usage(_) => (ErrorCode::EUsage, DiagnosticCategory::Usage),
        AppError::Configuration(_) | AppError::ConfigurationLayer(_) => (
            ErrorCode::EConfiguration,
            DiagnosticCategory::Configuration,
        ),
        AppError::InputLayer(_) | AppError::Schema(_) => (
            ErrorCode::ESchema,
            DiagnosticCategory::LocalInput,
        ),
        AppError::ProjectionLayer(p) => if p.is_compatibility() {
            (ErrorCode::EApiIncompatible, DiagnosticCategory::Compatibility)
        } else {
            (ErrorCode::EInternal, DiagnosticCategory::Internal)
        },
        AppError::ParseLayer(p) => if p.is_yaml() {
            (ErrorCode::EYamlParse, DiagnosticCategory::LocalInput)
        } else {
            (ErrorCode::ESchema, DiagnosticCategory::LocalInput)
        },
        AppError::YamlParse(_) => (ErrorCode::EYamlParse, DiagnosticCategory::LocalInput),
        AppError::Authentication(_) => (
            ErrorCode::EAuthentication,
            DiagnosticCategory::Authentication,
        ),
        AppError::AuthLayer(a) => if a.is_connectivity() {
            (ErrorCode::EConnectivity, DiagnosticCategory::Connectivity)
        } else {
            (ErrorCode::EAuthentication, DiagnosticCategory::Authentication)
        },
        AppError::Authorization(_) => (ErrorCode::EAuthorization, DiagnosticCategory::Authorization),
        AppError::VisibilityUnproven(_) => (
            ErrorCode::EVisibilityUnproven,
            DiagnosticCategory::Authorization,
        ),
        AppError::Connectivity(_) => (ErrorCode::EConnectivity, DiagnosticCategory::Connectivity),
        AppError::TransportLayer(t) => if t.is_write_uncertain() {
            (ErrorCode::EWriteUncertain, DiagnosticCategory::Reconciliation)
        } else if t.is_compatibility() {
            (ErrorCode::EApiIncompatible, DiagnosticCategory::Compatibility)
        } else if t.is_internal() {
            (ErrorCode::EInternal, DiagnosticCategory::Internal)
        } else {
            (ErrorCode::EConnectivity, DiagnosticCategory::Connectivity)
        },
        AppError::ApiIncompatible(_) => (
            ErrorCode::EApiIncompatible,
            DiagnosticCategory::Compatibility,
        ),
        AppError::ServerRejected(_) => (
            ErrorCode::EServerRejected,
            DiagnosticCategory::ServerRejection,
        ),
        AppError::WriteUncertain(_) => (
            ErrorCode::EWriteUncertain,
            DiagnosticCategory::Reconciliation,
        ),
        AppError::WriteVerificationUnavailable(_) => (
            ErrorCode::EWriteVerificationUnavailable,
            DiagnosticCategory::Connectivity,
        ),
        AppError::WriteVerificationIncompatible(_) => (
            ErrorCode::EWriteVerificationIncompatible,
            DiagnosticCategory::Compatibility,
        ),
        AppError::Timeout(_) => (ErrorCode::EConnectivity, DiagnosticCategory::Connectivity),
        AppError::Internal(_) => (ErrorCode::EInternal, DiagnosticCategory::Internal),
        AppError::Reconciliation(_) => (
            ErrorCode::EAmbiguousIdentity,
            DiagnosticCategory::Reconciliation,
        ),
        AppError::MissingReference(_) => (
            ErrorCode::EMissingReference,
            DiagnosticCategory::Reconciliation,
        ),
        AppError::ResolutionUnstable(_) => (
            ErrorCode::EResolutionUnstable,
            DiagnosticCategory::Reconciliation,
        ),
        AppError::IdentityMarkerInvalid(_) => (
            ErrorCode::EIdentityMarkerInvalid,
            DiagnosticCategory::Reconciliation,
        ),
        AppError::EntityNotFound => (ErrorCode::EEntityNotFound, DiagnosticCategory::Reconciliation),
        AppError::EntityNotExportable => (
            ErrorCode::EEntityNotExportable,
            DiagnosticCategory::Reconciliation,
        ),
        AppError::SaveLayer(v) => if v.is_output_exists() {
            (ErrorCode::EOutputExists, DiagnosticCategory::LocalInput)
        } else if v.is_output_path() {
            (ErrorCode::EOutputPath, DiagnosticCategory::LocalInput)
        } else if v.is_output_write() {
            (ErrorCode::EOutputWrite, DiagnosticCategory::LocalInput)
        } else if v.is_compatibility() {
            (ErrorCode::EApiIncompatible, DiagnosticCategory::Compatibility)
        } else {
            (ErrorCode::EInternal, DiagnosticCategory::Internal)
        },
        AppError::ApplicationLayer(_) => (ErrorCode::EInternal, DiagnosticCategory::Internal),
        AppError::WorkflowAlreadyMarked => (
            ErrorCode::EWorkflowAlreadyMarked,
            DiagnosticCategory::Reconciliation,
        ),
    };
    DiagnosticInput {
        error_code,
        category,
        exit_code: error.exit_code(),
        source: None,
        http: None,
        request_id: None,
        server_correlation_id: None,
    }
}

// ---------------------------------------------------------------------------
// Laws
// ---------------------------------------------------------------------------

/// An error ends the invocation with exit code 1 exactly when it is reported
/// in the reconciliation or server-rejection category; every other error
/// exits with 2.
pub proof fn law_exit_code_follows_category(error: AppError)
    ensures
        (exit_code_of(error) == 1) <==> (diagnostic_class(error).1 == DiagnosticCategory::Reconciliation
            || diagnostic_class(error).1 == DiagnosticCategory::ServerRejection),
        exit_code_of(error) == 1 || exit_code_of(error) == 2,
{
}

/// A line that ends in a line feed and holds none before it is one record.
proof fn lemma_single_line(body: Seq<char>)
    requires
        !holds_char(body, '\n'),
    ensures
        single_line(body + "\n"@),
{
    reveal_strlit("\n");
    assert((body + "\n"@).drop_last() =~= body);
}

/// No error code spelling holds a line feed.
proof fn lemma_error_code_plain(code: ErrorCode)
    ensures
        !holds_char(error_code_text(code), '\n'),
{
    match code {
        ErrorCode::EAmbiguousIdentity => reveal_strlit("E_AMBIGUOUS_IDENTITY"),
        ErrorCode::EIdentityMarkerInvalid => reveal_strlit("E_IDENTITY_MARKER_INVALID"),
        ErrorCode::EResolutionUnstable => reveal_strlit("E_RESOLUTION_UNSTABLE"),
        ErrorCode::EAdoptionRequired => reveal_strlit("E_ADOPTION_REQUIRED"),
        ErrorCode::EMissingReference => reveal_strlit("E_MISSING_REFERENCE"),
        ErrorCode::EWriteUncertain => reveal_strlit("E_WRITE_UNCERTAIN"),
        ErrorCode::EEntityNotFound => reveal_strlit("E_ENTITY_NOT_FOUND"),
        ErrorCode::EEntityNotExportable => reveal_strlit("E_ENTITY_NOT_EXPORTABLE"),
        ErrorCode::EOutputExists => reveal_strlit("E_OUTPUT_EXISTS"),
        ErrorCode::EOutputPath => reveal_strlit("E_OUTPUT_PATH"),
        ErrorCode::EOutputWrite => reveal_strlit("E_OUTPUT_WRITE"),
        ErrorCode::EWorkflowAlreadyMarked => reveal_strlit("E_WORKFLOW_ALREADY_MARKED"),
        ErrorCode::EServerRejected => reveal_strlit("E_SERVER_REJECTED"),
        ErrorCode::EUsage => reveal_strlit("E_USAGE"),
        ErrorCode::EYamlParse => reveal_strlit("E_YAML_PARSE"),
        ErrorCode::ESchema => reveal_strlit("E_SCHEMA"),
        ErrorCode::ESemantic => reveal_strlit("E_SEMANTIC"),
        ErrorCode::EReference => reveal_strlit("E_REFERENCE"),
        ErrorCode::ESidecar => reveal_strlit("E_SIDECAR"),
        ErrorCode::EConfiguration => reveal_strlit("E_CONFIGURATION"),
        ErrorCode::EAuthentication => reveal_strlit("E_AUTHENTICATION"),
        ErrorCode::ETokenExpired => reveal_strlit("E_TOKEN_EXPIRED"),
        ErrorCode::ELocalAuthUnavailable => reveal_strlit("E_LOCAL_AUTH_UNAVAILABLE"),
        ErrorCode::ERateLimited => reveal_strlit("E_RATE_LIMITED"),
        ErrorCode::EAuthorization => reveal_strlit("E_AUTHORIZATION"),
        ErrorCode::EVisibilityUnproven => reveal_strlit("E_VISIBILITY_UNPROVEN"),
        ErrorCode::EWriteForbidden => reveal_strlit("E_WRITE_FORBIDDEN"),
        ErrorCode::EApiIncompatible => reveal_strlit("E_API_INCOMPATIBLE"),
        ErrorCode::EWriteVerificationIncompatible => reveal_strlit("E_WRITE_VERIFICATION_INCOMPATIBLE"),
        ErrorCode::EConnectivity => reveal_strlit("E_CONNECTIVITY"),
        ErrorCode::EServerUnavailable => reveal_strlit("E_SERVER_UNAVAILABLE"),
        ErrorCode::ETimeout => reveal_strlit("E_TIMEOUT"),
        ErrorCode::EWriteVerificationUnavailable => reveal_strlit("E_WRITE_VERIFICATION_UNAVAILABLE"),
        ErrorCode::EInternal => reveal_strlit("E_INTERNAL"),
    }
}

/// The fixed punctuation of the JSON records holds no line feed.
proof fn lemma_punctuation_plain()
    ensures
        !holds_char("{"@, '\n'),
        !holds_char("}"@, '\n'),
        !holds_char(","@, '\n'),
        !holds_char(":"@, '\n'),
        !holds_char("true"@, '\n'),
{
    reveal_strlit("{");
    reveal_strlit("}");
    reveal_strlit(",");
    reveal_strlit(":");
    reveal_strlit("true");
}

/// Every JSON member built from a plain value holds no line feed.
proof fn lemma_member_plain(name: Seq<char>, value: Seq<char>)
    requires
        !holds_char(value, '\n'),
    ensures
        !holds_char(json_member(name, value), '\n'),
{
    broadcast use crate::json::lemma_holds_char_concat, crate::json::lemma_quoted_no_newline;

    lemma_punctuation_plain();
}

/// Every JSON outcome is exactly one line, whatever the project and key hold.
pub proof fn law_json_outcome_is_one_line(
    action: Action,
    kind: EntityKind,
    project: Seq<char>,
    key: EntityKey,
    adoption_required: bool,
)
    ensures
        single_line(outcome_json_line(action, kind, project, key, adoption_required)),
{
    broadcast use crate::json::lemma_holds_char_concat, crate::json::lemma_quoted_no_newline;

    lemma_punctuation_plain();
    lemma_member_plain("action"@, json_quoted(action_text(action)));
    lemma_member_plain("kind"@, json_quoted(kind_text(kind)));
    lemma_member_plain("adoptionRequired"@, "true"@);
    lemma_member_plain("project"@, json_quoted(project));
    lemma_member_plain(key_field_name(key), json_quoted(key_value(key)));
    let body = "{"@ + string_member("action"@, action_text(action)) + adoption_member(
        adoption_required,
    ) + ","@ + string_member("kind"@, kind_text(kind)) + ","@ + identity_members(project, key)
        + "}"@;
    assert(!holds_char(body, '\n'));
    lemma_single_line(body);
}

/// A text outcome is exactly one line when its project and key hold no
/// line feed (declaration validation refuses control characters there).
pub proof fn law_text_outcome_is_one_line(
    action: Action,
    kind: EntityKind,
    project: Seq<char>,
    key: EntityKey,
    adoption_required: bool,
)
    requires
        !holds_char(project, '\n'),
        !holds_char(key_value(key), '\n'),
    ensures
        single_line(outcome_text_line(action, kind, project, key, adoption_required)),
{
    broadcast use crate::json::lemma_holds_char_concat;

    reveal_strlit(" ");
    reveal_strlit("/");
    reveal_strlit(" (adoption required on apply)");
    reveal_strlit("");
    match action {
        Action::Valid => reveal_strlit("valid"),
        Action::Created => reveal_strlit("created"),
        Action::Updated => reveal_strlit("updated"),
        Action::Saved => reveal_strlit("saved"),
    }
    match kind {
        EntityKind::Assistant => reveal_strlit("Assistant"),
        EntityKind::Workflow => reveal_strlit("Workflow"),
        EntityKind::Skill => reveal_strlit("Skill"),
        EntityKind::Datasource => reveal_strlit("Datasource"),
    }
    let body = action_text(action) + " "@ + kind_text(kind) + " "@ + project + "/"@ + key_value(
        key,
    ) + adoption_note(adoption_required);
    assert(!holds_char(body, '\n'));
    lemma_single_line(body);
}

/// Every diagnostic is exactly one line, in either mode.
pub proof fn law_diagnostic_is_one_line(mode: OutputMode, d: DiagnosticInput)
    ensures
        single_line(diagnostic_line(mode, d)),
{
    broadcast use crate::json::lemma_holds_char_concat, crate::json::lemma_quoted_no_newline,
        crate::json::lemma_int_decimal_no_newline;

    lemma_punctuation_plain();
    match mode {
        OutputMode::Text => {
            reveal_strlit("error: ");
            lemma_error_code_plain(d.error_code);
            lemma_single_line("error: "@ + error_code_text(d.error_code));
        },
        OutputMode::Json => {
            match d.source {
                Some(loc) => {
                    match loc.line {
                        Some(n) => lemma_member_plain("line"@, int_decimal(n as int)),
                        None => {},
                    }
                    match loc.column {
                        Some(n) => lemma_member_plain("column"@, int_decimal(n as int)),
                        None => {},
                    }
                    match loc.field_path {
                        Some(p) => lemma_member_plain("fieldPath"@, json_quoted(p.text())),
                        None => {},
                    }
                    lemma_member_plain("file"@, json_quoted(loc.file.text()));
                    assert(!holds_char(source_json(loc), '\n'));
                    lemma_member_plain("source"@, source_json(loc));
                },
                None => {},
            }
            match d.http {
                Some(h) => {
                    lemma_member_plain("status"@, int_decimal(h.status.code() as int));
                    lemma_member_plain("method"@, json_quoted(method_text(h.method)));
                    lemma_member_plain("routeTemplate"@, json_quoted(h.route_template.text()));
                    assert(!holds_char(http_json(h), '\n'));
                    lemma_member_plain("http"@, http_json(h));
                },
                None => {},
            }
            match d.request_id {
                Some(id) => lemma_member_plain("requestId"@, json_quoted(id.text())),
                None => {},
            }
            match d.server_correlation_id {
                Some(id) => lemma_member_plain("serverCorrelationId"@, json_quoted(id.text())),
                None => {},
            }
            lemma_member_plain("errorCode"@, json_quoted(error_code_text(d.error_code)));
            lemma_member_plain("category"@, json_quoted(category_text(d.category)));
            lemma_member_plain("exitCode"@, int_decimal(d.exit_code as int));
            let body = "{"@ + string_member("errorCode"@, error_code_text(d.error_code)) + ","@
                + string_member("category"@, category_text(d.category)) + ","@ + json_member(
                "exitCode"@,
                int_decimal(d.exit_code as int),
            ) + optional_source_member(d.source) + optional_http_member(d.http)
                + optional_id_member("requestId"@, d.request_id) + optional_id_member(
                "serverCorrelationId"@,
                d.server_correlation_id,
            ) + "}"@;
            assert(!holds_char(body, '\n'));
            lemma_single_line(body);
        },
    }
}

/// Every warning is exactly one line, in either mode.
pub proof fn law_warning_is_one_line(mode: OutputMode, w: WarningInput)
    ensures
        single_line(warning_line(mode, w)),
{
    broadcast use crate::json::lemma_holds_char_concat, crate::json::lemma_quoted_no_newline,
        crate::json::lemma_int_decimal_no_newline;

    lemma_punctuation_plain();
    match mode {
        OutputMode::Text => {
            reveal_strlit("warning: ");
            reveal_strlit("W_SUSPECTED_PLAINTEXT_SECRET");
            reveal_strlit("W_DEPRECATED_VALUE");
            let body = "warning: "@ + warning_code_text(w.warning_code);
            assert(!holds_char(body, '\n'));
            lemma_single_line(body);
        },
        OutputMode::Json => {
            let s = w.source;
            match s.line {
                Some(n) => lemma_member_plain("line"@, int_decimal(n as int)),
                None => {},
            }
            match s.column {
                Some(n) => lemma_member_plain("column"@, int_decimal(n as int)),
                None => {},
            }
            lemma_member_plain("file"@, json_quoted(s.file.text()));
            lemma_member_plain("fieldPath"@, json_quoted(s.field_path.text()));
            assert(!holds_char(warning_source_json(s), '\n'));
            lemma_member_plain("source"@, warning_source_json(s));
            lemma_member_plain("warningCode"@, json_quoted(warning_code_text(w.warning_code)));
            lemma_member_plain("category"@, json_quoted(warning_category_text(w.category)));
            let body = "{"@ + string_member("warningCode"@, warning_code_text(w.warning_code))
                + ","@ + string_member("category"@, warning_category_text(w.category)) + ","@
                + json_member("source"@, warning_source_json(w.source)) + "}"@;
            assert(!holds_char(body, '\n'));
            lemma_single_line(body);
        },
    }
}

/// An upper-case ASCII letter or an underscore.
pub open spec fn is_code_char(c: char) -> bool {
    ('A' <= c && c <= 'Z') || c == '_'
}

/// Every error code is spelled `E_` followed by upper-case ASCII letters
/// and underscores, and no two codes share a spelling.
#[verifier::rlimit(50)]
pub proof fn law_error_code_spellings(c1: ErrorCode, c2: ErrorCode)
    ensures
        error_code_text(c1).len() > 2,
        error_code_text(c1)[0] == 'E' && error_code_text(c1)[1] == '_',
        forall|i: int| 0 <= i < error_code_text(c1).len() ==> is_code_char(#[trigger] error_code_text(c1)[i]),
        c1 != c2 ==> error_code_text(c1) != error_code_text(c2),
{
    reveal_strlit("E_AMBIGUOUS_IDENTITY");
    reveal_strlit("E_IDENTITY_MARKER_INVALID");
    reveal_strlit("E_RESOLUTION_UNSTABLE");
    reveal_strlit("E_ADOPTION_REQUIRED");
    reveal_strlit("E_MISSING_REFERENCE");
    reveal_strlit("E_WRITE_UNCERTAIN");
    reveal_strlit("E_ENTITY_NOT_FOUND");
    reveal_strlit("E_ENTITY_NOT_EXPORTABLE");
    reveal_strlit("E_OUTPUT_EXISTS");
    reveal_strlit("E_OUTPUT_PATH");
    reveal_strlit("E_OUTPUT_WRITE");
    reveal_strlit("E_WORKFLOW_ALREADY_MARKED");
    reveal_strlit("E_SERVER_REJECTED");
    reveal_strlit("E_USAGE");
    reveal_strlit("E_YAML_PARSE");
    reveal_strlit("E_SCHEMA");
    reveal_strlit("E_SEMANTIC");
    reveal_strlit("E_REFERENCE");
    reveal_strlit("E_SIDECAR");
    reveal_strlit("E_CONFIGURATION");
    reveal_strlit("E_AUTHENTICATION");
    reveal_strlit("E_TOKEN_EXPIRED");
    reveal_strlit("E_LOCAL_AUTH_UNAVAILABLE");
    reveal_strlit("E_RATE_LIMITED");
    reveal_strlit("E_AUTHORIZATION");
    reveal_strlit("E_VISIBILITY_UNPROVEN");
    reveal_strlit("E_WRITE_FORBIDDEN");
    reveal_strlit("E_API_INCOMPATIBLE");
    reveal_strlit("E_WRITE_VERIFICATION_INCOMPATIBLE");
    reveal_strlit("E_CONNECTIVITY");
    reveal_strlit("E_SERVER_UNAVAILABLE");
    reveal_strlit("E_TIMEOUT");
    reveal_strlit("E_WRITE_VERIFICATION_UNAVAILABLE");
    reveal_strlit("E_INTERNAL");
    if c1 != c2 {
        assert(error_code_text(c1).len() != error_code_text(c2).len() || error_code_text(c1)[8]
            != error_code_text(c2)[8]);
    }
}

} // verus!
