use vstd::prelude::*;

use crate::render::InvalidOutputField;

verus! {

/// Typed configuration-source or validated-origin failure.
#[derive(Debug, Clone, PartialEq, Eq)]
pub enum ConfigError {
    /// The URL holds C0 or C1 control characters.
    ControlCharacters,
    /// The URL is not syntactically valid.
    Syntax,
    /// The URL violates the origin policy; the text names the rule.
    Policy(&'static str),
}

/// Typed parser failure; the path names the declaration file.
#[derive(Debug, Clone, PartialEq, Eq)]
pub enum ParseError {
    /// The YAML text is malformed.
    Yaml { path: String },
    /// A YAML value cannot be represented as JSON.
    JsonConversion { path: String },
    /// The validated declaration does not match its typed form.
    TypedDeclaration,
    /// The restricted YAML event scan failed.
    RestrictedYaml { path: String },
    /// The `contentFrom` sidecar is not UTF-8.
    SidecarUtf8 { path: String },
}

impl ParseError {
    /// Whether the failure is a YAML-level failure (as opposed to a schema one).
    pub fn is_yaml(&self) -> (r: bool)
        ensures
            r == (self is Yaml || self is JsonConversion || self is RestrictedYaml),
    {
        match self {
            ParseError::Yaml { .. } | ParseError::JsonConversion { .. } | ParseError::RestrictedYaml { .. } => true,
            _ => false,
        }
    }
}

/// Typed HTTP transport or response failure.
#[derive(Debug, Clone, PartialEq, Eq)]
pub enum TransportError {
    /// The HTTP client could not be constructed.
    ClientBuild,
    /// A read request could not reach the server.
    ReadDispatch,
    /// A modifying request was dispatched but its outcome is unknown.
    MutationDispatch,
    /// The response body could not be read.
    ResponseBody,
    /// The response is not valid strict JSON.
    ResponseJson,
    /// The response JSON does not match the operation's shape.
    ResponseShape,
    /// The API route is invalid.
    InvalidRoute,
}

impl TransportError {
    /// A modifying request may have committed.
    pub fn is_write_uncertain(&self) -> (r: bool)
        ensures
            r == (self is MutationDispatch),
    {
        match self {
            TransportError::MutationDispatch => true,
            _ => false,
        }
    }

    /// The server answered outside the pinned contract.
    pub fn is_compatibility(&self) -> (r: bool)
        ensures
            r == (self is ResponseJson || self is ResponseShape),
    {
        match self {
            TransportError::ResponseJson | TransportError::ResponseShape => true,
            _ => false,
        }
    }

    /// A local invariant failed.
    pub fn is_internal(&self) -> (r: bool)
        ensures
            r == (self is ClientBuild || self is InvalidRoute),
    {
        match self {
            TransportError::ClientBuild | TransportError::InvalidRoute => true,
            _ => false,
        }
    }
}

/// Typed authentication transport or decoding failure.
#[derive(Debug, Clone, PartialEq, Eq)]
pub enum AuthError {
    /// The authentication client could not be constructed.
    ClientBuild,
    /// The authentication endpoint is unreachable.
    Dispatch,
    /// The authentication response could not be read.
    ResponseBody,
    /// The authentication response does not match the token contract.
    TokenResponse,
}

impl AuthError {
    /// Whether the failure is a connectivity failure.
    pub fn is_connectivity(&self) -> (r: bool)
        ensures
            r == (self is Dispatch || self is ResponseBody),
    {
        match self {
            AuthError::Dispatch | AuthError::ResponseBody => true,
            _ => false,
        }
    }
}

/// Typed failure of `save` publication.
#[derive(Debug, Clone, PartialEq, Eq)]
pub enum SaveError {
    /// The output path already exists.
    OutputExists,
    /// The output path is not usable (for example its parent is missing).
    OutputPath,
    /// Writing the new output file failed.
    OutputWrite,
    /// The server state read for saving is outside the pinned contract.
    Incompatible,
    /// A local invariant failed while projecting the saved declaration.
    Internal,
}

impl SaveError {
    pub fn is_output_exists(&self) -> (r: bool)
        ensures
            r == (self is OutputExists),
    {
        match self {
            SaveError::OutputExists => true,
            _ => false,
        }
    }

    pub fn is_output_path(&self) -> (r: bool)
        ensures
            r == (self is OutputPath),
    {
        match self {
            SaveError::OutputPath => true,
            _ => false,
        }
    }

    pub fn is_output_write(&self) -> (r: bool)
        ensures
            r == (self is OutputWrite),
    {
        match self {
            SaveError::OutputWrite => true,
            _ => false,
        }
    }

    pub fn is_compatibility(&self) -> (r: bool)
        ensures
            r == (self is Incompatible),
    {
        match self {
            SaveError::Incompatible => true,
            _ => false,
        }
    }
}

/// Typed request-projection failure; the text names what was being encoded.
#[derive(Debug, Clone, PartialEq, Eq)]
pub enum ProjectionError {
    /// A projected value could not be encoded as JSON.
    Encode { context: &'static str },
    /// A server-supplied value is not valid JSON.
    ServerJson { context: &'static str },
    /// A projected value could not be encoded as YAML.
    YamlEncode { context: &'static str },
}

impl ProjectionError {
    /// Only invalid server JSON is a compatibility failure.
    pub fn is_compatibility(&self) -> (r: bool)
        ensures
            r == (self is ServerJson),
    {
        match self {
            ProjectionError::ServerJson { .. } => true,
            _ => false,
        }
    }
}

/// Which bounded input a read concerns.
#[derive(Debug, Clone, Copy, PartialEq, Eq)]
pub enum InputKind {
    Selected,
    Skill,
    File,
}

/// Typed failure of the explicit input loader.
#[derive(Debug, Clone, PartialEq, Eq)]
pub enum InputError {
    OpenSelected,
    SelectedNotRegular,
    SelectedUtf8,
    DeclarationParent,
    UnsafeAuxiliary,
    OpenAuxiliary,
    AuxiliarySymlink,
    AuxiliaryNotRegular,
    UnsafeBasename,
    Read { kind: InputKind },
    NotRegular { kind: InputKind },
    TooLarge { kind: InputKind },
}

/// Typed orchestration failure.
#[derive(Debug, Clone, PartialEq, Eq)]
pub enum ApplicationError {
    /// A blocking worker failed; the text names the operation.
    Worker { operation: &'static str },
    /// A validated output context could not be constructed.
    OutputField(InvalidOutputField),
    /// JSON encoding failed; the text names the operation.
    JsonEncoding { operation: &'static str },
    /// JSON decoding failed; the text names the operation.
    JsonDecoding { operation: &'static str },
}

/// Top-level error of one invocation.
///
/// Every variant maps to exit code 1 (reconciliation and server rejection)
/// or 2 (every other failure class).
#[derive(Debug, Clone, PartialEq, Eq)]
pub enum AppError {
    ConfigurationLayer(ConfigError),
    ParseLayer(ParseError),
    TransportLayer(TransportError),
    AuthLayer(AuthError),
    SaveLayer(SaveError),
    ProjectionLayer(ProjectionError),
    InputLayer(InputError),
    ApplicationLayer(ApplicationError),
    /// E_USAGE: unrecognised or forbidden CLI flag or option.
    Usage(String),
    /// E_CONFIGURATION: invalid or missing configuration value.
    Configuration(String),
    /// E_SCHEMA: the declaration fails closed schema or semantic rules.
    Schema(String),
    /// E_YAML_PARSE: the YAML is not well-formed or restricted.
    YamlParse(String),
    /// E_AUTHENTICATION: credential or auth-endpoint failure.
    Authentication(String),
    /// E_AUTHORIZATION: the principal lacks a required permission.
    Authorization(String),
    /// E_VISIBILITY_UNPROVEN: the visibility preflight failed.
    VisibilityUnproven(String),
    /// E_CONNECTIVITY: network unreachable, timeout, or TLS failure.
    Connectivity(String),
    /// E_API_INCOMPATIBLE: the server violates the pinned contract.
    ApiIncompatible(String),
    /// E_SERVER_REJECTED: the server rejected a modifying request.
    ServerRejected(String),
    /// E_WRITE_UNCERTAIN: a modifying request may have committed.
    WriteUncertain(String),
    /// E_WRITE_VERIFICATION_UNAVAILABLE: post-write verification could not run.
    WriteVerificationUnavailable(String),
    /// E_WRITE_VERIFICATION_INCOMPATIBLE: post-write verification was incompatible.
    WriteVerificationIncompatible(String),
    /// E_TIMEOUT: the invocation exceeded its deadline.
    Timeout(String),
    /// E_INTERNAL: local invariant violation.
    Internal(String),
    /// Reconciliation failure: ambiguity, adoption required, uncertainty.
    Reconciliation(String),
    /// E_MISSING_REFERENCE: a referenced entity is absent on the server.
    MissingReference(String),
    /// E_RESOLUTION_UNSTABLE: identity resolution did not stabilise.
    ResolutionUnstable(String),
    /// E_IDENTITY_MARKER_INVALID: the target holds an invalid identity marker.
    IdentityMarkerInvalid(String),
    /// E_ENTITY_NOT_FOUND: the selected server entity does not exist.
    EntityNotFound,
    /// E_ENTITY_NOT_EXPORTABLE: the server state cannot be reconstructed.
    EntityNotExportable,
    /// E_WORKFLOW_ALREADY_MARKED: explicit ID selection found a marker.
    WorkflowAlreadyMarked,
}

/// The errors that end an invocation with exit code 1.
pub open spec fn exits_with_one(error: AppError) -> bool {
    match error {
        AppError::TransportLayer(t) => t is MutationDispatch,
        AppError::Reconciliation(_) | AppError::MissingReference(_)
        | AppError::ResolutionUnstable(_) | AppError::IdentityMarkerInvalid(_)
        | AppError::EntityNotFound | AppError::EntityNotExportable
        | AppError::WorkflowAlreadyMarked | AppError::ServerRejected(_)
        | AppError::WriteUncertain(_) => true,
        _ => false,
    }
}

/// The exit code of an error.
pub open spec fn exit_code_of(error: AppError) -> i32 {
    if exits_with_one(error) {
        1
    } else {
        2
    }
}

impl AppError {
    /// Maps the error to the CLI contract exit code.
    pub fn exit_code(&self) -> (code: i32)
        ensures
            code == exit_code_of(*self),
            code == 1 || code == 2,
    {
        match self {
            AppError::TransportLayer(error) => {
                if error.is_write_uncertain() {
                    1
                } else {
                    2
                }
            },
            AppError::Reconciliation(_) | AppError::MissingReference(_)
            | AppError::ResolutionUnstable(_) | AppError::IdentityMarkerInvalid(_)
            | AppError::EntityNotFound | AppError::EntityNotExportable
            | AppError::WorkflowAlreadyMarked | AppError::ServerRejected(_)
            | AppError::WriteUncertain(_) => 1,
            _ => 2,
        }
    }
}

} // verus!
