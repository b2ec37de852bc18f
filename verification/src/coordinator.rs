use vstd::prelude::*;

use crate::adapters::ApplyAction;
use crate::config::ValidatedUrl;
use crate::domain::is_uuid_hyphen_position;
use crate::error::AppError;
use crate::kind::EntityKind;
use crate::output::{Action, Outcome};
use crate::parse::{ParsedDeclaration, nested_str, nested_text};

verus! {

/// The deadline of one invocation, in seconds.
pub const INVOCATION_DEADLINE_SECS: u64 = 300;

/// The validated inputs of one apply invocation.
pub struct ApplyCommand {
    pub file: std::path::PathBuf,
    pub repo_root: std::path::PathBuf,
    pub base_url: ValidatedUrl,
    pub token: String,
    pub default_project: Option<String>,
    pub follow_symlinks: bool,
    pub adopt_workflow_id: Option<String>,
}

/// The identity an apply targets.
#[derive(Debug, Clone)]
pub enum TargetIdentity {
    Assistant { project: String, slug: String },
    Workflow { project: String, slug: String },
    Skill { project: String, name: String },
    Datasource { project: String, repo_name: String, index_type: String },
}

impl TargetIdentity {
    /// The project of the identity.
    pub open spec fn project_spec(&self) -> Seq<char> {
        match self {
            TargetIdentity::Assistant { project, .. } => project@,
            TargetIdentity::Workflow { project, .. } => project@,
            TargetIdentity::Skill { project, .. } => project@,
            TargetIdentity::Datasource { project, .. } => project@,
        }
    }

    /// The kind-specific key of the identity.
    pub open spec fn key_spec(&self) -> Seq<char> {
        match self {
            TargetIdentity::Assistant { slug, .. } => slug@,
            TargetIdentity::Workflow { slug, .. } => slug@,
            TargetIdentity::Skill { name, .. } => name@,
            TargetIdentity::Datasource { repo_name, .. } => repo_name@,
        }
    }

    /// The kind of the identity.
    pub open spec fn kind_spec(&self) -> EntityKind {
        match self {
            TargetIdentity::Assistant { .. } => EntityKind::Assistant,
            TargetIdentity::Workflow { .. } => EntityKind::Workflow,
            TargetIdentity::Skill { .. } => EntityKind::Skill,
            TargetIdentity::Datasource { .. } => EntityKind::Datasource,
        }
    }

    /// The success outcome of a completed apply of this identity.
    pub fn success_outcome(&self, action: ApplyAction) -> (o: Outcome)
        ensures
            o.action == (match action {
                ApplyAction::Created => Action::Created,
                ApplyAction::Updated => Action::Updated,
            }),
            o.identity.kind_spec() == self.kind_spec(),
            o.identity.project_spec() == self.project_spec(),
            o.identity.key_spec() == self.key_spec(),
            o.adoption_required is None,
    {
        let action = match action {
            ApplyAction::Created => Action::Created,
            ApplyAction::Updated => Action::Updated,
        };
        match self {
            TargetIdentity::Assistant { project, slug } => Outcome::assistant(action, project.clone(), slug.clone()),
            TargetIdentity::Workflow { project, slug } => Outcome::workflow(action, project.clone(), slug.clone()),
            TargetIdentity::Skill { project, name } => Outcome::new_skill(action, project.clone(), name.clone()),
            TargetIdentity::Datasource { project, repo_name, .. } => Outcome::new_datasource(
                action,
                project.clone(),
                repo_name.clone(),
            ),
        }
    }
}

/// A required non-empty string at `value.outer.inner`.
pub open spec fn required_text(value: crate::json_value::JsonValue, outer: Seq<char>, inner: Seq<char>) -> Option<Seq<char>> {
    match nested_text(value, outer, inner) {
        Some(t) => if t.len() > 0 {
            Some(t)
        } else {
            None
        },
        None => None,
    }
}

/// The required non-empty string at `value.outer.inner`; a missing or
/// empty one is a schema error.
pub fn required_string(value: &crate::json_value::JsonValue, outer: &str, inner: &str) -> (r: Result<String, AppError>)
    ensures
        match required_text(*value, outer@, inner@) {
            Some(t) => r is Ok && r->Ok_0@ == t,
            None => r is Err && r->Err_0 is Schema,
        },
{
    match nested_str(value, outer, inner) {
        Some(text) => {
            if text.is_empty() {
                Err(AppError::Schema("a required identity field is empty".to_owned()))
            } else {
                Ok(text.to_owned())
            }
        },
        None => Err(AppError::Schema("a required identity field is absent".to_owned())),
    }
}

/// Whether the identity fields an apply targets are present: a non-empty
/// `metadata.project`, a non-empty key field and, for a Datasource, a
/// non-empty `spec.index_type`.
pub open spec fn target_fields_present(kind: EntityKind, value: crate::json_value::JsonValue) -> bool {
    &&& required_text(value, "metadata"@, "project"@) is Some
    &&& required_text(value, "metadata"@, crate::parse::key_field(kind)) is Some
    &&& kind == EntityKind::Datasource ==> required_text(value, "spec"@, "index_type"@) is Some
}

/// Reads the identity an apply targets from the declaration's metadata
/// (and, for a Datasource, `spec.index_type`); every field must be a
/// non-empty string.
pub fn target_identity(declaration: &ParsedDeclaration) -> (r: Result<TargetIdentity, AppError>)
    ensures
        r is Ok <==> target_fields_present(declaration.kind, declaration.value),
        (r is Ok && declaration.kind == EntityKind::Datasource) ==> Some(r->Ok_0->Datasource_index_type@)
            == required_text(declaration.value, "spec"@, "index_type"@),
        r is Ok ==> (r->Ok_0.kind_spec() == declaration.kind && Some(r->Ok_0.project_spec())
            == required_text(declaration.value, "metadata"@, "project"@) && Some(r->Ok_0.key_spec())
            == required_text(declaration.value, "metadata"@, crate::parse::key_field(declaration.kind))),
        r is Err ==> r->Err_0 is Schema,
        (required_text(declaration.value, "metadata"@, "project"@) is None || required_text(
            declaration.value,
            "metadata"@,
            crate::parse::key_field(declaration.kind),
        ) is None) ==> r is Err,
{
    let project = required_string(&declaration.value, "metadata", "project")?;
    match declaration.kind {
        EntityKind::Assistant => {
            let slug = required_string(&declaration.value, "metadata", "slug")?;
            Ok(TargetIdentity::Assistant { project, slug })
        },
        EntityKind::Workflow => {
            let slug = required_string(&declaration.value, "metadata", "slug")?;
            Ok(TargetIdentity::Workflow { project, slug })
        },
        EntityKind::Skill => {
            let name = required_string(&declaration.value, "metadata", "name")?;
            Ok(TargetIdentity::Skill { project, name })
        },
        EntityKind::Datasource => {
            let repo_name = required_string(&declaration.value, "metadata", "repo_name")?;
            let index_type = required_string(&declaration.value, "spec", "index_type")?;
            Ok(TargetIdentity::Datasource { project, repo_name, index_type })
        },
    }
}

/// An ASCII hexadecimal digit of either case.
pub open spec fn is_ascii_hex(c: char) -> bool {
    ('0' <= c && c <= '9') || ('a' <= c && c <= 'f') || ('A' <= c && c <= 'F')
}

/// Five hyphen-separated groups of 8, 4, 4, 4 and 12 hexadecimal digits of
/// either case.
pub open spec fn is_uuid_text(s: Seq<char>) -> bool {
    s.len() == 36 && forall|i: int|
        0 <= i < 36 ==> if is_uuid_hyphen_position(i) {
            #[trigger] s[i] == '-'
        } else {
            is_ascii_hex(s[i])
        }
}

/// Whether the text is a UUID in 8-4-4-4-12 hyphenated form, digits of either case.
pub fn is_uuid(value: &str) -> (r: bool)
    ensures
        r == is_uuid_text(value@),
{
    let mut count: usize = 0;
    let mut shaped = true;
    for c in it: value.chars()
        invariant
            it.seq() == value@,
            0 <= it.index() <= value@.len(),
            count == (if it.index() <= 37 {
                it.index() as int
            } else {
                37
            }),
            shaped == (forall|i: int|
                0 <= i < it.index() && i < 36 ==> if is_uuid_hyphen_position(i) {
                    #[trigger] value@[i] == '-'
                } else {
                    is_ascii_hex(value@[i])
                }),
    {
        if count < 36 {
            let hyphen_here = count == 8 || count == 13 || count == 18 || count == 23;
            let ok = if hyphen_here {
                c == '-'
            } else {
                ('0' <= c && c <= '9') || ('a' <= c && c <= 'f') || ('A' <= c && c <= 'F')
            };
            if !ok {
                shaped = false;
            }
        }
        if count < 37 {
            count = count + 1;
        }
    }
    count == 36 && shaped
}

/// Checks the `--adopt-workflow-id` selector: only for a Workflow, and
/// only a UUID.
pub fn validate_adoption_selector(identity: &TargetIdentity, selector: Option<&str>) -> (r: Result<(), AppError>)
    ensures
        selector is None ==> r is Ok,
        selector is Some && !(*identity is Workflow) ==> (r is Err && r->Err_0 is Usage),
        selector is Some && *identity is Workflow ==> (r is Ok <==> is_uuid_text(selector->0@)),
        r is Err ==> r->Err_0 is Usage,
{
    let selector = match selector {
        None => {
            return Ok(());
        },
        Some(s) => s,
    };
    match identity {
        TargetIdentity::Workflow { .. } => {},
        _ => {
            return Err(
                AppError::Usage("--adopt-workflow-id is valid only for Workflow declarations".to_owned()),
            );
        },
    }
    if !is_uuid(selector) {
        return Err(AppError::Usage("--adopt-workflow-id must be a UUID".to_owned()));
    }
    Ok(())
}

/// Requires the bearer token that apply authenticates with.
pub fn require_token(token: &str) -> (r: Result<(), AppError>)
    ensures
        r is Ok <==> token@.len() > 0,
        r is Err ==> r->Err_0 is Authentication,
{
    if token.is_empty() {
        Err(AppError::Authentication("CODEMIE_TOKEN is required for apply".to_owned()))
    } else {
        Ok(())
    }
}

/// How a failure of the post-write identity check is reported: the write
/// may have committed, so a connectivity failure or timeout means the check
/// was unavailable, an incompatible answer that it was incompatible, and a
/// reconciliation failure that the write is uncertain.
pub open spec fn verification_failure(error: AppError, e: AppError) -> bool {
    match error {
        AppError::Connectivity(_) | AppError::Timeout(_) => e is WriteVerificationUnavailable,
        AppError::ApiIncompatible(_) => e is WriteVerificationIncompatible,
        AppError::Reconciliation(_) => e is WriteUncertain,
        other => e == other,
    }
}

/// Reclassifies a failure of the post-write identity check.
pub fn classify_verification_failure(error: AppError) -> (e: AppError)
    ensures
        verification_failure(error, e),
{
    match error {
        AppError::Connectivity(_) | AppError::Timeout(_) => AppError::WriteVerificationUnavailable(
            "write may have committed; verification could not complete".to_owned(),
        ),
        AppError::ApiIncompatible(_) => AppError::WriteVerificationIncompatible(
            "write may have committed; verification response was incompatible".to_owned(),
        ),
        AppError::Reconciliation(_) => AppError::WriteUncertain(
            "write may have committed; identity did not verify exactly once".to_owned(),
        ),
        other => other,
    }
}

/// A post-write identity mismatch ends the invocation with exit code 1 (an
/// uncertain write), never as a plain compatibility or connectivity error.
pub proof fn law_unverified_write_is_uncertain(error: AppError, e: AppError)
    requires
        error is Reconciliation,
        verification_failure(error, e),
    ensures
        crate::error::exit_code_of(e) == 1,
{
}

} // verus!
