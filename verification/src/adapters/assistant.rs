use vstd::prelude::*;

use crate::adapters::{ResolutionTarget, WriteAbilityEvidence, lists_write, match_resolution, prove_write, segment, target_view};
use crate::error::AppError;
use crate::http::encode_query_value;
use crate::text::same_text;

verus! {

/// The fields of the direct Assistant lookup that resolution reads.
#[derive(Debug, Clone)]
pub struct AssistantLookup {
    pub id: String,
    pub user_abilities: Vec<String>,
}

/// The direct lookup route of an Assistant by slug within a project.
pub open spec fn lookup_path_text(slug: Seq<char>, project: Seq<char>) -> Seq<char> {
    "/v1/assistants/slug/"@ + segment(slug) + "?project="@ + segment(project)
}

/// The direct lookup route of an Assistant by slug within a project.
pub fn lookup_path(slug: &str, project: &str) -> (path: String)
    ensures
        path@ == lookup_path_text(slug@, project@),
{
    let mut path = String::from_str("/v1/assistants/slug/");
    path.append(encode_query_value(slug).as_str());
    path.append("?project=");
    path.append(encode_query_value(project).as_str());
    path
}

/// The decided write target of an Assistant and, for an update, the write
/// evidence of the looked-up row.
pub struct AssistantResolution {
    pub target: ResolutionTarget,
    pub write_ability: Option<WriteAbilityEvidence>,
}

/// The direct lookup as its matches: none, or the found row by its
/// identifier and whether it grants `write`.
pub open spec fn assistant_match_view(existing: Option<AssistantLookup>) -> Seq<(Seq<char>, bool)> {
    match existing {
        None => Seq::empty(),
        Some(found) => seq![(found.id@, lists_write(found.user_abilities@))],
    }
}

/// Decides the target from the direct lookup: absent creates; a present
/// row is updated when it exposes `write`, and is unauthorized otherwise.
pub fn decide_target(existing: &Option<AssistantLookup>) -> (r: Result<AssistantResolution, AppError>)
    ensures
        match match_resolution(assistant_match_view(*existing)) {
            Ok(t) => r is Ok && target_view(r->Ok_0.target) == t,
            Err(several) => r is Err && !several && r->Err_0 is Authorization,
        },
        existing is None ==> (r is Ok && r->Ok_0.target == ResolutionTarget::Create
            && r->Ok_0.write_ability is None),
        existing is Some && lists_write(existing->0.user_abilities@) ==> (r is Ok
            && r->Ok_0.target is Update && r->Ok_0.target->Update_server_id@ == existing->0.id@
            && r->Ok_0.write_ability is Some),
        existing is Some && !lists_write(existing->0.user_abilities@) ==> (r is Err
            && r->Err_0 is Authorization),
{
    match existing {
        None => Ok(AssistantResolution { target: ResolutionTarget::Create, write_ability: None }),
        Some(found) => {
            let evidence = prove_write(&found.user_abilities, "Assistant")?;
            Ok(
                AssistantResolution {
                    target: ResolutionTarget::Update { server_id: found.id.clone() },
                    write_ability: Some(evidence),
                },
            )
        },
    }
}

/// The identifier of the written Assistant: the response's, else the one
/// the update resolved; a create whose response names none is an internal
/// failure.
pub fn written_id(response_id: Option<String>, resolved_update_id: Option<String>) -> (r: Result<String, AppError>)
    ensures
        response_id is Some ==> r == Ok::<String, AppError>(response_id->0),
        response_id is None && resolved_update_id is Some ==> r == Ok::<String, AppError>(
            resolved_update_id->0,
        ),
        response_id is None && resolved_update_id is None ==> (r is Err && r->Err_0 is Internal),
{
    match (response_id, resolved_update_id) {
        (Some(id), _) => Ok(id),
        (None, Some(id)) => Ok(id),
        (None, None) => Err(
            AppError::Internal("Assistant update path missing resolved server identity".to_owned()),
        ),
    }
}

/// Resolves an Assistant reference from the direct lookup: present gives its
/// identifier, absent is a reconciliation failure.
pub fn resolve_reference_in(existing: Option<AssistantLookup>) -> (r: Result<String, AppError>)
    ensures
        existing is Some ==> (r is Ok && r->Ok_0@ == existing->0.id@),
        existing is None ==> (r is Err && r->Err_0 is Reconciliation),
{
    match existing {
        Some(found) => Ok(found.id),
        None => Err(
            AppError::Reconciliation("referenced Assistant is missing on the target server".to_owned()),
        ),
    }
}

/// Verifies a written Assistant: its identity resolves to the identifier the
/// write returned.
pub fn verify_written(actual: &str, expected_server_id: &str) -> (r: Result<(), AppError>)
    ensures
        r is Ok <==> actual@ == expected_server_id@,
        r is Err ==> r->Err_0 is Reconciliation,
{
    if same_text(actual, expected_server_id) {
        Ok(())
    } else {
        Err(
            AppError::Reconciliation(
                "Assistant write may have committed but identity verification did not match".to_owned(),
            ),
        )
    }
}

} // verus!
