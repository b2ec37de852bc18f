use vstd::prelude::*;

use crate::adapters::{ResolutionTarget, WriteAbilityEvidence, lists_write, match_resolution, prove_write, target_view};
use crate::adapters::datasource::lemma_filter_step;
use crate::error::AppError;
use crate::text::same_text;

verus! {

/// The fields of one server Skill row that resolution reads.
#[derive(Debug, Clone)]
pub struct SkillItem {
    pub id: String,
    pub name: String,
    pub project: String,
    pub creator_id: String,
    pub user_abilities: Vec<String>,
}

/// Whether every row of a page names its creator.
pub open spec fn creators_named(items: Seq<SkillItem>) -> bool {
    forall|i: int| 0 <= i < items.len() ==> (#[trigger] items[i]).creator_id@.len() > 0
}

/// Refuses a page with a row whose creator identifier is empty.
pub fn check_creators(items: &Vec<SkillItem>) -> (r: Result<(), AppError>)
    ensures
        r is Ok <==> creators_named(items@),
        r is Err ==> r->Err_0 is ApiIncompatible,
{
    let mut index: usize = 0;
    while index < items.len()
        invariant
            0 <= index <= items.len(),
            forall|i: int| 0 <= i < index ==> (#[trigger] items@[i]).creator_id@.len() > 0,
        decreases items.len() - index,
    {
        if items[index].creator_id.as_str().is_empty() {
            return Err(AppError::ApiIncompatible("skill creator id is empty".to_owned()));
        }
        index = index + 1;
    }
    Ok(())
}

/// The identity test of a Skill: same name, project and creator.
pub open spec fn skill_pred(project: Seq<char>, name: Seq<char>, creator: Seq<char>) -> spec_fn(SkillItem) -> bool {
    |item: SkillItem| item.name@ == name && item.project@ == project && item.creator_id@ == creator
}

/// The rows of a listing that carry a Skill's identity, in listing order.
pub fn filter_matches(items: Vec<SkillItem>, project: &str, name: &str, creator_user_id: &str) -> (r: Vec<SkillItem>)
    ensures
        r@ == items@.filter(skill_pred(project@, name@, creator_user_id@)),
{
    let ghost all = items@;
    let mut kept: Vec<SkillItem> = Vec::new();
    proof {
        reveal(Seq::filter);
        assert(all.take(0).filter(skill_pred(project@, name@, creator_user_id@))
            =~= Seq::<SkillItem>::empty());
    }
    for item in it: items.into_iter()
        invariant
            it.seq() == all,
            0 <= it.index() <= all.len(),
            kept@ == all.take(it.index() as int).filter(skill_pred(project@, name@, creator_user_id@)),
    {
        let ghost position = it.index();
        proof {
            assert(item == all[position as int]);
            assert(all.take(position + 1) =~= all.take(position as int).push(item));
            lemma_filter_step(
                all.take(position as int),
                item,
                skill_pred(project@, name@, creator_user_id@),
            );
        }
        let keep = same_text(item.name.as_str(), name) && same_text(item.project.as_str(), project)
            && same_text(item.creator_id.as_str(), creator_user_id);
        if keep {
            kept.push(item);
        }
    }
    proof {
        assert(all.take(all.len() as int) =~= all);
    }
    kept
}

/// The decided write target of a Skill and, for an update, the row's write
/// evidence.
pub struct SkillResolution {
    pub target: ResolutionTarget,
    pub write_ability: Option<WriteAbilityEvidence>,
}

/// Each matching row as its identifier and whether it grants `write`.
pub open spec fn skill_match_view(matches: Seq<SkillItem>) -> Seq<(Seq<char>, bool)> {
    matches.map_values(|m: SkillItem| (m.id@, lists_write(m.user_abilities@)))
}

/// Decides the target from the matching rows: none creates, one writable
/// row updates it, one row without `write` is unauthorized, several need
/// manual resolution.
pub fn decide_target(matches: &Vec<SkillItem>) -> (r: Result<SkillResolution, AppError>)
    ensures
        match match_resolution(skill_match_view(matches@)) {
            Ok(t) => r is Ok && target_view(r->Ok_0.target) == t,
            Err(several) => r is Err && (several ==> r->Err_0 is Reconciliation) && (!several
                ==> r->Err_0 is Authorization),
        },
        matches.len() == 0 ==> (r is Ok && r->Ok_0.target == ResolutionTarget::Create
            && r->Ok_0.write_ability is None),
        matches.len() == 1 && lists_write(matches@[0].user_abilities@) ==> (r is Ok
            && r->Ok_0.target is Update && r->Ok_0.target->Update_server_id@ == matches@[0].id@
            && r->Ok_0.write_ability is Some),
        matches.len() == 1 && !lists_write(matches@[0].user_abilities@) ==> (r is Err
            && r->Err_0 is Authorization),
        matches.len() > 1 ==> (r is Err && r->Err_0 is Reconciliation),
{
    if matches.len() == 0 {
        return Ok(SkillResolution { target: ResolutionTarget::Create, write_ability: None });
    }
    if matches.len() > 1 {
        return Err(
            AppError::Reconciliation(
                "Skill: several matches for the declared identity; manual resolution required".to_owned(),
            ),
        );
    }
    let evidence = prove_write(&matches[0].user_abilities, "Skill")?;
    Ok(
        SkillResolution {
            target: ResolutionTarget::Update { server_id: matches[0].id.clone() },
            write_ability: Some(evidence),
        },
    )
}

/// Resolves a Skill reference from its matching rows: exactly one gives its
/// server identifier, none is missing, several are ambiguous.
pub fn resolve_reference_in(matches: &Vec<SkillItem>) -> (r: Result<String, AppError>)
    ensures
        matches.len() == 1 ==> (r is Ok && r->Ok_0@ == matches@[0].id@),
        matches.len() == 0 ==> (r is Err && r->Err_0 is MissingReference),
        matches.len() > 1 ==> (r is Err && r->Err_0 is Reconciliation),
{
    if matches.len() == 1 {
        Ok(matches[0].id.clone())
    } else if matches.len() == 0 {
        Err(AppError::MissingReference("referenced Skill is missing on the target server".to_owned()))
    } else {
        Err(AppError::Reconciliation("referenced Skill identity is ambiguous on the target server".to_owned()))
    }
}

/// The outcome of a create that the server refused as a conflict, from the
/// rows that re-resolution found: one is a same-creator collision (server
/// rejection); none or several leave the resolution unstable.
pub fn collision_error(matches_found: usize) -> (e: AppError)
    ensures
        matches_found == 1 ==> e is ServerRejected,
        matches_found != 1 ==> e is ResolutionUnstable,
{
    if matches_found == 1 {
        AppError::ServerRejected("Skill create collided with an existing same-creator identity".to_owned())
    } else if matches_found == 0 {
        AppError::ResolutionUnstable(
            "Skill create conflict could not be resolved by the bounded same-creator scan".to_owned(),
        )
    } else {
        AppError::ResolutionUnstable(
            "Skill create conflict resolved to multiple same-creator identities".to_owned(),
        )
    }
}

/// Verifies a written Skill: its identity resolves to the identifier the
/// write returned.
pub fn verify_written(actual: &str, expected_server_id: &str) -> (r: Result<(), AppError>)
    ensures
        r is Ok <==> actual@ == expected_server_id@,
        r is Err ==> r->Err_0 is Reconciliation,
{
    if same_text(actual, expected_server_id) {
        Ok(())
    } else {
        Err(
            AppError::Reconciliation(
                "Skill write may have committed but identity verification did not match".to_owned(),
            ),
        )
    }
}

} // verus!
