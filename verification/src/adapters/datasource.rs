use vstd::prelude::*;

use crate::adapters::{ResolutionTarget, WriteAbilityEvidence, lists_write, match_resolution, prove_write, target_view};
use crate::error::AppError;
use crate::text::same_text;

verus! {

/// Extra re-reads after a create before the write is declared uncertain.
pub const POST_WRITE_REPOLL_ATTEMPTS: u32 = 4;

/// Delay between post-write re-reads, in milliseconds.
pub const POST_WRITE_REPOLL_INTERVAL_MS: u64 = 400;

/// The fields of one server index row that resolution reads.
#[derive(Debug, Clone)]
pub struct DatasourceItem {
    pub id: String,
    pub repo_name: String,
    pub project_name: String,
    pub index_type: String,
    pub vcs_type: Option<String>,
    pub user_abilities: Vec<String>,
}

/// Whether a server row carries the declaration's Datasource kind. VCS rows
/// hold their granularity (`code`, `summary`, `chunk-summary`) in
/// `index_type` and the kind (`git` or `svn`) in `vcs_type`; knowledge-base
/// rows hold a prefixed kind; any other row holds the kind itself.
pub open spec fn kind_matches(index_type: Seq<char>, vcs_type: Option<Seq<char>>, kind: Seq<char>) -> bool {
    if index_type == "code"@ || index_type == "summary"@ || index_type == "chunk-summary"@ {
        vcs_type == Some(kind) && (kind == "git"@ || kind == "svn"@)
    } else if index_type == "knowledge_base_confluence"@ {
        kind == "confluence"@
    } else if index_type == "knowledge_base_jira"@ {
        kind == "jira"@
    } else if index_type == "knowledge_base_xray"@ {
        kind == "xray"@
    } else if index_type == "knowledge_base_azure_devops_wiki"@ {
        kind == "azure_devops_wiki"@
    } else if index_type == "knowledge_base_azure_devops_work_item"@ {
        kind == "azure_devops_work_item"@
    } else if index_type == "knowledge_base_sharepoint"@ {
        kind == "sharepoint"@
    } else if index_type == "llm_routing_google"@ {
        kind == "google"@
    } else if index_type == "knowledge_base_file"@ {
        kind == "file"@
    } else {
        index_type == kind
    }
}

/// The `vcs_type` of a row as text.
pub open spec fn vcs_view(item: DatasourceItem) -> Option<Seq<char>> {
    match item.vcs_type {
        Some(v) => Some(v@),
        None => None,
    }
}

/// Whether a server row carries the declaration's Datasource kind.
pub fn server_kind_matches(item: &DatasourceItem, kind: &str) -> (r: bool)
    ensures
        r == kind_matches(item.index_type@, vcs_view(*item), kind@),
{
    let index_type = item.index_type.as_str();
    if same_text(index_type, "code") || same_text(index_type, "summary") || same_text(
        index_type,
        "chunk-summary",
    ) {
        let vcs_is_kind = match &item.vcs_type {
            Some(v) => same_text(v.as_str(), kind),
            None => false,
        };
        vcs_is_kind && (same_text(kind, "git") || same_text(kind, "svn"))
    } else if same_text(index_type, "knowledge_base_confluence") {
        same_text(kind, "confluence")
    } else if same_text(index_type, "knowledge_base_jira") {
        same_text(kind, "jira")
    } else if same_text(index_type, "knowledge_base_xray") {
        same_text(kind, "xray")
    } else if same_text(index_type, "knowledge_base_azure_devops_wiki") {
        same_text(kind, "azure_devops_wiki")
    } else if same_text(index_type, "knowledge_base_azure_devops_work_item") {
        same_text(kind, "azure_devops_work_item")
    } else if same_text(index_type, "knowledge_base_sharepoint") {
        same_text(kind, "sharepoint")
    } else if same_text(index_type, "llm_routing_google") {
        same_text(kind, "google")
    } else if same_text(index_type, "knowledge_base_file") {
        same_text(kind, "file")
    } else {
        same_text(index_type, kind)
    }
}

/// A server row matches a declaration's identity: same repository name,
/// same project and the declaration's kind.
pub open spec fn row_matches(item: DatasourceItem, project: Seq<char>, repo_name: Seq<char>, kind: Seq<char>) -> bool {
    item.repo_name@ == repo_name && item.project_name@ == project && kind_matches(
        item.index_type@,
        vcs_view(item),
        kind,
    )
}

/// The rows of a project listing that match a declaration's identity, in
/// listing order.
pub open spec fn matching_rows(
    items: Seq<DatasourceItem>,
    project: Seq<char>,
    repo_name: Seq<char>,
    kind: Seq<char>,
) -> Seq<DatasourceItem> {
    items.filter(row_pred(project, repo_name, kind))
}

/// The identity test of `matching_rows`.
pub open spec fn row_pred(project: Seq<char>, repo_name: Seq<char>, kind: Seq<char>) -> spec_fn(DatasourceItem) -> bool {
    |item: DatasourceItem| row_matches(item, project, repo_name, kind)
}

/// The naming test of `referenced_rows`.
pub open spec fn reference_pred(project: Seq<char>, repo_name: Seq<char>) -> spec_fn(DatasourceItem) -> bool {
    |item: DatasourceItem| item.repo_name@ == repo_name && item.project_name@ == project
}

/// Filtering a listing one row longer keeps the new row exactly when it passes.
pub proof fn lemma_filter_step<A>(items: Seq<A>, item: A, pred: spec_fn(A) -> bool)
    ensures
        items.push(item).filter(pred) == if pred(item) {
            items.filter(pred).push(item)
        } else {
            items.filter(pred)
        },
{
    reveal(Seq::filter);
    assert(items.push(item).drop_last() =~= items);
}

/// The rows of a project listing that match a declaration's identity.
pub fn filter_matches(items: Vec<DatasourceItem>, project: &str, repo_name: &str, kind: &str) -> (r: Vec<DatasourceItem>)
    ensures
        r@ == matching_rows(items@, project@, repo_name@, kind@),
{
    let ghost all = items@;
    let mut kept: Vec<DatasourceItem> = Vec::new();
    proof {
        reveal(Seq::filter);
        assert(all.take(0).filter(row_pred(project@, repo_name@, kind@)) =~= Seq::<DatasourceItem>::empty());
    }
    for item in it: items.into_iter()
        invariant
            it.seq() == all,
            0 <= it.index() <= all.len(),
            kept@ == all.take(it.index() as int).filter(row_pred(project@, repo_name@, kind@)),
    {
        let ghost position = it.index();
        proof {
            assert(item == all[position as int]);
            assert(all.take(position + 1) =~= all.take(position as int).push(item));
            lemma_filter_step(all.take(position as int), item, row_pred(project@, repo_name@, kind@));
        }
        let keep = same_text(item.repo_name.as_str(), repo_name) && same_text(
            item.project_name.as_str(),
            project,
        ) && server_kind_matches(&item, kind);
        proof {
            assert(row_pred(project@, repo_name@, kind@)(item) == row_matches(item, project@, repo_name@, kind@));
            assert(row_matches(item, project@, repo_name@, kind@) == keep);
        }
        if keep {
            kept.push(item);
        }
        proof {
            assert(kept@ == all.take(position + 1).filter(row_pred(project@, repo_name@, kind@)));
        }
    }
    proof {
        assert(all.take(all.len() as int) =~= all);
    }
    kept
}

/// The decided write target of a Datasource and, for an update, the row's
/// server identifier and write evidence.
pub struct DatasourceResolution {
    pub target: ResolutionTarget,
    pub existing_id: Option<String>,
    pub write_ability: Option<WriteAbilityEvidence>,
}

/// Each matching row as its identifier and whether it grants `write`.
pub open spec fn datasource_match_view(matches: Seq<DatasourceItem>) -> Seq<(Seq<char>, bool)> {
    matches.map_values(|m: DatasourceItem| (m.id@, lists_write(m.user_abilities@)))
}

/// Decides the target from the matching rows: none creates, exactly one
/// writable row updates it, one row without the `write` ability is an
/// authorization failure, and more than one needs manual resolution.
pub fn decide_target(matches: &Vec<DatasourceItem>) -> (r: Result<DatasourceResolution, AppError>)
    ensures
        match match_resolution(datasource_match_view(matches@)) {
            Ok(t) => r is Ok && target_view(r->Ok_0.target) == t,
            Err(several) => r is Err && (several ==> r->Err_0 is Reconciliation) && (!several
                ==> r->Err_0 is Authorization),
        },
        matches.len() == 0 ==> (r is Ok && r->Ok_0.target == ResolutionTarget::Create
            && r->Ok_0.existing_id is None && r->Ok_0.write_ability is None),
        matches.len() == 1 && lists_write(matches@[0].user_abilities@) ==> (r is Ok && r->Ok_0.target
            is Update && r->Ok_0.target->Update_server_id@ == matches@[0].id@
            && r->Ok_0.existing_id is Some && r->Ok_0.existing_id->0@ == matches@[0].id@
            && r->Ok_0.write_ability is Some),
        matches.len() == 1 && !lists_write(matches@[0].user_abilities@) ==> (r is Err
            && r->Err_0 is Authorization),
        matches.len() > 1 ==> (r is Err && r->Err_0 is Reconciliation),
{
    if matches.len() == 0 {
        return Ok(
            DatasourceResolution { target: ResolutionTarget::Create, existing_id: None, write_ability: None },
        );
    }
    if matches.len() > 1 {
        return Err(
            AppError::Reconciliation(
                "Datasource: several matches for the declared identity; manual resolution required".to_owned(),
            ),
        );
    }
    let single = &matches[0];
    let evidence = prove_write(&single.user_abilities, "Datasource")?;
    Ok(
        DatasourceResolution {
            target: ResolutionTarget::Update { server_id: single.id.clone() },
            existing_id: Some(single.id.clone()),
            write_ability: Some(evidence),
        },
    )
}

/// The rows of a project listing that a reference names: same repository
/// name and project, whatever their kind.
pub open spec fn referenced_rows(items: Seq<DatasourceItem>, project: Seq<char>, repo_name: Seq<char>) -> Seq<DatasourceItem> {
    items.filter(reference_pred(project, repo_name))
}

/// Resolves a Datasource reference by `(project, repo_name)` alone: exactly
/// one row gives its server identifier, none is a missing reference, and
/// several (of any kinds) are ambiguous.
pub fn resolve_reference_in(items: &Vec<DatasourceItem>, project: &str, repo_name: &str) -> (r: Result<String, AppError>)
    ensures
        ({
            let rows = referenced_rows(items@, project@, repo_name@);
            &&& rows.len() == 1 ==> (r is Ok && r->Ok_0@ == rows[0].id@)
            &&& rows.len() == 0 ==> (r is Err && r->Err_0 is MissingReference)
            &&& rows.len() > 1 ==> (r is Err && r->Err_0 is Reconciliation)
        }),
{
    let ghost all = items@;
    let mut found: Option<String> = None;
    let mut count: usize = 0;
    let mut index: usize = 0;
    proof {
        reveal(Seq::filter);
        assert(all.take(0).filter(reference_pred(project@, repo_name@)) =~= Seq::<DatasourceItem>::empty());
    }
    while index < items.len()
        invariant
            0 <= index <= items.len(),
            all == items@,
            count <= index,
            count == all.take(index as int).filter(reference_pred(project@, repo_name@)).len(),
            count >= 1 ==> (found is Some && found->0@ == all.take(index as int).filter(reference_pred(project@, repo_name@))[0].id@),
        decreases items.len() - index,
    {
        let item = &items[index];
        proof {
            assert(all.take(index as int + 1) =~= all.take(index as int).push(*item));
            lemma_filter_step(all.take(index as int), *item, reference_pred(project@, repo_name@));
        }
        let named = same_text(item.repo_name.as_str(), repo_name) && same_text(
            item.project_name.as_str(),
            project,
        );
        proof {
            assert(reference_pred(project@, repo_name@)(*item) == (item.repo_name@ == repo_name@ && item.project_name@ == project@));
            assert((item.repo_name@ == repo_name@ && item.project_name@ == project@) == named);
            let before = all.take(index as int).filter(reference_pred(project@, repo_name@));
            let after = all.take(index as int + 1).filter(reference_pred(project@, repo_name@));
            if named {
                assert(after == before.push(*item));
                if before.len() >= 1 {
                    assert(after[0] == before[0]);
                }
            }
        }
        if named {
            if count == 0 {
                found = Some(item.id.clone());
            }
            count = count + 1;
        }
        index = index + 1;
    }
    proof {
        assert(all.take(all.len() as int) =~= all);
        assert(referenced_rows(items@, project@, repo_name@) == all.filter(reference_pred(project@, repo_name@)));
    }
    if count == 1 {
        Ok(found.unwrap())
    } else if count == 0 {
        Err(AppError::MissingReference("referenced Datasource is missing on the target server".to_owned()))
    } else {
        Err(
            AppError::Reconciliation(
                "referenced Datasource identity is ambiguous on the target server".to_owned(),
            ),
        )
    }
}

/// Checks a written Datasource: exactly one matching row, carrying the
/// identifier the write returned.
pub fn verify_written(matches: &Vec<DatasourceItem>, expected_server_id: &str) -> (r: Result<(), AppError>)
    ensures
        r is Ok <==> (matches.len() == 1 && matches@[0].id@ == expected_server_id@),
        r is Err ==> r->Err_0 is Reconciliation,
{
    if matches.len() == 1 && same_text(matches[0].id.as_str(), expected_server_id) {
        Ok(())
    } else {
        Err(
            AppError::Reconciliation(
                "Datasource write may have committed but identity verification did not match exactly once".to_owned(),
            ),
        )
    }
}

/// What follows one post-write re-read of a create whose response carried no
/// identifier.
#[derive(Debug, Clone, PartialEq, Eq)]
pub enum RepollDecision {
    /// The written row was found once: its identifier.
    Found(String),
    /// Nothing yet: wait the re-poll interval and read again.
    Wait,
    /// The identity could not be re-resolved: the write is uncertain.
    Uncertain,
}

/// Decides after re-read number `attempt` (zero-based): one match is the
/// written row; none waits while re-reads are left; anything else leaves
/// the write uncertain.
pub fn decide_repoll(attempt: u32, matches: &Vec<DatasourceItem>) -> (d: RepollDecision)
    ensures
        matches.len() == 1 ==> (d is Found && d->Found_0@ == matches@[0].id@),
        matches.len() == 0 && attempt < POST_WRITE_REPOLL_ATTEMPTS ==> d is Wait,
        matches.len() == 0 && attempt >= POST_WRITE_REPOLL_ATTEMPTS ==> d is Uncertain,
        matches.len() > 1 ==> d is Uncertain,
{
    if matches.len() == 1 {
        RepollDecision::Found(matches[0].id.clone())
    } else if matches.len() == 0 && attempt < POST_WRITE_REPOLL_ATTEMPTS {
        RepollDecision::Wait
    } else {
        RepollDecision::Uncertain
    }
}

/// The error of a create whose identity could not be re-resolved.
pub fn uncertain_write() -> (e: AppError)
    ensures
        e is WriteUncertain,
{
    AppError::WriteUncertain(
        "Datasource write succeeded but its exact server identity could not be re-resolved".to_owned(),
    )
}

} // verus!
