use vstd::prelude::*;

use crate::adapters::{ResolutionTarget, WriteAbilityEvidence, lists_write, prove_write};
use crate::error::AppError;
use crate::pagination::{PaginationInput, ScanState, ScanStep, SERVER_LIST_MAX_ITEMS, as_requested, pagination_violation};
use crate::json_value::{JsonValue, MalformedJson, find_member, member_value};
use crate::text::same_text;

verus! {

/// The reserved key's text.
pub open spec fn identity_key_text() -> Seq<char> {
    "codemie.epam.com/gitops/workflow-identity"@
}

/// The reserved `meta_config` key of the Workflow identity marker.
pub fn identity_key() -> (key: &'static str)
    ensures
        key@ == identity_key_text(),
{
    "codemie.epam.com/gitops/workflow-identity"
}

/// The state of a Workflow row's identity marker.
#[derive(Debug, Clone, Copy, PartialEq, Eq, Structural)]
pub enum MarkerClassification {
    /// No marker (no `meta_config`, or no reserved key in it).
    Unmarked,
    /// A valid marker naming the desired project, slug and creator.
    Exact,
    /// A valid marker naming something else.
    OtherValid,
    /// A malformed `meta_config` or marker.
    Invalid,
}

/// The text of a string member, if the member is a string.
pub open spec fn string_member_text(fields: Seq<(String, JsonValue)>, key: Seq<char>) -> Option<Seq<char>> {
    match member_value(fields, key) {
        Some(JsonValue::String(s)) => Some(s@),
        _ => None,
    }
}

/// Whether the `version` member is the number 2 (its printed text is `2`).
pub open spec fn version_is_two(fields: Seq<(String, JsonValue)>) -> bool {
    match member_value(fields, "version"@) {
        Some(JsonValue::Number(n)) => n@ == "2"@,
        _ => false,
    }
}

/// The classification of a marker record: exactly the four members
/// `version`, `project`, `slug` and `creator_user_id`; version 2; non-empty
/// strings; the project equal to the row's project. Such a record is exact
/// when it names the desired project, slug and creator.
pub open spec fn record_class(
    fields: Seq<(String, JsonValue)>,
    row_project: Seq<char>,
    desired_project: Seq<char>,
    desired_slug: Seq<char>,
    creator: Seq<char>,
) -> MarkerClassification {
    if !(fields.len() == 4 && member_value(fields, "version"@) is Some && member_value(
        fields,
        "project"@,
    ) is Some && member_value(fields, "slug"@) is Some && member_value(
        fields,
        "creator_user_id"@,
    ) is Some) {
        MarkerClassification::Invalid
    } else {
        match (
            string_member_text(fields, "project"@),
            string_member_text(fields, "slug"@),
            string_member_text(fields, "creator_user_id"@),
        ) {
            (Some(project), Some(slug), Some(owner)) => {
                if !version_is_two(fields) || project.len() == 0 || slug.len() == 0 || project
                    != row_project || owner.len() == 0 {
                    MarkerClassification::Invalid
                } else if project == desired_project && slug == desired_slug && owner == creator {
                    MarkerClassification::Exact
                } else {
                    MarkerClassification::OtherValid
                }
            },
            _ => MarkerClassification::Invalid,
        }
    }
}

/// The classification of a row's `meta_config`, read as JSON.
pub open spec fn marker_class(
    meta: Option<Result<JsonValue, MalformedJson>>,
    row_project: Seq<char>,
    desired_project: Seq<char>,
    desired_slug: Seq<char>,
    creator: Seq<char>,
) -> MarkerClassification {
    match meta {
        None => MarkerClassification::Unmarked,
        Some(Err(_)) => MarkerClassification::Invalid,
        Some(Ok(JsonValue::Object(members))) => match member_value(members@, identity_key_text()) {
            None => MarkerClassification::Unmarked,
            Some(JsonValue::Object(fields)) => record_class(
                fields@,
                row_project,
                desired_project,
                desired_slug,
                creator,
            ),
            Some(_) => MarkerClassification::Invalid,
        },
        Some(Ok(_)) => MarkerClassification::Invalid,
    }
}

/// The text of a string member, if the member is a string.
fn string_member<'a>(fields: &'a Vec<(String, JsonValue)>, key: &str) -> (r: Option<&'a str>)
    ensures
        match string_member_text(fields@, key@) {
            Some(t) => r is Some && r->0@ == t,
            None => r is None,
        },
{
    match find_member(fields, key) {
        Some(value) => value.as_str(),
        None => None,
    }
}

/// Classifies a marker record.
fn classify_record(
    fields: &Vec<(String, JsonValue)>,
    row_project: &str,
    desired_project: &str,
    desired_slug: &str,
    creator_user_id: &str,
) -> (c: MarkerClassification)
    ensures
        c == record_class(fields@, row_project@, desired_project@, desired_slug@, creator_user_id@),
{
    if fields.len() != 4 || find_member(fields, "version").is_none() || find_member(
        fields,
        "project",
    ).is_none() || find_member(fields, "slug").is_none() || find_member(
        fields,
        "creator_user_id",
    ).is_none() {
        return MarkerClassification::Invalid;
    }
    let project = match string_member(fields, "project") {
        Some(p) => p,
        None => {
            return MarkerClassification::Invalid;
        },
    };
    let slug = match string_member(fields, "slug") {
        Some(s) => s,
        None => {
            return MarkerClassification::Invalid;
        },
    };
    let owner = match string_member(fields, "creator_user_id") {
        Some(o) => o,
        None => {
            return MarkerClassification::Invalid;
        },
    };
    let version_two = match find_member(fields, "version") {
        Some(JsonValue::Number(n)) => same_text(n.as_str(), "2"),
        _ => false,
    };
    if !version_two || project.is_empty() || slug.is_empty() || !same_text(project, row_project)
        || owner.is_empty() {
        return MarkerClassification::Invalid;
    }
    if same_text(project, desired_project) && same_text(slug, desired_slug) && same_text(
        owner,
        creator_user_id,
    ) {
        MarkerClassification::Exact
    } else {
        MarkerClassification::OtherValid
    }
}

/// Classifies a row's identity marker from its `meta_config` read as JSON
/// (`None` when the row has no `meta_config`).
pub fn classify_marker(
    meta_config: Option<&Result<JsonValue, MalformedJson>>,
    row_project: &str,
    desired_project: &str,
    desired_slug: &str,
    creator_user_id: &str,
) -> (c: MarkerClassification)
    ensures
        c == marker_class(
            match meta_config {
                Some(m) => Some(*m),
                None => None,
            },
            row_project@,
            desired_project@,
            desired_slug@,
            creator_user_id@,
        ),
{
    let parsed = match meta_config {
        None => {
            return MarkerClassification::Unmarked;
        },
        Some(parsed) => parsed,
    };
    let value = match parsed {
        Ok(v) => v,
        Err(_) => {
            return MarkerClassification::Invalid;
        },
    };
    let members = match value {
        JsonValue::Object(members) => members,
        _ => {
            return MarkerClassification::Invalid;
        },
    };
    let identity = match find_member(members, identity_key()) {
        Some(identity) => identity,
        None => {
            return MarkerClassification::Unmarked;
        },
    };
    match identity {
        JsonValue::Object(fields) => classify_record(
            fields,
            row_project,
            desired_project,
            desired_slug,
            creator_user_id,
        ),
        _ => MarkerClassification::Invalid,
    }
}

// ---------------------------------------------------------------------------
// Rows, detail checks and write responses
// ---------------------------------------------------------------------------

/// The fields of one Workflow row that resolution reads; the marker is the
/// row's `meta_config` read as JSON.
#[derive(Debug)]
pub struct WorkflowItem {
    pub id: String,
    pub project: String,
    pub name: String,
    pub meta_config: Option<String>,
    pub marker: Option<Result<JsonValue, MalformedJson>>,
    pub creator_id: String,
    pub user_abilities: Vec<String>,
    pub mode: Option<String>,
    pub deprecated: bool,
}

/// A Workflow in autonomous mode, or deprecated, cannot be saved.
pub open spec fn not_exportable(mode: Option<String>, deprecated: bool) -> bool {
    (mode is Some && mode->0@ == "Autonomous"@) || deprecated
}

/// Refuses a Workflow row that cannot be saved.
pub fn ensure_exportable(workflow: &WorkflowItem) -> (r: Result<(), AppError>)
    ensures
        r is Ok <==> !not_exportable(workflow.mode, workflow.deprecated),
        r is Err ==> r->Err_0 is EntityNotExportable,
{
    ensure_snapshot_exportable(&workflow.mode, workflow.deprecated)
}

/// Refuses a Workflow snapshot that cannot be saved.
pub fn ensure_snapshot_exportable(mode: &Option<String>, deprecated: bool) -> (r: Result<(), AppError>)
    ensures
        r is Ok <==> !not_exportable(*mode, deprecated),
        r is Err ==> r->Err_0 is EntityNotExportable,
{
    let autonomous = match mode {
        Some(m) => same_text(m.as_str(), "Autonomous"),
        None => false,
    };
    if autonomous || deprecated {
        Err(AppError::EntityNotExportable)
    } else {
        Ok(())
    }
}

/// The two shapes of a Workflow write response.
#[derive(Debug, Clone)]
pub enum WorkflowWriteResponse {
    Direct { id: String },
    Nested { data: WorkflowWriteIdentity },
}

/// The nested identity of a Workflow write response.
#[derive(Debug, Clone)]
pub struct WorkflowWriteIdentity {
    pub id: String,
}

impl WorkflowWriteResponse {
    /// The written Workflow's identifier, in either shape.
    pub fn into_id(self) -> (id: String)
        ensures
            id@ == match self {
                WorkflowWriteResponse::Direct { id } => id@,
                WorkflowWriteResponse::Nested { data } => data.id@,
            },
    {
        match self {
            WorkflowWriteResponse::Direct { id } => id,
            WorkflowWriteResponse::Nested { data } => data.id,
        }
    }
}

/// Checks a fetched Workflow detail against the identity it was fetched for:
/// the same identifier, project and creator.
pub fn detail_matches(detail: &WorkflowItem, id: &str, project: &str, creator_user_id: &str) -> (r: bool)
    ensures
        r == (detail.id@ == id@ && detail.project@ == project@ && detail.creator_id@
            == creator_user_id@),
{
    same_text(detail.id.as_str(), id) && same_text(detail.project.as_str(), project) && same_text(
        detail.creator_id.as_str(),
        creator_user_id,
    )
}

/// The marker of a row, as `classify_marker` takes it.
pub open spec fn marker_of(item: WorkflowItem) -> Option<Result<JsonValue, MalformedJson>> {
    item.marker
}

/// Verifies a written Workflow: the detail fetched by the returned
/// identifier carries it, the project, and an exact marker.
pub fn verify_written(detail: &WorkflowItem, expected_server_id: &str, project: &str, slug: &str, creator_user_id: &str) -> (r: Result<(), AppError>)
    ensures
        r is Ok <==> (detail.id@ == expected_server_id@ && detail.project@ == project@
            && marker_class(marker_of(*detail), project@, project@, slug@, creator_user_id@)
            == MarkerClassification::Exact),
        r is Err ==> r->Err_0 is Reconciliation,
{
    let marker = match &detail.marker {
        Some(m) => Some(m),
        None => None,
    };
    if !same_text(detail.id.as_str(), expected_server_id) || !same_text(detail.project.as_str(), project)
        || classify_marker(marker, project, project, slug, creator_user_id)
        != MarkerClassification::Exact {
        return Err(
            AppError::Reconciliation(
                "Workflow write may have committed but identity verification did not match exactly".to_owned(),
            ),
        );
    }
    Ok(())
}

// ---------------------------------------------------------------------------
// One enumeration pass
// ---------------------------------------------------------------------------

/// Why a pass stopped at an item.
#[derive(Debug, Clone, Copy, PartialEq, Eq, Structural)]
pub enum ItemFault {
    /// The row's creator identifier is empty.
    CreatorEmpty,
    /// The listing passed the item cap.
    Cap,
    /// The row's id was seen before.
    Repeated,
    /// A row of the target project and creator holds an invalid marker.
    InvalidMarker,
}

/// What a pass has gathered: the ids seen, the rows with an exact marker and
/// the ids of unmarked rows named like the authored Workflow.
pub type PassModel = (Seq<Seq<char>>, Seq<WorkflowItem>, Seq<Seq<char>>);

/// What the pass looks for: the project, slug, creator and authored name.
pub struct PassTarget {
    pub project_name: String,
    pub slug: String,
    pub creator_user_id: String,
    pub authored_display_name: Option<String>,
}

/// One row's effect on a pass. Rows of other projects or creators are only
/// counted; a row of the target project and creator is kept when its marker
/// is exact, its id is kept when it is unmarked and carries the authored
/// name, and an invalid marker stops the pass.
pub open spec fn pass_step(m: PassModel, item: WorkflowItem, t: PassTarget) -> Result<PassModel, ItemFault> {
    if item.creator_id@.len() == 0 {
        Err(ItemFault::CreatorEmpty)
    } else if m.0.len() >= SERVER_LIST_MAX_ITEMS {
        Err(ItemFault::Cap)
    } else if m.0.contains(item.id@) {
        Err(ItemFault::Repeated)
    } else {
        let seen = m.0.push(item.id@);
        if item.project@ == t.project_name@ && item.creator_id@ == t.creator_user_id@ {
            match marker_class(
                item.marker,
                item.project@,
                t.project_name@,
                t.slug@,
                t.creator_user_id@,
            ) {
                MarkerClassification::Exact => Ok((seen, m.1.push(item), m.2)),
                MarkerClassification::Invalid => Err(ItemFault::InvalidMarker),
                MarkerClassification::Unmarked => if t.authored_display_name is Some
                    && item.name@ == t.authored_display_name->0@ {
                    Ok((seen, m.1, m.2.push(item.id@)))
                } else {
                    Ok((seen, m.1, m.2))
                },
                MarkerClassification::OtherValid => Ok((seen, m.1, m.2)),
            }
        } else {
            Ok((seen, m.1, m.2))
        }
    }
}

/// The effect of a page's rows, in order; the first fault stops the pass.
pub open spec fn pass_items(m: PassModel, items: Seq<WorkflowItem>, t: PassTarget) -> Result<PassModel, ItemFault>
    decreases items.len(),
{
    if items.len() == 0 {
        Ok(m)
    } else {
        match pass_items(m, items.drop_last(), t) {
            Ok(prev) => pass_step(prev, items.last(), t),
            Err(fault) => Err(fault),
        }
    }
}

/// A fault inside a prefix is the fault of the whole page.
proof fn lemma_pass_fault_persists(m: PassModel, items: Seq<WorkflowItem>, t: PassTarget, n: int)
    requires
        0 <= n <= items.len(),
        pass_items(m, items.take(n), t) is Err,
    ensures
        pass_items(m, items, t) == pass_items(m, items.take(n), t),
    decreases items.len() - n,
{
    if n < items.len() {
        assert(items.take(n + 1).drop_last() =~= items.take(n));
        lemma_pass_fault_persists(m, items, t, n + 1);
    } else {
        assert(items.take(n) =~= items);
    }
}

/// The error each fault is reported as.
pub open spec fn fault_error(fault: ItemFault, e: AppError) -> bool {
    match fault {
        ItemFault::CreatorEmpty => e is ApiIncompatible,
        ItemFault::Cap => e is ApiIncompatible,
        ItemFault::Repeated => e is Reconciliation,
        ItemFault::InvalidMarker => e is Reconciliation,
    }
}

/// One exhaustive pass over a Workflow listing (project-visible or
/// marketplace scope): the shared page scan plus the marker rules.
pub struct WorkflowPass {
    scan: ScanState,
    target: PassTarget,
    exact_matches: Vec<WorkflowItem>,
    unmarked_display_name_ids: Vec<String>,
}

impl WorkflowPass {
    /// The pass's invariant: its scan is well formed and has seen every id.
    pub closed spec fn wf(self) -> bool {
        self.scan.wf() && !self.scan.page_open_spec()
    }

    /// What the pass has gathered.
    pub closed spec fn model(self) -> PassModel {
        (self.scan.seen_spec(), self.exact_matches@, crate::pagination::id_texts(self.unmarked_display_name_ids@))
    }

    /// What the pass looks for.
    pub closed spec fn target_spec(self) -> PassTarget {
        self.target
    }

    /// The scan's state.
    pub closed spec fn scan_spec(self) -> ScanState {
        self.scan
    }

    /// Whether the pass has ended.
    pub closed spec fn finished_spec(self) -> bool {
        self.scan.finished_spec()
    }

    /// A pass that asks for page 0 first.
    pub fn new(target: PassTarget) -> (p: WorkflowPass)
        ensures
            p.wf(),
            !p.finished_spec(),
            p.target_spec() == target,
            p.scan_spec().next_page_spec() == 0,
            p.scan_spec().fingerprint_spec() is None,
            p.model() == (Seq::<Seq<char>>::empty(), Seq::<WorkflowItem>::empty(), Seq::<Seq<char>>::empty()),
    {
        let p = WorkflowPass {
            scan: ScanState::new(),
            target,
            exact_matches: Vec::new(),
            unmarked_display_name_ids: Vec::new(),
        };
        proof {
            assert(crate::pagination::id_texts(p.unmarked_display_name_ids@) =~= Seq::<Seq<char>>::empty());
        }
        p
    }

    /// The page the pass asks for next.
    pub fn next_page(&self) -> (page: u32)
        ensures
            page == self.scan_spec().next_page_spec(),
    {
        self.scan.next_page()
    }

    /// Takes the rows and metadata of the page the pass asked for.
    pub fn accept_page(&mut self, items: Vec<WorkflowItem>, input: PaginationInput) -> (r: Result<ScanStep, AppError>)
        requires
            old(self).wf(),
            !old(self).finished_spec(),
        ensures
            final(self).target_spec() == old(self).target_spec(),
            !final(self).finished_spec() ==> final(self).wf(),
            ({
                let old_scan = old(self).scan_spec();
                let validated = pagination_violation(as_requested(input, old_scan.next_page_spec()));
                let drifted = validated is None && old_scan.fingerprint_spec() is Some && (
                old_scan.fingerprint_spec()->0.pages_spec() != input.pages
                    || old_scan.fingerprint_spec()->0.total_spec() != input.total);
                let outcome = pass_items(old(self).model(), items@, old(self).target_spec());
                let page = old_scan.next_page_spec();
                if validated is Some {
                    r is Err && r->Err_0 is ApiIncompatible && final(self).finished_spec()
                } else if drifted {
                    r is Err && r->Err_0 is Reconciliation && final(self).finished_spec()
                } else {
                    match outcome {
                        Err(fault) => r is Err && fault_error(fault, r->Err_0)
                            && final(self).finished_spec(),
                        Ok(m) => {
                            &&& final(self).model() == m
                            &&& if input.pages == 0 || page + 1 >= input.pages {
                                &&& final(self).finished_spec()
                                &&& if m.0.len() != input.total {
                                    r is Err && r->Err_0 is Reconciliation
                                } else {
                                    r is Ok && r->Ok_0 is Complete
                                }
                            } else {
                                &&& !final(self).finished_spec()
                                &&& final(self).scan_spec().next_page_spec() == page + 1
                                &&& r == Ok::<ScanStep, AppError>(
                                    ScanStep::FetchPage((page + 1) as u32),
                                )
                            }
                        },
                    }
                }
            }),
    {
        self.scan.begin_page("workflow", input)?;
        let ghost m0 = self.model();
        let ghost all = items@;
        let ghost t = self.target;
        proof {
            assert(all.take(0) =~= Seq::<WorkflowItem>::empty());
        }
        for item in it: items.into_iter()
            invariant
                it.seq() == all,
                0 <= it.index() <= all.len(),
                self.scan.wf(),
                !self.scan.finished_spec(),
                self.scan.page_open_spec(),
                self.target == t,
                t == old(self).target,
                m0 == old(self).model(),
                pagination_violation(as_requested(input, old(self).scan_spec().next_page_spec())) is None,
                old(self).scan_spec().fingerprint_spec() is Some ==> (old(self).scan_spec().fingerprint_spec()->0.pages_spec()
                    == input.pages && old(self).scan_spec().fingerprint_spec()->0.total_spec() == input.total),
                pass_items(m0, all.take(it.index() as int), t) == Ok::<PassModel, ItemFault>(self.model()),
                self.scan.next_page_spec() == old(self).scan_spec().next_page_spec(),
                self.scan.fingerprint_spec() is Some,
                self.scan.fingerprint_spec()->0.pages_spec() == input.pages,
                self.scan.fingerprint_spec()->0.total_spec() == input.total,
        {
            let ghost position = it.index();
            let ghost before = self.model();
            proof {
                assert(item == all[position as int]);
                assert(all.take(position + 1).drop_last() =~= all.take(position as int));
                assert(all.take(position + 1).last() == item);
            }
            if item.creator_id.as_str().is_empty() {
                self.scan.abandon();
                proof {
                    lemma_pass_fault_persists(m0, all, t, position + 1);
                }
                return Err(AppError::ApiIncompatible("workflow creator id is empty".to_owned()));
            }
            match self.scan.accept_item("workflow", item.id.as_str()) {
                Ok(()) => {},
                Err(e) => {
                    proof {
                        lemma_pass_fault_persists(m0, all, t, position + 1);
                    }
                    return Err(e);
                },
            }
            let in_scope = same_text(item.project.as_str(), self.target.project_name.as_str())
                && same_text(item.creator_id.as_str(), self.target.creator_user_id.as_str());
            if in_scope {
                let marker = match &item.marker {
                    Some(m) => Some(m),
                    None => None,
                };
                let class = classify_marker(
                    marker,
                    item.project.as_str(),
                    self.target.project_name.as_str(),
                    self.target.slug.as_str(),
                    self.target.creator_user_id.as_str(),
                );
                match class {
                    MarkerClassification::Exact => {
                        self.exact_matches.push(item);
                    },
                    MarkerClassification::Invalid => {
                        self.scan.abandon();
                        proof {
                            lemma_pass_fault_persists(m0, all, t, position + 1);
                        }
                        return Err(
                            AppError::Reconciliation(
                                "workflow target project contains invalid identity metadata".to_owned(),
                            ),
                        );
                    },
                    MarkerClassification::Unmarked => {
                        let named = match &self.target.authored_display_name {
                            Some(name) => same_text(item.name.as_str(), name.as_str()),
                            None => false,
                        };
                        if named {
                            let ghost ids_before = self.unmarked_display_name_ids@;
                            self.unmarked_display_name_ids.push(item.id);
                            proof {
                                assert(crate::pagination::id_texts(self.unmarked_display_name_ids@)
                                    =~= crate::pagination::id_texts(ids_before).push(all[position as int].id@));
                            }
                        }
                    },
                    MarkerClassification::OtherValid => {},
                }
            }
            proof {
                assert(pass_items(m0, all.take(position + 1), t) == Ok::<PassModel, ItemFault>(self.model()));
            }
        }
        proof {
            assert(all.take(all.len() as int) =~= all);
        }
        self.scan.end_page("workflow")
    }

    /// The rows with an exact marker and the ids of unmarked rows named like
    /// the authored Workflow.
    pub fn into_result(self) -> (r: (Vec<WorkflowItem>, Vec<String>))
        ensures
            r.0@ == self.model().1,
            crate::pagination::id_texts(r.1@) == self.model().2,
    {
        (self.exact_matches, self.unmarked_display_name_ids)
    }
}

// ---------------------------------------------------------------------------
// Both scopes
// ---------------------------------------------------------------------------

/// Whether some row of `rows` has the id.
pub open spec fn has_row_id(rows: Seq<WorkflowItem>, id: Seq<char>) -> bool {
    exists|i: int| 0 <= i < rows.len() && #[trigger] rows[i].id@ == id
}

/// `acc` followed by each row of `more` whose id is not already there, in order.
pub open spec fn merged_rows(acc: Seq<WorkflowItem>, more: Seq<WorkflowItem>) -> Seq<WorkflowItem>
    decreases more.len(),
{
    if more.len() == 0 {
        acc
    } else {
        let prev = merged_rows(acc, more.drop_last());
        if has_row_id(prev, more.last().id@) {
            prev
        } else {
            prev.push(more.last())
        }
    }
}

/// `acc` followed by each id of `more` not already there, in order.
pub open spec fn merged_ids(acc: Seq<Seq<char>>, more: Seq<Seq<char>>) -> Seq<Seq<char>>
    decreases more.len(),
{
    if more.len() == 0 {
        acc
    } else {
        let prev = merged_ids(acc, more.drop_last());
        if prev.contains(more.last()) {
            prev
        } else {
            prev.push(more.last())
        }
    }
}

/// Whether some row of `rows` has the id.
fn rows_have_id(rows: &Vec<WorkflowItem>, id: &str) -> (r: bool)
    ensures
        r == has_row_id(rows@, id@),
{
    let mut index: usize = 0;
    while index < rows.len()
        invariant
            0 <= index <= rows.len(),
            forall|j: int| 0 <= j < index ==> rows@[j].id@ != id@,
        decreases rows.len() - index,
    {
        if same_text(rows[index].id.as_str(), id) {
            return true;
        }
        index = index + 1;
    }
    false
}

/// Adds the rows of a later pass whose ids the earlier passes did not find.
pub fn merge_matches(all: &mut Vec<WorkflowItem>, more: Vec<WorkflowItem>)
    ensures
        final(all)@ == merged_rows(old(all)@, more@),
{
    let ghost acc = all@;
    let ghost extra = more@;
    proof {
        assert(extra.take(0) =~= Seq::<WorkflowItem>::empty());
    }
    for item in it: more.into_iter()
        invariant
            it.seq() == extra,
            0 <= it.index() <= extra.len(),
            all@ == merged_rows(acc, extra.take(it.index() as int)),
    {
        let ghost position = it.index();
        proof {
            assert(item == extra[position as int]);
            assert(extra.take(position + 1).drop_last() =~= extra.take(position as int));
        }
        if !rows_have_id(all, item.id.as_str()) {
            all.push(item);
        }
    }
    proof {
        assert(extra.take(extra.len() as int) =~= extra);
    }
}

/// Adds the ids of a later pass that the earlier passes did not find.
pub fn merge_ids(all: &mut Vec<String>, more: Vec<String>)
    ensures
        crate::pagination::id_texts(final(all)@) == merged_ids(
            crate::pagination::id_texts(old(all)@),
            crate::pagination::id_texts(more@),
        ),
{
    let ghost acc = crate::pagination::id_texts(all@);
    let ghost extra = more@;
    proof {
        assert(crate::pagination::id_texts(extra).take(0) =~= Seq::<Seq<char>>::empty());
    }
    for id in it: more.into_iter()
        invariant
            it.seq() == extra,
            0 <= it.index() <= extra.len(),
            crate::pagination::id_texts(all@) == merged_ids(
                acc,
                crate::pagination::id_texts(extra).take(it.index() as int),
            ),
    {
        let ghost position = it.index();
        let ghost prefix = crate::pagination::id_texts(extra).take(position + 1);
        proof {
            assert(id == extra[position as int]);
            assert(prefix.drop_last() =~= crate::pagination::id_texts(extra).take(position as int));
            assert(prefix.last() == id@);
        }
        if !ids_contain(all, id.as_str()) {
            let ghost before = all@;
            all.push(id);
            proof {
                assert(crate::pagination::id_texts(all@) =~= crate::pagination::id_texts(before).push(
                    extra[position as int]@,
                ));
            }
        }
    }
    proof {
        assert(crate::pagination::id_texts(extra).take(extra.len() as int)
            =~= crate::pagination::id_texts(extra));
    }
}

/// Whether the texts hold `id`.
fn ids_contain(ids: &Vec<String>, id: &str) -> (r: bool)
    ensures
        r == crate::pagination::id_texts(ids@).contains(id@),
{
    let mut index: usize = 0;
    while index < ids.len()
        invariant
            0 <= index <= ids.len(),
            forall|j: int| 0 <= j < index ==> ids@[j]@ != id@,
        decreases ids.len() - index,
    {
        if same_text(ids[index].as_str(), id) {
            proof {
                assert(crate::pagination::id_texts(ids@)[index as int] == id@);
            }
            return true;
        }
        index = index + 1;
    }
    proof {
        if crate::pagination::id_texts(ids@).contains(id@) {
            let j = choose|j: int|
                0 <= j < crate::pagination::id_texts(ids@).len() && crate::pagination::id_texts(
                    ids@,
                )[j] == id@;
            assert(ids@[j]@ == id@);
        }
    }
    false
}

// ---------------------------------------------------------------------------
// Target selection
// ---------------------------------------------------------------------------

/// The Workflow that apply reads in detail before writing, or a create.
pub enum WorkflowCandidate {
    Create,
    Detail { id: String, adoption: bool, list_ability: Option<WriteAbilityEvidence> },
}

/// Selects what apply writes from both scopes' results. An explicit
/// adoption needs zero exact markers. Without one: zero exact markers
/// create, unless an unmarked Workflow carries the authored name (adoption
/// required); one exact, writable marker is read in detail; several are
/// ambiguous.
pub fn select_candidate(exact: &Vec<WorkflowItem>, unmarked: &Vec<String>, adopt_id: Option<&str>) -> (r: Result<WorkflowCandidate, AppError>)
    ensures
        adopt_id is Some ==> (if exact.len() > 0 {
            r is Err && r->Err_0 is Reconciliation
        } else {
            r is Ok && r->Ok_0 is Detail && r->Ok_0->Detail_id@ == adopt_id->0@
                && r->Ok_0->Detail_adoption
        }),
        adopt_id is None ==> (if exact.len() == 0 {
            if unmarked.len() > 0 {
                r is Err && r->Err_0 is Reconciliation
            } else {
                r is Ok && r->Ok_0 is Create
            }
        } else if exact.len() == 1 {
            if lists_write(exact@[0].user_abilities@) {
                r is Ok && r->Ok_0 is Detail && r->Ok_0->Detail_id@ == exact@[0].id@
                    && !r->Ok_0->Detail_adoption && r->Ok_0->Detail_list_ability is Some
            } else {
                r is Err && r->Err_0 is Authorization
            }
        } else {
            r is Err && r->Err_0 is Reconciliation
        }),
{
    match adopt_id {
        Some(id) => {
            if exact.len() > 0 {
                return Err(
                    AppError::Reconciliation(
                        "workflow adoption requires zero existing exact identity markers".to_owned(),
                    ),
                );
            }
            Ok(WorkflowCandidate::Detail { id: id.to_owned(), adoption: true, list_ability: None })
        },
        None => {
            if exact.len() == 0 {
                if unmarked.len() > 0 {
                    return Err(
                        AppError::Reconciliation(
                            "workflow identity requires explicit adoption".to_owned(),
                        ),
                    );
                }
                return Ok(WorkflowCandidate::Create);
            }
            if exact.len() > 1 {
                return Err(
                    AppError::Reconciliation(
                        "Workflow: several matches for the declared identity; manual resolution required".to_owned(),
                    ),
                );
            }
            let ability = prove_write(&exact[0].user_abilities, "Workflow")?;
            Ok(
                WorkflowCandidate::Detail {
                    id: exact[0].id.clone(),
                    adoption: false,
                    list_ability: Some(ability),
                },
            )
        },
    }
}

/// What apply updates after the detail read: the entity, its current
/// `meta_config` and the write evidence of the detail row.
pub struct WorkflowUpdate {
    pub target: ResolutionTarget,
    pub meta_config: Option<String>,
    pub detail_ability: WriteAbilityEvidence,
}

/// Confirms the detail of a candidate: the same id, project and creator; an
/// unmarked Workflow for an adoption, the exact marker otherwise; and the
/// `write` ability.
pub fn confirm_detail(id: &str, adoption: bool, detail: WorkflowItem, project: &str, slug: &str, creator_user_id: &str) -> (r: Result<WorkflowUpdate, AppError>)
    ensures
        ({
            let same = detail.id@ == id@ && detail.project@ == project@ && detail.creator_id@
                == creator_user_id@;
            let class = marker_class(detail.marker, detail.project@, project@, slug@, creator_user_id@);
            let wanted = if adoption {
                MarkerClassification::Unmarked
            } else {
                MarkerClassification::Exact
            };
            if !same || class != wanted {
                r is Err && r->Err_0 is Reconciliation
            } else if !lists_write(detail.user_abilities@) {
                r is Err && r->Err_0 is Authorization
            } else {
                r is Ok && r->Ok_0.target is Update && r->Ok_0.target->Update_server_id@ == id@
                    && r->Ok_0.meta_config == detail.meta_config
            }
        }),
{
    if !detail_matches(&detail, id, project, creator_user_id) {
        return Err(
            AppError::Reconciliation(
                "workflow detail does not match the selected project, id and creator".to_owned(),
            ),
        );
    }
    let marker = match &detail.marker {
        Some(m) => Some(m),
        None => None,
    };
    let class = classify_marker(marker, detail.project.as_str(), project, slug, creator_user_id);
    let ok = if adoption {
        class == MarkerClassification::Unmarked
    } else {
        class == MarkerClassification::Exact
    };
    if !ok {
        return Err(
            AppError::Reconciliation(
                "workflow candidate has an unexpected identity marker".to_owned(),
            ),
        );
    }
    let ability = prove_write(&detail.user_abilities, "Workflow")?;
    Ok(
        WorkflowUpdate {
            target: ResolutionTarget::Update { server_id: id.to_owned() },
            meta_config: detail.meta_config,
            detail_ability: ability,
        },
    )
}

/// The Workflow that `save` reads.
#[derive(Debug, Clone, PartialEq, Eq)]
pub enum SnapshotSelection {
    /// Selected by an explicit server id.
    Explicit(String),
    /// Selected by its exact marker.
    Natural(String),
}

/// Selects the Workflow that `save` reads: an explicit id needs zero exact
/// markers; otherwise one exportable exact marker is read, none is not found
/// (or needs `--id` when an unmarked Workflow carries the name), and several
/// are ambiguous.
pub fn select_snapshot(exact: &Vec<WorkflowItem>, unmarked: &Vec<String>, explicit_id: Option<&str>) -> (r: Result<SnapshotSelection, AppError>)
    ensures
        explicit_id is Some ==> (if exact.len() > 0 {
            r is Err && r->Err_0 is Reconciliation
        } else {
            r is Ok && r->Ok_0 == SnapshotSelection::Explicit(r->Ok_0->Explicit_0)
                && r->Ok_0->Explicit_0@ == explicit_id->0@
        }),
        explicit_id is None ==> (if exact.len() == 1 {
            if not_exportable(exact@[0].mode, exact@[0].deprecated) {
                r is Err && r->Err_0 is EntityNotExportable
            } else {
                r is Ok && r->Ok_0 is Natural && r->Ok_0->Natural_0@ == exact@[0].id@
            }
        } else if exact.len() == 0 {
            if unmarked.len() > 0 {
                r is Err && r->Err_0 is Reconciliation
            } else {
                r is Err && r->Err_0 is EntityNotFound
            }
        } else {
            r is Err && r->Err_0 is Reconciliation
        }),
{
    match explicit_id {
        Some(id) => {
            if exact.len() > 0 {
                return Err(
                    AppError::Reconciliation(
                        "workflow marker conflict requires natural selection".to_owned(),
                    ),
                );
            }
            Ok(SnapshotSelection::Explicit(id.to_owned()))
        },
        None => {
            if exact.len() == 1 {
                ensure_exportable(&exact[0])?;
                Ok(SnapshotSelection::Natural(exact[0].id.clone()))
            } else if exact.len() == 0 {
                if unmarked.len() > 0 {
                    Err(
                        AppError::Reconciliation(
                            "workflow has an unmarked display-name match; use --id".to_owned(),
                        ),
                    )
                } else {
                    Err(AppError::EntityNotFound)
                }
            } else {
                Err(AppError::Reconciliation("workflow marker identity is ambiguous".to_owned()))
            }
        },
    }
}

/// Confirms the detail that `save` read: the selected id and project; for
/// an explicit id, no marker at all; and an exportable Workflow.
pub fn confirm_snapshot(selection: &SnapshotSelection, detail: &WorkflowItem, project: &str) -> (r: Result<(), AppError>)
    ensures
        ({
            let (id, explicit) = match *selection {
                SnapshotSelection::Explicit(id) => (id@, true),
                SnapshotSelection::Natural(id) => (id@, false),
            };
            if detail.id@ != id || detail.project@ != project@ {
                r is Err && r->Err_0 is ApiIncompatible
            } else if explicit && marker_class(detail.marker, project@, project@, ""@, ""@)
                != MarkerClassification::Unmarked {
                r is Err && r->Err_0 is WorkflowAlreadyMarked
            } else if not_exportable(detail.mode, detail.deprecated) {
                r is Err && r->Err_0 is EntityNotExportable
            } else {
                r is Ok
            }
        }),
{
    let (id, explicit) = match selection {
        SnapshotSelection::Explicit(id) => (id, true),
        SnapshotSelection::Natural(id) => (id, false),
    };
    if !same_text(detail.id.as_str(), id.as_str()) || !same_text(detail.project.as_str(), project) {
        return Err(
            AppError::ApiIncompatible("workflow detail does not match the selector".to_owned()),
        );
    }
    if explicit {
        let marker = match &detail.marker {
            Some(m) => Some(m),
            None => None,
        };
        if classify_marker(marker, project, project, "", "") != MarkerClassification::Unmarked {
            return Err(AppError::WorkflowAlreadyMarked);
        }
    }
    ensure_snapshot_exportable(&detail.mode, detail.deprecated)
}

} // verus!
