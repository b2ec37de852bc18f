use vstd::prelude::*;

use crate::error::{AppError, ProjectionError};
use crate::json_value::{JsonValue, find_member, json_text, member_index, member_value, write_json};
use crate::projection::{body_view, string_values, take_member, Body, ExistingEntity, RequestBody, Sections, WritePlan, declaration_sections, plan_for, rules_fold, split_declaration, apply_rules};
use crate::parse::ParsedDeclaration;
use crate::adapters::workflow::string_member_text;
use crate::text::{same_text, text_less, is_text_less, lemma_text_less_irreflexive, lemma_text_less_total, lemma_text_less_transitive};

verus! {

// ---------------------------------------------------------------------------
// Resolved references
// ---------------------------------------------------------------------------

/// The server identifier an association list gives a natural key: the
/// first entry with that project and key.
pub open spec fn assoc_lookup(entries: Seq<(String, String, String)>, project: Seq<char>, key: Seq<char>) -> Option<Seq<char>>
    decreases entries.len(),
{
    if entries.len() == 0 {
        None
    } else if entries[0].0@ == project && entries[0].1@ == key {
        Some(entries[0].2@)
    } else {
        assoc_lookup(entries.drop_first(), project, key)
    }
}

/// Looks a natural key up in an association list.
fn assoc_find(entries: &Vec<(String, String, String)>, project: &str, key: &str) -> (r: Option<usize>)
    ensures
        match r {
            Some(i) => i < entries@.len() && entries@[i as int].0@ == project@ && entries@[i as int].1@ == key@
                && assoc_lookup(entries@, project@, key@) == Some(entries@[i as int].2@) && forall|j: int|
                0 <= j < i ==> !(entries@[j].0@ == project@ && entries@[j].1@ == key@),
            None => assoc_lookup(entries@, project@, key@) is None,
        },
{
    let mut index: usize = 0;
    proof {
        assert(entries@.skip(0) =~= entries@);
    }
    while index < entries.len()
        invariant
            0 <= index <= entries@.len(),
            assoc_lookup(entries@, project@, key@) == assoc_lookup(entries@.skip(index as int), project@, key@),
            forall|j: int| 0 <= j < index ==> !(entries@[j].0@ == project@ && entries@[j].1@ == key@),
        decreases entries.len() - index,
    {
        proof {
            assert(entries@.skip(index as int).drop_first() =~= entries@.skip(index + 1));
            assert(entries@.skip(index as int)[0] == entries@[index as int]);
        }
        if same_text(entries[index].0.as_str(), project) && same_text(entries[index].1.as_str(), key) {
            return Some(index);
        }
        index = index + 1;
    }
    proof {
        assert(entries@.skip(index as int).len() == 0);
    }
    None
}

/// Setting a key replaces its first entry's identifier, or adds an entry.
pub open spec fn assoc_set(entries: Seq<(String, String, String)>, project: Seq<char>, key: Seq<char>, id: Seq<char>, after: Seq<(String, String, String)>) -> bool {
    &&& assoc_lookup(after, project, key) == Some(id)
    &&& forall|p: Seq<char>, k: Seq<char>| !(p == project && k == key) ==> assoc_lookup(after, p, k) == assoc_lookup(entries, p, k)
}

/// What a lookup gives after one entry's identifier changes.
proof fn lemma_assoc_update(entries: Seq<(String, String, String)>, i: int, entry: (String, String, String), p: Seq<char>, k: Seq<char>)
    requires
        0 <= i < entries.len(),
        entries[i].0@ == entry.0@ && entries[i].1@ == entry.1@,
    ensures
        assoc_lookup(entries.update(i, entry), p, k) == if assoc_lookup(entries.take(i), p, k) is None && p == entry.0@ && k == entry.1@ {
            Some(entry.2@)
        } else {
            assoc_lookup(entries, p, k)
        },
    decreases i,
{
    if i == 0 {
        assert(entries.update(0, entry).drop_first() =~= entries.drop_first());
        assert(entries.take(0).len() == 0);
    } else {
        lemma_assoc_update(entries.drop_first(), i - 1, entry, p, k);
        assert(entries.update(i, entry).drop_first() =~= entries.drop_first().update(i - 1, entry));
        assert(entries.take(i).drop_first() =~= entries.drop_first().take(i - 1));
        assert(entries.take(i)[0] == entries[0]);
    }
}

/// What a lookup gives after an entry is appended.
proof fn lemma_assoc_push(entries: Seq<(String, String, String)>, entry: (String, String, String), p: Seq<char>, k: Seq<char>)
    ensures
        assoc_lookup(entries.push(entry), p, k) == match assoc_lookup(entries, p, k) {
            Some(id) => Some(id),
            None => if p == entry.0@ && k == entry.1@ {
                Some(entry.2@)
            } else {
                None
            },
        },
    decreases entries.len(),
{
    if entries.len() > 0 {
        assert(entries.push(entry)[0] == entries[0]);
        assert(entries.push(entry).drop_first() =~= entries.drop_first().push(entry));
        lemma_assoc_push(entries.drop_first(), entry, p, k);
        if !(entries[0].0@ == p && entries[0].1@ == k) {
            assert(assoc_lookup(entries, p, k) == assoc_lookup(entries.drop_first(), p, k));
            assert(assoc_lookup(entries.push(entry), p, k) == assoc_lookup(entries.push(entry).drop_first(), p, k));
        }
    } else {
        assert(entries.push(entry)[0] == entry);
        assert(entries.push(entry).drop_first() =~= Seq::<(String, String, String)>::empty());
        assert(assoc_lookup(Seq::<(String, String, String)>::empty(), p, k) is None);
        assert(assoc_lookup(entries, p, k) is None);
    }
}

/// A lookup that stops at position `i` found nothing before it.
proof fn lemma_assoc_first(entries: Seq<(String, String, String)>, i: int, p: Seq<char>, k: Seq<char>)
    requires
        0 <= i < entries.len(),
        entries[i].0@ == p && entries[i].1@ == k,
        assoc_lookup(entries, p, k) == Some(entries[i].2@),
        forall|j: int| 0 <= j < i ==> !(entries[j].0@ == p && entries[j].1@ == k),
    ensures
        assoc_lookup(entries.take(i), p, k) is None,
    decreases i,
{
    if i > 0 {
        assert(entries.take(i).drop_first() =~= entries.drop_first().take(i - 1));
        lemma_assoc_first(entries.drop_first(), i - 1, p, k);
    }
}

/// Sets the identifier of a natural key.
fn assoc_insert(entries: &mut Vec<(String, String, String)>, project: String, key: String, server_id: String)
    ensures
        assoc_set(old(entries)@, project@, key@, server_id@, final(entries)@),
{
    let ghost before = entries@;
    let ghost (p0, k0, id0) = (project@, key@, server_id@);
    match assoc_find(entries, project.as_str(), key.as_str()) {
        Some(i) => {
            let entry = (project, key, server_id);
            let ghost e = entry;
            entries.set(i, entry);
            proof {
                lemma_assoc_first(before, i as int, p0, k0);

                assert forall|p: Seq<char>, k: Seq<char>| true implies assoc_lookup(entries@, p, k) == if assoc_lookup(before.take(i as int), p, k) is None && p == p0 && k == k0 {
                    Some(id0)
                } else {
                    assoc_lookup(before, p, k)
                } by {
                    lemma_assoc_update(before, i as int, e, p, k);
                }
            }
        },
        None => {
            let entry = (project, key, server_id);
            let ghost e = entry;
            entries.push(entry);
            proof {
                assert forall|p: Seq<char>, k: Seq<char>| true implies assoc_lookup(entries@, p, k) == match assoc_lookup(before, p, k) {
                    Some(id) => Some(id),
                    None => if p == p0 && k == k0 {
                        Some(id0)
                    } else {
                        None
                    },
                } by {
                    lemma_assoc_push(before, e, p, k);
                }
            }
        },
    }
}

/// The server identifiers of the natural keys a Workflow references,
/// resolved online: Assistants by slug, Skills by name and Datasources by
/// repository name, each within a project.
#[derive(Debug)]
pub struct WorkflowReferenceMap {
    assistant_ids: Vec<(String, String, String)>,
    skill_ids: Vec<(String, String, String)>,
    datasource_ids: Vec<(String, String, String)>,
}

/// The three tables of a reference map (none when no map is given).
pub type RefTables = (Seq<(String, String, String)>, Seq<(String, String, String)>, Seq<(String, String, String)>);

impl WorkflowReferenceMap {
    /// The tables.
    pub closed spec fn tables(&self) -> RefTables {
        (self.assistant_ids@, self.skill_ids@, self.datasource_ids@)
    }

    /// An empty map.
    pub fn new() -> (m: Self)
        ensures
            m.tables() == (Seq::<(String, String, String)>::empty(), Seq::<(String, String, String)>::empty(), Seq::<(String, String, String)>::empty()),
    {
        WorkflowReferenceMap { assistant_ids: Vec::new(), skill_ids: Vec::new(), datasource_ids: Vec::new() }
    }

    /// Records the server identifier of an Assistant.
    pub fn insert_assistant(&mut self, project: String, slug: String, server_id: String)
        ensures
            assoc_set(old(self).tables().0, project@, slug@, server_id@, final(self).tables().0),
            final(self).tables().1 == old(self).tables().1,
            final(self).tables().2 == old(self).tables().2,
    {
        assoc_insert(&mut self.assistant_ids, project, slug, server_id);
    }

    /// Records the server identifier of a Skill.
    pub fn insert_skill(&mut self, project: String, name: String, server_id: String)
        ensures
            assoc_set(old(self).tables().1, project@, name@, server_id@, final(self).tables().1),
            final(self).tables().0 == old(self).tables().0,
            final(self).tables().2 == old(self).tables().2,
    {
        assoc_insert(&mut self.skill_ids, project, name, server_id);
    }

    /// Records the server identifier of a Datasource.
    pub fn insert_datasource(&mut self, project: String, repo_name: String, server_id: String)
        ensures
            assoc_set(old(self).tables().2, project@, repo_name@, server_id@, final(self).tables().2),
            final(self).tables().0 == old(self).tables().0,
            final(self).tables().1 == old(self).tables().1,
    {
        assoc_insert(&mut self.datasource_ids, project, repo_name, server_id);
    }

    /// The identifier recorded for an Assistant.
    pub fn assistant_id(&self, project: &str, slug: &str) -> (r: Option<&str>)
        ensures
            match assoc_lookup(self.tables().0, project@, slug@) {
                Some(id) => r is Some && r->0@ == id,
                None => r is None,
            },
    {
        match assoc_find(&self.assistant_ids, project, slug) {
            Some(i) => Some(self.assistant_ids[i].2.as_str()),
            None => None,
        }
    }
}

/// Recording a key and then looking it up gives what was recorded; other
/// keys keep what they had.
pub proof fn law_reference_map_read_after_write(
    before: Seq<(String, String, String)>,
    after: Seq<(String, String, String)>,
    project: Seq<char>,
    key: Seq<char>,
    id: Seq<char>,
    other_project: Seq<char>,
    other_key: Seq<char>,
)
    requires
        assoc_set(before, project, key, id, after),
    ensures
        assoc_lookup(after, project, key) == Some(id),
        !(other_project == project && other_key == key) ==> assoc_lookup(after, other_project, other_key)
            == assoc_lookup(before, other_project, other_key),
{
}

// ---------------------------------------------------------------------------
// Execution configuration
// ---------------------------------------------------------------------------

/// The first position of a member name in members given as texts.
pub open spec fn vindex(v: Body, k: Seq<char>) -> Option<int>
    decreases v.len(),
{
    if v.len() == 0 {
        None
    } else if v[0].0 == k {
        Some(0)
    } else {
        match vindex(v.drop_first(), k) {
            Some(i) => Some(i + 1),
            None => None,
        }
    }
}

/// The value of the first member of a name.
pub open spec fn vget(v: Body, k: Seq<char>) -> Option<JsonValue> {
    match vindex(v, k) {
        Some(i) => Some(v[i].1),
        None => None,
    }
}

/// The members without the first member of a name.
pub open spec fn vtake(v: Body, k: Seq<char>) -> Body {
    match vindex(v, k) {
        Some(i) => v.remove(i),
        None => v,
    }
}

/// Names are found at the same place in members and in their texts.
pub proof fn lemma_vindex(m: Seq<(String, JsonValue)>, k: Seq<char>)
    ensures
        member_index(m, k) == vindex(body_view(m), k),
        match member_index(m, k) {
            Some(i) => body_view(m.remove(i)) == body_view(m).remove(i),
            None => true,
        },
    decreases m.len(),
{
    if m.len() > 0 {
        assert(body_view(m).drop_first() =~= body_view(m.drop_first()));
        lemma_vindex(m.drop_first(), k);
    }
    crate::json_value::lemma_member_index(m, k);
    match member_index(m, k) {
        Some(i) => {
            assert(body_view(m.remove(i)) =~= body_view(m).remove(i));
        },
        None => {},
    }
}

/// Why the execution configuration cannot be sent.
#[derive(Debug, Clone, Copy, PartialEq, Eq, Structural)]
pub enum Fault {
    /// It breaks the declaration's shape.
    Schema,
    /// A reference did not resolve exactly once.
    Unresolved,
}

/// The project and key of a natural reference object.
pub open spec fn reference_key(v: JsonValue, key_field: Seq<char>) -> Option<(Seq<char>, Seq<char>)> {
    match v {
        JsonValue::Object(m) => match (string_member_text(m@, "project"@), string_member_text(m@, key_field)) {
            (Some(p), Some(k)) => Some((p, k)),
            _ => None,
        },
        _ => None,
    }
}

/// The identifiers of the first `n` references of an array, resolved in a
/// table: an unreadable reference is a schema fault, a missing one unresolved.
pub open spec fn resolved_ids(items: Seq<JsonValue>, n: nat, key_field: Seq<char>, table: Seq<(String, String, String)>) -> Result<Seq<Seq<char>>, Fault>
    decreases n,
{
    if n == 0 || n > items.len() {
        Ok(Seq::empty())
    } else {
        match resolved_ids(items, (n - 1) as nat, key_field, table) {
            Err(f) => Err(f),
            Ok(ids) => match reference_key(items[n - 1], key_field) {
                None => Err(Fault::Schema),
                Some((p, k)) => match assoc_lookup(table, p, k) {
                    None => Err(Fault::Unresolved),
                    Some(id) => Ok(ids.push(id)),
                },
            },
        }
    }
}

/// The identifiers of a reference array.
pub open spec fn array_ids(v: JsonValue, key_field: Seq<char>, table: Seq<(String, String, String)>) -> Result<Seq<Seq<char>>, Fault> {
    match v {
        JsonValue::Array(items) => resolved_ids(items@, items@.len(), key_field, table),
        _ => Err(Fault::Schema),
    }
}

/// Whether JSON values are exactly the given strings.
pub open spec fn strings_are(v: Seq<JsonValue>, ids: Seq<Seq<char>>) -> bool {
    v.len() == ids.len() && forall|i: int| 0 <= i < v.len() ==> (#[trigger] v[i]) is String && v[i]->String_0@ == ids[i]
}

/// The error a fault is reported as.
pub open spec fn fault_reported(f: Fault, e: AppError) -> bool {
    match f {
        Fault::Schema => e is Schema,
        Fault::Unresolved => e is Reconciliation,
    }
}

/// Reads the project and key of a natural reference object.
fn reference_pair(value: &JsonValue, key_field: &str) -> (r: Result<(String, String), AppError>)
    ensures
        match reference_key(*value, key_field@) {
            Some((p, k)) => r is Ok && r->Ok_0.0@ == p && r->Ok_0.1@ == k,
            None => r is Err && r->Err_0 is Schema,
        },
{
    let m = match value {
        JsonValue::Object(m) => m,
        _ => {
            return Err(AppError::Schema("workflow: a reference must be an object".to_owned()));
        },
    };
    let project = match find_member(m, "project") {
        Some(JsonValue::String(p)) => p.clone(),
        _ => {
            return Err(AppError::Schema("workflow: a reference requires its project".to_owned()));
        },
    };
    let key = match find_member(m, key_field) {
        Some(JsonValue::String(k)) => k.clone(),
        _ => {
            return Err(AppError::Schema("workflow: a reference requires its key".to_owned()));
        },
    };
    Ok((project, key))
}

/// Resolves a reference array into server identifiers.
fn resolve_reference_array(value: &JsonValue, key_field: &str, table: &Vec<(String, String, String)>) -> (r: Result<Vec<JsonValue>, AppError>)
    ensures
        match array_ids(*value, key_field@, table@) {
            Ok(ids) => r is Ok && strings_are(r->Ok_0@, ids),
            Err(f) => r is Err && fault_reported(f, r->Err_0),
        },
{
    let items = match value {
        JsonValue::Array(items) => items,
        _ => {
            return Err(AppError::Schema("workflow: a reference list must be an array".to_owned()));
        },
    };
    let mut out: Vec<JsonValue> = Vec::new();
    let mut index: usize = 0;
    while index < items.len()
        invariant
            0 <= index <= items@.len(),
            *value == JsonValue::Array(*items),
            resolved_ids(items@, index as nat, key_field@, table@) is Ok,
            strings_are(out@, resolved_ids(items@, index as nat, key_field@, table@)->Ok_0),
        decreases items.len() - index,
    {
        let (project, key) = match reference_pair(&items[index], key_field) {
            Ok(pair) => pair,
            Err(e) => {
                proof {
                    lemma_ids_fault_persists(items@, (index + 1) as nat, items@.len(), key_field@, table@);
                }
                return Err(e);
            },
        };
        match assoc_find(table, project.as_str(), key.as_str()) {
            Some(i) => {
                out.push(JsonValue::String(table[i].2.clone()));
            },
            None => {
                proof {
                    lemma_ids_fault_persists(items@, (index + 1) as nat, items@.len(), key_field@, table@);
                }
                return Err(
                    AppError::Reconciliation("workflow: a reference did not resolve exactly once".to_owned()),
                );
            },
        }
        index = index + 1;
    }
    Ok(out)
}

/// A fault among the first `n` references stays a fault for `m >= n`.
proof fn lemma_ids_fault_persists(items: Seq<JsonValue>, n: nat, m: nat, key_field: Seq<char>, table: Seq<(String, String, String)>)
    requires
        n <= m <= items.len(),
        resolved_ids(items, n, key_field, table) is Err,
    ensures
        resolved_ids(items, m, key_field, table) == resolved_ids(items, n, key_field, table),
    decreases m - n,
{
    if n < m {
        lemma_ids_fault_persists(items, n, (m - 1) as nat, key_field, table);
    }
}

/// Whether members hold a name.
fn has_member(members: &Vec<(String, JsonValue)>, key: &str) -> (r: bool)
    ensures
        r == (vindex(body_view(members@), key@) is Some),
{
    proof {
        lemma_vindex(members@, key@);
    }
    find_member(members, key).is_some()
}

/// What an actor becomes besides its kept members: a resolved Assistant
/// identifier, or resolved skill and datasource identifiers.
pub enum ActorExtra {
    AssistantId(Seq<char>),
    Ids(Seq<Seq<char>>, Seq<Seq<char>>),
}

/// Members with `key` set to null when absent.
pub open spec fn with_null(v: Body, key: Seq<char>) -> Body {
    if vindex(v, key) is Some {
        v
    } else {
        v.push((key, JsonValue::Null))
    }
}

/// How one actor of the execution configuration is sent. Authored server
/// identifiers are refused; `temperature` defaults to null; an actor that
/// references an Assistant (`assistantRef`) may not also be inline, and is
/// sent with the referenced Assistant's identifier; an inline actor needs
/// `system_prompt`, `skillRefs` and `datasourceRefs`, and is sent with the
/// resolved skill and datasource identifiers.
pub open spec fn actor_expected(before: Body, t: RefTables) -> Result<(Body, ActorExtra), Fault> {
    if vindex(before, "assistant_id"@) is Some || vindex(before, "skill_ids"@) is Some || vindex(
        before,
        "datasource_ids"@,
    ) is Some {
        Err(Fault::Schema)
    } else {
        let tv = with_null(before, "temperature"@);
        match vget(tv, "assistantRef"@) {
            Some(reference) => {
                let rest = vtake(tv, "assistantRef"@);
                if vindex(rest, "system_prompt"@) is Some || vindex(rest, "skillRefs"@) is Some || vindex(
                    rest,
                    "datasourceRefs"@,
                ) is Some {
                    Err(Fault::Schema)
                } else {
                    match reference_key(reference, "slug"@) {
                        None => Err(Fault::Schema),
                        Some((p, k)) => match assoc_lookup(t.0, p, k) {
                            None => Err(Fault::Unresolved),
                            Some(id) => Ok((rest, ActorExtra::AssistantId(id))),
                        },
                    }
                }
            },
            None => if vindex(tv, "system_prompt"@) is None {
                Err(Fault::Schema)
            } else {
                match vget(tv, "skillRefs"@) {
                    None => Err(Fault::Schema),
                    Some(skill_refs) => {
                        let r1 = vtake(tv, "skillRefs"@);
                        match vget(r1, "datasourceRefs"@) {
                            None => Err(Fault::Schema),
                            Some(datasource_refs) => {
                                let r2 = vtake(r1, "datasourceRefs"@);
                                match array_ids(skill_refs, "name"@, t.1) {
                                    Err(f) => Err(f),
                                    Ok(skills) => match array_ids(datasource_refs, "repo_name"@, t.2) {
                                        Err(f) => Err(f),
                                        Ok(datasources) => Ok((r2, ActorExtra::Ids(skills, datasources))),
                                    },
                                }
                            },
                        }
                    },
                }
            },
        }
    }
}

/// Whether sent members are the kept members followed by the extra members.
pub open spec fn actor_matches(after: Body, kept: Body, extra: ActorExtra) -> bool {
    match extra {
        ActorExtra::AssistantId(id) => {
            &&& after.len() == kept.len() + 1
            &&& after.take(kept.len() as int) == kept
            &&& after[kept.len() as int].0 == "assistant_id"@
            &&& after[kept.len() as int].1 is String
            &&& after[kept.len() as int].1->String_0@ == id
        },
        ActorExtra::Ids(skills, datasources) => {
            &&& after.len() == kept.len() + 2
            &&& after.take(kept.len() as int) == kept
            &&& after[kept.len() as int].0 == "skill_ids"@
            &&& after[kept.len() as int].1 is Array
            &&& strings_are(after[kept.len() as int].1->Array_0@, skills)
            &&& after[kept.len() as int + 1].0 == "datasource_ids"@
            &&& after[kept.len() as int + 1].1 is Array
            &&& strings_are(after[kept.len() as int + 1].1->Array_0@, datasources)
        },
    }
}

/// Takes a member, with its effect on the texts.
fn take_view(members: &mut Vec<(String, JsonValue)>, key: &str) -> (r: Option<JsonValue>)
    ensures
        r == vget(body_view(old(members)@), key@),
        body_view(final(members)@) == vtake(body_view(old(members)@), key@),
{
    proof {
        lemma_vindex(members@, key@);
        crate::json_value::lemma_member_index(members@, key@);
        match member_index(members@, key@) {
            Some(i) => {
                assert(body_view(members@)[i].1 == members@[i].1);
            },
            None => {},
        }
    }
    take_member(members, key)
}

/// Transforms one actor's members.
fn transform_actor(
    actor: Vec<(String, JsonValue)>,
    assistants: &Vec<(String, String, String)>,
    skills: &Vec<(String, String, String)>,
    datasources: &Vec<(String, String, String)>,
) -> (r: Result<Vec<(String, JsonValue)>, AppError>)
    ensures
        match actor_expected(body_view(actor@), (assistants@, skills@, datasources@)) {
            Ok((kept, extra)) => r is Ok && actor_matches(body_view(r->Ok_0@), kept, extra),
            Err(f) => r is Err && fault_reported(f, r->Err_0),
        },
{
    let ghost initial = body_view(actor@);
    let mut actor = actor;
    if has_member(&actor, "assistant_id") || has_member(&actor, "skill_ids") || has_member(&actor, "datasource_ids") {
        return Err(AppError::Schema("workflow: authored server-resource fields are prohibited".to_owned()));
    }
    if !has_member(&actor, "temperature") {
        actor.push(("temperature".to_owned(), JsonValue::Null));
    }
    proof {
        assert(body_view(actor@) =~= with_null(initial, "temperature"@));
    }
    match take_view(&mut actor, "assistantRef") {
        Some(reference) => {
            if has_member(&actor, "system_prompt") || has_member(&actor, "skillRefs") || has_member(&actor, "datasourceRefs") {
                return Err(AppError::Schema("workflow: persisted actor contains inline-only fields".to_owned()));
            }
            let (project, slug) = reference_pair(&reference, "slug")?;
            let ghost kept = body_view(actor@);
            match assoc_find(assistants, project.as_str(), slug.as_str()) {
                Some(i) => {
                    actor.push(("assistant_id".to_owned(), JsonValue::String(assistants[i].2.clone())));
                    proof {
                        assert(body_view(actor@).take(kept.len() as int) =~= kept);
                    }
                    Ok(actor)
                },
                None => Err(
                    AppError::Reconciliation(
                        "workflow: persisted Assistant reference did not resolve exactly once".to_owned(),
                    ),
                ),
            }
        },
        None => {
            if !has_member(&actor, "system_prompt") {
                return Err(AppError::Schema("workflow: inline actor requires system_prompt".to_owned()));
            }
            let skill_refs = match take_view(&mut actor, "skillRefs") {
                Some(v) => v,
                None => {
                    return Err(AppError::Schema("workflow: inline actor requires skillRefs".to_owned()));
                },
            };
            let datasource_refs = match take_view(&mut actor, "datasourceRefs") {
                Some(v) => v,
                None => {
                    return Err(AppError::Schema("workflow: inline actor requires datasourceRefs".to_owned()));
                },
            };
            let skill_ids = resolve_reference_array(&skill_refs, "name", skills)?;
            let datasource_ids = resolve_reference_array(&datasource_refs, "repo_name", datasources)?;
            let ghost kept = body_view(actor@);
            actor.push(("skill_ids".to_owned(), JsonValue::Array(skill_ids)));
            actor.push(("datasource_ids".to_owned(), JsonValue::Array(datasource_ids)));
            proof {
                assert(body_view(actor@).take(kept.len() as int) =~= kept);
            }
            Ok(actor)
        },
    }
}

/// How one tool of the execution configuration is sent: its optional
/// fields default to null.
pub open spec fn tool_expected(before: Body) -> Body {
    with_null(with_null(with_null(before, "tool_result_json_pointer"@), "mcp_server"@), "tokens_size_limit"@)
}

/// Sets a member to null when absent.
fn ensure_null(members: &mut Vec<(String, JsonValue)>, key: &str)
    ensures
        body_view(final(members)@) == with_null(body_view(old(members)@), key@),
{
    if !has_member(members, key) {
        members.push((key.to_owned(), JsonValue::Null));
        proof {
            assert(body_view(members@) =~= with_null(body_view(old(members)@), key@));
        }
    }
}

/// The first `n` actors, each transformed; a non-object actor is a schema fault.
pub open spec fn actors_expected(items: Seq<JsonValue>, n: nat, t: RefTables) -> Result<Seq<(Body, ActorExtra)>, Fault>
    decreases n,
{
    if n == 0 || n > items.len() {
        Ok(Seq::empty())
    } else {
        match actors_expected(items, (n - 1) as nat, t) {
            Err(f) => Err(f),
            Ok(prev) => match items[n - 1] {
                JsonValue::Object(m) => match actor_expected(body_view(m@), t) {
                    Err(f) => Err(f),
                    Ok(e) => Ok(prev.push(e)),
                },
                _ => Err(Fault::Schema),
            },
        }
    }
}

/// The first `n` tools, each transformed; a non-object tool is a schema fault.
pub open spec fn tools_expected(items: Seq<JsonValue>, n: nat) -> Result<Seq<Body>, Fault>
    decreases n,
{
    if n == 0 || n > items.len() {
        Ok(Seq::empty())
    } else {
        match tools_expected(items, (n - 1) as nat) {
            Err(f) => Err(f),
            Ok(prev) => match items[n - 1] {
                JsonValue::Object(m) => Ok(prev.push(tool_expected(body_view(m@)))),
                _ => Err(Fault::Schema),
            },
        }
    }
}

/// Whether sent actors are the expected ones.
pub open spec fn actors_match(after: Seq<JsonValue>, expected: Seq<(Body, ActorExtra)>) -> bool {
    after.len() == expected.len() && forall|i: int|
        0 <= i < after.len() ==> (#[trigger] after[i]) is Object && actor_matches(
            body_view(after[i]->Object_0@),
            expected[i].0,
            expected[i].1,
        )
}

/// Whether sent tools are the expected ones.
pub open spec fn tools_match(after: Seq<JsonValue>, expected: Seq<Body>) -> bool {
    after.len() == expected.len() && forall|i: int|
        0 <= i < after.len() ==> (#[trigger] after[i]) is Object && body_view(after[i]->Object_0@) == expected[i]
}

/// A fault among the first `n` actors stays the fault for `m >= n`.
proof fn lemma_actors_fault_persists(items: Seq<JsonValue>, n: nat, m: nat, t: RefTables)
    requires
        n <= m <= items.len(),
        actors_expected(items, n, t) is Err,
    ensures
        actors_expected(items, m, t) == actors_expected(items, n, t),
    decreases m - n,
{
    if n < m {
        lemma_actors_fault_persists(items, n, (m - 1) as nat, t);
    }
}

/// A fault among the first `n` tools stays the fault for `m >= n`.
proof fn lemma_tools_fault_persists(items: Seq<JsonValue>, n: nat, m: nat)
    requires
        n <= m <= items.len(),
        tools_expected(items, n) is Err,
    ensures
        tools_expected(items, m) == tools_expected(items, n),
    decreases m - n,
{
    if n < m {
        lemma_tools_fault_persists(items, n, (m - 1) as nat);
    }
}

/// Transforms every actor of the execution configuration.
fn transform_actors(
    items: Vec<JsonValue>,
    assistants: &Vec<(String, String, String)>,
    skills: &Vec<(String, String, String)>,
    datasources: &Vec<(String, String, String)>,
) -> (r: Result<Vec<JsonValue>, AppError>)
    ensures
        match actors_expected(items@, items@.len(), (assistants@, skills@, datasources@)) {
            Ok(e) => r is Ok && actors_match(r->Ok_0@, e),
            Err(f) => r is Err && fault_reported(f, r->Err_0),
        },
{
    let ghost all = items@;
    let ghost t: RefTables = (assistants@, skills@, datasources@);
    let mut out: Vec<JsonValue> = Vec::new();
    for item in it: items.into_iter()
        invariant
            it.seq() == all,
            0 <= it.index() <= all.len(),
            t == (assistants@, skills@, datasources@),
            actors_expected(all, it.index() as nat, t) is Ok,
            actors_match(out@, actors_expected(all, it.index() as nat, t)->Ok_0),
    {
        let ghost k = it.index();
        proof {
            assert(item == all[k as int]);
        }
        let members = match item {
            JsonValue::Object(m) => m,
            _ => {
                proof {
                    lemma_actors_fault_persists(all, (k + 1) as nat, all.len(), t);
                }
                return Err(AppError::Schema("workflow: an actor must be an object".to_owned()));
            },
        };
        match transform_actor(members, assistants, skills, datasources) {
            Ok(m) => {
                out.push(JsonValue::Object(m));
            },
            Err(e) => {
                proof {
                    lemma_actors_fault_persists(all, (k + 1) as nat, all.len(), t);
                }
                return Err(e);
            },
        }
    }
    Ok(out)
}

/// Transforms every tool of the execution configuration.
fn transform_tools(items: Vec<JsonValue>) -> (r: Result<Vec<JsonValue>, AppError>)
    ensures
        match tools_expected(items@, items@.len()) {
            Ok(e) => r is Ok && tools_match(r->Ok_0@, e),
            Err(f) => r is Err && fault_reported(f, r->Err_0),
        },
{
    let ghost all = items@;
    let mut out: Vec<JsonValue> = Vec::new();
    for item in it: items.into_iter()
        invariant
            it.seq() == all,
            0 <= it.index() <= all.len(),
            tools_expected(all, it.index() as nat) is Ok,
            tools_match(out@, tools_expected(all, it.index() as nat)->Ok_0),
    {
        let ghost k = it.index();
        proof {
            assert(item == all[k as int]);
        }
        let mut members = match item {
            JsonValue::Object(m) => m,
            _ => {
                proof {
                    lemma_tools_fault_persists(all, (k + 1) as nat, all.len());
                }
                return Err(AppError::Schema("workflow: a tool must be an object".to_owned()));
            },
        };
        ensure_null(&mut members, "tool_result_json_pointer");
        ensure_null(&mut members, "mcp_server");
        ensure_null(&mut members, "tokens_size_limit");
        out.push(JsonValue::Object(members));
    }
    Ok(out)
}

/// The position of the first member of a name.
fn position_of(members: &Vec<(String, JsonValue)>, key: &str) -> (r: Option<usize>)
    ensures
        match member_index(members@, key@) {
            Some(i) => r is Some && r->0 == i,
            None => r is None,
        },
{
    proof {
        crate::json_value::lemma_member_index(members@, key@);
    }
    let mut index: usize = 0;
    while index < members.len()
        invariant
            0 <= index <= members@.len(),
            forall|j: int| 0 <= j < index ==> members@[j].0@ != key@,
            member_index(members@, key@) is Some ==> ({
                let i = member_index(members@, key@)->0;
                &&& 0 <= i < members@.len()
                &&& members@[i].0@ == key@
                &&& forall|j: int| 0 <= j < i ==> members@[j].0@ != key@
            }),
            member_index(members@, key@) is None ==> forall|j: int|
                0 <= j < members@.len() ==> members@[j].0@ != key@,
        decreases members.len() - index,
    {
        if same_text(members[index].0.as_str(), key) {
            proof {
                let i = member_index(members@, key@);
                if i is Some {
                    if i->0 < index {
                        assert(members@[i->0].0@ != key@);
                    } else if i->0 > index {
                        assert(members@[index as int].0@ != key@);
                    }
                }
            }
            return Some(index);
        }
        index = index + 1;
    }
    None
}

/// How the execution configuration is sent: its `assistants` array with
/// each actor transformed, then its `tools` array with each tool
/// transformed; anything else is kept.
pub open spec fn execution_expected(exec: Body, t: RefTables) -> Result<(Seq<(Body, ActorExtra)>, Seq<Body>), Fault> {
    match vget(exec, "assistants"@) {
        Some(JsonValue::Array(items)) => match actors_expected(items@, items@.len(), t) {
            Err(f) => Err(f),
            Ok(actors) => match vget(exec, "tools"@) {
                Some(JsonValue::Array(tools)) => match tools_expected(tools@, tools@.len()) {
                    Err(f) => Err(f),
                    Ok(tl) => Ok((actors, tl)),
                },
                _ => Err(Fault::Schema),
            },
        },
        _ => Err(Fault::Schema),
    }
}

/// Whether a sent execution configuration is the expected one.
pub open spec fn execution_matches(before: Body, after: Body, actors: Seq<(Body, ActorExtra)>, tools: Seq<Body>) -> bool {
    let ai = vindex(before, "assistants"@)->0;
    let ti = vindex(before, "tools"@)->0;
    &&& after.len() == before.len()
    &&& forall|j: int| 0 <= j < after.len() && j != ai && j != ti ==> #[trigger] after[j] == before[j]
    &&& after[ai].0 == "assistants"@
    &&& after[ai].1 is Array
    &&& actors_match(after[ai].1->Array_0@, actors)
    &&& after[ti].0 == "tools"@
    &&& after[ti].1 is Array
    &&& tools_match(after[ti].1->Array_0@, tools)
}

/// Converts a Workflow's authored execution configuration into the form the
/// server stores: natural references become server identifiers and
/// optional fields default to null.
pub fn transform_workflow_execution(execution: Vec<(String, JsonValue)>, references: Option<&WorkflowReferenceMap>) -> (r: Result<Vec<(String, JsonValue)>, AppError>)
    ensures
        ({
            let t = match references {
                Some(m) => m.tables(),
                None => (Seq::<(String, String, String)>::empty(), Seq::<(String, String, String)>::empty(), Seq::<(String, String, String)>::empty()),
            };
            match execution_expected(body_view(execution@), t) {
                Ok((actors, tools)) => r is Ok && execution_matches(body_view(execution@), body_view(r->Ok_0@), actors, tools),
                Err(f) => r is Err && fault_reported(f, r->Err_0),
            }
        }),
{
    let empty: Vec<(String, String, String)> = Vec::new();
    let (assistants, skills, datasources) = match references {
        Some(m) => (&m.assistant_ids, &m.skill_ids, &m.datasource_ids),
        None => (&empty, &empty, &empty),
    };
    let ghost before = body_view(execution@);
    let mut execution = execution;
    proof {
        lemma_vindex(execution@, "assistants"@);
        lemma_vindex(execution@, "tools"@);
        crate::json_value::lemma_member_index(execution@, "assistants"@);
        crate::json_value::lemma_member_index(execution@, "tools"@);
    }
    let ai = match position_of(&execution, "assistants") {
        Some(i) => i,
        None => {
            return Err(AppError::Schema("workflow: execution_config.assistants must be an array".to_owned()));
        },
    };
    let ghost members0 = execution@;
    let (name, value) = execution.remove(ai);
    proof {
        assert(member_index(members0, "assistants"@) == Some(ai as int));
        assert(vindex(before, "assistants"@) == Some(ai as int));
        assert(value == members0[ai as int].1);
        assert(before[ai as int].1 == members0[ai as int].1);
        assert(vget(before, "assistants"@) == Some(value));
    }
    let items = match value {
        JsonValue::Array(items) => items,
        _ => {
            return Err(AppError::Schema("workflow: execution_config.assistants must be an array".to_owned()));
        },
    };
    let actors = transform_actors(items, assistants, skills, datasources)?;
    execution.insert(ai, (name, JsonValue::Array(actors)));
    let ghost middle = body_view(execution@);
    proof {
        assert(middle =~= before.update(ai as int, ("assistants"@, JsonValue::Array(actors))));
        lemma_vindex(execution@, "tools"@);
        crate::json_value::lemma_member_index(execution@, "tools"@);
        assert(vindex(middle, "tools"@) == vindex(before, "tools"@)) by {
            lemma_vindex_update(before, ai as int, ("assistants"@, JsonValue::Array(actors)), "tools"@);
        }
    }
    let ti = match position_of(&execution, "tools") {
        Some(i) => i,
        None => {
            return Err(AppError::Schema("workflow: execution_config.tools must be an array".to_owned()));
        },
    };
    let ghost members1 = execution@;
    let (tool_name, tool_value) = execution.remove(ti);
    proof {
        reveal_strlit("assistants");
        reveal_strlit("tools");
        assert("assistants"@.len() != "tools"@.len());
        assert(member_index(members1, "tools"@) == Some(ti as int));
        assert(vindex(middle, "tools"@) == Some(ti as int));
        assert(middle[ai as int].0 == "assistants"@);
        assert(middle[ti as int].0 == "tools"@);
        assert(ti != ai);
        assert(tool_value == members1[ti as int].1);
        assert(middle[ti as int].1 == members1[ti as int].1);
        assert(before[ti as int] == middle[ti as int]);
        assert(vget(before, "tools"@) == Some(tool_value));
    }
    let tool_items = match tool_value {
        JsonValue::Array(items) => items,
        _ => {
            return Err(AppError::Schema("workflow: execution_config.tools must be an array".to_owned()));
        },
    };
    let tools = transform_tools(tool_items)?;
    execution.insert(ti, (tool_name, JsonValue::Array(tools)));
    proof {
        assert(body_view(execution@) =~= middle.update(ti as int, ("tools"@, JsonValue::Array(tools))));
    }
    Ok(execution)
}

/// Changing a member to another of the same name keeps where names are found.
proof fn lemma_vindex_update(v: Body, i: int, entry: (Seq<char>, JsonValue), k: Seq<char>)
    requires
        0 <= i < v.len(),
        entry.0 == v[i].0,
    ensures
        vindex(v.update(i, entry), k) == vindex(v, k),
    decreases v.len(),
{
    if i > 0 {
        assert(v.update(i, entry).drop_first() =~= v.drop_first().update(i - 1, entry));
        lemma_vindex_update(v.drop_first(), i - 1, entry, k);
    } else {
        assert(v.update(0, entry).drop_first() =~= v.drop_first());
    }
}

// ---------------------------------------------------------------------------
// meta_config
// ---------------------------------------------------------------------------

/// Members with strictly increasing names.
pub open spec fn keys_sorted(v: Body) -> bool {
    forall|i: int, j: int| 0 <= i < j < v.len() ==> text_less(v[i].0, v[j].0)
}

/// Where `vindex` points.
pub proof fn lemma_vindex_props(v: Body, k: Seq<char>)
    ensures
        match vindex(v, k) {
            Some(i) => 0 <= i < v.len() && v[i].0 == k && forall|j: int| 0 <= j < i ==> v[j].0 != k,
            None => forall|j: int| 0 <= j < v.len() ==> v[j].0 != k,
        },
    decreases v.len(),
{
    if v.len() > 0 {
        lemma_vindex_props(v.drop_first(), k);
        if v[0].0 != k {
            assert forall|j: int| 1 <= j < v.len() implies v[j] == v.drop_first()[j - 1] by {}
        }
    }
}

/// In sorted members a name is found where it is.
proof fn lemma_sorted_vget(v: Body, i: int)
    requires
        keys_sorted(v),
        0 <= i < v.len(),
    ensures
        vget(v, v[i].0) == Some(v[i].1),
{
    lemma_vindex_props(v, v[i].0);
    let j = vindex(v, v[i].0)->0;
    if j != i {
        if j < i {
            assert(text_less(v[j].0, v[i].0));
            lemma_text_less_irreflexive(v[i].0);
        }
    }
}

/// Sets a member in sorted members: its value is replaced, or it is added
/// at its place in name order.
pub fn insert_member_sorted(members: &mut Vec<(String, JsonValue)>, key: String, value: JsonValue)
    requires
        keys_sorted(body_view(old(members)@)),
    ensures
        keys_sorted(body_view(final(members)@)),
        forall|k: Seq<char>| #[trigger] vget(body_view(final(members)@), k) == if k == key@ {
            Some(value)
        } else {
            vget(body_view(old(members)@), k)
        },
{
    let ghost before = body_view(members@);
    let mut index: usize = 0;
    while index < members.len() && is_text_less(members[index].0.as_str(), key.as_str())
        invariant
            0 <= index <= members@.len(),
            body_view(members@) == before,
            keys_sorted(before),
            forall|j: int| 0 <= j < index ==> text_less(before[j].0, key@),
        decreases members.len() - index,
    {
        index = index + 1;
    }
    let ghost k0 = key@;
    let ghost v0 = value;
    let replace = index < members.len() && same_text(members[index].0.as_str(), key.as_str());
    if replace {
        members.set(index, (key, value));
    } else {
        proof {
            if index < before.len() {
                lemma_text_less_total(before[index as int].0, k0);
            }
        }
        members.insert(index, (key, value));
    }
    let ghost after = body_view(members@);
    proof {
        if replace {
            assert(after =~= before.update(index as int, (k0, v0)));
        } else {
            assert(after =~= before.insert(index as int, (k0, v0)));
        }
        assert forall|i: int, j: int| 0 <= i < j < after.len() implies text_less(after[i].0, after[j].0) by {
            if replace {
                if i == index {
                    assert(before[i].0 == k0);
                } else if j == index {
                    assert(before[j].0 == k0);
                }
            } else {
                if j < index {
                } else if j == index {
                } else if i < index {
                    assert(text_less(before[i].0, k0));
                    if j - 1 == index {
                    } else {
                        lemma_text_less_transitive(k0, before[index as int].0, before[j - 1].0);
                    }
                    lemma_text_less_transitive(before[i].0, k0, before[j - 1].0);
                } else if i == index {
                    if j - 1 > index {
                        lemma_text_less_transitive(k0, before[index as int].0, before[j - 1].0);
                    }
                }
            }
        }
        assert forall|k: Seq<char>| #[trigger] vget(after, k) == if k == k0 {
            Some(v0)
        } else {
            vget(before, k)
        } by {
            lemma_vindex_props(before, k);
            lemma_vindex_props(after, k);
            if k == k0 {
                lemma_sorted_vget(after, index as int);
            } else {
                match vindex(before, k) {
                    Some(j) => {
                        lemma_sorted_vget(before, j);
                        let nj = if replace || j < index {
                            j
                        } else {
                            j + 1
                        };
                        assert(after[nj] == before[j]);
                        lemma_sorted_vget(after, nj);
                    },
                    None => {
                        assert forall|m: int| 0 <= m < after.len() implies after[m].0 != k by {
                            if replace {
                                if m != index {
                                    assert(after[m] == before[m]);
                                }
                            } else if m < index {
                                assert(after[m] == before[m]);
                            } else if m > index {
                                assert(after[m] == before[m - 1]);
                            }
                        }
                    },
                }
            }
        }
    }
}

/// The value the last member of a name gives.
pub open spec fn last_value(v: Body, k: Seq<char>) -> Option<JsonValue>
    decreases v.len(),
{
    if v.len() == 0 {
        None
    } else if v.last().0 == k {
        Some(v.last().1)
    } else {
        last_value(v.drop_last(), k)
    }
}

/// Whether a value is the identity record of a Workflow: exactly
/// `creator_user_id`, `project`, `slug` and `version` 2, in name order.
pub open spec fn identity_record(v: JsonValue, creator: Seq<char>, project: Seq<char>, slug: Seq<char>) -> bool {
    v is Object && ({
        let b = body_view(v->Object_0@);
        &&& b.len() == 4
        &&& b[0].0 == "creator_user_id"@ && b[0].1 is String && b[0].1->String_0@ == creator
        &&& b[1].0 == "project"@ && b[1].1 is String && b[1].1->String_0@ == project
        &&& b[2].0 == "slug"@ && b[2].1 is String && b[2].1->String_0@ == slug
        &&& b[3].0 == "version"@ && b[3].1 is Number && b[3].1->Number_0@ == "2"@
    })
}

/// Whether members are the merged `meta_config` of server members `sm` and
/// authored members `am`: names in order; the reserved identity record
/// under the reserved key; every other name with its last authored value,
/// else its last server value.
pub open spec fn merged_meta(sm: Body, am: Body, project: Seq<char>, slug: Seq<char>, creator: Seq<char>, m: Seq<(String, JsonValue)>) -> bool {
    let v = body_view(m);
    &&& keys_sorted(v)
    &&& vget(v, crate::adapters::workflow::identity_key_text()) is Some
    &&& identity_record(vget(v, crate::adapters::workflow::identity_key_text())->0, creator, project, slug)
    &&& forall|k: Seq<char>|
        k != crate::adapters::workflow::identity_key_text() ==> #[trigger] vget(v, k) == match last_value(am, k) {
            Some(x) => Some(x),
            None => last_value(sm, k),
        }
}

/// A merged `meta_config` carries the marker of its own identity: read back
/// on a row of `project`, it classifies as the exact marker of (`project`,
/// `slug`, `creator`) whenever the three are non-empty. What apply writes is
/// what enumeration and post-write verification recognise.
pub proof fn law_merged_marker_is_exact(
    sm: Body,
    am: Body,
    project: Seq<char>,
    slug: Seq<char>,
    creator: Seq<char>,
    members: Vec<(String, JsonValue)>,
)
    requires
        merged_meta(sm, am, project, slug, creator, members@),
        project.len() > 0,
        slug.len() > 0,
        creator.len() > 0,
    ensures
        crate::adapters::workflow::marker_class(
            Some(Ok(JsonValue::Object(members))),
            project,
            project,
            slug,
            creator,
        ) == crate::adapters::workflow::MarkerClassification::Exact,
{
    let key = crate::adapters::workflow::identity_key_text();
    lemma_vindex(members@, key);
    lemma_vindex_props(body_view(members@), key);
    let record = vget(body_view(members@), key)->0;
    assert(crate::json_value::member_value(members@, key) == Some(record));
    let f = record->Object_0@;
    let b = body_view(f);
    reveal_strlit("creator_user_id");
    reveal_strlit("project");
    reveal_strlit("slug");
    reveal_strlit("version");
    assert("project"@ != "version"@) by {
        assert("project"@[0] != "version"@[0]);
    }
    assert("creator_user_id"@.len() == 15 && "project"@.len() == 7 && "slug"@.len() == 4);
    lemma_vindex(f, "creator_user_id"@);
    lemma_vindex(f, "project"@);
    lemma_vindex(f, "slug"@);
    lemma_vindex(f, "version"@);
    lemma_vindex_props(b, "creator_user_id"@);
    lemma_vindex_props(b, "project"@);
    lemma_vindex_props(b, "slug"@);
    lemma_vindex_props(b, "version"@);
    assert(vindex(b, "creator_user_id"@) == Some(0int));
    assert(vindex(b, "project"@) == Some(1int));
    assert(vindex(b, "slug"@) == Some(2int));
    assert(vindex(b, "version"@) == Some(3int));
}

/// The merged `meta_config`: its members in name order and their compact
/// JSON text.
pub struct MetaConfig {
    pub members: Vec<(String, JsonValue)>,
    pub text: String,
}

/// The members of the server's `meta_config`: none when it is absent or
/// null, the object's members when it is an object.
pub open spec fn server_members(server: Option<Result<JsonValue, crate::json_value::MalformedJson>>) -> Option<Body> {
    match server {
        None => Some(Seq::empty()),
        Some(Ok(JsonValue::Null)) => Some(Seq::empty()),
        Some(Ok(JsonValue::Object(m))) => Some(body_view(m@)),
        _ => None,
    }
}

/// The members of the authored `meta_config`: none when it is absent or
/// null, the object's members when it is an object.
pub open spec fn authored_members(authored: Option<JsonValue>) -> Option<Body> {
    match authored {
        None => Some(Seq::empty()),
        Some(JsonValue::Null) => Some(Seq::empty()),
        Some(JsonValue::Object(m)) => Some(body_view(m@)),
        _ => None,
    }
}

/// Whether some member has the reserved identity key.
pub open spec fn names_reserved(b: Body) -> bool {
    exists|i: int| 0 <= i < b.len() && (#[trigger] b[i]).0 == crate::adapters::workflow::identity_key_text()
}

/// Merges the Workflow `meta_config`: the server's members, overlaid by the
/// authored ones (the author may not set the reserved identity key), and
/// the reserved identity record; the text is the compact JSON of the
/// members in name order. Invalid server JSON is a compatibility failure; a
/// server or authored value that is not an object (or null) is a schema error.
pub fn merge_meta_config(
    server: Option<Result<JsonValue, crate::json_value::MalformedJson>>,
    authored: Option<JsonValue>,
    project: &str,
    slug: &str,
    creator_user_id: &str,
) -> (r: Result<MetaConfig, AppError>)
    ensures
        match server {
            Some(Err(_)) => r is Err && r->Err_0 is ProjectionLayer,
            _ => match (server_members(server), authored_members(authored)) {
                (Some(sm), Some(am)) => if names_reserved(am) {
                    r is Err && r->Err_0 is Schema
                } else {
                    r is Ok && merged_meta(sm, am, project@, slug@, creator_user_id@, r->Ok_0.members@)
                        && r->Ok_0.text@ == json_text(JsonValue::Object(r->Ok_0.members))
                },
                _ => r is Err && r->Err_0 is Schema,
            },
        },
{
    let ghost server0 = server;
    let ghost authored0 = authored;
    let server_list: Vec<(String, JsonValue)> = match server {
        None => Vec::new(),
        Some(Err(_)) => {
            return Err(
                AppError::ProjectionLayer(crate::error::ProjectionError::ServerJson { context: "workflow meta_config" }),
            );
        },
        Some(Ok(JsonValue::Null)) => Vec::new(),
        Some(Ok(JsonValue::Object(m))) => m,
        Some(Ok(_)) => {
            return Err(AppError::Schema("meta_config: server value is not a JSON object".to_owned()));
        },
    };
    let authored_list: Vec<(String, JsonValue)> = match authored {
        None => Vec::new(),
        Some(JsonValue::Null) => Vec::new(),
        Some(JsonValue::Object(m)) => m,
        Some(_) => {
            return Err(AppError::Schema("meta_config: authored value must be a JSON object or null".to_owned()));
        },
    };
    let ghost sm = body_view(server_list@);
    let ghost am = body_view(authored_list@);
    let mut merged: Vec<(String, JsonValue)> = Vec::new();
    proof {
        assert(sm.take(0) =~= Seq::<(Seq<char>, JsonValue)>::empty());
    }
    for entry in it: server_list.into_iter()
        invariant
            it.seq() == server_list@,
            sm == body_view(server_list@),
            0 <= it.index() <= server_list@.len(),
            keys_sorted(body_view(merged@)),
            forall|k: Seq<char>| #[trigger] vget(body_view(merged@), k) == last_value(sm.take(it.index() as int), k),
    {
        let ghost k = it.index();
        proof {
            assert(entry == server_list@[k as int]);
            assert(sm.take(k + 1).drop_last() =~= sm.take(k as int));
            assert(sm.take(k + 1).last() == (entry.0@, entry.1));
        }
        let (name, value) = entry;
        insert_member_sorted(&mut merged, name, value);
    }
    proof {
        assert(sm.take(sm.len() as int) =~= sm);
        assert(am.take(0) =~= Seq::<(Seq<char>, JsonValue)>::empty());
    }
    for entry in it: authored_list.into_iter()
        invariant
            it.seq() == authored_list@,
            am == body_view(authored_list@),
            0 <= it.index() <= authored_list@.len(),
            server_members(server0) == Some(sm),
            authored_members(authored0) == Some(am),
            !(server0 is Some && server0->0 is Err),
            server0 == server,
            authored0 == authored,
            keys_sorted(body_view(merged@)),
            forall|j: int| 0 <= j < it.index() ==> am[j].0 != crate::adapters::workflow::identity_key_text(),
            forall|k: Seq<char>| #[trigger] vget(body_view(merged@), k) == match last_value(am.take(it.index() as int), k) {
                Some(v) => Some(v),
                None => last_value(sm, k),
            },
    {
        let ghost k = it.index();
        proof {
            assert(entry == authored_list@[k as int]);
            assert(am.take(k + 1).drop_last() =~= am.take(k as int));
            assert(am.take(k + 1).last() == (entry.0@, entry.1));
            assert(am[k as int] == (entry.0@, entry.1));
        }
        let (name, value) = entry;
        if same_text(name.as_str(), crate::adapters::workflow::identity_key()) {
            proof {
                assert(names_reserved(am));
            }
            return Err(AppError::Schema("meta_config: author must not set the reserved identity key".to_owned()));
        }
        insert_member_sorted(&mut merged, name, value);
    }
    proof {
        assert(am.take(am.len() as int) =~= am);
        if names_reserved(am) {
            let j = choose|j: int| 0 <= j < am.len() && (#[trigger] am[j]).0 == crate::adapters::workflow::identity_key_text();
            assert(false);
        }
    }
    let mut identity: Vec<(String, JsonValue)> = Vec::new();
    identity.push(("creator_user_id".to_owned(), JsonValue::String(creator_user_id.to_owned())));
    identity.push(("project".to_owned(), JsonValue::String(project.to_owned())));
    identity.push(("slug".to_owned(), JsonValue::String(slug.to_owned())));
    identity.push(("version".to_owned(), JsonValue::Number("2".to_owned())));
    let record = JsonValue::Object(identity);
    let ghost record_copy = record;
    insert_member_sorted(&mut merged, crate::adapters::workflow::identity_key().to_owned(), record);
    let whole = JsonValue::Object(merged);
    let text = write_json(&whole);
    let members = match whole {
        JsonValue::Object(m) => m,
        _ => Vec::new(),
    };
    Ok(MetaConfig { members, text })
}

// ---------------------------------------------------------------------------
// YAML spelling of the execution configuration
// ---------------------------------------------------------------------------

/// What `serde_yaml::to_string` gives for the JSON document spelled `json`,
/// which `serde_json::from_str` reads first: the YAML text, or nothing when
/// the text cannot be read back or the document cannot be written.
pub uninterp spec fn yaml_document(json: Seq<char>) -> Option<Seq<char>>;

/// `serde_yaml::to_string` of the JSON document spelled `json`, which
/// `serde_json::from_str` reads first (the library's JSON value keeps
/// numbers as text, so reading its spelling back is how it becomes a
/// `serde_json::Value`). The whole outcome is `yaml_document` of the text;
/// when that is nothing (the text nests deeper than the reader's recursion
/// limit, or the writer fails) there is no result.
#[verifier::external_body]
fn yaml_of_json(json: &str) -> (r: Option<String>)
    ensures
        r is Some <==> yaml_document(json@) is Some,
        r is Some ==> r->0@ == yaml_document(json@)->0,
{
    match serde_json::from_str::<serde_json::Value>(json) {
        Ok(value) => serde_yaml::to_string(&value).ok(),
        Err(_) => None,
    }
}

// ---------------------------------------------------------------------------
// Workflow bodies
// ---------------------------------------------------------------------------

/// Members without the first member of a name.
pub open spec fn without(m: Seq<(String, JsonValue)>, k: Seq<char>) -> Seq<(String, JsonValue)> {
    match member_index(m, k) {
        Some(i) => m.remove(i),
        None => m,
    }
}

/// Whether a body is the Workflow body of a declaration: the field rules
/// over the metadata and the spec without `execution_config` and
/// `meta_config`; `yaml_config`, the YAML document of the execution
/// configuration as sent; `meta_config`, the merged configuration's text; and, for a
/// create, the sent `assistants`, `tools` and `states`.
pub open spec fn workflow_body(
    s: Sections,
    exec_after: Seq<(String, JsonValue)>,
    merged_text: Seq<char>,
    is_update: bool,
    body: Body,
) -> bool {
    let spec_rest = without(without(s.1, "execution_config"@), "meta_config"@);
    let exec_view = body_view(exec_after);
    match rules_fold((s.0, spec_rest), Seq::empty(), crate::projection::rules::workflow_rule_table(), is_update) {
        Ok((_, fields)) => {
            let n = fields.len() as int;
            &&& body.len() == n + 2 + (if is_update { 0int } else { 3 })
            &&& body.take(n) == fields
            &&& body[n].0 == "yaml_config"@
            &&& body[n].1 is String
            &&& yaml_document(object_text(exec_after)) == Some(body[n].1->String_0@)
            &&& body[n + 1].0 == "meta_config"@
            &&& body[n + 1].1 is String
            &&& body[n + 1].1->String_0@ == merged_text
            &&& !is_update ==> (body[n + 2] == ("assistants"@, vget(exec_view, "assistants"@)->0)
                && body[n + 3] == ("tools"@, vget(exec_view, "tools"@)->0) && body[n + 4] == (
            "states"@, vget(exec_view, "states"@)->0))
        },
        Err(_) => false,
    }
}

/// Whether an execution configuration was sent as the transformation says.
pub open spec fn transformed_as(before: Seq<(String, JsonValue)>, t: RefTables, after: Seq<(String, JsonValue)>) -> bool {
    match execution_expected(body_view(before), t) {
        Ok((actors, tools)) => execution_matches(body_view(before), body_view(after), actors, tools),
        Err(_) => false,
    }
}

/// The reference tables of an optional map.
pub open spec fn tables_of(references: Option<&WorkflowReferenceMap>) -> RefTables {
    match references {
        Some(m) => m.tables(),
        None => (Seq::<(String, String, String)>::empty(), Seq::<(String, String, String)>::empty(), Seq::<(String, String, String)>::empty()),
    }
}

/// The string at `members.key`, if there is one.
fn member_text(members: &Vec<(String, JsonValue)>, key: &str) -> (r: Option<String>)
    ensures
        match string_member_text(members@, key@) {
            Some(t) => r is Some && r->0@ == t,
            None => r is None,
        },
{
    match find_member(members, key) {
        Some(JsonValue::String(t)) => Some(t.clone()),
        _ => None,
    }
}

/// The text of an object given by its members.
pub open spec fn object_text(m: Seq<(String, JsonValue)>) -> Seq<char> {
    "{"@ + crate::json_value::members_text(m, m.len()) + "}"@
}

/// Whether a plan is the Workflow projection of a declaration value: the
/// plan's kind follows the resolution; its JSON body is the transformed
/// execution configuration, the merged `meta_config` and the field rules,
/// as `workflow_body` says.
pub open spec fn workflow_projected(
    value: JsonValue,
    existing: Option<ExistingEntity>,
    references: Option<&WorkflowReferenceMap>,
    creator: Seq<char>,
    plan: WritePlan,
) -> bool {
    let is_update = existing is Some;
    let s = declaration_sections(value)->0;
    let request = match plan {
        WritePlan::Create { request } => request,
        WritePlan::Update { request, .. } => request,
    };
    let authored = member_value(without(s.1, "execution_config"@), "meta_config"@);
    let server = match existing {
        Some(e) => e.meta_config,
        None => None,
    };
    &&& declaration_sections(value) is Some
    &&& (plan is Update <==> is_update)
    &&& (plan is Update ==> plan->Update_server_id == existing->0.server_id)
    &&& request is Json
    &&& request->Json_0 is Object
    &&& member_value(s.1, "execution_config"@) is Some
    &&& member_value(s.1, "execution_config"@)->0 is Object
    &&& string_member_text(s.0, "project"@) is Some
    &&& string_member_text(s.0, "slug"@) is Some
    &&& server_members(server) is Some
    &&& authored_members(authored) is Some
    &&& workflow_witnessed(
        s,
        member_value(s.1, "execution_config"@)->0->Object_0@,
        tables_of(references),
        server_members(server)->0,
        authored_members(authored)->0,
        string_member_text(s.0, "project"@)->0,
        string_member_text(s.0, "slug"@)->0,
        creator,
        is_update,
        body_view(request->Json_0->Object_0@),
    )
}

/// Whether some transformed execution configuration and some merged
/// `meta_config` make `body` the Workflow body.
pub open spec fn workflow_witnessed(
    s: Sections,
    exec_before: Seq<(String, JsonValue)>,
    t: RefTables,
    sm: Body,
    am: Body,
    project: Seq<char>,
    slug: Seq<char>,
    creator: Seq<char>,
    is_update: bool,
    body: Body,
) -> bool {
    exists|exec_after: Seq<(String, JsonValue)>, merged: Seq<(String, JsonValue)>|
        #[trigger] transformed_as(exec_before, t, exec_after) && #[trigger] merged_meta(sm, am, project, slug, creator, merged)
            && workflow_body(s, exec_after, object_text(merged), is_update, body)
}

/// Whether a Workflow declaration can be projected (all but the YAML
/// spelling of its execution configuration, which the YAML writer decides):
/// a metadata and a spec object; a `metadata.project` and `metadata.slug`;
/// an execution configuration object whose actors and tools convert with the
/// resolved references; a `meta_config` merge that succeeds; field rules that
/// find every required field; and, for a create, `states` in the execution
/// configuration.
pub open spec fn workflow_projectable(
    value: JsonValue,
    existing: Option<ExistingEntity>,
    references: Option<&WorkflowReferenceMap>,
) -> bool {
    match declaration_sections(value) {
        None => false,
        Some(s) => {
            let is_update = existing is Some;
            let exec = member_value(s.1, "execution_config"@);
            let authored = member_value(without(s.1, "execution_config"@), "meta_config"@);
            let server = match existing {
                Some(e) => e.meta_config,
                None => None,
            };
            &&& string_member_text(s.0, "project"@) is Some
            &&& string_member_text(s.0, "slug"@) is Some
            &&& exec is Some
            &&& exec->0 is Object
            &&& execution_expected(body_view(exec->0->Object_0@), tables_of(references)) is Ok
            &&& server_members(server) is Some
            &&& authored_members(authored) is Some
            &&& !names_reserved(authored_members(authored)->0)
            &&& rules_fold(
                (s.0, without(without(s.1, "execution_config"@), "meta_config"@)),
                Seq::empty(),
                crate::projection::rules::workflow_rule_table(),
                is_update,
            ) is Ok
            &&& !is_update ==> vget(body_view(exec->0->Object_0@), "states"@) is Some
        },
    }
}

/// Whether the YAML writer spells every execution configuration that the
/// references may turn the declared one into.
pub open spec fn execution_yaml_writable(value: JsonValue, references: Option<&WorkflowReferenceMap>) -> bool {
    let s = declaration_sections(value)->0;
    let before = body_view(member_value(s.1, "execution_config"@)->0->Object_0@);
    match execution_expected(before, tables_of(references)) {
        Ok((actors, tools)) => forall|after: Seq<(String, JsonValue)>|
            #[trigger] execution_matches(before, body_view(after), actors, tools) ==> yaml_document(
                object_text(after),
            ) is Some,
        Err(_) => true,
    }
}

/// Projects a Workflow: its execution configuration with references
/// resolved, its merged `meta_config` bound to the creator, and its field
/// rules; a create also sends the execution's actors, tools and states.
/// A projectable declaration fails only when the YAML writer gives no
/// spelling of its execution configuration.
#[verifier::rlimit(50)]
pub fn project_workflow(
    declaration: ParsedDeclaration,
    existing: Option<ExistingEntity>,
    references: Option<&WorkflowReferenceMap>,
    creator_user_id: &str,
) -> (r: Result<WritePlan, AppError>)
    ensures
        declaration_sections(declaration.value) is None ==> (r is Err && r->Err_0 is Schema),
        r is Ok ==> workflow_projectable(declaration.value, existing, references),
        workflow_projectable(declaration.value, existing, references) ==> (r is Ok || (r is Err
            && r->Err_0 is ProjectionLayer && r->Err_0->ProjectionLayer_0 is YamlEncode)),
        workflow_projectable(declaration.value, existing, references) && execution_yaml_writable(
            declaration.value,
            references,
        ) ==> r is Ok,
        r is Ok ==> workflow_projected(declaration.value, existing, references, creator_user_id@, r->Ok_0),
        r is Err ==> (r->Err_0 is Schema || r->Err_0 is Reconciliation || r->Err_0 is ProjectionLayer),
{
    let is_update = existing.is_some();
    let (mut metadata, mut spec) = split_declaration(declaration.value)?;
    let ghost s: Sections = (metadata@, spec@);
    let project = match member_text(&metadata, "project") {
        Some(p) => p,
        None => {
            return Err(AppError::Schema("meta_config: metadata.project required for identity".to_owned()));
        },
    };
    let slug = match member_text(&metadata, "slug") {
        Some(t) => t,
        None => {
            return Err(AppError::Schema("meta_config: metadata.slug required for identity".to_owned()));
        },
    };
    let execution = match take_member(&mut spec, "execution_config") {
        Some(JsonValue::Object(m)) => m,
        _ => {
            return Err(AppError::Schema("workflow: spec.execution_config is required".to_owned()));
        },
    };
    let ghost exec_before = execution@;
    let authored = take_member(&mut spec, "meta_config");
    let ghost authored_ghost = authored;
    let ghost existing_ghost = existing;
    let (server_meta, existing_id) = match existing {
        Some(e) => (e.meta_config, Some(e.server_id)),
        None => (None, None),
    };
    let transformed = transform_workflow_execution(execution, references)?;
    proof {
        lemma_transformed_names(body_view(exec_before), body_view(transformed@), tables_of(references));
    }
    let meta = merge_meta_config(server_meta, authored, project.as_str(), slug.as_str(), creator_user_id)?;
    let rules = crate::projection::rules::workflow_rules();
    let mut body: Vec<(String, JsonValue)> = Vec::new();
    proof {
        assert(body_view(body@) =~= Seq::<(Seq<char>, JsonValue)>::empty());
    }
    apply_rules(&mut metadata, &mut spec, &rules, is_update, &mut body)?;
    let ghost fields = body_view(body@);
    let ghost exec_sent = transformed@;
    let whole = JsonValue::Object(transformed);
    let yaml = match yaml_of_json(write_json(&whole).as_str()) {
        Some(y) => y,
        None => {
            proof {
                assert(json_text(whole) == object_text(exec_sent));
                if let Ok((actors, tools)) = execution_expected(body_view(exec_before), tables_of(references)) {
                    assert(execution_matches(body_view(exec_before), body_view(exec_sent), actors, tools));
                }
            }
            return Err(AppError::ProjectionLayer(ProjectionError::YamlEncode { context: "workflow execution_config" }));
        },
    };
    let mut transformed = match whole {
        JsonValue::Object(m) => m,
        _ => Vec::new(),
    };
    let ghost exec_after = transformed@;
    body.push(("yaml_config".to_owned(), JsonValue::String(yaml)));
    let MetaConfig { members, text } = meta;
    let ghost merged = members@;
    body.push(("meta_config".to_owned(), JsonValue::String(text)));
    if !is_update {
        proof {
            lemma_vindex(transformed@, "assistants"@);
            lemma_vindex(transformed@, "tools"@);
            lemma_vindex(transformed@, "states"@);
        }
        let assistants = take_member_view(&mut transformed, "assistants");
        let tools = take_member_view(&mut transformed, "tools");
        let states = take_member_view(&mut transformed, "states");
        match (assistants, tools, states) {
            (Some(a), Some(t), Some(st)) => {
                body.push(("assistants".to_owned(), a));
                body.push(("tools".to_owned(), t));
                body.push(("states".to_owned(), st));
            },
            _ => {
                proof {
                    reveal_strlit("assistants");
                    reveal_strlit("tools");
                    reveal_strlit("states");
                    assert("assistants"@.len() == 10 && "tools"@.len() == 5 && "states"@.len() == 6);
                    lemma_vget_after_vtake(body_view(exec_after), "assistants"@, "tools"@);
                    lemma_vget_after_vtake(body_view(exec_after), "assistants"@, "states"@);
                    lemma_vget_after_vtake(vtake(body_view(exec_after), "assistants"@), "tools"@, "states"@);
                    assert(vindex(body_view(exec_after), "states"@) == vindex(body_view(exec_before), "states"@));
                    assert(vindex(body_view(exec_after), "assistants"@) == vindex(body_view(exec_before), "assistants"@));
                    assert(vindex(body_view(exec_after), "tools"@) == vindex(body_view(exec_before), "tools"@));
                }
                return Err(AppError::Schema("workflow: execution configuration omitted actors, tools or states".to_owned()));
            },
        }
    }
    proof {
        reveal_strlit("assistants");
        reveal_strlit("tools");
        reveal_strlit("states");
        assert("assistants"@.len() == 10 && "tools"@.len() == 5 && "states"@.len() == 6);
        lemma_vget_after_vtake(body_view(exec_after), "assistants"@, "tools"@);
        lemma_vget_after_vtake(body_view(exec_after), "assistants"@, "states"@);
        lemma_vget_after_vtake(vtake(body_view(exec_after), "assistants"@), "tools"@, "states"@);
        assert(body_view(body@).take(fields.len() as int) =~= fields);
        assert(transformed_as(exec_before, tables_of(references), exec_after));
        assert(merged_meta(
            server_members(match existing_ghost { Some(e) => e.meta_config, None => None })->0,
            authored_members(authored_ghost)->0,
            project@,
            slug@,
            creator_user_id@,
            merged,
        ));
        assert(workflow_body(s, exec_after, object_text(merged), is_update, body_view(body@)));
    }
    let ghost final_body = body_view(body@);
    let plan = plan_for(existing_id, RequestBody::Json(JsonValue::Object(body)));
    proof {
        let sec = declaration_sections(declaration.value)->0;
        assert(sec == s);
        let server_g = match existing_ghost {
            Some(e) => e.meta_config,
            None => None,
        };
        assert(member_value(without(sec.1, "execution_config"@), "meta_config"@) == authored_ghost);
        assert(transformed_as(member_value(sec.1, "execution_config"@)->0->Object_0@, tables_of(references), exec_after));
        assert(merged_meta(
            server_members(server_g)->0,
            authored_members(authored_ghost)->0,
            string_member_text(sec.0, "project"@)->0,
            string_member_text(sec.0, "slug"@)->0,
            creator_user_id@,
            merged,
        ));
        assert(workflow_body(sec, exec_after, object_text(merged), is_update, final_body));
        assert(workflow_witnessed(
            sec,
            member_value(sec.1, "execution_config"@)->0->Object_0@,
            tables_of(references),
            server_members(server_g)->0,
            authored_members(authored_ghost)->0,
            string_member_text(sec.0, "project"@)->0,
            string_member_text(sec.0, "slug"@)->0,
            creator_user_id@,
            is_update,
            final_body,
        ));
        assert(workflow_projected(declaration.value, existing_ghost, references, creator_user_id@, plan));
    }
    Ok(plan)
}

/// Taking one name out keeps what other names give.
proof fn lemma_vget_after_vtake(v: Body, k1: Seq<char>, k2: Seq<char>)
    requires
        k1 != k2,
    ensures
        vget(vtake(v, k1), k2) == vget(v, k2),
{
    lemma_vindex_props(v, k1);
    lemma_vindex_props(v, k2);
    match vindex(v, k1) {
        Some(i) => {
            let w = v.remove(i);
            lemma_vindex_props(w, k2);
            match vindex(v, k2) {
                Some(j) => {
                    let nj = if j < i {
                        j
                    } else {
                        j - 1
                    };
                    assert(w[nj] == v[j]);
                    match vindex(w, k2) {
                        Some(m) => {
                            if m < nj {
                                if m < i {
                                    assert(w[m] == v[m]);
                                } else {
                                    assert(w[m] == v[m + 1]);
                                }
                            }
                        },
                        None => {},
                    }
                },
                None => {
                    assert forall|m: int| 0 <= m < w.len() implies w[m].0 != k2 by {
                        if m < i {
                            assert(w[m] == v[m]);
                        } else {
                            assert(w[m] == v[m + 1]);
                        }
                    }
                },
            }
        },
        None => {},
    }
}

/// Members with the same names at the same positions find a name at the
/// same position.
proof fn lemma_vindex_same_names(a: Body, b: Body, k: Seq<char>)
    requires
        a.len() == b.len(),
        forall|j: int| 0 <= j < a.len() ==> a[j].0 == b[j].0,
    ensures
        vindex(a, k) == vindex(b, k),
    decreases a.len(),
{
    if a.len() > 0 {
        assert(a[0].0 == b[0].0);
        assert forall|j: int| 0 <= j < a.drop_first().len() implies a.drop_first()[j].0 == b.drop_first()[j].0 by {
            assert(a[j + 1].0 == b[j + 1].0);
        }
        lemma_vindex_same_names(a.drop_first(), b.drop_first(), k);
    }
}

/// A converted execution configuration keeps the names of the authored
/// one, which holds its actors and tools.
proof fn lemma_transformed_names(before: Body, after: Body, t: RefTables)
    requires
        execution_expected(before, t) is Ok,
        execution_matches(before, after, execution_expected(before, t)->Ok_0.0, execution_expected(before, t)->Ok_0.1),
    ensures
        forall|k: Seq<char>| #[trigger] vindex(after, k) == vindex(before, k),
        vget(before, "assistants"@) is Some,
        vget(before, "tools"@) is Some,
{
    lemma_vindex_props(before, "assistants"@);
    lemma_vindex_props(before, "tools"@);
    assert forall|k: Seq<char>| #[trigger] vindex(after, k) == vindex(before, k) by {
        lemma_vindex_same_names(after, before, k);
    }
}

/// Takes a member out of sorted or unsorted members, by its first name.
fn take_member_view(members: &mut Vec<(String, JsonValue)>, key: &str) -> (r: Option<JsonValue>)
    ensures
        r == vget(body_view(old(members)@), key@),
        body_view(final(members)@) == vtake(body_view(old(members)@), key@),
{
    take_view(members, key)
}

} // verus!
