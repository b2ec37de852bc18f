use vstd::prelude::*;

use crate::error::AppError;
use crate::json_value::{JsonValue, find_member, member_value};
use crate::kind::EntityKind;
use crate::parse::{ParsedDeclaration, spec_field, spec_member};
use crate::text::{insert_sorted_pair, pairs_of, sorted_pairs};

verus! {

// ---------------------------------------------------------------------------
// Natural references
// ---------------------------------------------------------------------------

/// The `project` and selector texts of a natural reference object.
pub open spec fn ref_key(v: JsonValue, selector: Seq<char>) -> Option<(Seq<char>, Seq<char>)> {
    match v {
        JsonValue::Object(m) => match (member_value(m@, "project"@), member_value(m@, selector)) {
            (Some(JsonValue::String(p)), Some(JsonValue::String(k))) => Some((p@, k@)),
            _ => None,
        },
        _ => None,
    }
}

/// The keys of a list of natural references, in order; none when one of
/// them is not a reference.
pub open spec fn ref_keys(items: Seq<JsonValue>, selector: Seq<char>) -> Option<Seq<(Seq<char>, Seq<char>)>>
    decreases items.len(),
{
    if items.len() == 0 {
        Some(Seq::empty())
    } else {
        match (ref_keys(items.drop_last(), selector), ref_key(items.last(), selector)) {
            (Some(s), Some(p)) => Some(s.push(p)),
            _ => None,
        }
    }
}

/// The `project` and selector of a natural reference object.
pub fn reference_key(v: &JsonValue, selector: &str) -> (r: Option<(String, String)>)
    ensures
        match ref_key(*v, selector@) {
            Some(p) => r is Some && ((r->0).0@, (r->0).1@) == p,
            None => r is None,
        },
{
    match v {
        JsonValue::Object(m) => match (find_member(m, "project"), find_member(m, selector)) {
            (Some(JsonValue::String(p)), Some(JsonValue::String(k))) => Some(
                (p.as_str().to_owned(), k.as_str().to_owned()),
            ),
            _ => None,
        },
        _ => None,
    }
}

/// The keys of a list of natural references, in order.
pub fn reference_keys(items: &Vec<JsonValue>, selector: &str) -> (r: Option<Vec<(String, String)>>)
    ensures
        match ref_keys(items@, selector@) {
            Some(s) => r is Some && pairs_of(r->0@) == s,
            None => r is None,
        },
{
    let mut out: Vec<(String, String)> = Vec::new();
    let mut i: usize = 0;
    proof {
        assert(items@.take(0) =~= Seq::<JsonValue>::empty());
    }
    while i < items.len()
        invariant
            0 <= i <= items@.len(),
            ref_keys(items@.take(i as int), selector@) == Some(pairs_of(out@)),
        decreases items.len() - i,
    {
        proof {
            assert(items@.take(i + 1).drop_last() =~= items@.take(i as int));
            assert(items@.take(i + 1).last() == items@[i as int]);
        }
        match reference_key(&items[i], selector) {
            Some(pair) => {
                let ghost before = out@;
                out.push(pair);
                proof {
                    assert(pairs_of(out@) =~= pairs_of(before).push((out@.last().0@, out@.last().1@)));
                }
            },
            None => {
                proof {
                    lemma_ref_keys_none_extends(items@, selector@, i as int + 1);
                }
                return None;
            },
        }
        i = i + 1;
    }
    proof {
        assert(items@.take(items@.len() as int) =~= items@);
    }
    Some(out)
}

/// Once a prefix of the list is not made of references, neither is the list.
pub proof fn lemma_ref_keys_none_extends(items: Seq<JsonValue>, selector: Seq<char>, n: int)
    requires
        0 <= n <= items.len(),
        ref_keys(items.take(n), selector) is None,
    ensures
        ref_keys(items, selector) is None,
    decreases items.len() - n,
{
    if n < items.len() {
        assert(items.take(n + 1).drop_last() =~= items.take(n));
        lemma_ref_keys_none_extends(items, selector, n + 1);
    } else {
        assert(items.take(n) =~= items);
    }
}

// ---------------------------------------------------------------------------
// Assistant references
// ---------------------------------------------------------------------------

/// The natural references an Assistant declaration names, in authored order:
/// sub-Assistants by (project, slug), Skills by (project, name), and context
/// Datasources by (context type, project, repository name).
#[derive(Debug)]
pub struct AssistantReferenceKeys {
    pub sub_assistants: Vec<(String, String)>,
    pub skills: Vec<(String, String)>,
    pub context: Vec<(String, String, String)>,
}

/// The texts of a list of triples of strings.
pub open spec fn triples_of(v: Seq<(String, String, String)>) -> Seq<(Seq<char>, Seq<char>, Seq<char>)> {
    v.map_values(|t: (String, String, String)| (t.0@, t.1@, t.2@))
}

/// The context type and Datasource key of a context entry.
pub open spec fn context_key(v: JsonValue) -> Option<(Seq<char>, Seq<char>, Seq<char>)> {
    match v {
        JsonValue::Object(m) => match (member_value(m@, "context_type"@), member_value(m@, "ref"@)) {
            (Some(JsonValue::String(t)), Some(r)) => match ref_key(r, "repo_name"@) {
                Some(p) => Some((t@, p.0, p.1)),
                None => None,
            },
            _ => None,
        },
        _ => None,
    }
}

/// The keys of a list of context entries, in order.
pub open spec fn context_keys(items: Seq<JsonValue>) -> Option<Seq<(Seq<char>, Seq<char>, Seq<char>)>>
    decreases items.len(),
{
    if items.len() == 0 {
        Some(Seq::empty())
    } else {
        match (context_keys(items.drop_last()), context_key(items.last())) {
            (Some(s), Some(t)) => Some(s.push(t)),
            _ => None,
        }
    }
}

/// The references of an Assistant declaration; none when `spec` lacks one
/// of its three reference lists or an entry is malformed.
pub open spec fn assistant_keys_of(value: JsonValue) -> Option<
    (Seq<(Seq<char>, Seq<char>)>, Seq<(Seq<char>, Seq<char>)>, Seq<(Seq<char>, Seq<char>, Seq<char>)>),
> {
    match (spec_field(value, "sub_assistants"@), spec_field(value, "skills"@), spec_field(value, "context"@)) {
        (Some(JsonValue::Array(a)), Some(JsonValue::Array(s)), Some(JsonValue::Array(c))) => match (
            ref_keys(a@, "slug"@),
            ref_keys(s@, "name"@),
            context_keys(c@),
        ) {
            (Some(x), Some(y), Some(z)) => Some((x, y, z)),
            _ => None,
        },
        _ => None,
    }
}

/// The context type and Datasource key of a context entry.
fn context_entry_key(v: &JsonValue) -> (r: Option<(String, String, String)>)
    ensures
        match context_key(*v) {
            Some(t) => r is Some && ((r->0).0@, (r->0).1@, (r->0).2@) == t,
            None => r is None,
        },
{
    match v {
        JsonValue::Object(m) => match (find_member(m, "context_type"), find_member(m, "ref")) {
            (Some(JsonValue::String(t)), Some(r)) => match reference_key(r, "repo_name") {
                Some((project, repo_name)) => Some((t.as_str().to_owned(), project, repo_name)),
                None => None,
            },
            _ => None,
        },
        _ => None,
    }
}

/// The keys of a list of context entries, in order.
fn context_entry_keys(items: &Vec<JsonValue>) -> (r: Option<Vec<(String, String, String)>>)
    ensures
        match context_keys(items@) {
            Some(s) => r is Some && triples_of(r->0@) == s,
            None => r is None,
        },
{
    let mut out: Vec<(String, String, String)> = Vec::new();
    let mut i: usize = 0;
    proof {
        assert(items@.take(0) =~= Seq::<JsonValue>::empty());
    }
    while i < items.len()
        invariant
            0 <= i <= items@.len(),
            context_keys(items@.take(i as int)) == Some(triples_of(out@)),
        decreases items.len() - i,
    {
        proof {
            assert(items@.take(i + 1).drop_last() =~= items@.take(i as int));
            assert(items@.take(i + 1).last() == items@[i as int]);
        }
        match context_entry_key(&items[i]) {
            Some(t) => {
                let ghost before = out@;
                out.push(t);
                proof {
                    assert(triples_of(out@) =~= triples_of(before).push(
                        (out@.last().0@, out@.last().1@, out@.last().2@),
                    ));
                }
            },
            None => {
                proof {
                    lemma_context_keys_none_extends(items@, i as int + 1);
                }
                return None;
            },
        }
        i = i + 1;
    }
    proof {
        assert(items@.take(items@.len() as int) =~= items@);
    }
    Some(out)
}

/// Once a prefix of the list is not made of context entries, neither is the list.
proof fn lemma_context_keys_none_extends(items: Seq<JsonValue>, n: int)
    requires
        0 <= n <= items.len(),
        context_keys(items.take(n)) is None,
    ensures
        context_keys(items) is None,
    decreases items.len() - n,
{
    if n < items.len() {
        assert(items.take(n + 1).drop_last() =~= items.take(n));
        lemma_context_keys_none_extends(items, n + 1);
    } else {
        assert(items.take(n) =~= items);
    }
}

/// The natural references an Assistant declaration names, in authored order.
/// A declaration without the three reference lists, or with a malformed
/// entry, is an internal error: schema validation guarantees them.
pub fn assistant_reference_keys(declaration: &ParsedDeclaration) -> (r: Result<AssistantReferenceKeys, AppError>)
    ensures
        match assistant_keys_of(declaration.value) {
            Some((a, s, c)) => r is Ok && pairs_of(r->Ok_0.sub_assistants@) == a && pairs_of(
                r->Ok_0.skills@,
            ) == s && triples_of(r->Ok_0.context@) == c,
            None => r is Err && r->Err_0 is Internal,
        },
{
    let value = &declaration.value;
    let (subs, skills, context) = match (
        spec_member(value, "sub_assistants"),
        spec_member(value, "skills"),
        spec_member(value, "context"),
    ) {
        (Some(JsonValue::Array(a)), Some(JsonValue::Array(s)), Some(JsonValue::Array(c))) => (a, s, c),
        _ => {
            return Err(AppError::Internal("validated Assistant reference array is missing".to_owned()));
        },
    };
    let sub_assistants = match reference_keys(subs, "slug") {
        Some(k) => k,
        None => {
            return Err(AppError::Internal("validated Assistant reference was malformed".to_owned()));
        },
    };
    let skills = match reference_keys(skills, "name") {
        Some(k) => k,
        None => {
            return Err(AppError::Internal("validated Assistant reference was malformed".to_owned()));
        },
    };
    let context = match context_entry_keys(context) {
        Some(k) => k,
        None => {
            return Err(AppError::Internal("validated Assistant context was malformed".to_owned()));
        },
    };
    Ok(AssistantReferenceKeys { sub_assistants, skills, context })
}

/// Whether `v` is the projected context entry `{"context_type": t, "name": n}`.
pub open spec fn is_context_entry(v: JsonValue, t: Seq<char>, n: Seq<char>) -> bool {
    &&& v is Object
    &&& v->Object_0@.len() == 2
    &&& v->Object_0@[0].0@ == "context_type"@
    &&& v->Object_0@[0].1 == JsonValue::String(v->Object_0@[0].1->String_0)
    &&& v->Object_0@[0].1->String_0@ == t
    &&& v->Object_0@[1].0@ == "name"@
    &&& v->Object_0@[1].1 == JsonValue::String(v->Object_0@[1].1->String_0)
    &&& v->Object_0@[1].1->String_0@ == n
}

/// The context entry sent for a resolved context Datasource: its context
/// type and its repository name.
pub fn context_entry(context_type: &str, repo_name: &str) -> (v: JsonValue)
    ensures
        is_context_entry(v, context_type@, repo_name@),
{
    let mut members: Vec<(String, JsonValue)> = Vec::new();
    members.push(("context_type".to_owned(), JsonValue::String(context_type.to_owned())));
    members.push(("name".to_owned(), JsonValue::String(repo_name.to_owned())));
    proof {
        reveal_strlit("context_type");
        reveal_strlit("name");
    }
    JsonValue::Object(members)
}

// ---------------------------------------------------------------------------
// Workflow references
// ---------------------------------------------------------------------------

/// The distinct server-resource references of a Workflow's execution
/// actors, each list sorted by (project, key) without repetition.
#[derive(Debug)]
pub struct WorkflowReferenceKeys {
    pub assistants: Vec<(String, String)>,
    pub skills: Vec<(String, String)>,
    pub datasources: Vec<(String, String)>,
}

/// Three sets of reference keys.
pub type KeySets = (Set<(Seq<char>, Seq<char>)>, Set<(Seq<char>, Seq<char>)>, Set<(Seq<char>, Seq<char>)>);

/// The references one execution actor contributes: a persisted actor its
/// Assistant, an inline actor its Skills and Datasources.
pub open spec fn actor_keys(actor: JsonValue) -> Option<KeySets> {
    match actor {
        JsonValue::Object(m) => match member_value(m@, "assistantRef"@) {
            Some(r) => match ref_key(r, "slug"@) {
                Some(p) => Some((Set::empty().insert(p), Set::empty(), Set::empty())),
                None => None,
            },
            None => match (member_value(m@, "skillRefs"@), member_value(m@, "datasourceRefs"@)) {
                (Some(JsonValue::Array(s)), Some(JsonValue::Array(d))) => match (
                    ref_keys(s@, "name"@),
                    ref_keys(d@, "repo_name"@),
                ) {
                    (Some(x), Some(y)) => Some((Set::empty(), x.to_set(), y.to_set())),
                    _ => None,
                },
                _ => None,
            },
        },
        _ => None,
    }
}

/// The references of a list of actors; none when one is malformed.
pub open spec fn actors_keys(actors: Seq<JsonValue>) -> Option<KeySets>
    decreases actors.len(),
{
    if actors.len() == 0 {
        Some((Set::empty(), Set::empty(), Set::empty()))
    } else {
        match (actors_keys(actors.drop_last()), actor_keys(actors.last())) {
            (Some(a), Some(b)) => Some((a.0.union(b.0), a.1.union(b.1), a.2.union(b.2))),
            _ => None,
        }
    }
}

/// The actors of a Workflow: `spec.execution_config.assistants`.
pub open spec fn execution_actors(value: JsonValue) -> Option<Seq<JsonValue>> {
    match spec_field(value, "execution_config"@) {
        Some(JsonValue::Object(c)) => match member_value(c@, "assistants"@) {
            Some(JsonValue::Array(a)) => Some(a@),
            _ => None,
        },
        _ => None,
    }
}

/// Adds every pair of a list to a strictly increasing list of pairs.
fn insert_all_pairs(set: &mut Vec<(String, String)>, items: Vec<(String, String)>)
    requires
        sorted_pairs(pairs_of(old(set)@)),
    ensures
        sorted_pairs(pairs_of(final(set)@)),
        pairs_of(final(set)@).to_set() == pairs_of(old(set)@).to_set().union(pairs_of(items@).to_set()),
{
    let ghost start = pairs_of(set@).to_set();
    let ghost all = pairs_of(items@);
    proof {
        assert(all.take(0).to_set() =~= Set::<(Seq<char>, Seq<char>)>::empty());
        assert(start.union(Set::empty()) =~= start);
    }
    for item in it: items.into_iter()
        invariant
            it.seq() == items@,
            all == pairs_of(items@),
            0 <= it.index() <= items@.len(),
            sorted_pairs(pairs_of(set@)),
            pairs_of(set@).to_set() == start.union(all.take(it.index() as int).to_set()),
    {
        proof {
            assert(item == items@[it.index() as int]);
            assert(all[it.index() as int] == (item.0@, item.1@));
            assert(all.take(it.index() + 1) =~= all.take(it.index() as int).push((item.0@, item.1@)));
            all.take(it.index() as int).lemma_push_to_set_commute((item.0@, item.1@));
        }
        let ghost p = (item.0@, item.1@);
        insert_sorted_pair(set, item);
        proof {
            assert(start.union(all.take(it.index() as int).to_set()).insert(p) =~= start.union(
                all.take(it.index() as int).to_set().insert(p),
            ));
        }
    }
    proof {
        assert(all.take(all.len() as int) =~= all);
    }
}

/// The distinct Assistant, Skill and Datasource references of a Workflow's
/// execution actors, each sorted by (project, key). Anything but a Workflow
/// whose actors are all well formed is a schema error.
pub fn collect_execution_reference_keys(declaration: &ParsedDeclaration) -> (r: Result<WorkflowReferenceKeys, AppError>)
    ensures
        declaration.kind != EntityKind::Workflow ==> r is Err && r->Err_0 is Schema,
        declaration.kind == EntityKind::Workflow ==> match execution_actors(declaration.value) {
            None => r is Err && r->Err_0 is Schema,
            Some(actors) => match actors_keys(actors) {
                None => r is Err && r->Err_0 is Schema,
                Some(k) => {
                    &&& r is Ok
                    &&& sorted_pairs(pairs_of(r->Ok_0.assistants@))
                    &&& sorted_pairs(pairs_of(r->Ok_0.skills@))
                    &&& sorted_pairs(pairs_of(r->Ok_0.datasources@))
                    &&& pairs_of(r->Ok_0.assistants@).to_set() == k.0
                    &&& pairs_of(r->Ok_0.skills@).to_set() == k.1
                    &&& pairs_of(r->Ok_0.datasources@).to_set() == k.2
                },
            },
        },
{
    if declaration.kind != EntityKind::Workflow {
        return Err(AppError::Schema("workflow declaration is required".to_owned()));
    }
    let actors = match spec_member(&declaration.value, "execution_config") {
        Some(JsonValue::Object(c)) => match find_member(c, "assistants") {
            Some(JsonValue::Array(a)) => a,
            _ => {
                return Err(AppError::Schema("workflow: execution_config.assistants must be an array".to_owned()));
            },
        },
        _ => {
            return Err(AppError::Schema("workflow: execution_config.assistants must be an array".to_owned()));
        },
    };
    let mut assistants: Vec<(String, String)> = Vec::new();
    let mut skills: Vec<(String, String)> = Vec::new();
    let mut datasources: Vec<(String, String)> = Vec::new();
    let mut i: usize = 0;
    proof {
        assert(actors@.take(0) =~= Seq::<JsonValue>::empty());
        assert(pairs_of(assistants@).to_set() =~= Set::<(Seq<char>, Seq<char>)>::empty());
        assert(pairs_of(skills@).to_set() =~= Set::<(Seq<char>, Seq<char>)>::empty());
        assert(pairs_of(datasources@).to_set() =~= Set::<(Seq<char>, Seq<char>)>::empty());
    }
    while i < actors.len()
        invariant
            0 <= i <= actors@.len(),
            declaration.kind == EntityKind::Workflow,
            execution_actors(declaration.value) == Some(actors@),
            sorted_pairs(pairs_of(assistants@)),
            sorted_pairs(pairs_of(skills@)),
            sorted_pairs(pairs_of(datasources@)),
            actors_keys(actors@.take(i as int)) == Some(
                (pairs_of(assistants@).to_set(), pairs_of(skills@).to_set(), pairs_of(datasources@).to_set()),
            ),
        decreases actors.len() - i,
    {
        proof {
            assert(actors@.take(i + 1).drop_last() =~= actors@.take(i as int));
            assert(actors@.take(i + 1).last() == actors@[i as int]);
        }
        let ghost before = (pairs_of(assistants@).to_set(), pairs_of(skills@).to_set(), pairs_of(datasources@).to_set());
        let actor = &actors[i];
        let fields = match actor {
            JsonValue::Object(m) => m,
            _ => {
                proof {
                    lemma_actors_keys_none_extends(actors@, i as int + 1);
                }
                return Err(AppError::Schema("workflow: execution_config.assistants[] must be an object".to_owned()));
            },
        };
        match find_member(fields, "assistantRef") {
            Some(reference) => {
                match reference_key(reference, "slug") {
                    Some(pair) => {
                        let ghost p = (pair.0@, pair.1@);
                        insert_sorted_pair(&mut assistants, pair);
                        proof {
                            assert(before.0.union(Set::empty().insert(p)) =~= before.0.insert(p));
                            assert(before.1.union(Set::empty()) =~= before.1);
                            assert(before.2.union(Set::empty()) =~= before.2);
                        }
                    },
                    None => {
                        proof {
                            lemma_actors_keys_none_extends(actors@, i as int + 1);
                        }
                        return Err(AppError::Schema("workflow: assistantRef is malformed".to_owned()));
                    },
                }
            },
            None => {
                let (skill_refs, datasource_refs) = match (find_member(fields, "skillRefs"), find_member(fields, "datasourceRefs")) {
                    (Some(JsonValue::Array(s)), Some(JsonValue::Array(d))) => (s, d),
                    _ => {
                        proof {
                            lemma_actors_keys_none_extends(actors@, i as int + 1);
                        }
                        return Err(AppError::Schema("workflow: inline actor references must be arrays".to_owned()));
                    },
                };
                let skill_keys = match reference_keys(skill_refs, "name") {
                    Some(k) => k,
                    None => {
                        proof {
                            lemma_actors_keys_none_extends(actors@, i as int + 1);
                        }
                        return Err(AppError::Schema("workflow: skillRefs entry is malformed".to_owned()));
                    },
                };
                let datasource_keys = match reference_keys(datasource_refs, "repo_name") {
                    Some(k) => k,
                    None => {
                        proof {
                            lemma_actors_keys_none_extends(actors@, i as int + 1);
                        }
                        return Err(AppError::Schema("workflow: datasourceRefs entry is malformed".to_owned()));
                    },
                };
                insert_all_pairs(&mut skills, skill_keys);
                insert_all_pairs(&mut datasources, datasource_keys);
                proof {
                    assert(before.0.union(Set::empty()) =~= before.0);
                }
            },
        }
        i = i + 1;
    }
    proof {
        assert(actors@.take(actors@.len() as int) =~= actors@);
    }
    Ok(WorkflowReferenceKeys { assistants, skills, datasources })
}

/// Once a prefix of the actors is malformed, so is the whole list.
proof fn lemma_actors_keys_none_extends(actors: Seq<JsonValue>, n: int)
    requires
        0 < n <= actors.len(),
        actor_keys(actors[n - 1]) is None,
    ensures
        actors_keys(actors) is None,
{
    assert(actors.take(n).drop_last() =~= actors.take(n - 1));
    assert(actors.take(n).last() == actors[n - 1]);
    lemma_actors_prefix_none(actors, n);
}

/// A malformed prefix makes the whole list malformed.
proof fn lemma_actors_prefix_none(actors: Seq<JsonValue>, n: int)
    requires
        0 <= n <= actors.len(),
        actors_keys(actors.take(n)) is None,
    ensures
        actors_keys(actors) is None,
    decreases actors.len() - n,
{
    if n < actors.len() {
        assert(actors.take(n + 1).drop_last() =~= actors.take(n));
        lemma_actors_prefix_none(actors, n + 1);
    } else {
        assert(actors.take(n) =~= actors);
    }
}

} // verus!
