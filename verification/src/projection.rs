use vstd::prelude::*;

use crate::error::AppError;
use crate::json_value::{JsonValue, find_member, member_index, member_value, write_json, json_text};
use crate::kind::EntityKind;
use crate::parse::ParsedDeclaration;
use crate::text::same_text;

pub mod rules;
pub mod workflow;
pub mod sent_fields;

verus! {

/// The payload of one POST or PUT request.
#[derive(Debug)]
pub enum RequestBody {
    /// An ordinary JSON body.
    Json(JsonValue),
    /// `multipart/form-data` with scalar query parameters (File Datasource only).
    FileMultipart { query_params: Vec<(String, String)> },
}

/// The projected write: a create, or an update of the resolved server entity.
#[derive(Debug)]
pub enum WritePlan {
    Create { request: RequestBody },
    Update { server_id: String, request: RequestBody },
}

/// The server state that a write reads first: the entity's identifier and,
/// for a Workflow, its `meta_config` read as JSON (`None` when absent).
#[derive(Debug)]
pub struct ExistingEntity {
    pub server_id: String,
    pub meta_config: Option<Result<JsonValue, crate::json_value::MalformedJson>>,
}

// ---------------------------------------------------------------------------
// Field rules
// ---------------------------------------------------------------------------

/// The declaration object a field is read from.
#[derive(Debug, Clone, Copy, PartialEq, Eq, Structural)]
pub enum Section {
    Metadata,
    Spec,
}

/// How an absent (or null) field is handled.
#[derive(Debug, Clone, Copy, PartialEq, Eq, Structural)]
pub enum Presence {
    /// Absent or null is a schema error.
    Required,
    /// Absent is sent as an explicit null.
    OrNull,
    /// Absent or null is not sent.
    IfPresent,
}

/// Which writes a rule applies to.
#[derive(Debug, Clone, Copy, PartialEq, Eq, Structural)]
pub enum When {
    Always,
    CreateOnly,
    UpdateOnly,
}

/// One field of a request body: where it is read, under which name it is
/// sent, how absence is handled and which writes send it.
#[derive(Debug, Clone, Copy)]
pub struct FieldRule {
    pub section: Section,
    pub from: &'static str,
    pub to: &'static str,
    pub presence: Presence,
    pub when: When,
}

/// A rule as plain values.
pub type RuleView = (Section, Seq<char>, Seq<char>, Presence, When);

/// The rules as plain values.
pub open spec fn rules_view(v: Seq<FieldRule>) -> Seq<RuleView> {
    v.map_values(|r: FieldRule| (r.section, r.from@, r.to@, r.presence, r.when))
}

/// A rule.
pub fn rule(section: Section, from: &'static str, to: &'static str, presence: Presence, when: When) -> (r: FieldRule)
    ensures
        r.section == section,
        r.from == from,
        r.to == to,
        r.presence == presence,
        r.when == when,
{
    FieldRule { section, from, to, presence, when }
}

/// How a query parameter is sent.
#[derive(Debug, Clone, Copy, PartialEq, Eq, Structural)]
pub enum QueryKind {
    /// A scalar that must be present.
    Scalar,
    /// A scalar sent when present.
    OptionalScalar,
    /// Any value, sent as compact JSON when present.
    OptionalJson,
}

/// One query parameter of a multipart write.
#[derive(Debug, Clone, Copy)]
pub struct QueryRule {
    pub section: Section,
    pub from: &'static str,
    pub to: &'static str,
    pub kind: QueryKind,
    pub when: When,
}

/// A query rule as plain values.
pub type QueryRuleView = (Section, Seq<char>, Seq<char>, QueryKind, When);

/// The query rules as plain values.
pub open spec fn query_rules_view(v: Seq<QueryRule>) -> Seq<QueryRuleView> {
    v.map_values(|r: QueryRule| (r.section, r.from@, r.to@, r.kind, r.when))
}

/// A query rule.
pub fn query_rule(section: Section, from: &'static str, to: &'static str, kind: QueryKind, when: When) -> (r: QueryRule)
    ensures
        r.section == section,
        r.from == from,
        r.to == to,
        r.kind == kind,
        r.when == when,
{
    QueryRule { section, from, to, kind, when }
}

/// Whether a rule applies to a create (`is_update` false) or an update.
pub open spec fn applies(when: When, is_update: bool) -> bool {
    match when {
        When::Always => true,
        When::CreateOnly => !is_update,
        When::UpdateOnly => is_update,
    }
}

/// The members of the metadata and spec objects.
pub type Sections = (Seq<(String, JsonValue)>, Seq<(String, JsonValue)>);

/// A body under construction, as names and values.
pub type Body = Seq<(Seq<char>, JsonValue)>;

/// The members of one section.
pub open spec fn section_of(s: Sections, section: Section) -> Seq<(String, JsonValue)> {
    match section {
        Section::Metadata => s.0,
        Section::Spec => s.1,
    }
}

/// The sections with one section's members replaced.
pub open spec fn with_section(s: Sections, section: Section, members: Seq<(String, JsonValue)>) -> Sections {
    match section {
        Section::Metadata => (members, s.1),
        Section::Spec => (s.0, members),
    }
}

/// One rule's effect: the field is taken from its section and sent under
/// its name; an absent or null required field fails with its name.
pub open spec fn rule_step(s: Sections, body: Body, r: RuleView, is_update: bool) -> Result<(Sections, Body), Seq<char>> {
    if !applies(r.4, is_update) {
        Ok((s, body))
    } else {
        let members = section_of(s, r.0);
        match member_index(members, r.1) {
            Some(i) => {
                let v = members[i].1;
                let rest = with_section(s, r.0, members.remove(i));
                if v is Null {
                    match r.3 {
                        Presence::Required => Err(r.1),
                        Presence::OrNull => Ok((rest, body.push((r.2, JsonValue::Null)))),
                        Presence::IfPresent => Ok((rest, body)),
                    }
                } else {
                    Ok((rest, body.push((r.2, v))))
                }
            },
            None => match r.3 {
                Presence::Required => Err(r.1),
                Presence::OrNull => Ok((s, body.push((r.2, JsonValue::Null)))),
                Presence::IfPresent => Ok((s, body)),
            },
        }
    }
}

/// The effect of the rules in order; the first failing rule stops.
pub open spec fn rules_fold(s: Sections, body: Body, rules: Seq<RuleView>, is_update: bool) -> Result<(Sections, Body), Seq<char>>
    decreases rules.len(),
{
    if rules.len() == 0 {
        Ok((s, body))
    } else {
        match rules_fold(s, body, rules.drop_last(), is_update) {
            Ok((s2, b2)) => rule_step(s2, b2, rules.last(), is_update),
            Err(name) => Err(name),
        }
    }
}

/// A body as names and values.
pub open spec fn body_view(v: Seq<(String, JsonValue)>) -> Body {
    v.map_values(|p: (String, JsonValue)| (p.0@, p.1))
}

/// Takes the first member named `key` out of an object's members.
pub fn take_member(members: &mut Vec<(String, JsonValue)>, key: &str) -> (r: Option<JsonValue>)
    ensures
        match member_index(old(members)@, key@) {
            Some(i) => r == Some(old(members)@[i].1) && final(members)@ == old(members)@.remove(i),
            None => r is None && final(members)@ == old(members)@,
        },
{
    proof {
        crate::json_value::lemma_member_index(members@, key@);
    }
    let mut index: usize = 0;
    while index < members.len()
        invariant
            0 <= index <= members@.len(),
            members@ == old(members)@,
            forall|j: int| 0 <= j < index ==> members@[j].0@ != key@,
            member_index(members@, key@) is Some ==> ({
                let i = member_index(members@, key@)->0;
                &&& 0 <= i < members@.len()
                &&& members@[i].0@ == key@
                &&& forall|j: int| 0 <= j < i ==> members@[j].0@ != key@
            }),
            member_index(members@, key@) is None ==> forall|j: int|
                0 <= j < members@.len() ==> members@[j].0@ != key@,
        decreases members.len() - index,
    {
        if same_text(members[index].0.as_str(), key) {
            proof {
                let i = member_index(members@, key@);
                if i is Some {
                    if i->0 < index {
                        assert(members@[i->0].0@ != key@);
                    } else if i->0 > index {
                        assert(members@[index as int].0@ != key@);
                    }
                }
            }
            let (_, value) = members.remove(index);
            return Some(value);
        }
        index = index + 1;
    }
    None
}

/// Applies the rules in order, moving each field from its section into the body.
pub fn apply_rules(
    metadata: &mut Vec<(String, JsonValue)>,
    spec: &mut Vec<(String, JsonValue)>,
    rules: &Vec<FieldRule>,
    is_update: bool,
    body: &mut Vec<(String, JsonValue)>,
) -> (r: Result<(), AppError>)
    ensures
        match rules_fold((old(metadata)@, old(spec)@), body_view(old(body)@), rules_view(rules@), is_update) {
            Ok((s, b)) => r is Ok && final(metadata)@ == s.0 && final(spec)@ == s.1 && body_view(final(body)@) == b,
            Err(_) => r is Err && r->Err_0 is Schema,
        },
{
    let ghost s0: Sections = (metadata@, spec@);
    let ghost b0 = body_view(body@);
    let ghost all = rules_view(rules@);
    let mut index: usize = 0;
    proof {
        assert(all.take(0) =~= Seq::<RuleView>::empty());
    }
    while index < rules.len()
        invariant
            0 <= index <= rules@.len(),
            all == rules_view(rules@),
            s0 == (old(metadata)@, old(spec)@),
            b0 == body_view(old(body)@),
            rules_fold(s0, b0, all.take(index as int), is_update) == Ok::<(Sections, Body), Seq<char>>(
                ((metadata@, spec@), body_view(body@)),
            ),
        decreases rules.len() - index,
    {
        let r = rules[index];
        let ghost before: Sections = (metadata@, spec@);
        let ghost body_before = body_view(body@);
        proof {
            assert(all.take(index as int + 1).drop_last() =~= all.take(index as int));
            assert(all.take(index as int + 1).last() == all[index as int]);
            assert(all[index as int] == (r.section, r.from@, r.to@, r.presence, r.when));
        }
        let active = match r.when {
            When::Always => true,
            When::CreateOnly => !is_update,
            When::UpdateOnly => is_update,
        };
        if active {
            let taken = match r.section {
                Section::Metadata => take_member(metadata, r.from),
                Section::Spec => take_member(spec, r.from),
            };
            match taken {
                Some(value) => {
                    let is_null = match &value {
                        JsonValue::Null => true,
                        _ => false,
                    };
                    if is_null {
                        match r.presence {
                            Presence::Required => {
                                proof {
                                    lemma_fold_fails_later(s0, b0, all, is_update, index as int + 1);
                                }
                                return Err(missing_field(r.from));
                            },
                            Presence::OrNull => {
                                body.push((r.to.to_owned(), JsonValue::Null));
                            },
                            Presence::IfPresent => {},
                        }
                    } else {
                        body.push((r.to.to_owned(), value));
                    }
                },
                None => match r.presence {
                    Presence::Required => {
                        proof {
                            lemma_fold_fails_later(s0, b0, all, is_update, index as int + 1);
                        }
                        return Err(missing_field(r.from));
                    },
                    Presence::OrNull => {
                        body.push((r.to.to_owned(), JsonValue::Null));
                    },
                    Presence::IfPresent => {},
                },
            }
        }
        proof {
            assert(body_view(body@) =~= match rule_step(before, body_before, all[index as int], is_update) {
                Ok((_, b)) => b,
                Err(_) => body_view(body@),
            });
        }
        index = index + 1;
    }
    proof {
        assert(all.take(rules@.len() as int) =~= all);
    }
    Ok(())
}

/// A failed fold stays failed when more rules follow.
proof fn lemma_fold_fails_later(s: Sections, body: Body, rules: Seq<RuleView>, is_update: bool, n: int)
    requires
        0 <= n <= rules.len(),
        rules_fold(s, body, rules.take(n), is_update) is Err,
    ensures
        rules_fold(s, body, rules, is_update) is Err,
    decreases rules.len() - n,
{
    if n < rules.len() {
        assert(rules.take(n + 1).drop_last() =~= rules.take(n));
        lemma_fold_fails_later(s, body, rules, is_update, n + 1);
    } else {
        assert(rules.take(n) =~= rules);
    }
}

/// `required field '<name>' is absent or null`.
fn missing_field(name: &str) -> (e: AppError)
    ensures
        e is Schema,
{
    let mut message = String::from_str("required field '");
    message.append(name);
    message.append("' is absent or null");
    AppError::Schema(message)
}

// ---------------------------------------------------------------------------
// Declarations into bodies
// ---------------------------------------------------------------------------

/// Removing a member under another name keeps what a name looks up.
pub proof fn lemma_member_value_after_remove(members: Seq<(String, JsonValue)>, i: int, key: Seq<char>)
    requires
        0 <= i < members.len(),
        members[i].0@ != key,
    ensures
        member_value(members.remove(i), key) == member_value(members, key),
    decreases members.len(),
{
    crate::json_value::lemma_member_index(members, key);
    crate::json_value::lemma_member_index(members.remove(i), key);
    let r = members.remove(i);
    match member_index(members, key) {
        Some(j) => {
            if j < i {
                assert(r[j] == members[j]);
            } else {
                assert(r[j - 1] == members[j]);
                assert forall|k: int| 0 <= k < j - 1 implies r[k].0@ != key by {
                    if k < i {
                        assert(r[k] == members[k]);
                    } else {
                        assert(r[k] == members[k + 1]);
                    }
                }
            }
        },
        None => {
            assert forall|k: int| 0 <= k < r.len() implies r[k].0@ != key by {
                if k < i {
                    assert(r[k] == members[k]);
                } else {
                    assert(r[k] == members[k + 1]);
                }
            }
        },
    }
}

/// The metadata and spec objects of a declaration value.
pub open spec fn declaration_sections(v: JsonValue) -> Option<Sections> {
    match v {
        JsonValue::Object(members) => match (member_value(members@, "metadata"@), member_value(members@, "spec"@)) {
            (Some(JsonValue::Object(m)), Some(JsonValue::Object(sp))) => Some((m@, sp@)),
            _ => None,
        },
        _ => None,
    }
}

/// Takes the metadata and spec objects out of a declaration value.
pub fn split_declaration(value: JsonValue) -> (r: Result<(Vec<(String, JsonValue)>, Vec<(String, JsonValue)>), AppError>)
    ensures
        match declaration_sections(value) {
            Some(s) => r is Ok && r->Ok_0.0@ == s.0 && r->Ok_0.1@ == s.1,
            None => r is Err && r->Err_0 is Schema,
        },
{
    let mut members = match value {
        JsonValue::Object(members) => members,
        _ => {
            return Err(AppError::Schema("declaration is not an object".to_owned()));
        },
    };
    let ghost initial = members@;
    proof {
        crate::json_value::lemma_member_index(initial, "metadata"@);
        reveal_strlit("metadata");
        reveal_strlit("spec");
        assert("metadata"@ != "spec"@) by {
            assert("metadata"@.len() != "spec"@.len());
        }
    }
    let metadata = take_member(&mut members, "metadata");
    proof {
        if member_index(initial, "metadata"@) is Some {
            let i = member_index(initial, "metadata"@)->0;
            lemma_member_value_after_remove(initial, i, "spec"@);
        }
    }
    let spec = take_member(&mut members, "spec");
    match (metadata, spec) {
        (Some(JsonValue::Object(m)), Some(JsonValue::Object(sp))) => Ok((m, sp)),
        _ => Err(AppError::Schema("declaration is missing its metadata or spec object".to_owned())),
    }
}

/// The body that a list of rules projects from a declaration value, or
/// `None` where the declaration lacks its objects or a required field.
pub open spec fn projected_body(v: JsonValue, rules: Seq<RuleView>, is_update: bool) -> Option<Body> {
    match declaration_sections(v) {
        None => None,
        Some(s) => match rules_fold(s, Seq::empty(), rules, is_update) {
            Ok((_, b)) => Some(b),
            Err(_) => None,
        },
    }
}

/// Projects a declaration value through a list of rules into a body.
pub fn project_fields(value: JsonValue, rules: &Vec<FieldRule>, is_update: bool) -> (r: Result<Vec<(String, JsonValue)>, AppError>)
    ensures
        match projected_body(value, rules_view(rules@), is_update) {
            Some(b) => r is Ok && body_view(r->Ok_0@) == b,
            None => r is Err && r->Err_0 is Schema,
        },
{
    let (mut metadata, mut spec) = split_declaration(value)?;
    let mut body: Vec<(String, JsonValue)> = Vec::new();
    proof {
        assert(body_view(body@) =~= Seq::<(Seq<char>, JsonValue)>::empty());
    }
    apply_rules(&mut metadata, &mut spec, rules, is_update, &mut body)?;
    Ok(body)
}

/// The plan of a request: a create, or an update of the resolved entity.
pub fn plan_for(existing_id: Option<String>, request: RequestBody) -> (p: WritePlan)
    ensures
        existing_id is None ==> p == (WritePlan::Create { request }),
        existing_id is Some ==> p == (WritePlan::Update { server_id: existing_id->0, request }),
{
    match existing_id {
        None => WritePlan::Create { request },
        Some(server_id) => WritePlan::Update { server_id, request },
    }
}

/// The natural references of an Assistant, resolved online: server
/// identifiers of its sub-assistants and skills, and its context entries.
#[derive(Debug)]
pub struct AssistantReferenceMap {
    pub assistant_ids: Vec<String>,
    pub skill_ids: Vec<String>,
    pub context: Vec<JsonValue>,
}

/// Strings as JSON strings.
pub open spec fn string_values(v: Seq<String>) -> Seq<JsonValue> {
    v.map_values(|s: String| JsonValue::String(s))
}

/// Turns strings into JSON strings.
fn into_string_values(v: Vec<String>) -> (r: Vec<JsonValue>)
    ensures
        r@ == string_values(v@),
{
    let ghost all = v@;
    let mut out: Vec<JsonValue> = Vec::new();
    for s in it: v.into_iter()
        invariant
            it.seq() == all,
            0 <= it.index() <= all.len(),
            out@ == string_values(all.take(it.index() as int)),
    {
        proof {
            assert(s == all[it.index() as int]);
        }
        out.push(JsonValue::String(s));
        proof {
            assert(out@ =~= string_values(all.take(it.index() + 1)));
        }
    }
    proof {
        assert(all.take(all.len() as int) =~= all);
    }
    out
}

/// Whether `body` is the body of an Assistant: its field rules, then its
/// resolved context entries, sub-assistant identifiers and skill identifiers.
pub open spec fn assistant_body(v: JsonValue, refs: AssistantReferenceMap, body: Body) -> bool {
    match projected_body(v, rules::assistant_rule_table(), false) {
        Some(b) => {
            &&& body.len() == b.len() + 3
            &&& body.take(b.len() as int) == b
            &&& body[b.len() as int] == ("context"@, JsonValue::Array(refs.context))
            &&& body[b.len() as int + 1].0 == "assistant_ids"@
            &&& body[b.len() as int + 1].1 is Array
            &&& body[b.len() as int + 1].1->Array_0@ == string_values(refs.assistant_ids@)
            &&& body[b.len() as int + 2].0 == "skill_ids"@
            &&& body[b.len() as int + 2].1 is Array
            &&& body[b.len() as int + 2].1->Array_0@ == string_values(refs.skill_ids@)
        },
        None => false,
    }
}

/// Projects an Assistant with its references resolved; a missing required
/// field is a schema error.
pub fn project_assistant(declaration: ParsedDeclaration, existing_id: Option<String>, references: AssistantReferenceMap) -> (r: Result<WritePlan, AppError>)
    ensures
        projected_body(declaration.value, rules::assistant_rule_table(), false) is None ==> (r is Err
            && r->Err_0 is Schema),
        projected_body(declaration.value, rules::assistant_rule_table(), false) is Some ==> (r is Ok
            && ({
            let request = match r->Ok_0 {
                WritePlan::Create { request } => request,
                WritePlan::Update { request, .. } => request,
            };
            &&& (r->Ok_0 is Update <==> existing_id is Some)
            &&& (r->Ok_0 is Update ==> r->Ok_0->Update_server_id == existing_id->0)
            &&& request is Json
            &&& request->Json_0 is Object
            &&& assistant_body(declaration.value, references, body_view(request->Json_0->Object_0@))
        })),
{
    let table = rules::assistant_rules();
    let ghost v = declaration.value;
    let mut body = project_fields(declaration.value, &table, false)?;
    let ghost b = body_view(body@);
    let AssistantReferenceMap { assistant_ids, skill_ids, context } = references;
    let ghost ids = assistant_ids@;
    let ghost skills = skill_ids@;
    body.push(("context".to_owned(), JsonValue::Array(context)));
    body.push(("assistant_ids".to_owned(), JsonValue::Array(into_string_values(assistant_ids))));
    body.push(("skill_ids".to_owned(), JsonValue::Array(into_string_values(skill_ids))));
    proof {
        assert(body_view(body@).take(b.len() as int) =~= b);
    }
    Ok(plan_for(existing_id, RequestBody::Json(JsonValue::Object(body))))
}

/// Projects a Skill; a missing required field is a schema error.
pub fn project_skill(declaration: ParsedDeclaration, existing_id: Option<String>) -> (r: Result<WritePlan, AppError>)
    ensures
        match projected_body(declaration.value, rules::skill_rule_table(), existing_id is Some) {
            None => r is Err && r->Err_0 is Schema,
            Some(b) => r is Ok && (r->Ok_0 is Update <==> existing_id is Some) && match r->Ok_0 {
                WritePlan::Create { request } => request is Json && request->Json_0 is Object
                    && body_view(request->Json_0->Object_0@) == b,
                WritePlan::Update { server_id, request } => server_id == existing_id->0
                    && request is Json && request->Json_0 is Object && body_view(request->Json_0->Object_0@) == b,
            },
        },
{
    let table = rules::skill_rules();
    let is_update = existing_id.is_some();
    let body = project_fields(declaration.value, &table, is_update)?;
    Ok(plan_for(existing_id, RequestBody::Json(JsonValue::Object(body))))
}

// ---------------------------------------------------------------------------
// Datasources
// ---------------------------------------------------------------------------

/// The field rules of a JSON Datasource kind (every kind but `file`).
pub open spec fn datasource_table(kind: Seq<char>) -> Option<Seq<RuleView>> {
    if kind == "git"@ {
        Some(rules::git_rule_table())
    } else if kind == "svn"@ {
        Some(rules::svn_rule_table())
    } else if kind == "confluence"@ {
        Some(rules::confluence_rule_table())
    } else if kind == "jira"@ {
        Some(rules::jira_rule_table())
    } else if kind == "xray"@ {
        Some(rules::xray_rule_table())
    } else if kind == "google"@ {
        Some(rules::google_rule_table())
    } else if kind == "azure_devops_wiki"@ {
        Some(rules::azure_devops_wiki_rule_table())
    } else if kind == "azure_devops_work_item"@ {
        Some(rules::azure_devops_work_item_rule_table())
    } else if kind == "sharepoint"@ {
        Some(rules::sharepoint_rule_table())
    } else {
        None
    }
}

/// The field rules of a JSON Datasource kind.
fn datasource_rules(kind: &str) -> (r: Option<Vec<FieldRule>>)
    ensures
        match datasource_table(kind@) {
            Some(t) => r is Some && rules_view(r->0@) == t,
            None => r is None,
        },
{
    if same_text(kind, "git") {
        Some(rules::git_rules())
    } else if same_text(kind, "svn") {
        Some(rules::svn_rules())
    } else if same_text(kind, "confluence") {
        Some(rules::confluence_rules())
    } else if same_text(kind, "jira") {
        Some(rules::jira_rules())
    } else if same_text(kind, "xray") {
        Some(rules::xray_rules())
    } else if same_text(kind, "google") {
        Some(rules::google_rules())
    } else if same_text(kind, "azure_devops_wiki") {
        Some(rules::azure_devops_wiki_rules())
    } else if same_text(kind, "azure_devops_work_item") {
        Some(rules::azure_devops_work_item_rules())
    } else if same_text(kind, "sharepoint") {
        Some(rules::sharepoint_rules())
    } else {
        None
    }
}

/// The query text of a scalar: a string as itself, a boolean as
/// `true`/`false`, a number as its text, null as `null`.
pub open spec fn scalar_text(v: JsonValue) -> Option<Seq<char>> {
    match v {
        JsonValue::String(s) => Some(s@),
        JsonValue::Bool(b) => Some(if b {
            "true"@
        } else {
            "false"@
        }),
        JsonValue::Number(n) => Some(n@),
        JsonValue::Null => Some("null"@),
        _ => None,
    }
}

/// The query text of a scalar value.
pub fn scalar_to_string(v: &JsonValue) -> (r: Result<String, AppError>)
    ensures
        match scalar_text(*v) {
            Some(t) => r is Ok && r->Ok_0@ == t,
            None => r is Err && r->Err_0 is Schema,
        },
{
    match v {
        JsonValue::String(s) => Ok(s.clone()),
        JsonValue::Bool(b) => Ok(if *b {
            "true".to_owned()
        } else {
            "false".to_owned()
        }),
        JsonValue::Number(n) => Ok(n.clone()),
        JsonValue::Null => Ok("null".to_owned()),
        _ => Err(AppError::Schema("datasource: query param field must be a scalar value".to_owned())),
    }
}

/// Query parameters under construction, as texts.
pub type Query = Seq<(Seq<char>, Seq<char>)>;

/// One query rule's effect: a present value is taken from its section and
/// sent as its scalar text (or compact JSON); a null optional value and an
/// absent optional value are not sent; an absent or null required value,
/// or a non-scalar where a scalar is sent, fails with the field's name.
pub open spec fn query_step(s: Sections, q: Query, r: QueryRuleView, is_update: bool) -> Result<(Sections, Query), Seq<char>> {
    if !applies(r.4, is_update) {
        Ok((s, q))
    } else {
        let members = section_of(s, r.0);
        match member_index(members, r.1) {
            Some(i) => {
                let v = members[i].1;
                let rest = with_section(s, r.0, members.remove(i));
                if v is Null {
                    match r.3 {
                        QueryKind::Scalar => Err(r.1),
                        _ => Ok((rest, q)),
                    }
                } else {
                    match r.3 {
                        QueryKind::OptionalJson => Ok((rest, q.push((r.2, json_text(v))))),
                        _ => match scalar_text(v) {
                            Some(t) => Ok((rest, q.push((r.2, t)))),
                            None => Err(r.1),
                        },
                    }
                }
            },
            None => match r.3 {
                QueryKind::Scalar => Err(r.1),
                _ => Ok((s, q)),
            },
        }
    }
}

/// The effect of the query rules in order.
pub open spec fn query_fold(s: Sections, q: Query, rules: Seq<QueryRuleView>, is_update: bool) -> Result<(Sections, Query), Seq<char>>
    decreases rules.len(),
{
    if rules.len() == 0 {
        Ok((s, q))
    } else {
        match query_fold(s, q, rules.drop_last(), is_update) {
            Ok((s2, q2)) => query_step(s2, q2, rules.last(), is_update),
            Err(name) => Err(name),
        }
    }
}

/// Query parameters as texts.
pub open spec fn query_view(q: Seq<(String, String)>) -> Query {
    q.map_values(|p: (String, String)| (p.0@, p.1@))
}

/// A failed query fold stays failed when more rules follow.
proof fn lemma_query_fails_later(s: Sections, q: Query, rules: Seq<QueryRuleView>, is_update: bool, n: int)
    requires
        0 <= n <= rules.len(),
        query_fold(s, q, rules.take(n), is_update) is Err,
    ensures
        query_fold(s, q, rules, is_update) is Err,
    decreases rules.len() - n,
{
    if n < rules.len() {
        assert(rules.take(n + 1).drop_last() =~= rules.take(n));
        lemma_query_fails_later(s, q, rules, is_update, n + 1);
    } else {
        assert(rules.take(n) =~= rules);
    }
}

/// Applies the query rules in order.
pub fn apply_query_rules(
    metadata: &mut Vec<(String, JsonValue)>,
    spec: &mut Vec<(String, JsonValue)>,
    rules: &Vec<QueryRule>,
    is_update: bool,
    query: &mut Vec<(String, String)>,
) -> (r: Result<(), AppError>)
    ensures
        match query_fold((old(metadata)@, old(spec)@), query_view(old(query)@), query_rules_view(rules@), is_update) {
            Ok((s, q)) => r is Ok && final(metadata)@ == s.0 && final(spec)@ == s.1 && query_view(final(query)@) == q,
            Err(_) => r is Err && r->Err_0 is Schema,
        },
{
    let ghost s0: Sections = (metadata@, spec@);
    let ghost q0 = query_view(query@);
    let ghost all = query_rules_view(rules@);
    let mut index: usize = 0;
    proof {
        assert(all.take(0) =~= Seq::<QueryRuleView>::empty());
    }
    while index < rules.len()
        invariant
            0 <= index <= rules@.len(),
            all == query_rules_view(rules@),
            s0 == (old(metadata)@, old(spec)@),
            q0 == query_view(old(query)@),
            query_fold(s0, q0, all.take(index as int), is_update) == Ok::<(Sections, Query), Seq<char>>(
                ((metadata@, spec@), query_view(query@)),
            ),
        decreases rules.len() - index,
    {
        let r = rules[index];
        let ghost before: Sections = (metadata@, spec@);
        let ghost query_before = query_view(query@);
        proof {
            assert(all.take(index as int + 1).drop_last() =~= all.take(index as int));
            assert(all.take(index as int + 1).last() == all[index as int]);
            assert(all[index as int] == (r.section, r.from@, r.to@, r.kind, r.when));
        }
        let active = match r.when {
            When::Always => true,
            When::CreateOnly => !is_update,
            When::UpdateOnly => is_update,
        };
        if active {
            let taken = match r.section {
                Section::Metadata => take_member(metadata, r.from),
                Section::Spec => take_member(spec, r.from),
            };
            match taken {
                Some(value) => {
                    let is_null = match &value {
                        JsonValue::Null => true,
                        _ => false,
                    };
                    if is_null {
                        match r.kind {
                            QueryKind::Scalar => {
                                proof {
                                    lemma_query_fails_later(s0, q0, all, is_update, index as int + 1);
                                }
                                return Err(missing_field(r.from));
                            },
                            _ => {},
                        }
                    } else {
                        match r.kind {
                            QueryKind::OptionalJson => {
                                let text = write_json(&value);
                                query.push((r.to.to_owned(), text));
                            },
                            _ => {
                                match scalar_to_string(&value) {
                                    Ok(text) => {
                                        query.push((r.to.to_owned(), text));
                                    },
                                    Err(e) => {
                                        proof {
                                            lemma_query_fails_later(s0, q0, all, is_update, index as int + 1);
                                        }
                                        return Err(e);
                                    },
                                }
                            },
                        }
                    }
                },
                None => match r.kind {
                    QueryKind::Scalar => {
                        proof {
                            lemma_query_fails_later(s0, q0, all, is_update, index as int + 1);
                        }
                        return Err(missing_field(r.from));
                    },
                    _ => {},
                },
            }
        }
        proof {
            assert(query_view(query@) =~= match query_step(before, query_before, all[index as int], is_update) {
                Ok((_, q)) => q,
                Err(_) => query_view(query@),
            });
        }
        index = index + 1;
    }
    proof {
        assert(all.take(rules@.len() as int) =~= all);
    }
    Ok(())
}

/// The query of a File Datasource, or `None` where it lacks its objects or
/// a required field.
pub open spec fn projected_query(v: JsonValue, is_update: bool) -> Option<Query> {
    match declaration_sections(v) {
        None => None,
        Some(s) => match query_fold(s, Seq::empty(), rules::file_query_table(), is_update) {
            Ok((_, q)) => Some(q),
            Err(_) => None,
        },
    }
}

/// The request that a Datasource declaration projects to: by its
/// `spec.index_type`, the multipart query of a File Datasource or the JSON
/// body of the kind's rules.
pub open spec fn datasource_request(v: JsonValue, is_update: bool, request: RequestBody) -> Option<bool> {
    match crate::parse::nested_text(v, "spec"@, "index_type"@) {
        None => None,
        Some(kind) => if kind == "file"@ {
            match projected_query(v, is_update) {
                Some(q) => Some(request is FileMultipart && query_view(request->FileMultipart_query_params@) == q),
                None => None,
            }
        } else {
            match datasource_table(kind) {
                Some(t) => match projected_body(v, t, is_update) {
                    Some(b) => Some(request is Json && request->Json_0 is Object && body_view(
                        request->Json_0->Object_0@,
                    ) == b),
                    None => None,
                },
                None => None,
            }
        },
    }
}

/// One rule leaves the body as it was or appends one member to it.
proof fn lemma_step_extends(s: Sections, body: Body, r: RuleView, is_update: bool)
    requires
        rule_step(s, body, r, is_update) is Ok,
    ensures
        ({
            let b2 = rule_step(s, body, r, is_update)->Ok_0.1;
            b2 == body || b2 == body.push((r.2, b2.last().1))
        }),
{
}

/// Folding rules only appends to the body.
proof fn lemma_fold_extends(s: Sections, body: Body, rules: Seq<RuleView>, is_update: bool)
    requires
        rules_fold(s, body, rules, is_update) is Ok,
    ensures
        ({
            let b2 = rules_fold(s, body, rules, is_update)->Ok_0.1;
            &&& body.len() <= b2.len()
            &&& forall|i: int| 0 <= i < body.len() ==> #[trigger] b2[i] == body[i]
        }),
    decreases rules.len(),
{
    if rules.len() > 0 {
        lemma_fold_extends(s, body, rules.drop_last(), is_update);
        let (s1, b1) = rules_fold(s, body, rules.drop_last(), is_update)->Ok_0;
        lemma_step_extends(s1, b1, rules.last(), is_update);
    }
}

/// Folding a table is folding its first `k` rules, then the rest.
proof fn lemma_fold_split(s: Sections, body: Body, rules: Seq<RuleView>, k: int, is_update: bool)
    requires
        0 <= k <= rules.len(),
    ensures
        rules_fold(s, body, rules, is_update) == (match rules_fold(s, body, rules.take(k), is_update) {
            Ok((s1, b1)) => rules_fold(s1, b1, rules.skip(k), is_update),
            Err(e) => Err(e),
        }),
    decreases rules.len(),
{
    if k == rules.len() {
        assert(rules.take(k) =~= rules);
        assert(rules.skip(k) =~= Seq::<RuleView>::empty());
    } else {
        lemma_fold_split(s, body, rules.drop_last(), k, is_update);
        assert(rules.drop_last().take(k) =~= rules.take(k));
        assert(rules.skip(k).drop_last() =~= rules.drop_last().skip(k));
        assert(rules.skip(k).last() == rules.last());
    }
}

/// Rules that never take a given field from a section keep what that field
/// holds there.
proof fn lemma_fold_keeps_field(s: Sections, body: Body, rules: Seq<RuleView>, is_update: bool, section: Section, key: Seq<char>)
    requires
        rules_fold(s, body, rules, is_update) is Ok,
        forall|j: int| 0 <= j < rules.len() ==> #[trigger] rules[j].0 != section || rules[j].1 != key,
    ensures
        member_value(section_of(rules_fold(s, body, rules, is_update)->Ok_0.0, section), key) == member_value(
            section_of(s, section),
            key,
        ),
    decreases rules.len(),
{
    if rules.len() > 0 {
        assert forall|j: int| 0 <= j < rules.drop_last().len() implies #[trigger] rules.drop_last()[j].0 != section
            || rules.drop_last()[j].1 != key by {
            assert(rules.drop_last()[j] == rules[j]);
        }
        lemma_fold_keeps_field(s, body, rules.drop_last(), is_update, section, key);
        let (s1, b1) = rules_fold(s, body, rules.drop_last(), is_update)->Ok_0;
        let r = rules.last();
        assert(r == rules[rules.len() - 1]);
        if applies(r.4, is_update) {
            let members = section_of(s1, r.0);
            crate::json_value::lemma_member_index(members, r.1);
            match member_index(members, r.1) {
                Some(i) => {
                    if r.0 == section {
                        lemma_member_value_after_remove(members, i, key);
                    }
                },
                None => {},
            }
        }
    }
}

/// Every member that folding rules adds is sent under the name of a rule
/// that applies.
proof fn lemma_fold_origin(s: Sections, body: Body, rules: Seq<RuleView>, is_update: bool)
    requires
        rules_fold(s, body, rules, is_update) is Ok,
    ensures
        ({
            let b2 = rules_fold(s, body, rules, is_update)->Ok_0.1;
            forall|i: int| #![trigger b2[i]] body.len() <= i < b2.len() ==> exists|j: int|
                0 <= j < rules.len() && applies(rules[j].4, is_update) && #[trigger] rules[j].2 == b2[i].0
        }),
    decreases rules.len(),
{
    if rules.len() > 0 {
        lemma_fold_origin(s, body, rules.drop_last(), is_update);
        lemma_fold_extends(s, body, rules.drop_last(), is_update);
        let (s1, b1) = rules_fold(s, body, rules.drop_last(), is_update)->Ok_0;
        lemma_step_extends(s1, b1, rules.last(), is_update);
        let b2 = rules_fold(s, body, rules, is_update)->Ok_0.1;
        assert forall|i: int| #![trigger b2[i]] body.len() <= i < b2.len() implies exists|j: int|
            0 <= j < rules.len() && applies(rules[j].4, is_update) && #[trigger] rules[j].2 == b2[i].0 by {
            if i < b1.len() {
                let j = choose|j: int|
                    0 <= j < rules.drop_last().len() && applies(rules.drop_last()[j].4, is_update) && #[trigger] rules.drop_last()[j].2
                        == b1[i].0;
                assert(rules[j] == rules.drop_last()[j]);
                assert(b2[i] == b1[i]);
            } else {
                let r = rules.last();
                assert(rules[rules.len() - 1] == r);
                assert(applies(r.4, is_update));
                assert(b2[i].0 == r.2);
            }
        }
    }
}

/// A field that no applying rule sends under a name is absent from the
/// folded body.
pub proof fn lemma_fold_never_sends(s: Sections, rules: Seq<RuleView>, is_update: bool, name: Seq<char>)
    requires
        rules_fold(s, Seq::empty(), rules, is_update) is Ok,
        forall|j: int| 0 <= j < rules.len() && applies(rules[j].4, is_update) ==> #[trigger] rules[j].2 != name,
    ensures
        ({
            let b = rules_fold(s, Seq::empty(), rules, is_update)->Ok_0.1;
            forall|i: int| 0 <= i < b.len() ==> #[trigger] b[i].0 != name
        }),
{
    lemma_fold_origin(s, Seq::empty(), rules, is_update);
}

/// A rule that applies sends the field it takes, when the section holds a
/// non-null value under that name and no earlier rule took that name from
/// that section: the folded body holds the member (destination, value).
pub proof fn lemma_fold_sends_field(s: Sections, rules: Seq<RuleView>, is_update: bool, idx: int, v: JsonValue)
    requires
        rules_fold(s, Seq::empty(), rules, is_update) is Ok,
        0 <= idx < rules.len(),
        applies(rules[idx].4, is_update),
        member_value(section_of(s, rules[idx].0), rules[idx].1) == Some(v),
        !(v is Null),
        forall|j: int| 0 <= j < idx ==> #[trigger] rules[j].0 != rules[idx].0 || rules[j].1 != rules[idx].1,
    ensures
        ({
            let b = rules_fold(s, Seq::empty(), rules, is_update)->Ok_0.1;
            exists|i: int| 0 <= i < b.len() && #[trigger] b[i] == (rules[idx].2, v)
        }),
{
    let r = rules[idx];
    lemma_fold_split(s, Seq::empty(), rules, idx + 1, is_update);
    let upto = rules.take(idx + 1);
    assert(upto.drop_last() =~= rules.take(idx));
    assert(upto.last() == r);
    let before = rules.take(idx);
    assert forall|j: int| 0 <= j < before.len() implies #[trigger] before[j].0 != r.0 || before[j].1 != r.1 by {
        assert(before[j] == rules[j]);
    }
    lemma_fold_keeps_field(s, Seq::empty(), before, is_update, r.0, r.1);
    let (s0, b0) = rules_fold(s, Seq::empty(), before, is_update)->Ok_0;
    let members = section_of(s0, r.0);
    crate::json_value::lemma_member_index(members, r.1);
    let (s1, b1) = rules_fold(s, Seq::empty(), upto, is_update)->Ok_0;
    assert(b1 == b0.push((r.2, v)));
    lemma_fold_extends(s1, b1, rules.skip(idx + 1), is_update);
    let b = rules_fold(s, Seq::empty(), rules, is_update)->Ok_0.1;
    assert(b[b0.len() as int] == b1[b0.len() as int]);
}

/// The query of each query-driven Datasource kind: `cql` for Confluence,
/// `jql` for Jira and Xray, `wiki_query` and `wiql_query` for the Azure
/// DevOps wiki and work items, `site_url` for SharePoint.
pub open spec fn kind_query_field(kind: Seq<char>, field: Seq<char>) -> bool {
    ||| kind == "confluence"@ && field == "cql"@
    ||| kind == "jira"@ && field == "jql"@
    ||| kind == "xray"@ && field == "jql"@
    ||| kind == "azure_devops_wiki"@ && field == "wiki_query"@
    ||| kind == "azure_devops_work_item"@ && field == "wiql_query"@
    ||| kind == "sharepoint"@ && field == "site_url"@
}

/// A rule that applies and sends an explicit null for an absent field
/// sends `null` under its name when the section holds nothing or `null`
/// under the field, provided no earlier rule took that field from that
/// section.
pub proof fn lemma_fold_sends_null(s: Sections, rules: Seq<RuleView>, is_update: bool, idx: int)
    requires
        rules_fold(s, Seq::empty(), rules, is_update) is Ok,
        0 <= idx < rules.len(),
        applies(rules[idx].4, is_update),
        rules[idx].3 == Presence::OrNull,
        member_value(section_of(s, rules[idx].0), rules[idx].1) is None || member_value(
            section_of(s, rules[idx].0),
            rules[idx].1,
        ) == Some(JsonValue::Null),
        forall|j: int| 0 <= j < idx ==> #[trigger] rules[j].0 != rules[idx].0 || rules[j].1 != rules[idx].1,
    ensures
        ({
            let b = rules_fold(s, Seq::empty(), rules, is_update)->Ok_0.1;
            exists|i: int| 0 <= i < b.len() && #[trigger] b[i] == (rules[idx].2, JsonValue::Null)
        }),
{
    let r = rules[idx];
    lemma_fold_split(s, Seq::empty(), rules, idx + 1, is_update);
    let upto = rules.take(idx + 1);
    assert(upto.drop_last() =~= rules.take(idx));
    assert(upto.last() == r);
    let before = rules.take(idx);
    assert forall|j: int| 0 <= j < before.len() implies #[trigger] before[j].0 != r.0 || before[j].1 != r.1 by {
        assert(before[j] == rules[j]);
    }
    lemma_fold_keeps_field(s, Seq::empty(), before, is_update, r.0, r.1);
    let (s0, b0) = rules_fold(s, Seq::empty(), before, is_update)->Ok_0;
    let members = section_of(s0, r.0);
    crate::json_value::lemma_member_index(members, r.1);
    let (s1, b1) = rules_fold(s, Seq::empty(), upto, is_update)->Ok_0;
    assert(b1 == b0.push((r.2, JsonValue::Null)));
    lemma_fold_extends(s1, b1, rules.skip(idx + 1), is_update);
    let b = rules_fold(s, Seq::empty(), rules, is_update)->Ok_0.1;
    assert(b[b0.len() as int] == b1[b0.len() as int]);
}

/// On every write of a query-driven Datasource, a create or an update,
/// the body sends the declared query under its own name: an edited query
/// reaches the server on the next apply.
pub proof fn law_datasource_query_sent_on_every_write(
    v: JsonValue,
    is_update: bool,
    request: RequestBody,
    kind: Seq<char>,
    field: Seq<char>,
    query: JsonValue,
)
    requires
        kind_query_field(kind, field),
        crate::parse::nested_text(v, "spec"@, "index_type"@) == Some(kind),
        datasource_request(v, is_update, request) == Some(true),
        member_value(section_of(declaration_sections(v)->0, Section::Spec), field) == Some(query),
        !(query is Null),
    ensures
        request is Json,
        request->Json_0 is Object,
        exists|i: int|
            0 <= i < request->Json_0->Object_0@.len() && #[trigger] body_view(request->Json_0->Object_0@)[i] == (
            field,
            query,
        ),
{
    reveal_strlit("file");
    reveal_strlit("git");
    reveal_strlit("svn");
    reveal_strlit("confluence");
    reveal_strlit("jira");
    reveal_strlit("xray");
    reveal_strlit("google");
    reveal_strlit("azure_devops_wiki");
    reveal_strlit("azure_devops_work_item");
    reveal_strlit("sharepoint");
    reveal_strlit("description");
    reveal_strlit("cql");
    reveal_strlit("jql");
    reveal_strlit("wiki_query");
    reveal_strlit("wiql_query");
    reveal_strlit("site_url");
    assert("jira"@[0] != "file"@[0] && "xray"@[0] != "file"@[0] && "xray"@[0] != "jira"@[0]);
    assert("sharepoint"@[0] != "confluence"@[0]);
    assert(kind != "file"@);
    let t = datasource_table(kind)->0;
    if kind == "confluence"@ {
        assert(t == rules::confluence_rule_table());
    } else if kind == "jira"@ {
        assert(kind != "confluence"@);
        assert(t == rules::jira_rule_table());
    } else if kind == "xray"@ {
        assert(kind != "confluence"@ && kind != "jira"@);
        assert(t == rules::xray_rule_table());
    } else if kind == "azure_devops_wiki"@ {
        assert(kind.len() == 17);
        assert(kind != "git"@ && kind != "svn"@ && kind != "confluence"@ && kind != "jira"@ && kind != "xray"@
            && kind != "google"@);
        assert(t == rules::azure_devops_wiki_rule_table());
    } else if kind == "azure_devops_work_item"@ {
        assert(kind.len() == 22);
        assert(kind != "git"@ && kind != "svn"@ && kind != "confluence"@ && kind != "jira"@ && kind != "xray"@
            && kind != "google"@ && kind != "azure_devops_wiki"@);
        assert(t == rules::azure_devops_work_item_rule_table());
    } else {
        assert(kind == "sharepoint"@ && kind != "confluence"@);
        assert(kind.len() == 10);
        assert(kind != "git"@ && kind != "svn"@ && kind != "jira"@ && kind != "xray"@ && kind != "google"@
            && kind != "azure_devops_wiki"@ && kind != "azure_devops_work_item"@);
        assert(t == rules::sharepoint_rule_table());
    }
    assert(datasource_table(kind) == Some(t));
    assert(t[3] == (Section::Spec, field, field, Presence::Required, When::Always));
    assert forall|j: int| 0 <= j < 3 implies #[trigger] t[j].0 != t[3].0 || t[j].1 != t[3].1 by {
        if j == 2 {
            assert(t[2].1 == "description"@);
            assert(t[2].1.len() != t[3].1.len());
        } else {
            assert(t[j].0 == Section::Metadata);
        }
    }
    let s = declaration_sections(v)->0;
    lemma_fold_sends_field(s, t, is_update, 3, query);
    let b = body_view(request->Json_0->Object_0@);
    let i = choose|i: int| 0 <= i < b.len() && #[trigger] b[i] == (field, query);
    assert(0 <= i < request->Json_0->Object_0@.len() && body_view(request->Json_0->Object_0@)[i] == (field, query));
}

/// The text a query rule sends for a value: compact JSON for a JSON
/// parameter, the scalar's text otherwise.
pub open spec fn query_text(kind: QueryKind, v: JsonValue) -> Option<Seq<char>> {
    match kind {
        QueryKind::OptionalJson => Some(json_text(v)),
        _ => scalar_text(v),
    }
}

/// One query rule leaves the parameters as they were or appends one.
proof fn lemma_query_step_extends(s: Sections, q: Query, r: QueryRuleView, is_update: bool)
    requires
        query_step(s, q, r, is_update) is Ok,
    ensures
        ({
            let q2 = query_step(s, q, r, is_update)->Ok_0.1;
            q2 == q || (q2 == q.push((r.2, q2.last().1)) && applies(r.4, is_update))
        }),
{
}

/// Folding query rules only appends parameters, each under the name of a
/// rule that applies.
proof fn lemma_query_fold_extends(s: Sections, q: Query, rules: Seq<QueryRuleView>, is_update: bool)
    requires
        query_fold(s, q, rules, is_update) is Ok,
    ensures
        ({
            let q2 = query_fold(s, q, rules, is_update)->Ok_0.1;
            &&& q.len() <= q2.len()
            &&& forall|i: int| 0 <= i < q.len() ==> #[trigger] q2[i] == q[i]
            &&& forall|i: int| #![trigger q2[i]] q.len() <= i < q2.len() ==> exists|j: int|
                0 <= j < rules.len() && applies(rules[j].4, is_update) && #[trigger] rules[j].2 == q2[i].0
        }),
    decreases rules.len(),
{
    if rules.len() > 0 {
        lemma_query_fold_extends(s, q, rules.drop_last(), is_update);
        let (s1, q1) = query_fold(s, q, rules.drop_last(), is_update)->Ok_0;
        lemma_query_step_extends(s1, q1, rules.last(), is_update);
        let q2 = query_fold(s, q, rules, is_update)->Ok_0.1;
        assert forall|i: int| #![trigger q2[i]] q.len() <= i < q2.len() implies exists|j: int|
            0 <= j < rules.len() && applies(rules[j].4, is_update) && #[trigger] rules[j].2 == q2[i].0 by {
            if i < q1.len() {
                let j = choose|j: int|
                    0 <= j < rules.drop_last().len() && applies(rules.drop_last()[j].4, is_update) && #[trigger] rules.drop_last()[j].2
                        == q1[i].0;
                assert(rules[j] == rules.drop_last()[j]);
                assert(q2[i] == q1[i]);
            } else {
                assert(rules[rules.len() - 1] == rules.last());
                assert(q2[i].0 == rules.last().2);
            }
        }
    }
}

/// Folding query rules is folding the first `k`, then the rest.
proof fn lemma_query_fold_split(s: Sections, q: Query, rules: Seq<QueryRuleView>, k: int, is_update: bool)
    requires
        0 <= k <= rules.len(),
    ensures
        query_fold(s, q, rules, is_update) == (match query_fold(s, q, rules.take(k), is_update) {
            Ok((s1, q1)) => query_fold(s1, q1, rules.skip(k), is_update),
            Err(e) => Err(e),
        }),
    decreases rules.len(),
{
    if k == rules.len() {
        assert(rules.take(k) =~= rules);
        assert(rules.skip(k) =~= Seq::<QueryRuleView>::empty());
    } else {
        lemma_query_fold_split(s, q, rules.drop_last(), k, is_update);
        assert(rules.drop_last().take(k) =~= rules.take(k));
        assert(rules.skip(k).drop_last() =~= rules.drop_last().skip(k));
        assert(rules.skip(k).last() == rules.last());
    }
}

/// Query rules that never take a given field from a section keep what that
/// field holds there.
proof fn lemma_query_fold_keeps_field(s: Sections, q: Query, rules: Seq<QueryRuleView>, is_update: bool, section: Section, key: Seq<char>)
    requires
        query_fold(s, q, rules, is_update) is Ok,
        forall|j: int| 0 <= j < rules.len() ==> #[trigger] rules[j].0 != section || rules[j].1 != key,
    ensures
        member_value(section_of(query_fold(s, q, rules, is_update)->Ok_0.0, section), key) == member_value(
            section_of(s, section),
            key,
        ),
    decreases rules.len(),
{
    if rules.len() > 0 {
        assert forall|j: int| 0 <= j < rules.drop_last().len() implies #[trigger] rules.drop_last()[j].0 != section
            || rules.drop_last()[j].1 != key by {
            assert(rules.drop_last()[j] == rules[j]);
        }
        lemma_query_fold_keeps_field(s, q, rules.drop_last(), is_update, section, key);
        let (s1, q1) = query_fold(s, q, rules.drop_last(), is_update)->Ok_0;
        let r = rules.last();
        assert(r == rules[rules.len() - 1]);
        if applies(r.4, is_update) {
            let members = section_of(s1, r.0);
            crate::json_value::lemma_member_index(members, r.1);
            match member_index(members, r.1) {
                Some(i) => {
                    if r.0 == section {
                        lemma_member_value_after_remove(members, i, key);
                    }
                },
                None => {},
            }
        }
    }
}

/// A query rule that applies sends the field it takes, as its text, when
/// the section holds a non-null value under that name and no earlier rule
/// took that name from that section.
pub proof fn lemma_query_fold_sends_field(s: Sections, rules: Seq<QueryRuleView>, is_update: bool, idx: int, v: JsonValue)
    requires
        query_fold(s, Seq::empty(), rules, is_update) is Ok,
        0 <= idx < rules.len(),
        applies(rules[idx].4, is_update),
        member_value(section_of(s, rules[idx].0), rules[idx].1) == Some(v),
        !(v is Null),
        forall|j: int| 0 <= j < idx ==> #[trigger] rules[j].0 != rules[idx].0 || rules[j].1 != rules[idx].1,
    ensures
        query_text(rules[idx].3, v) is Some,
        ({
            let q = query_fold(s, Seq::empty(), rules, is_update)->Ok_0.1;
            exists|i: int| 0 <= i < q.len() && #[trigger] q[i] == (rules[idx].2, query_text(rules[idx].3, v)->0)
        }),
{
    let r = rules[idx];
    lemma_query_fold_split(s, Seq::empty(), rules, idx + 1, is_update);
    let upto = rules.take(idx + 1);
    assert(upto.drop_last() =~= rules.take(idx));
    assert(upto.last() == r);
    let before = rules.take(idx);
    assert forall|j: int| 0 <= j < before.len() implies #[trigger] before[j].0 != r.0 || before[j].1 != r.1 by {
        assert(before[j] == rules[j]);
    }
    lemma_query_fold_keeps_field(s, Seq::empty(), before, is_update, r.0, r.1);
    let (s0, q0) = query_fold(s, Seq::empty(), before, is_update)->Ok_0;
    let members = section_of(s0, r.0);
    crate::json_value::lemma_member_index(members, r.1);
    let (s1, q1) = query_fold(s, Seq::empty(), upto, is_update)->Ok_0;
    assert(q1 == q0.push((r.2, query_text(r.3, v)->0)));
    lemma_query_fold_extends(s1, q1, rules.skip(idx + 1), is_update);
    let q = query_fold(s, Seq::empty(), rules, is_update)->Ok_0.1;
    assert(q[q0.len() as int] == q1[q0.len() as int]);
}

/// A parameter that no applying query rule sends under a name is absent.
pub proof fn lemma_query_fold_never_sends(s: Sections, rules: Seq<QueryRuleView>, is_update: bool, name: Seq<char>)
    requires
        query_fold(s, Seq::empty(), rules, is_update) is Ok,
        forall|j: int| 0 <= j < rules.len() && applies(rules[j].4, is_update) ==> #[trigger] rules[j].2 != name,
    ensures
        ({
            let q = query_fold(s, Seq::empty(), rules, is_update)->Ok_0.1;
            forall|i: int| 0 <= i < q.len() ==> #[trigger] q[i].0 != name
        }),
{
    lemma_query_fold_extends(s, Seq::empty(), rules, is_update);
}

/// Projects a Datasource: a File Datasource to multipart query parameters,
/// every other kind to a JSON body; an unknown kind or a missing required
/// field is a schema error.
pub fn project_datasource(declaration: ParsedDeclaration, existing_id: Option<String>) -> (r: Result<WritePlan, AppError>)
    ensures
        ({
            let is_update = existing_id is Some;
            match r {
                Ok(plan) => {
                    let request = match plan {
                        WritePlan::Create { request } => request,
                        WritePlan::Update { request, .. } => request,
                    };
                    &&& (plan is Update <==> is_update)
                    &&& (plan is Update ==> plan->Update_server_id == existing_id->0)
                    &&& datasource_request(declaration.value, is_update, request) == Some(true)
                },
                Err(e) => e is Schema && forall|req: RequestBody| datasource_request(declaration.value, is_update, req) is None,
            }
        }),
{
    let is_update = existing_id.is_some();
    let kind = match crate::parse::nested_str(&declaration.value, "spec", "index_type") {
        Some(k) => k.to_owned(),
        None => {
            return Err(AppError::Schema("datasource: spec.index_type is required".to_owned()));
        },
    };
    if same_text(kind.as_str(), "file") {
        let table = rules::file_query_rules();
        let (mut metadata, mut spec) = split_declaration(declaration.value)?;
        let mut query: Vec<(String, String)> = Vec::new();
        proof {
            assert(query_view(query@) =~= Seq::<(Seq<char>, Seq<char>)>::empty());
        }
        apply_query_rules(&mut metadata, &mut spec, &table, is_update, &mut query)?;
        return Ok(plan_for(existing_id, RequestBody::FileMultipart { query_params: query }));
    }
    let table = match datasource_rules(kind.as_str()) {
        Some(t) => t,
        None => {
            return Err(AppError::Schema("datasource kind is unsupported".to_owned()));
        },
    };
    let body = project_fields(declaration.value, &table, is_update)?;
    Ok(plan_for(existing_id, RequestBody::Json(JsonValue::Object(body))))
}

} // verus!
