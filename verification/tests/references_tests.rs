use codemie_gitops::adapters::references::{
    assistant_reference_keys, collect_execution_reference_keys, context_entry, reference_key,
};
use codemie_gitops::adapters::listing::{
    datasource_list_path, skill_list_path, workflow_detail_path, workflow_list_path,
};
use codemie_gitops::error::{AppError, ParseError};
use codemie_gitops::json_value::{write_json, JsonValue};
use codemie_gitops::kind::EntityKind;
use codemie_gitops::parse::ParsedDeclaration;

fn s(text: &str) -> String {
    text.to_owned()
}

fn obj(members: Vec<(&str, JsonValue)>) -> JsonValue {
    JsonValue::Object(members.into_iter().map(|(k, v)| (s(k), v)).collect())
}

fn text(v: &str) -> JsonValue {
    JsonValue::String(s(v))
}

fn declaration(kind: EntityKind, spec: JsonValue) -> ParsedDeclaration {
    ParsedDeclaration {
        kind,
        value: obj(vec![("kind", text("X")), ("spec", spec)]),
        source_path: s("decl.yaml"),
    }
}

fn pair(a: &str, b: &str) -> (String, String) {
    (s(a), s(b))
}

fn reference(project: &str, field: &str, key: &str) -> JsonValue {
    obj(vec![("project", text(project)), (field, text(key))])
}

#[test]
fn reference_key_reads_project_and_selector() {
    assert_eq!(reference_key(&reference("p", "slug", "a"), "slug"), Some(pair("p", "a")));
    assert_eq!(reference_key(&reference("p", "slug", "a"), "name"), None);
    assert_eq!(reference_key(&text("p"), "slug"), None);
}

#[test]
fn assistant_references_keep_authored_order() {
    let spec = obj(vec![
        (
            "sub_assistants",
            JsonValue::Array(vec![reference("p2", "slug", "b"), reference("p1", "slug", "a")]),
        ),
        ("skills", JsonValue::Array(vec![reference("p", "name", "s")])),
        (
            "context",
            JsonValue::Array(vec![obj(vec![
                ("context_type", text("code")),
                ("ref", reference("p", "repo_name", "repo")),
            ])]),
        ),
    ]);
    let keys = assistant_reference_keys(&declaration(EntityKind::Assistant, spec)).unwrap();
    assert_eq!(keys.sub_assistants, vec![pair("p2", "b"), pair("p1", "a")]);
    assert_eq!(keys.skills, vec![pair("p", "s")]);
    assert_eq!(keys.context, vec![(s("code"), s("p"), s("repo"))]);
}

#[test]
fn assistant_references_without_lists_are_internal_errors() {
    let spec = obj(vec![("skills", JsonValue::Array(vec![]))]);
    assert!(matches!(
        assistant_reference_keys(&declaration(EntityKind::Assistant, spec)),
        Err(AppError::Internal(_))
    ));
    let spec = obj(vec![
        ("sub_assistants", JsonValue::Array(vec![text("bad")])),
        ("skills", JsonValue::Array(vec![])),
        ("context", JsonValue::Array(vec![])),
    ]);
    assert!(matches!(
        assistant_reference_keys(&declaration(EntityKind::Assistant, spec)),
        Err(AppError::Internal(_))
    ));
}

#[test]
fn context_entry_names_type_then_repository() {
    assert_eq!(
        write_json(&context_entry("code", "repo")),
        "{\"context_type\":\"code\",\"name\":\"repo\"}"
    );
}

fn workflow_spec(actors: Vec<JsonValue>) -> JsonValue {
    obj(vec![("execution_config", obj(vec![("assistants", JsonValue::Array(actors))]))])
}

#[test]
fn workflow_references_are_sorted_and_distinct() {
    let actors = vec![
        obj(vec![("assistantRef", reference("p", "slug", "zeta"))]),
        obj(vec![("assistantRef", reference("p", "slug", "alpha"))]),
        obj(vec![("assistantRef", reference("p", "slug", "zeta"))]),
        obj(vec![
            ("skillRefs", JsonValue::Array(vec![reference("q", "name", "s2"), reference("p", "name", "s1")])),
            ("datasourceRefs", JsonValue::Array(vec![reference("p", "repo_name", "r")])),
        ]),
        obj(vec![
            ("skillRefs", JsonValue::Array(vec![reference("p", "name", "s1")])),
            ("datasourceRefs", JsonValue::Array(vec![])),
        ]),
    ];
    let keys = collect_execution_reference_keys(&declaration(EntityKind::Workflow, workflow_spec(actors))).unwrap();
    assert_eq!(keys.assistants, vec![pair("p", "alpha"), pair("p", "zeta")]);
    assert_eq!(keys.skills, vec![pair("p", "s1"), pair("q", "s2")]);
    assert_eq!(keys.datasources, vec![pair("p", "r")]);
}

#[test]
fn workflow_references_reject_malformed_actors() {
    let actors = vec![obj(vec![("skillRefs", JsonValue::Array(vec![]))])];
    assert!(matches!(
        collect_execution_reference_keys(&declaration(EntityKind::Workflow, workflow_spec(actors))),
        Err(AppError::Schema(_))
    ));
    assert!(matches!(
        collect_execution_reference_keys(&declaration(EntityKind::Skill, workflow_spec(vec![]))),
        Err(AppError::Schema(_))
    ));
    assert!(matches!(
        collect_execution_reference_keys(&declaration(EntityKind::Workflow, obj(vec![]))),
        Err(AppError::Schema(_))
    ));
}

#[test]
fn file_datasource_paths_list_string_files() {
    let spec = obj(vec![
        ("index_type", text("file")),
        ("files", JsonValue::Array(vec![text("a.md"), JsonValue::Null, text("b.pdf")])),
    ]);
    let d = declaration(EntityKind::Datasource, spec);
    assert_eq!(d.file_datasource_paths(), Some(vec![s("a.md"), s("b.pdf")]));
    let spec = obj(vec![("index_type", text("git")), ("files", JsonValue::Array(vec![]))]);
    assert_eq!(declaration(EntityKind::Datasource, spec).file_datasource_paths(), None);
}

#[test]
fn content_from_is_replaced_by_sidecar_text() {
    let spec = obj(vec![
        ("contentFrom", text("body.md")),
        ("description", text("d")),
    ]);
    let d = declaration(EntityKind::Skill, spec);
    assert_eq!(d.content_from_path(), Some("body.md"));
    let expanded = d.expand_content_from("héllo".as_bytes().to_vec()).unwrap();
    assert_eq!(
        write_json(&expanded.value),
        "{\"kind\":\"X\",\"spec\":{\"description\":\"d\",\"content\":\"héllo\"}}"
    );
    assert_eq!(expanded.content_from_path(), None);
}

#[test]
fn content_from_rejects_invalid_utf8() {
    let spec = obj(vec![("contentFrom", text("body.md"))]);
    let d = declaration(EntityKind::Skill, spec);
    match d.expand_content_from(vec![0xff, 0xfe]) {
        Err(AppError::ParseLayer(ParseError::SidecarUtf8 { path })) => assert_eq!(path, "decl.yaml"),
        other => panic!("unexpected {:?}", other.map(|d| d.kind)),
    }
    let other = declaration(EntityKind::Assistant, obj(vec![("contentFrom", text("x"))]));
    assert_eq!(other.content_from_path(), None);
}

#[test]
fn listing_paths_carry_filters_and_pages() {
    assert_eq!(
        skill_list_path("demo", "my skill", 2),
        "/v1/skills?filters=%7B%22project%22%3A%22demo%22%2C%22scope%22%3A%22project_with_marketplace%22%2C%22search%22%3A%22my+skill%22%7D&page=2&per_page=100"
    );
    assert_eq!(
        datasource_list_path("demo", 0),
        "/v1/index?full_response=true&page=0&per_page=100&filters=%7B%22project%22%3A%22demo%22%7D"
    );
    assert_eq!(workflow_list_path(3, None), "/v1/workflows?minimal_response=false&page=3&per_page=100");
    assert_eq!(
        workflow_list_path(0, Some("shared with me")),
        "/v1/workflows?minimal_response=false&page=0&per_page=100&scope=shared+with+me"
    );
}

#[test]
fn workflow_detail_path_encodes_the_identifier() {
    assert_eq!(workflow_detail_path("a b/c"), "/v1/workflows/id/a+b%2Fc");
}
