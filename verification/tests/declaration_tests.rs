use codemie_gitops::adapters::skill::{decide_target, SkillItem};
use codemie_gitops::adapters::{ApplyAction, ResolutionTarget};
use codemie_gitops::discovery::{is_bytes_less, YamlSelection, MAX_VISITED_FILES};
use codemie_gitops::error::{AppError, ParseError};
use codemie_gitops::json_value::{write_json, JsonValue};
use codemie_gitops::kind::EntityKind;
use codemie_gitops::parse::{parse_declaration, scan_for_injections, MAX_YAML_DEPTH, MAX_YAML_FILE_BYTES, MAX_YAML_SCALAR_BYTES};

fn minimal_workflow_yaml() -> &'static str {
    "apiVersion: codemie.epam.com/v1alpha1\nkind: Workflow\nmetadata:\n  project: my-project\n  slug: my-workflow\nspec:\n  name: My Workflow\n  description: \"A workflow\"\n  mode: Sequential\n  execution_config:\n    states: []\n"
}

fn minimal_skill_yaml_inline() -> &'static str {
    "apiVersion: codemie.epam.com/v1alpha1\nkind: Skill\nmetadata:\n  project: my-project\n  name: my-skill-name\nspec:\n  description: \"A test skill with sufficient description length here.\"\n  visibility: private\n  categories: []\n  content: \"# Skill\"\n"
}

fn member(value: &JsonValue, key: &str) -> Option<String> {
    match value {
        JsonValue::Object(members) => members.iter().find(|(k, _)| k == key).map(|(_, v)| write_json(v)),
        _ => None,
    }
}

fn member_value<'a>(value: &'a JsonValue, key: &str) -> &'a JsonValue {
    match value {
        JsonValue::Object(members) => &members.iter().find(|(k, _)| k == key).unwrap().1,
        _ => panic!("not an object"),
    }
}

#[test]
fn valid_workflow_yaml_parses_and_validates() {
    let decl = parse_declaration(minimal_workflow_yaml(), "workflow.yaml").expect("valid Workflow YAML must parse");
    assert_eq!(decl.kind, EntityKind::Workflow);
    assert_eq!(decl.source_path, "workflow.yaml");
    let metadata = member_value(&decl.value, "metadata");
    assert_eq!(member(metadata, "slug"), Some("\"my-workflow\"".to_owned()));
}

#[test]
fn valid_skill_yaml_parses_and_validates() {
    let decl = parse_declaration(minimal_skill_yaml_inline(), "skill.yaml").expect("valid Skill YAML must parse");
    assert_eq!(decl.kind, EntityKind::Skill);
    let spec = member_value(&decl.value, "spec");
    assert_eq!(member(spec, "categories"), Some("[]".to_owned()));
}

#[test]
fn yaml_with_alias_is_yaml_parse_error() {
    let yaml = "apiVersion: codemie.epam.com/v1alpha1\nfoo: &anchor value\nbar: *anchor\n";
    let err = parse_declaration(yaml, "decl.yaml").expect_err("YAML alias must produce a YamlParse error");
    assert_eq!(err.exit_code(), 2);
    match err {
        AppError::YamlParse(msg) => assert!(msg.to_lowercase().contains("alias") || msg.to_lowercase().contains("anchor")),
        other => panic!("unexpected error {other:?}"),
    }
}

#[test]
fn yaml_with_anchor_is_yaml_parse_error() {
    let yaml = "apiVersion: codemie.epam.com/v1alpha1\nfoo: &myanchor value\n";
    let err = parse_declaration(yaml, "decl.yaml").expect_err("YAML anchor must produce a YamlParse error");
    assert_eq!(err.exit_code(), 2);
    match err {
        AppError::YamlParse(msg) => {
            assert_eq!(msg, "'decl.yaml': YAML anchor found; anchors are not permitted");
        },
        other => panic!("unexpected error {other:?}"),
    }
}

#[test]
fn yaml_with_tag_is_yaml_parse_error() {
    let yaml = "apiVersion: codemie.epam.com/v1alpha1\nfoo: !!python/object:os.system bar\n";
    let err = parse_declaration(yaml, "decl.yaml").expect_err("YAML tag must produce a YamlParse error");
    assert_eq!(err.exit_code(), 2);
    match err {
        AppError::YamlParse(msg) => assert!(msg.to_lowercase().contains("tag")),
        other => panic!("unexpected error {other:?}"),
    }
}

#[test]
fn malformed_yaml_is_yaml_parse_error() {
    let yaml = "key:\n  valid: true\n invalid_indent: oops\n";
    let err = parse_declaration(yaml, "decl.yaml").expect_err("malformed YAML must produce a YamlParse error");
    assert_eq!(err.exit_code(), 2);
    assert!(matches!(err, AppError::ParseLayer(ParseError::Yaml { ref path }) if path == "decl.yaml"));
}

#[test]
fn yaml_exceeding_file_byte_limit_is_yaml_parse_error() {
    let large = "x".repeat(MAX_YAML_FILE_BYTES + 1);
    let err = parse_declaration(&large, "decl.yaml").expect_err("file exceeding byte limit must produce YamlParse error");
    assert_eq!(err.exit_code(), 2);
    assert!(matches!(err, AppError::YamlParse(_)));
}

#[test]
fn yaml_exceeding_nesting_depth_is_yaml_parse_error() {
    let mut yaml = String::new();
    for i in 0..=MAX_YAML_DEPTH {
        yaml.push_str(&format!("{}key{}:\n", "  ".repeat(i), i));
    }
    yaml.push_str(&format!("{}leaf: value\n", "  ".repeat(MAX_YAML_DEPTH + 1)));
    let err = parse_declaration(&yaml, "decl.yaml").expect_err("deep nesting must produce YamlParse error");
    assert_eq!(err.exit_code(), 2);
    match err {
        AppError::YamlParse(msg) => assert_eq!(msg, "'decl.yaml': YAML nesting depth exceeds the 32-level limit"),
        other => panic!("unexpected error {other:?}"),
    }
}

#[test]
fn yaml_scalar_exceeding_128kib_is_yaml_parse_error() {
    let big_str = "x".repeat(MAX_YAML_SCALAR_BYTES + 1);
    let yaml = format!("key: \"{big_str}\"");
    let err = parse_declaration(&yaml, "decl.yaml").expect_err("oversized scalar must produce YamlParse error");
    assert_eq!(err.exit_code(), 2);
    assert!(matches!(err, AppError::YamlParse(_)));
}

#[test]
fn scanner_allows_ampersand_in_double_quoted_string() {
    let result = scan_for_injections(r#"key: "&anchor inside string""#, "x.yaml");
    assert!(result.is_ok(), "& inside double-quoted string must be allowed: {:?}", result);
}

#[test]
fn scanner_allows_star_in_single_quoted_string() {
    let result = scan_for_injections("key: '*alias inside string'", "x.yaml");
    assert!(result.is_ok(), "* inside single-quoted string must be allowed: {:?}", result);
}

#[test]
fn mapping_with_sequence_key_has_no_json_form() {
    let yaml = "kind: Skill\n? [a, b]\n: x\n";
    let err = parse_declaration(yaml, "decl.yaml").expect_err("a sequence key cannot be a JSON member name");
    assert!(matches!(err, AppError::ParseLayer(ParseError::JsonConversion { ref path }) if path == "decl.yaml"));
    assert_eq!(err.exit_code(), 2);
}

#[test]
fn unknown_or_missing_kind_is_schema_error() {
    let err = parse_declaration("kind: Gadget\n", "decl.yaml").unwrap_err();
    assert!(matches!(err, AppError::Schema(_)));
    let err = parse_declaration("metadata: {}\n", "decl.yaml").unwrap_err();
    assert!(matches!(err, AppError::Schema(_)));
}

#[test]
fn parsed_numbers_keep_their_spelling() {
    let decl = parse_declaration("kind: Skill\ncount: 42\nratio: 0.5\nflag: true\nnothing: null\n", "d.yaml").unwrap();
    assert_eq!(member(&decl.value, "count"), Some("42".to_owned()));
    assert_eq!(member(&decl.value, "ratio"), Some("0.5".to_owned()));
    assert_eq!(member(&decl.value, "flag"), Some("true".to_owned()));
    assert_eq!(member(&decl.value, "nothing"), Some("null".to_owned()));
    assert_eq!(write_json(&decl.value), "{\"count\":42,\"flag\":true,\"kind\":\"Skill\",\"nothing\":null,\"ratio\":0.5}");
}

#[test]
fn bytewise_path_order() {
    assert!(is_bytes_less(&b"a-b".to_vec(), &b"a/b".to_vec()));
    assert!(is_bytes_less(&b"a".to_vec(), &b"ab".to_vec()));
    assert!(!is_bytes_less(&b"ab".to_vec(), &b"ab".to_vec()));
    assert!(!is_bytes_less(&b"b".to_vec(), &b"a".to_vec()));
}

#[test]
fn selection_collects_yaml_files_in_path_order() {
    let mut selection = YamlSelection::new();
    selection.visit(b"/r/z.yaml".to_vec(), 3, false, Some("yaml")).unwrap();
    selection.visit(b"/r/a.yml".to_vec(), 1, false, Some("yml")).unwrap();
    selection.visit(b"/r/notes.txt".to_vec(), 9, false, Some("txt")).unwrap();
    selection.visit(b"/r/.codemie/config.yaml".to_vec(), 5, true, Some("yaml")).unwrap();
    selection.visit(b"/r/m.yaml".to_vec(), 2, false, Some("yaml")).unwrap();
    selection.visit(b"/r/README".to_vec(), 2, false, None).unwrap();
    let found = selection.finish();
    assert_eq!(
        found,
        vec![(b"/r/a.yml".to_vec(), 1), (b"/r/m.yaml".to_vec(), 2), (b"/r/z.yaml".to_vec(), 3)]
    );
}

#[test]
fn selection_enforces_visited_cap() {
    let mut selection = YamlSelection::new();
    for i in 0..MAX_VISITED_FILES {
        selection.visit(format!("file{i}.txt").into_bytes(), 0, false, Some("txt")).unwrap();
    }
    let err = selection.visit(b"one-more.txt".to_vec(), 0, false, Some("txt")).unwrap_err();
    assert_eq!(err.exit_code(), 2);
    assert!(matches!(err, AppError::Schema(_)));
}

#[test]
fn apply_targets_report_their_action() {
    assert_eq!(ResolutionTarget::Create.action(), ApplyAction::Created);
    assert_eq!(ResolutionTarget::Update { server_id: "id-1".to_owned() }.action(), ApplyAction::Updated);
}

#[test]
fn skill_matches_decide_create_update_or_refusal() {
    let row = |id: &str, abilities: Vec<&str>| SkillItem {
        id: id.to_owned(),
        name: "n".to_owned(),
        project: "p".to_owned(),
        creator_id: "u".to_owned(),
        user_abilities: abilities.into_iter().map(str::to_owned).collect(),
    };
    assert_eq!(decide_target(&vec![]).unwrap().target, ResolutionTarget::Create);
    assert_eq!(
        decide_target(&vec![row("s-1", vec!["read", "write"])]).unwrap().target,
        ResolutionTarget::Update { server_id: "s-1".to_owned() }
    );
    let refused = decide_target(&vec![row("s-1", vec!["write"]), row("s-2", vec!["write"])]).err().unwrap();
    assert!(matches!(refused, AppError::Reconciliation(_)));
    assert_eq!(refused.exit_code(), 1);
    let unauthorized = decide_target(&vec![row("s-1", vec!["read"])]).err().unwrap();
    assert!(matches!(unauthorized, AppError::Authorization(_)));
}
