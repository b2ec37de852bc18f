use codemie_gitops::auth::{
    check_token_status, effective_client_id, login_plan, select_auth_mode, AuthMode, AuthStrategy, Credentials,
    LoginPlan, RawAuthSelection,
};
use codemie_gitops::config::{ValidatedAuthUrl, ValidatedUrl};
use codemie_gitops::error::{AppError, ConfigError};
use codemie_gitops::json_value::{json_max_depth, write_json, JsonValue};
use codemie_gitops::kind::EntityKind;
use codemie_gitops::parse::{
    check_yaml_tree, credential_field_name, extract_entity_kind, resembles_plaintext_secret, scan_for_injections,
    CanonicalWarningPath, ParsedDeclaration, RestrictedYamlEvents, YamlValue,
};
use codemie_gitops::projection::workflow::{
    merge_meta_config, project_workflow, transform_workflow_execution, WorkflowReferenceMap,
};
use codemie_gitops::projection::{project_datasource, project_skill, RequestBody, WritePlan};

fn s(text: &str) -> String {
    text.to_owned()
}

fn obj(members: Vec<(&str, JsonValue)>) -> JsonValue {
    JsonValue::Object(members.into_iter().map(|(k, v)| (s(k), v)).collect())
}

fn text(v: &str) -> JsonValue {
    JsonValue::String(s(v))
}

#[test]
fn injection_scan_finds_anchors_aliases_and_tags() {
    assert!(scan_for_injections("a: 1\nb: [x, y]\n", "d.yaml").is_ok());
    assert!(matches!(scan_for_injections("a: &anchor 1\n", "d.yaml"), Err(AppError::YamlParse(_))));
    assert!(matches!(scan_for_injections("a: *alias\n", "d.yaml"), Err(AppError::YamlParse(_))));
    assert!(matches!(scan_for_injections("a: !!str 1\n", "d.yaml"), Err(AppError::YamlParse(_))));
    assert!(matches!(scan_for_injections("a: !tag 1\n", "d.yaml"), Err(AppError::YamlParse(_))));
    assert!(scan_for_injections("a: '&x *y !z'\n", "d.yaml").is_ok());
    assert!(scan_for_injections("a: \"&x \\\" *y\"\n", "d.yaml").is_ok());
    assert!(scan_for_injections("a: 'it''s &x'\n", "d.yaml").is_ok());
    assert!(scan_for_injections("# &comment\na: 1\n", "d.yaml").is_ok());
    assert!(scan_for_injections("a: b & c * d ! e\n", "d.yaml").is_ok());
    match scan_for_injections("a: &x 1", "f.yaml") {
        Err(AppError::YamlParse(m)) => assert_eq!(m, "'f.yaml': YAML anchor found; anchors are not permitted"),
        _ => panic!("expected a YAML error"),
    }
}

#[test]
fn restricted_events_keep_the_first_rejection() {
    let mut events = RestrictedYamlEvents::new();
    events.inspect_node(0, false);
    assert!(events.finish("f").is_ok());
    let mut events = RestrictedYamlEvents::new();
    events.on_alias();
    events.inspect_node(3, true);
    match events.finish("f") {
        Err(AppError::YamlParse(m)) => assert_eq!(m, "'f': YAML alias found; aliases are not permitted"),
        _ => panic!("expected a YAML error"),
    }
}

#[test]
fn yaml_tree_budgets() {
    let ok = YamlValue::Mapping(vec![(YamlValue::String(s("a")), YamlValue::Sequence(vec![YamlValue::Null]))]);
    assert!(check_yaml_tree(&ok, 0, "f").is_ok());
    let merge = YamlValue::Mapping(vec![(YamlValue::String(s("<<")), YamlValue::Null)]);
    assert!(matches!(check_yaml_tree(&merge, 0, "f"), Err(AppError::YamlParse(_))));
    assert!(check_yaml_tree(&YamlValue::Tagged, 0, "f").is_err());
    assert!(check_yaml_tree(&YamlValue::String("x".repeat(131_073)), 0, "f").is_err());
    assert!(check_yaml_tree(&YamlValue::String("x".repeat(131_072)), 0, "f").is_ok());
    let mut deep = YamlValue::Null;
    for _ in 0..33 {
        deep = YamlValue::Sequence(vec![deep]);
    }
    assert!(check_yaml_tree(&deep, 0, "f").is_err());
    let mut limit = YamlValue::Null;
    for _ in 0..32 {
        limit = YamlValue::Sequence(vec![limit]);
    }
    assert!(check_yaml_tree(&limit, 0, "f").is_ok());
}

#[test]
fn secret_heuristics() {
    assert!(credential_field_name("apiKey"));
    assert!(credential_field_name("client_secret"));
    assert!(credential_field_name("DB-Password"));
    assert!(!credential_field_name("description"));
    assert!(resembles_plaintext_secret("Abcdefghij1234567890XYZ"));
    assert!(!resembles_plaintext_secret("short"));
    assert!(!resembles_plaintext_secret("aaaaaaaaaaaaaaaaaaaaaaaaaaaa"));
    assert!(!resembles_plaintext_secret("abcdefghijklmnopqrstuvwxyz"));
}

#[test]
fn canonical_paths() {
    let root = CanonicalWarningPath::root();
    assert!(root.warning_path().is_none());
    let spec = root.child_key("spec");
    let item = spec.child_key("tools").child_index(2).child_key("token");
    assert_eq!(item.warning_path(), Some("spec.tools[2].token"));
    let frozen = spec.child_key("bad key");
    assert_eq!(frozen.warning_path(), Some("spec"));
    assert!(!frozen.child_key("x").extendable);
}

#[test]
fn suspicious_secret_paths_are_sorted() {
    let declaration = ParsedDeclaration {
        kind: EntityKind::Assistant,
        value: obj(vec![(
            "spec",
            obj(vec![
                ("zToken", text("Abcdefghij1234567890XYZ")),
                ("apiKey", text("Zyxwvutsrq0987654321ABC")),
                ("name", text("Abcdefghij1234567890XYZ")),
            ]),
        )]),
        source_path: s("a.yaml"),
    };
    assert_eq!(declaration.suspicious_secret_paths(), vec![s("spec.apiKey"), s("spec.zToken")]);
}

#[test]
fn lint_warnings_put_deprecated_mode_first() {
    let declaration = ParsedDeclaration {
        kind: EntityKind::Workflow,
        value: obj(vec![(
            "spec",
            obj(vec![("mode", text("Autonomous")), ("password", text("Abcdefghij1234567890XYZ"))]),
        )]),
        source_path: s("w.yaml"),
    };
    let warnings = codemie_gitops::lint::collect_warnings(&declaration, Some("w.yaml")).unwrap();
    assert_eq!(warnings.len(), 2);
    assert_eq!(warnings[0].field_path(), "spec.mode");
    assert_eq!(warnings[1].field_path(), "spec.password");
    assert!(codemie_gitops::lint::collect_warnings(&declaration, None).is_err());
}

#[test]
fn entity_kind_extraction() {
    assert_eq!(extract_entity_kind(&obj(vec![("kind", text("Skill"))]), "f").unwrap(), EntityKind::Skill);
    assert!(matches!(extract_entity_kind(&obj(vec![("kind", text("Other"))]), "f"), Err(AppError::Schema(_))));
    assert!(extract_entity_kind(&obj(vec![]), "f").is_err());
}

#[test]
fn json_depth_scalar_at_root_is_zero() {
    assert_eq!(json_max_depth(&JsonValue::Number(s("42")), 0), 0);
}

#[test]
fn json_depth_empty_object_is_one() {
    assert_eq!(json_max_depth(&obj(vec![]), 0), 1);
}

#[test]
fn json_depth_nested_object_three_levels() {
    let v = obj(vec![("a", obj(vec![("b", obj(vec![("c", JsonValue::Number(s("1")))]))]))]);
    assert_eq!(json_max_depth(&v, 0), 3);
}

#[test]
fn json_depth_65_levels_exceeds_limit() {
    let mut v = JsonValue::Number(s("1"));
    for _ in 0..65 {
        v = obj(vec![("x", v)]);
    }
    assert!(codemie_gitops::http::check_json_depth(&v).is_err());
}

#[test]
fn compact_json_text() {
    let v = obj(vec![("b", JsonValue::Array(vec![JsonValue::Bool(true), JsonValue::Null])), ("a", text("x\"y"))]);
    assert_eq!(write_json(&v), "{\"b\":[true,null],\"a\":\"x\\\"y\"}");
}

#[test]
fn target_url_accepts_https_and_loopback_http() {
    assert!(ValidatedUrl::try_from("https://api.example.com/base").is_ok());
    assert!(ValidatedUrl::try_from("http://127.0.0.1:8000").is_ok());
    assert!(ValidatedUrl::try_from("http://localhost:8000").is_ok());
    assert!(ValidatedUrl::try_from("http://[::1]:8000").is_ok());
}

#[test]
fn target_url_rejects_remote_http_userinfo_and_fragments() {
    assert!(ValidatedUrl::try_from("http://example.com").is_err());
    assert!(ValidatedUrl::try_from("http://127.evil.example.com").is_err());
    assert!(ValidatedUrl::try_from("https://user@example.com").is_err());
    assert!(ValidatedUrl::try_from("https://example.com/#fragment").is_err());
    assert!(matches!(ValidatedUrl::try_from("https://exa\u{1}mple.com"), Err(ConfigError::ControlCharacters)));
    assert!(matches!(ValidatedUrl::try_from("not a url"), Err(ConfigError::Syntax)));
    assert!(matches!(ValidatedUrl::try_from("ftp://example.com"), Err(ConfigError::Policy(_))));
}

#[test]
fn auth_url_requires_https() {
    assert!(ValidatedAuthUrl::try_from("https://id.example.com/token").is_ok());
    assert!(ValidatedAuthUrl::try_from("http://localhost/token").is_err());
}

#[test]
fn api_paths_join_without_double_slashes() {
    let base = ValidatedUrl::try_from("https://api.example.com/base/").unwrap();
    let (path, query) = base.join_api_path("/v1/skills?page=0");
    assert_eq!(path, "/base/v1/skills");
    assert_eq!(query, Some(s("page=0")));
    let root = ValidatedUrl::try_from("https://api.example.com").unwrap();
    assert_eq!(root.join_api_path("/v1/user").0, "/v1/user");
    assert_eq!(root.join_api_path("/v1/user").1, None);
}

fn credentials(token: bool, secret: bool, email: bool, password: bool, client_id: Option<&str>) -> Credentials {
    Credentials {
        bearer_token: if token { Some(s("tok")) } else { None },
        client_secret: if secret { Some(s("sec")) } else { None },
        password: if password { Some(s("pw")) } else { None },
        client_id: client_id.map(s),
        email: if email { Some(s("e@x")) } else { None },
    }
}

#[test]
fn auth_mode_selection_order() {
    let auth = ValidatedAuthUrl::try_from("https://id.example.com/token").unwrap();
    assert_eq!(select_auth_mode(&credentials(true, true, true, true, None), Some(&auth)).unwrap(), AuthMode::BearerToken);
    assert_eq!(select_auth_mode(&credentials(true, false, false, false, None), None).unwrap(), AuthMode::BearerToken);
    assert_eq!(
        select_auth_mode(&credentials(false, true, false, false, None), Some(&auth)).unwrap(),
        AuthMode::KeycloakClientCredentials
    );
    assert_eq!(select_auth_mode(&credentials(false, false, true, true, None), Some(&auth)).unwrap(), AuthMode::KeycloakRopc);
    assert_eq!(select_auth_mode(&credentials(false, false, true, true, None), None).unwrap(), AuthMode::LocalAuth);
    assert!(matches!(select_auth_mode(&credentials(false, true, false, false, None), None), Err(AppError::Configuration(_))));
    match select_auth_mode(&credentials(false, false, true, false, None), None) {
        Err(AppError::Configuration(message)) => assert!(!message.contains("e@x")),
        _ => panic!("expected a configuration error"),
    }
}

#[test]
fn password_grant_defaults_its_client_id() {
    assert_eq!(effective_client_id(&AuthMode::KeycloakRopc, &credentials(false, false, true, true, None)), Some(s("codemie-sdk")));
    assert_eq!(effective_client_id(&AuthMode::KeycloakRopc, &credentials(false, false, true, true, Some("c"))), Some(s("c")));
    assert_eq!(effective_client_id(&AuthMode::LocalAuth, &credentials(false, false, true, true, None)), None);
    assert_eq!(effective_client_id(&AuthMode::BearerToken, &credentials(true, false, false, false, Some("c"))), Some(s("c")));
}

#[test]
fn login_plans() {
    let c = credentials(false, false, true, true, None);
    match login_plan(AuthMode::KeycloakRopc, &c, None, Some("https://id/token")).unwrap() {
        LoginPlan::PostForm { endpoint, params } => {
            assert_eq!(endpoint, "https://id/token");
            assert!(params.iter().all(|(k, _)| k != "client_secret"));
            assert!(params.contains(&(s("client_id"), s("codemie-sdk"))));
        }
        _ => panic!("expected a form"),
    }
    match login_plan(AuthMode::LocalAuth, &c, Some("https://api/"), None).unwrap() {
        LoginPlan::PostJson { endpoint, .. } => assert_eq!(endpoint, "https://api/v1/local-auth/login"),
        _ => panic!("expected JSON"),
    }
    assert!(matches!(login_plan(AuthMode::LocalAuth, &c, None, None), Err(AppError::Configuration(_))));
    assert!(check_token_status(200).is_ok());
    assert!(matches!(check_token_status(302), Err(AppError::Authentication(_))));
    assert!(matches!(check_token_status(500), Err(AppError::Authentication(_))));
    let strategy = AuthStrategy::try_from(RawAuthSelection { credentials: c, auth_url_configured: true }).unwrap();
    assert_eq!(strategy.mode(), AuthMode::KeycloakRopc);
}

fn skill_declaration(spec: Vec<(&str, JsonValue)>) -> ParsedDeclaration {
    ParsedDeclaration {
        kind: EntityKind::Skill,
        value: obj(vec![("metadata", obj(vec![("project", text("p")), ("name", text("my-skill"))])), ("spec", obj(spec))]),
        source_path: s("s.yaml"),
    }
}

#[test]
fn skill_projection_requires_its_fields() {
    let full = vec![
        ("description", text("d")),
        ("content", text("c")),
        ("visibility", text("project")),
        ("categories", JsonValue::Array(vec![])),
        ("toolkits", JsonValue::Array(vec![])),
        ("mcp_servers", JsonValue::Array(vec![])),
        ("companion_files", JsonValue::Array(vec![])),
        ("enabled_builtin_subagents", JsonValue::Array(vec![])),
    ];
    match project_skill(skill_declaration(full), Some(s("sk-1"))).unwrap() {
        WritePlan::Update { server_id, request: RequestBody::Json(body) } => {
            assert_eq!(server_id, "sk-1");
            let text = write_json(&body);
            assert!(text.starts_with("{\"name\":\"my-skill\",\"project\":\"p\",\"description\":\"d\""));
        }
        _ => panic!("expected a JSON update"),
    }
    assert!(matches!(project_skill(skill_declaration(vec![("description", text("d"))]), None), Err(AppError::Schema(_))));
}

#[test]
fn file_datasource_projects_query_parameters() {
    let declaration = ParsedDeclaration {
        kind: EntityKind::Datasource,
        value: obj(vec![
            ("metadata", obj(vec![("project", text("p")), ("repo_name", text("docs"))])),
            (
                "spec",
                obj(vec![
                    ("index_type", text("file")),
                    ("description", text("d")),
                    ("csv_start_row", JsonValue::Number(s("2"))),
                    ("include_email_attachments", JsonValue::Bool(false)),
                    ("guardrail_assignments", JsonValue::Array(vec![text("g")])),
                ]),
            ),
        ]),
        source_path: s("d.yaml"),
    };
    match project_datasource(declaration, None).unwrap() {
        WritePlan::Create { request: RequestBody::FileMultipart { query_params } } => {
            assert_eq!(
                query_params,
                vec![
                    (s("project_name"), s("p")),
                    (s("name"), s("docs")),
                    (s("description"), s("d")),
                    (s("csv_start_row"), s("2")),
                    (s("guardrail_assignments"), s("[\"g\"]")),
                    (s("include_email_attachments"), s("false")),
                ]
            );
        }
        _ => panic!("expected a multipart create"),
    }
}

#[test]
fn git_datasource_update_omits_create_only_fields() {
    let declaration = ParsedDeclaration {
        kind: EntityKind::Datasource,
        value: obj(vec![
            ("metadata", obj(vec![("project", text("p")), ("repo_name", text("docs"))])),
            (
                "spec",
                obj(vec![
                    ("index_type", text("git")),
                    ("description", text("d")),
                    ("branch", text("main")),
                    ("link", text("https://g")),
                    ("projectSpaceVisible", JsonValue::Bool(true)),
                    ("indexType", text("code")),
                ]),
            ),
        ]),
        source_path: s("d.yaml"),
    };
    match project_datasource(declaration, Some(s("ds"))).unwrap() {
        WritePlan::Update { request: RequestBody::Json(body), .. } => {
            assert_eq!(
                write_json(&body),
                "{\"description\":\"d\",\"branch\":\"main\",\"link\":\"https://g\",\"projectSpaceVisible\":true}"
            );
        }
        _ => panic!("expected a JSON update"),
    }
}

#[test]
fn workflow_execution_resolves_references() {
    let mut refs = WorkflowReferenceMap::new();
    refs.insert_assistant(s("p"), s("helper"), s("as-1"));
    refs.insert_skill(s("p"), s("sk"), s("sk-1"));
    refs.insert_datasource(s("p"), s("docs"), s("ds-1"));
    assert_eq!(refs.assistant_id("p", "helper"), Some("as-1"));
    assert_eq!(refs.assistant_id("p", "other"), None);
    let execution = vec![
        (
            s("assistants"),
            JsonValue::Array(vec![
                obj(vec![("id", text("a1")), ("assistantRef", obj(vec![("project", text("p")), ("slug", text("helper"))]))]),
                obj(vec![
                    ("id", text("a2")),
                    ("system_prompt", text("hi")),
                    ("skillRefs", JsonValue::Array(vec![obj(vec![("project", text("p")), ("name", text("sk"))])])),
                    ("datasourceRefs", JsonValue::Array(vec![obj(vec![("project", text("p")), ("repo_name", text("docs"))])])),
                ]),
            ]),
        ),
        (s("tools"), JsonValue::Array(vec![obj(vec![("name", text("t"))])])),
        (s("states"), JsonValue::Array(vec![])),
    ];
    let sent = transform_workflow_execution(execution, Some(&refs)).unwrap();
    assert_eq!(
        write_json(&JsonValue::Object(sent)),
        "{\"assistants\":[{\"id\":\"a1\",\"temperature\":null,\"assistant_id\":\"as-1\"},{\"id\":\"a2\",\"system_prompt\":\"hi\",\"temperature\":null,\"skill_ids\":[\"sk-1\"],\"datasource_ids\":[\"ds-1\"]}],\"tools\":[{\"name\":\"t\",\"tool_result_json_pointer\":null,\"mcp_server\":null,\"tokens_size_limit\":null}],\"states\":[]}"
    );
    let unresolved = vec![
        (s("assistants"), JsonValue::Array(vec![obj(vec![("assistantRef", obj(vec![("project", text("p")), ("slug", text("x"))]))])])),
        (s("tools"), JsonValue::Array(vec![])),
    ];
    assert!(matches!(transform_workflow_execution(unresolved, Some(&refs)), Err(AppError::Reconciliation(_))));
    let prohibited = vec![
        (s("assistants"), JsonValue::Array(vec![obj(vec![("assistant_id", text("x"))])])),
        (s("tools"), JsonValue::Array(vec![])),
    ];
    assert!(matches!(transform_workflow_execution(prohibited, None), Err(AppError::Schema(_))));
}

#[test]
fn meta_config_merge_is_sorted_and_binds_identity() {
    let server = Some(Ok(obj(vec![("z", text("server")), ("a", text("old"))])));
    let authored = Some(obj(vec![("a", text("new"))]));
    let merged = merge_meta_config(server, authored, "p", "s", "u").unwrap();
    assert_eq!(
        merged.text,
        "{\"a\":\"new\",\"codemie.epam.com/gitops/workflow-identity\":{\"creator_user_id\":\"u\",\"project\":\"p\",\"slug\":\"s\",\"version\":2},\"z\":\"server\"}"
    );
    let reserved = Some(obj(vec![("codemie.epam.com/gitops/workflow-identity", text("x"))]));
    assert!(matches!(merge_meta_config(None, reserved, "p", "s", "u"), Err(AppError::Schema(_))));
    assert!(matches!(
        merge_meta_config(Some(Err(codemie_gitops::json_value::MalformedJson)), None, "p", "s", "u"),
        Err(AppError::ProjectionLayer(_))
    ));
    assert!(matches!(merge_meta_config(Some(Ok(text("x"))), None, "p", "s", "u"), Err(AppError::Schema(_))));
}

#[test]
fn workflow_projection_sends_yaml_execution_and_bound_marker() {
    let value = obj(vec![
        ("kind", text("Workflow")),
        ("metadata", obj(vec![("project", text("p")), ("slug", text("flow"))])),
        (
            "spec",
            obj(vec![
                ("name", text("Flow")),
                ("mode", text("Sequential")),
                ("description", text("d")),
                ("shared", JsonValue::Bool(false)),
                (
                    "execution_config",
                    obj(vec![
                        ("assistants", JsonValue::Array(vec![])),
                        ("tools", JsonValue::Array(vec![])),
                        ("states", JsonValue::Array(vec![])),
                    ]),
                ),
            ]),
        ),
    ]);
    let declaration = ParsedDeclaration { kind: EntityKind::Workflow, value, source_path: s("w.yaml") };
    let plan = project_workflow(declaration, None, None, "user-1").unwrap();
    let body = match plan {
        WritePlan::Create { request: RequestBody::Json(body) } => body,
        _ => panic!("expected a JSON create"),
    };
    let members = match body {
        JsonValue::Object(members) => members,
        _ => panic!("expected an object body"),
    };
    let field = |name: &str| members.iter().find(|(key, _)| key == name).map(|(_, value)| value);
    assert!(matches!(field("yaml_config"), Some(JsonValue::String(y)) if y == "assistants: []\nstates: []\ntools: []\n"));
    assert!(matches!(
        field("meta_config"),
        Some(JsonValue::String(m)) if m == "{\"codemie.epam.com/gitops/workflow-identity\":{\"creator_user_id\":\"user-1\",\"project\":\"p\",\"slug\":\"flow\",\"version\":2}}"
    ));
    assert!(matches!(field("name"), Some(JsonValue::String(n)) if n == "Flow"));
    assert!(matches!(field("assistants"), Some(JsonValue::Array(a)) if a.is_empty()));
}

#[test]
fn merged_marker_reads_back_as_exact() {
    let merged = merge_meta_config(None, Some(obj(vec![("k", text("v"))])), "p", "flow", "user-1").unwrap();
    let read_back = Ok(JsonValue::Object(merged.members));
    assert_eq!(
        codemie_gitops::adapters::workflow::classify_marker(Some(&read_back), "p", "p", "flow", "user-1"),
        codemie_gitops::adapters::workflow::MarkerClassification::Exact
    );
    assert_eq!(
        codemie_gitops::adapters::workflow::classify_marker(Some(&read_back), "p", "p", "other", "user-1"),
        codemie_gitops::adapters::workflow::MarkerClassification::OtherValid
    );
}
