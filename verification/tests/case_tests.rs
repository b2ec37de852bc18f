use codemie_gitops::adapters::assistant::AssistantResolution;
use codemie_gitops::adapters::datasource::DatasourceResolution;
use codemie_gitops::adapters::skill::SkillResolution;
use codemie_gitops::adapters::workflow::WorkflowUpdate;
use codemie_gitops::adapters::{PreparedWrite, ResolutionEvidence};
use codemie_gitops::auth::{effective_client_id, select_auth_mode, AuthMode, Credentials};
use codemie_gitops::cancellation::CancellationToken;
use codemie_gitops::config::ValidatedAuthUrl;
use codemie_gitops::error::AppError;
use codemie_gitops::json_value::{json_max_depth, JsonValue};
use codemie_gitops::kind::EntityKind;
use codemie_gitops::parse::{check_yaml_tree, scan_for_injections, ParsedDeclaration, YamlValue};
use codemie_gitops::projection::{project_assistant, AssistantReferenceMap, RequestBody, WritePlan};

fn make_auth_url() -> ValidatedAuthUrl {
    ValidatedAuthUrl::try_from("https://auth.example.com/token").expect("test auth URL must be valid")
}

fn no_credentials() -> Credentials {
    Credentials { bearer_token: None, client_secret: None, password: None, client_id: None, email: None }
}

#[test]
fn select_auth_mode_bearer_token_highest_priority() {
    let creds = Credentials { bearer_token: Some("tok".into()), client_secret: Some("sec".into()), ..no_credentials() };
    let auth_url = make_auth_url();
    assert_eq!(select_auth_mode(&creds, Some(&auth_url)).unwrap(), AuthMode::BearerToken);
}

#[test]
fn select_auth_mode_bearer_token_no_auth_url() {
    let creds = Credentials { bearer_token: Some("tok".into()), ..no_credentials() };
    assert_eq!(select_auth_mode(&creds, None).unwrap(), AuthMode::BearerToken);
}

#[test]
fn select_auth_mode_keycloak_client_credentials() {
    let creds = Credentials { client_secret: Some("sec".into()), ..no_credentials() };
    let auth_url = make_auth_url();
    assert_eq!(select_auth_mode(&creds, Some(&auth_url)).unwrap(), AuthMode::KeycloakClientCredentials);
}

#[test]
fn select_auth_mode_keycloak_ropc() {
    let creds = Credentials {
        password: Some("pass".into()),
        email: Some("user@example.com".into()),
        ..no_credentials()
    };
    let auth_url = make_auth_url();
    assert_eq!(select_auth_mode(&creds, Some(&auth_url)).unwrap(), AuthMode::KeycloakRopc);
}

#[test]
fn select_auth_mode_local_auth() {
    let creds = Credentials {
        password: Some("pass".into()),
        email: Some("user@example.com".into()),
        ..no_credentials()
    };
    assert_eq!(select_auth_mode(&creds, None).unwrap(), AuthMode::LocalAuth);
}

#[test]
fn select_auth_mode_no_valid_combination_returns_configuration_error() {
    let result = select_auth_mode(&no_credentials(), None);
    assert!(result.is_err());
    assert_eq!(result.unwrap_err().exit_code(), 2);
}

#[test]
fn select_auth_mode_client_secret_without_auth_url_is_invalid() {
    let creds = Credentials { client_secret: Some("sec".into()), ..no_credentials() };
    let result = select_auth_mode(&creds, None);
    assert!(result.is_err(), "client_secret without auth_url must fail");
    assert_eq!(result.unwrap_err().exit_code(), 2);
}

#[test]
fn select_auth_mode_error_message_does_not_contain_credential_values() {
    let err = select_auth_mode(&no_credentials(), None).unwrap_err();
    let msg = match err {
        AppError::Configuration(message) => message,
        _ => panic!("expected a configuration error"),
    };
    assert!(!msg.contains("CODEMIE_"), "error must not echo env var names");
}

#[test]
fn effective_client_id_mode_c_defaults_to_codemie_sdk() {
    let creds = Credentials {
        password: Some("pass".into()),
        email: Some("user@example.com".into()),
        ..no_credentials()
    };
    let id = effective_client_id(&AuthMode::KeycloakRopc, &creds);
    assert_eq!(id.as_deref(), Some("codemie-sdk"));
}

#[test]
fn effective_client_id_mode_c_uses_provided_id_when_set() {
    let creds = Credentials {
        password: Some("pass".into()),
        client_id: Some("my-client".into()),
        email: Some("user@example.com".into()),
        ..no_credentials()
    };
    let id = effective_client_id(&AuthMode::KeycloakRopc, &creds);
    assert_eq!(id.as_deref(), Some("my-client"));
}

#[test]
fn effective_client_id_other_modes_no_default_applied() {
    let creds = Credentials { client_secret: Some("sec".into()), ..no_credentials() };
    let id = effective_client_id(&AuthMode::KeycloakClientCredentials, &creds);
    assert!(id.is_none(), "default must not be applied for Mode (a)");
}

#[test]
fn effective_client_id_bearer_mode_no_default_applied() {
    let creds = Credentials { bearer_token: Some("tok".into()), ..no_credentials() };
    let id = effective_client_id(&AuthMode::BearerToken, &creds);
    assert!(id.is_none(), "default must not be applied for BearerToken mode");
}

#[test]
fn usage_exits_2() {
    assert_eq!(AppError::Usage("bad flag".into()).exit_code(), 2);
}

#[test]
fn configuration_exits_2() {
    assert_eq!(AppError::Configuration("bad url".into()).exit_code(), 2);
}

#[test]
fn reconciliation_exits_1() {
    assert_eq!(AppError::Reconciliation("ambiguous".into()).exit_code(), 1);
}

#[test]
fn schema_exits_2() {
    assert_eq!(AppError::Schema("missing field".into()).exit_code(), 2);
}

#[test]
fn internal_exits_2() {
    assert_eq!(AppError::Internal("invariant".into()).exit_code(), 2);
}

fn object(members: Vec<(&str, JsonValue)>) -> JsonValue {
    JsonValue::Object(members.into_iter().map(|(k, v)| (k.to_owned(), v)).collect())
}

#[test]
fn json_depth_flat_object_is_one() {
    let v = object(vec![("a", JsonValue::Number("1".into())), ("b", JsonValue::String("x".into()))]);
    assert_eq!(json_max_depth(&v, 0), 1);
}

#[test]
fn json_depth_64_levels_is_at_limit() {
    let mut v = JsonValue::Number("1".into());
    for _ in 0..64 {
        v = object(vec![("x", v)]);
    }
    assert_eq!(json_max_depth(&v, 0), 64);
}

#[test]
fn parse_scanner_rejects_anchor_outside_quotes() {
    let err = scan_for_injections("key: &myanchor value", "x.yaml").expect_err("bare anchor must be rejected");
    assert_eq!(err.exit_code(), 2);
}

#[test]
fn parse_scanner_rejects_alias_outside_quotes() {
    let err = scan_for_injections("key: *myalias", "x.yaml").expect_err("bare alias must be rejected");
    assert_eq!(err.exit_code(), 2);
}

#[test]
fn parse_scanner_rejects_double_exclamation_tag() {
    let err = scan_for_injections("key: !!str value", "x.yaml").expect_err("!!type tag must be rejected");
    assert_eq!(err.exit_code(), 2);
}

#[test]
fn mod_scanner_rejects_anchor_outside_quotes() {
    let err = scan_for_injections("key: &myanchor value", "x.yaml").expect_err("bare anchor must be rejected");
    assert_eq!(err.exit_code(), 2);
}

#[test]
fn mod_scanner_rejects_alias_outside_quotes() {
    let err = scan_for_injections("key: *myalias", "x.yaml").expect_err("bare alias must be rejected");
    assert_eq!(err.exit_code(), 2);
}

#[test]
fn mod_scanner_rejects_double_exclamation_tag() {
    let err = scan_for_injections("key: !!str value", "x.yaml").expect_err("!!type tag must be rejected");
    assert_eq!(err.exit_code(), 2);
}

fn merge_key_mapping() -> YamlValue {
    YamlValue::Mapping(vec![(YamlValue::String("<<".to_owned()), YamlValue::String("injected".to_owned()))])
}

#[test]
fn parse_check_yaml_tree_rejects_merge_key() {
    let err = check_yaml_tree(&merge_key_mapping(), 0, "x.yaml").expect_err("merge key must be rejected");
    assert_eq!(err.exit_code(), 2);
    let msg = match err {
        AppError::YamlParse(message) => message,
        _ => panic!("expected a YAML error"),
    };
    assert!(msg.contains("merge key"), "error must mention merge key: {msg}");
}

#[test]
fn mod_check_yaml_tree_rejects_merge_key() {
    let err = check_yaml_tree(&merge_key_mapping(), 0, "x.yaml").expect_err("merge key must be rejected");
    assert_eq!(err.exit_code(), 2);
    let msg = match err {
        AppError::YamlParse(message) => message,
        _ => panic!("expected a YAML error"),
    };
    assert!(msg.contains("merge key"), "error must mention merge key: {msg}");
}

#[test]
fn cancellable_parser_observes_invocation_cancellation() {
    let cancellation = CancellationToken::new();
    cancellation.cancel();
    let error = cancellation.checkpoint().expect_err("cancelled work must stop at its invocation checkpoint");
    assert!(matches!(error, AppError::Timeout(_)));
}

#[test]
fn completed_resolution_evidence_is_kind_specific_and_not_zero_sized() {
    assert!(std::mem::size_of::<AssistantResolution>() > 0);
    assert!(std::mem::size_of::<WorkflowUpdate>() > 0);
    assert!(std::mem::size_of::<SkillResolution>() > 0);
    assert!(std::mem::size_of::<DatasourceResolution>() > 0);
    assert!(std::mem::size_of::<ResolutionEvidence>() > 0);
    assert!(std::mem::size_of::<PreparedWrite>() > 0);
}

/// A YAML document as the library's JSON value.
fn json_of_yaml(value: serde_json::Value) -> JsonValue {
    match value {
        serde_json::Value::Null => JsonValue::Null,
        serde_json::Value::Bool(b) => JsonValue::Bool(b),
        serde_json::Value::Number(n) => JsonValue::Number(n.to_string()),
        serde_json::Value::String(s) => JsonValue::String(s),
        serde_json::Value::Array(items) => JsonValue::Array(items.into_iter().map(json_of_yaml).collect()),
        serde_json::Value::Object(members) => {
            JsonValue::Object(members.into_iter().map(|(k, v)| (k, json_of_yaml(v))).collect())
        }
    }
}

#[test]
fn resolved_assistant_references_replace_every_authoring_reference() {
    let yaml = r#"apiVersion: codemie.epam.com/v1alpha1
kind: Assistant
metadata:
  project: project-a
  slug: assistant-a
spec:
  name: Assistant A
  system_prompt: Helpful
  llm_model_type: gpt
  type: codemie
  context:
    - context_type: knowledge_base
      ref: {project: project-a, repo_name: docs-a}
  toolkits: []
  conversation_starters: []
  shared: false
  mcp_servers: []
  sub_assistants:
    - {project: project-a, slug: nested-a}
  enabled_builtin_subagents: []
  prompt_variables: []
  skills:
    - {project: project-a, name: skill-a}
  categories: []
"#;
    let value: serde_json::Value = serde_yaml::from_str(yaml).unwrap();
    let declaration =
        ParsedDeclaration { kind: EntityKind::Assistant, value: json_of_yaml(value), source_path: "assistant.yaml".into() };
    let references = AssistantReferenceMap {
        assistant_ids: vec!["assistant-id".into()],
        skill_ids: vec!["skill-id".into()],
        context: vec![object(vec![
            ("context_type", JsonValue::String("knowledge_base".into())),
            ("name", JsonValue::String("docs-a".into())),
        ])],
    };
    let body = match project_assistant(declaration, None, references).unwrap() {
        WritePlan::Create { request: RequestBody::Json(JsonValue::Object(body)) } => body,
        _ => panic!("Assistant create must use a JSON request"),
    };
    let field = |name: &str| body.iter().find(|(key, _)| key == name).map(|(_, value)| value);
    assert!(matches!(field("assistant_ids"), Some(JsonValue::Array(ids)) if matches!(ids.as_slice(), [JsonValue::String(id)] if id == "assistant-id")));
    assert!(matches!(field("skill_ids"), Some(JsonValue::Array(ids)) if matches!(ids.as_slice(), [JsonValue::String(id)] if id == "skill-id")));
    assert_eq!(
        codemie_gitops::json_value::write_json(field("context").unwrap()),
        "[{\"context_type\":\"knowledge_base\",\"name\":\"docs-a\"}]"
    );
    assert!(field("sub_assistants").is_none());
    assert!(field("skills").is_none());
}
