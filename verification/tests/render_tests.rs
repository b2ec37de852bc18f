use codemie_gitops::error::AppError;
use codemie_gitops::output::{Action, OutputMode};
use codemie_gitops::render::{
    diagnostic_from_app_error, DiagnosticCategory, DiagnosticInput, EntityKey, EntityKind,
    ErrorCode, HttpInfo, HttpMethod, InvalidOutputField, Renderer, SourceLocation,
    WarningCategory, WarningCode, WarningInput, WarningSource,
};

fn renderer(mode: OutputMode) -> Renderer {
    Renderer::new(Vec::<u8>::new(), Vec::<u8>::new(), mode)
}

fn diag(code: ErrorCode, category: DiagnosticCategory, exit_code: i32) -> DiagnosticInput {
    DiagnosticInput {
        error_code: code,
        category,
        exit_code,
        source: None,
        http: None,
        request_id: None,
        server_correlation_id: None,
    }
}

#[test]
fn text_outcome_goes_to_stdout_not_stderr() {
    let mut r = renderer(OutputMode::Text);
    r.emit_outcome(Action::Created, EntityKind::Assistant, "my-project", &EntityKey::Slug("my-slug".into()))
        .unwrap();
    assert!(!r.stdout.is_empty(), "stdout must have output");
    assert!(r.stderr.is_empty(), "stderr must be empty on success");
}

#[test]
fn json_outcome_goes_to_stdout_not_stderr() {
    let mut r = renderer(OutputMode::Json);
    r.emit_outcome(Action::Updated, EntityKind::Workflow, "proj", &EntityKey::Slug("flow".into()))
        .unwrap();
    assert!(!r.stdout.is_empty(), "stdout must have output");
    assert!(r.stderr.is_empty(), "stderr must be empty on success");
}

#[test]
fn diagnostic_goes_to_stderr_not_stdout() {
    let d = diag(ErrorCode::EUsage, DiagnosticCategory::Usage, 2);
    let mut r = renderer(OutputMode::Text);
    r.emit_diagnostic(&d).unwrap();
    assert!(r.stdout.is_empty(), "stdout must be empty on failure");
    assert!(!r.stderr.is_empty(), "stderr must have output");
}

#[test]
fn warning_goes_to_stderr_not_stdout() {
    let warn = WarningInput {
        warning_code: WarningCode::WSuspectedPlaintextSecret,
        category: WarningCategory::SecretLikeField,
        source: WarningSource::try_new("decl.yaml".into(), Some(5), Some(1), "spec.apiKey".into()).unwrap(),
    };
    let mut r = renderer(OutputMode::Text);
    r.emit_warning(&warn).unwrap();
    assert!(r.stdout.is_empty(), "stdout must be empty on warning");
    assert!(!r.stderr.is_empty(), "stderr must have output");
}

#[test]
fn text_outcome_format_assistant() {
    let mut r = renderer(OutputMode::Text);
    r.emit_outcome(Action::Updated, EntityKind::Workflow, "example", &EntityKey::Slug("flow".into()))
        .unwrap();
    let out = String::from_utf8(r.stdout).unwrap();
    assert_eq!(out.trim_end_matches('\n'), "updated Workflow example/flow");
}

#[test]
fn text_outcome_format_skill_uses_name() {
    let mut r = renderer(OutputMode::Text);
    r.emit_outcome(Action::Created, EntityKind::Skill, "proj", &EntityKey::Name("my-skill".into()))
        .unwrap();
    let out = String::from_utf8(r.stdout).unwrap();
    assert_eq!(out.trim_end_matches('\n'), "created Skill proj/my-skill");
}

#[test]
fn text_outcome_format_datasource_uses_repo_name() {
    let mut r = renderer(OutputMode::Text);
    r.emit_outcome(Action::Created, EntityKind::Datasource, "proj", &EntityKey::RepoName("my-repo".into()))
        .unwrap();
    let out = String::from_utf8(r.stdout).unwrap();
    assert_eq!(out.trim_end_matches('\n'), "created Datasource proj/my-repo");
}

#[test]
fn text_outcome_format_valid_action() {
    let mut r = renderer(OutputMode::Text);
    r.emit_outcome(Action::Valid, EntityKind::Assistant, "p", &EntityKey::Slug("s".into()))
        .unwrap();
    let out = String::from_utf8(r.stdout).unwrap();
    assert_eq!(out.trim_end_matches('\n'), "valid Assistant p/s");
}

#[test]
fn saved_workflow_text_marks_required_adoption() {
    let mut r = renderer(OutputMode::Text);
    r.emit_outcome_with_adoption(Action::Saved, EntityKind::Workflow, "project", &EntityKey::Slug("flow".into()), true)
        .unwrap();
    assert_eq!(
        String::from_utf8(r.stdout).unwrap(),
        "saved Workflow project/flow (adoption required on apply)\n"
    );
}

#[test]
fn saved_workflow_json_marks_required_adoption() {
    let mut r = renderer(OutputMode::Json);
    r.emit_outcome_with_adoption(Action::Saved, EntityKind::Workflow, "project", &EntityKey::Slug("flow".into()), true)
        .unwrap();
    let value: serde_json::Value = serde_json::from_slice(r.stdout.as_slice()).unwrap();
    assert_eq!(value["adoptionRequired"], true);
    assert_eq!(value.as_object().unwrap().len(), 5);
}

#[test]
fn text_outcome_produces_exactly_one_newline() {
    let mut r = renderer(OutputMode::Text);
    r.emit_outcome(Action::Created, EntityKind::Assistant, "p", &EntityKey::Slug("s".into()))
        .unwrap();
    let out = String::from_utf8(r.stdout).unwrap();
    assert_eq!(out.chars().filter(|&c| c == '\n').count(), 1);
}

#[test]
fn json_outcome_produces_exactly_one_newline() {
    let mut r = renderer(OutputMode::Json);
    r.emit_outcome(Action::Created, EntityKind::Workflow, "p", &EntityKey::Slug("s".into()))
        .unwrap();
    let out = String::from_utf8(r.stdout).unwrap();
    assert_eq!(out.chars().filter(|&c| c == '\n').count(), 1);
}

#[test]
fn json_outcome_assistant_is_valid_json_with_slug() {
    let mut r = renderer(OutputMode::Json);
    r.emit_outcome(Action::Updated, EntityKind::Workflow, "example", &EntityKey::Slug("flow".into()))
        .unwrap();
    let out = String::from_utf8(r.stdout).unwrap();
    let val: serde_json::Value = serde_json::from_str(out.trim()).expect("must be valid JSON");
    assert_eq!(val["action"], "updated");
    assert_eq!(val["kind"], "Workflow");
    assert_eq!(val["project"], "example");
    assert_eq!(val["slug"], "flow");
    let obj = val.as_object().unwrap();
    assert_eq!(obj.len(), 4, "must have exactly 4 fields");
    assert!(!obj.contains_key("name"), "name must not appear for Workflow");
    assert!(!obj.contains_key("repo_name"), "repo_name must not appear");
}

#[test]
fn json_outcome_skill_uses_name_not_slug() {
    let mut r = renderer(OutputMode::Json);
    r.emit_outcome(Action::Created, EntityKind::Skill, "proj", &EntityKey::Name("my-skill".into()))
        .unwrap();
    let out = String::from_utf8(r.stdout).unwrap();
    let val: serde_json::Value = serde_json::from_str(out.trim()).unwrap();
    assert_eq!(val["name"], "my-skill");
    assert!(val.get("slug").is_none(), "slug must not appear for Skill");
    assert!(val.get("repo_name").is_none());
}

#[test]
fn json_outcome_datasource_uses_repo_name() {
    let mut r = renderer(OutputMode::Json);
    r.emit_outcome(Action::Created, EntityKind::Datasource, "proj", &EntityKey::RepoName("my-ds".into()))
        .unwrap();
    let out = String::from_utf8(r.stdout).unwrap();
    let val: serde_json::Value = serde_json::from_str(out.trim()).unwrap();
    assert_eq!(val["repo_name"], "my-ds");
    assert!(val.get("slug").is_none());
    assert!(val.get("name").is_none());
}

#[test]
fn json_diagnostic_is_valid_json_with_required_fields() {
    let d = diag(ErrorCode::ESchema, DiagnosticCategory::LocalInput, 2);
    let mut r = renderer(OutputMode::Json);
    r.emit_diagnostic(&d).unwrap();
    let out = String::from_utf8(r.stderr).unwrap();
    let val: serde_json::Value = serde_json::from_str(out.trim()).expect("must be valid JSON");
    assert_eq!(val["errorCode"], "E_SCHEMA");
    assert_eq!(val["category"], "local-input");
    assert_eq!(val["exitCode"], 2);
}

#[test]
fn json_diagnostic_with_source_serializes_correctly() {
    let mut d = diag(ErrorCode::ESchema, DiagnosticCategory::LocalInput, 2);
    d.source = Some(SourceLocation::try_new("decl.yaml".into(), Some(10), Some(3), Some("spec.slug".into())).unwrap());
    let mut r = renderer(OutputMode::Json);
    r.emit_diagnostic(&d).unwrap();
    let out = String::from_utf8(r.stderr).unwrap();
    let val: serde_json::Value = serde_json::from_str(out.trim()).unwrap();
    assert_eq!(val["source"]["file"], "decl.yaml");
    assert_eq!(val["source"]["line"], 10);
    assert_eq!(val["source"]["fieldPath"], "spec.slug");
}

#[test]
fn json_diagnostic_reconciliation_exit_code_1() {
    let d = diag(ErrorCode::EAmbiguousIdentity, DiagnosticCategory::Reconciliation, 1);
    let mut r = renderer(OutputMode::Json);
    r.emit_diagnostic(&d).unwrap();
    let out = String::from_utf8(r.stderr).unwrap();
    let val: serde_json::Value = serde_json::from_str(out.trim()).unwrap();
    assert_eq!(val["exitCode"], 1);
    assert_eq!(val["errorCode"], "E_AMBIGUOUS_IDENTITY");
    assert_eq!(val["category"], "reconciliation");
}

#[test]
fn text_diagnostic_format_is_error_colon_code() {
    let d = diag(ErrorCode::EUsage, DiagnosticCategory::Usage, 2);
    let mut r = renderer(OutputMode::Text);
    r.emit_diagnostic(&d).unwrap();
    let out = String::from_utf8(r.stderr).unwrap();
    assert_eq!(out.trim_end_matches('\n'), "error: E_USAGE");
}

#[test]
fn json_warning_is_valid_json() {
    let warn = WarningInput {
        warning_code: WarningCode::WSuspectedPlaintextSecret,
        category: WarningCategory::SecretLikeField,
        source: WarningSource::try_new("decl.yaml".into(), Some(5), Some(1), "spec.apiKey".into()).unwrap(),
    };
    let mut r = renderer(OutputMode::Json);
    r.emit_warning(&warn).unwrap();
    let out = String::from_utf8(r.stderr).unwrap();
    let val: serde_json::Value = serde_json::from_str(out.trim()).expect("must be valid JSON");
    assert_eq!(val["warningCode"], "W_SUSPECTED_PLAINTEXT_SECRET");
    assert_eq!(val["category"], "secret-like-field");
    assert_eq!(val["source"]["file"], "decl.yaml");
    assert_eq!(val["source"]["fieldPath"], "spec.apiKey");
}

#[test]
fn usage_error_maps_to_e_usage() {
    let d = diagnostic_from_app_error(&AppError::Usage("bad flag".into()));
    assert_eq!(d.error_code.as_str(), "E_USAGE");
    assert_eq!(d.category.as_str(), "usage");
    assert_eq!(d.exit_code, 2);
}

#[test]
fn configuration_error_maps_to_e_configuration() {
    let d = diagnostic_from_app_error(&AppError::Configuration("bad url".into()));
    assert_eq!(d.error_code.as_str(), "E_CONFIGURATION");
    assert_eq!(d.category.as_str(), "configuration");
    assert_eq!(d.exit_code, 2);
}

#[test]
fn schema_error_maps_to_e_schema() {
    let d = diagnostic_from_app_error(&AppError::Schema("missing field".into()));
    assert_eq!(d.error_code.as_str(), "E_SCHEMA");
    assert_eq!(d.category.as_str(), "local-input");
    assert_eq!(d.exit_code, 2);
}

#[test]
fn reconciliation_error_maps_to_exit_1() {
    let d = diagnostic_from_app_error(&AppError::Reconciliation("ambiguous".into()));
    assert_eq!(d.exit_code, 1);
    assert_eq!(d.category.as_str(), "reconciliation");
}

#[test]
fn authentication_error_maps_to_e_authentication() {
    let d = diagnostic_from_app_error(&AppError::Authentication("token expired".into()));
    assert_eq!(d.error_code.as_str(), "E_AUTHENTICATION");
    assert_eq!(d.exit_code, 2);
}

#[test]
fn connectivity_error_maps_to_e_connectivity() {
    let d = diagnostic_from_app_error(&AppError::Connectivity("timeout".into()));
    assert_eq!(d.error_code.as_str(), "E_CONNECTIVITY");
    assert_eq!(d.exit_code, 2);
}

#[test]
fn internal_error_maps_to_e_internal() {
    let d = diagnostic_from_app_error(&AppError::Internal("invariant".into()));
    assert_eq!(d.error_code.as_str(), "E_INTERNAL");
    assert_eq!(d.exit_code, 2);
}

#[test]
fn error_code_strings_are_fixed_not_from_input() {
    let malicious = AppError::Usage("malicious\nnewline injection".into());
    let d = diagnostic_from_app_error(&malicious);
    let mut r = renderer(OutputMode::Text);
    r.emit_diagnostic(&d).unwrap();
    let out = String::from_utf8(r.stderr).unwrap();
    assert_eq!(out, "error: E_USAGE\n");
}

#[test]
fn json_error_code_is_not_user_supplied_value() {
    let malicious = AppError::Configuration("http://evil.com\"}extra".into());
    let d = diagnostic_from_app_error(&malicious);
    let mut r = renderer(OutputMode::Json);
    r.emit_diagnostic(&d).unwrap();
    let out = String::from_utf8(r.stderr).unwrap();
    let val: serde_json::Value = serde_json::from_str(out.trim()).unwrap();
    assert_eq!(val["errorCode"], "E_CONFIGURATION");
    assert!(!out.contains("http://evil.com"), "user input must not appear in output");
}

#[test]
fn entity_key_slug_field_name() {
    assert_eq!(EntityKey::Slug("x".into()).field_name(), "slug");
}

#[test]
fn entity_key_name_field_name() {
    assert_eq!(EntityKey::Name("x".into()).field_name(), "name");
}

#[test]
fn entity_key_repo_name_field_name() {
    assert_eq!(EntityKey::RepoName("x".into()).field_name(), "repo_name");
}

#[test]
fn all_error_codes_have_nonempty_str() {
    let codes = [
        ErrorCode::EAmbiguousIdentity,
        ErrorCode::EIdentityMarkerInvalid,
        ErrorCode::EResolutionUnstable,
        ErrorCode::EAdoptionRequired,
        ErrorCode::EMissingReference,
        ErrorCode::EWriteUncertain,
        ErrorCode::EServerRejected,
        ErrorCode::EUsage,
        ErrorCode::EYamlParse,
        ErrorCode::ESchema,
        ErrorCode::ESemantic,
        ErrorCode::EReference,
        ErrorCode::ESidecar,
        ErrorCode::EConfiguration,
        ErrorCode::EAuthentication,
        ErrorCode::ETokenExpired,
        ErrorCode::ELocalAuthUnavailable,
        ErrorCode::ERateLimited,
        ErrorCode::EAuthorization,
        ErrorCode::EVisibilityUnproven,
        ErrorCode::EWriteForbidden,
        ErrorCode::EApiIncompatible,
        ErrorCode::EWriteVerificationIncompatible,
        ErrorCode::EConnectivity,
        ErrorCode::EServerUnavailable,
        ErrorCode::ETimeout,
        ErrorCode::EWriteVerificationUnavailable,
        ErrorCode::EInternal,
    ];
    for code in &codes {
        let s = code.as_str();
        assert!(!s.is_empty(), "error code must have non-empty string");
        assert!(s.starts_with("E_"), "error code must start with E_: {s}");
    }
}

// --- exact lines -----------------------------------------------------------

#[test]
fn json_outcome_line_is_exact_and_key_ordered() {
    let mut r = renderer(OutputMode::Json);
    r.emit_outcome_with_adoption(Action::Saved, EntityKind::Workflow, "p", &EntityKey::Slug("s".into()), true)
        .unwrap();
    assert_eq!(
        String::from_utf8(r.stdout).unwrap(),
        "{\"action\":\"saved\",\"adoptionRequired\":true,\"kind\":\"Workflow\",\"project\":\"p\",\"slug\":\"s\"}\n"
    );
    let mut r = renderer(OutputMode::Json);
    r.emit_outcome(Action::Created, EntityKind::Skill, "p", &EntityKey::Name("n".into())).unwrap();
    assert_eq!(
        String::from_utf8(r.stdout).unwrap(),
        "{\"action\":\"created\",\"kind\":\"Skill\",\"name\":\"n\",\"project\":\"p\"}\n"
    );
}

#[test]
fn json_outcome_escapes_control_characters_into_one_line() {
    let mut r = renderer(OutputMode::Json);
    r.emit_outcome(Action::Valid, EntityKind::Assistant, "a\nb\"c", &EntityKey::Slug("t\u{1}".into()))
        .unwrap();
    let out = String::from_utf8(r.stdout).unwrap();
    assert_eq!(out.matches('\n').count(), 1);
    assert!(out.contains("\"project\":\"a\\nb\\\"c\""));
    assert!(out.contains("\"slug\":\"t\\u0001\""));
}

#[test]
fn json_diagnostic_with_every_optional_member_is_exact() {
    let mut d = diag(ErrorCode::EServerRejected, DiagnosticCategory::ServerRejection, 1);
    d.source = Some(SourceLocation::try_new("a.yaml".into(), None, Some(7), None).unwrap());
    d.http = Some(HttpInfo::try_new(409, HttpMethod::Post, "/v1/skills".into()).unwrap());
    d.request_id = Some(codemie_gitops::render::CorrelationId::try_new("req-1".into()).unwrap());
    let mut r = renderer(OutputMode::Json);
    r.emit_diagnostic(&d).unwrap();
    assert_eq!(
        String::from_utf8(r.stderr).unwrap(),
        "{\"errorCode\":\"E_SERVER_REJECTED\",\"category\":\"server-rejection\",\"exitCode\":1,\"source\":{\"file\":\"a.yaml\",\"column\":7},\"http\":{\"status\":409,\"method\":\"POST\",\"routeTemplate\":\"/v1/skills\"},\"requestId\":\"req-1\"}\n"
    );
}

#[test]
fn text_warning_line_is_exact() {
    let warn = WarningInput::new(
        WarningCode::WDeprecatedValue,
        WarningCategory::DeprecatedValue,
        WarningSource::try_new("w.yaml".into(), None, None, "spec.mode".into()).unwrap(),
    );
    let mut r = renderer(OutputMode::Text);
    r.emit_warning(&warn).unwrap();
    assert_eq!(String::from_utf8(r.stderr).unwrap(), "warning: W_DEPRECATED_VALUE\n");
    assert_eq!(warn.field_path(), "spec.mode");
    assert_eq!(warn.warning_code(), WarningCode::WDeprecatedValue);
}

#[test]
fn output_context_values_are_validated() {
    assert_eq!(SourceLocation::try_new(String::new(), None, None, None).unwrap_err(), InvalidOutputField::SourceFile);
    assert_eq!(
        SourceLocation::try_new("a".into(), None, None, Some("bad\npath".into())).unwrap_err(),
        InvalidOutputField::FieldPath
    );
    assert_eq!(SourceLocation::try_new("x".repeat(4097), None, None, None).unwrap_err(), InvalidOutputField::SourceFile);
    assert!(SourceLocation::try_new("x".repeat(4096), None, None, None).is_ok());
    assert_eq!(HttpInfo::try_new(99, HttpMethod::Get, "/a".into()).unwrap_err(), InvalidOutputField::HttpStatus);
    assert_eq!(HttpInfo::try_new(600, HttpMethod::Get, "/a".into()).unwrap_err(), InvalidOutputField::HttpStatus);
    assert_eq!(HttpInfo::try_new(200, HttpMethod::Get, "a".into()).unwrap_err(), InvalidOutputField::RouteTemplate);
    assert_eq!(HttpInfo::try_new(200, HttpMethod::Get, "/a?b".into()).unwrap_err(), InvalidOutputField::RouteTemplate);
    assert_eq!(HttpInfo::try_new(200, HttpMethod::Get, "/a#b".into()).unwrap_err(), InvalidOutputField::RouteTemplate);
    assert!(codemie_gitops::render::CorrelationId::try_new("a.b_c:d-E9".into()).is_ok());
    assert_eq!(
        codemie_gitops::render::CorrelationId::try_new(String::new()).unwrap_err(),
        InvalidOutputField::CorrelationId
    );
    assert_eq!(
        codemie_gitops::render::CorrelationId::try_new("x".repeat(129)).unwrap_err(),
        InvalidOutputField::CorrelationId
    );
    assert!(codemie_gitops::render::CorrelationId::try_new("x".repeat(128)).is_ok());
    assert_eq!(
        codemie_gitops::render::CorrelationId::try_new("a b".into()).unwrap_err(),
        InvalidOutputField::CorrelationId
    );
}

#[test]
fn exit_code_one_exactly_for_reconciliation_and_server_rejection() {
    let errors = vec![
        AppError::Usage(String::new()),
        AppError::Reconciliation(String::new()),
        AppError::ServerRejected(String::new()),
        AppError::WriteUncertain(String::new()),
        AppError::EntityNotFound,
        AppError::MissingReference(String::new()),
        AppError::Timeout(String::new()),
        AppError::WriteVerificationUnavailable(String::new()),
        AppError::TransportLayer(codemie_gitops::error::TransportError::MutationDispatch),
        AppError::TransportLayer(codemie_gitops::error::TransportError::ReadDispatch),
        AppError::SaveLayer(codemie_gitops::error::SaveError::OutputExists),
    ];
    for error in &errors {
        let d = diagnostic_from_app_error(error);
        let one = matches!(d.category, DiagnosticCategory::Reconciliation | DiagnosticCategory::ServerRejection);
        assert_eq!(error.exit_code() == 1, one, "{:?}", error);
        assert_eq!(d.exit_code, error.exit_code());
    }
}

#[test]
fn flush_keeps_rendered_bytes() {
    let mut r = renderer(OutputMode::Text);
    r.emit_outcome(Action::Created, EntityKind::Skill, "p", &EntityKey::Name("n".into())).unwrap();
    let before = r.stdout.clone();
    r.flush().unwrap();
    assert_eq!(r.stdout, before);
}
