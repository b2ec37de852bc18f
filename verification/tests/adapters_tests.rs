use codemie_gitops::adapters::datasource::{decide_target, resolve_reference_in, server_kind_matches, DatasourceItem};
use codemie_gitops::adapters::workflow::{classify_marker, MarkerClassification, WorkflowWriteIdentity, WorkflowWriteResponse};
use codemie_gitops::adapters::{
    datasource_create_route, datasource_update_route, prove_write, ApplyAction, ApplyResult, ModificationMethod,
    PreparedRequest, PreparedWrite, ResolutionEvidence, ResolutionTarget,
};
use codemie_gitops::error::AppError;
use codemie_gitops::http::decide_visibility;
use codemie_gitops::json_value::{JsonValue, MalformedJson};
use codemie_gitops::kind::EntityKind;
use codemie_gitops::projection::{RequestBody, WritePlan};

fn item(index_type: &str, vcs_type: Option<&str>) -> DatasourceItem {
    DatasourceItem {
        id: "id".to_owned(),
        repo_name: "repo".to_owned(),
        project_name: "project".to_owned(),
        index_type: index_type.to_owned(),
        vcs_type: vcs_type.map(str::to_owned),
        user_abilities: vec![],
    }
}

#[test]
fn legacy_server_reports_kind_directly_in_index_type() {
    assert!(server_kind_matches(&item("git", None), "git"));
    assert!(server_kind_matches(&item("svn", None), "svn"));
    assert!(server_kind_matches(&item("google", None), "google"));
    assert!(!server_kind_matches(&item("git", None), "svn"));
}

#[test]
fn vcs_kinds_read_kind_from_vcs_type_when_index_type_is_granularity() {
    assert!(server_kind_matches(&item("code", Some("git")), "git"));
    assert!(server_kind_matches(&item("summary", Some("svn")), "svn"));
    assert!(!server_kind_matches(&item("code", Some("git")), "svn"));
    assert!(!server_kind_matches(&item("code", Some("git")), "confluence"));
    assert!(!server_kind_matches(&item("code", None), "git"));
}

#[test]
fn knowledge_base_kinds_keep_prefixed_index_type() {
    assert!(server_kind_matches(&item("knowledge_base_confluence", None), "confluence"));
    assert!(server_kind_matches(&item("knowledge_base_jira", None), "jira"));
    assert!(server_kind_matches(&item("knowledge_base_xray", None), "xray"));
    assert!(server_kind_matches(&item("knowledge_base_azure_devops_wiki", None), "azure_devops_wiki"));
    assert!(server_kind_matches(&item("knowledge_base_azure_devops_work_item", None), "azure_devops_work_item"));
    assert!(server_kind_matches(&item("knowledge_base_sharepoint", None), "sharepoint"));
    assert!(server_kind_matches(&item("llm_routing_google", None), "google"));
    assert!(server_kind_matches(&item("knowledge_base_file", None), "file"));
}

#[test]
fn datasource_routes_encode_their_segments() {
    assert_eq!(datasource_create_route("git", "my proj"), "/v1/application/my+proj/index");
    assert_eq!(datasource_create_route("svn", "p/q"), "/v1/application/p%2Fq/index/svn");
    assert_eq!(datasource_create_route("confluence", "p"), "/v1/index/knowledge_base/confluence");
    assert_eq!(datasource_update_route("git", "p", "r~1"), "/v1/application/p/index/r%7E1");
    assert_eq!(datasource_update_route("svn", "p", "r"), "/v1/application/p/index/svn/r");
    assert_eq!(datasource_update_route("jira", "p", "r"), "/v1/index/knowledge_base/jira");
}

#[test]
fn prove_write_requires_the_write_ability() {
    assert!(prove_write(&vec!["read".to_owned(), "write".to_owned()], "Skill").is_ok());
    match prove_write(&vec!["read".to_owned()], "Skill") {
        Err(AppError::Authorization(message)) => assert_eq!(message, "Skill target does not expose write capability"),
        _ => panic!("expected an authorization error"),
    }
    assert_eq!(prove_write(&vec!["write".to_owned()], "X").unwrap().ability_count(), 1);
}

#[test]
fn apply_result_requires_a_server_id() {
    let result = ApplyResult::from_server_response(ApplyAction::Created, "abc".to_owned()).unwrap();
    assert_eq!(result.action(), ApplyAction::Created);
    assert_eq!(result.server_id(), "abc");
    assert!(matches!(
        ApplyResult::from_server_response(ApplyAction::Updated, String::new()),
        Err(AppError::ApiIncompatible(_))
    ));
}

fn visibility(project: &str) -> codemie_gitops::http::ExactProjectVisibility {
    decide_visibility("user-1".to_owned(), &vec![project.to_owned()], project).unwrap()
}

fn evidence(kind: EntityKind, target: ResolutionTarget) -> ResolutionEvidence {
    ResolutionEvidence {
        kind,
        effective_project: "proj".to_owned(),
        target,
        repo_name: "docs".to_owned(),
        index_type: "file".to_owned(),
    }
}

#[test]
fn prepared_skill_create_treats_conflict_as_resolution_signal() {
    let plan = WritePlan::Create { request: RequestBody::Json(JsonValue::Object(vec![])) };
    let prepared = PreparedWrite::visible(visibility("proj"), evidence(EntityKind::Skill, ResolutionTarget::Create), plan, None)
        .unwrap();
    match prepared.into_request().unwrap() {
        PreparedRequest::Json { method, path, conflict_is_resolution_signal, .. } => {
            assert_eq!(method, ModificationMethod::Post);
            assert_eq!(path, "/v1/skills");
            assert!(conflict_is_resolution_signal);
        }
        _ => panic!("expected a JSON request"),
    }
}

#[test]
fn prepared_assistant_update_targets_the_resolved_entity() {
    let plan = WritePlan::Update {
        server_id: "a b".to_owned(),
        request: RequestBody::Json(JsonValue::Object(vec![])),
    };
    let prepared = PreparedWrite::visible(
        visibility("proj"),
        evidence(EntityKind::Assistant, ResolutionTarget::Update { server_id: "a b".to_owned() }),
        plan,
        None,
    )
    .unwrap();
    match prepared.into_request().unwrap() {
        PreparedRequest::Json { method, path, conflict_is_resolution_signal, .. } => {
            assert_eq!(method, ModificationMethod::Put);
            assert_eq!(path, "/v1/assistants/a+b");
            assert!(!conflict_is_resolution_signal);
        }
        _ => panic!("expected a JSON request"),
    }
}

#[test]
fn prepared_write_refuses_unlinked_evidence() {
    let plan = WritePlan::Update { server_id: "x".to_owned(), request: RequestBody::Json(JsonValue::Null) };
    assert!(matches!(
        PreparedWrite::visible(visibility("proj"), evidence(EntityKind::Skill, ResolutionTarget::Create), plan, None),
        Err(AppError::Internal(_))
    ));
    let plan = WritePlan::Create { request: RequestBody::Json(JsonValue::Null) };
    assert!(matches!(
        PreparedWrite::visible(visibility("other"), evidence(EntityKind::Skill, ResolutionTarget::Create), plan, None),
        Err(AppError::Internal(_))
    ));
}

#[test]
fn multipart_update_names_the_repository() {
    let plan = WritePlan::Update {
        server_id: "ds-1".to_owned(),
        request: RequestBody::FileMultipart { query_params: vec![("project_name".to_owned(), "proj".to_owned())] },
    };
    let prepared = PreparedWrite::visible(
        visibility("proj"),
        evidence(EntityKind::Datasource, ResolutionTarget::Update { server_id: "ds-1".to_owned() }),
        plan,
        Some(vec![("a.txt".to_owned(), b"abc".to_vec())]),
    )
    .unwrap();
    match prepared.into_request().unwrap() {
        PreparedRequest::Multipart { method, path, query_params, file_parts } => {
            assert_eq!(method, ModificationMethod::Put);
            assert_eq!(path, "/v1/index/knowledge_base/file");
            assert_eq!(
                query_params,
                vec![("project_name".to_owned(), "proj".to_owned()), ("name".to_owned(), "docs".to_owned())]
            );
            assert_eq!(file_parts.len(), 1);
        }
        _ => panic!("expected a multipart request"),
    }
}

#[test]
fn visibility_decision_requires_membership() {
    assert!(decide_visibility("u".to_owned(), &vec!["a".to_owned(), "b".to_owned()], "b").is_ok());
    assert!(matches!(
        decide_visibility("u".to_owned(), &vec!["a".to_owned()], "b"),
        Err(AppError::VisibilityUnproven(_))
    ));
    assert!(matches!(
        decide_visibility(String::new(), &vec!["b".to_owned()], "b"),
        Err(AppError::ApiIncompatible(_))
    ));
    assert!(matches!(
        decide_visibility("u".to_owned(), &vec![String::new(), "b".to_owned()], "b"),
        Err(AppError::ApiIncompatible(_))
    ));
    let proof = visibility("p");
    assert!(proof.matches("p"));
    assert!(!proof.matches("q"));
    assert_eq!(proof.authenticated_user_id(), "user-1");
}

fn s(text: &str) -> String {
    text.to_owned()
}

fn marker(version: &str, project: &str, slug: &str, creator: &str) -> Result<JsonValue, MalformedJson> {
    Ok(JsonValue::Object(vec![(
        s("codemie.epam.com/gitops/workflow-identity"),
        JsonValue::Object(vec![
            (s("creator_user_id"), JsonValue::String(s(creator))),
            (s("project"), JsonValue::String(s(project))),
            (s("slug"), JsonValue::String(s(slug))),
            (s("version"), JsonValue::Number(s(version))),
        ]),
    )]))
}

#[test]
fn marker_classification_follows_the_reserved_record() {
    assert_eq!(classify_marker(None, "p", "p", "s", "u"), MarkerClassification::Unmarked);
    assert_eq!(classify_marker(Some(&Err(MalformedJson)), "p", "p", "s", "u"), MarkerClassification::Invalid);
    assert_eq!(classify_marker(Some(&Ok(JsonValue::Object(vec![]))), "p", "p", "s", "u"), MarkerClassification::Unmarked);
    assert_eq!(classify_marker(Some(&Ok(JsonValue::Null)), "p", "p", "s", "u"), MarkerClassification::Invalid);
    assert_eq!(classify_marker(Some(&marker("2", "p", "s", "u")), "p", "p", "s", "u"), MarkerClassification::Exact);
    assert_eq!(classify_marker(Some(&marker("2", "p", "other", "u")), "p", "p", "s", "u"), MarkerClassification::OtherValid);
    assert_eq!(classify_marker(Some(&marker("3", "p", "s", "u")), "p", "p", "s", "u"), MarkerClassification::Invalid);
    assert_eq!(classify_marker(Some(&marker("2", "q", "s", "u")), "p", "p", "s", "u"), MarkerClassification::Invalid);
    assert_eq!(classify_marker(Some(&marker("2", "p", "", "u")), "p", "p", "s", "u"), MarkerClassification::Invalid);
    let extra = Ok(JsonValue::Object(vec![(
        s("codemie.epam.com/gitops/workflow-identity"),
        JsonValue::Object(vec![(s("version"), JsonValue::Number(s("2")))]),
    )]));
    assert_eq!(classify_marker(Some(&extra), "p", "p", "s", "u"), MarkerClassification::Invalid);
}

#[test]
fn workflow_write_response_gives_its_id_in_either_shape() {
    assert_eq!(WorkflowWriteResponse::Direct { id: s("a") }.into_id(), "a");
    assert_eq!(WorkflowWriteResponse::Nested { data: WorkflowWriteIdentity { id: s("b") } }.into_id(), "b");
}

#[test]
fn datasource_target_follows_match_count() {
    let mut writable = item("git", None);
    writable.user_abilities = vec![s("write")];
    assert!(matches!(decide_target(&vec![]).unwrap().target, ResolutionTarget::Create));
    assert!(matches!(decide_target(&vec![writable.clone()]).unwrap().target, ResolutionTarget::Update { .. }));
    assert!(matches!(decide_target(&vec![item("git", None)]), Err(AppError::Authorization(_))));
    assert!(matches!(decide_target(&vec![writable.clone(), writable]), Err(AppError::Reconciliation(_))));
}

#[test]
fn datasource_reference_resolution_ignores_kind() {
    let a = item("git", None);
    let mut b = item("confluence", None);
    b.id = s("id-2");
    assert_eq!(resolve_reference_in(&vec![a.clone()], "project", "repo").unwrap(), "id");
    assert!(matches!(resolve_reference_in(&vec![], "project", "repo"), Err(AppError::MissingReference(_))));
    assert!(matches!(resolve_reference_in(&vec![a, b], "project", "repo"), Err(AppError::Reconciliation(_))));
}
