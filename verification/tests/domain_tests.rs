use codemie_gitops::coordinator::{
    classify_verification_failure, is_uuid, validate_adoption_selector, TargetIdentity,
};
use codemie_gitops::domain::{
    DatasourceKind, NaturalIdentity, ParsedNaturalIdentity, ProjectName, RepositoryName, ServerId, SkillName, Slug,
    WorkflowId,
};
use codemie_gitops::error::AppError;

#[test]
fn workflow_id_accepts_uuid_and_rejects_arbitrary_text() {
    assert!("123e4567-e89b-12d3-a456-426614174000".parse::<WorkflowId>().is_ok());
    assert!("workflow-id".parse::<WorkflowId>().is_err());
}

#[test]
fn workflow_id_rejects_non_canonical_spellings() {
    assert!("123e4567e89b12d3a456426614174000".parse::<WorkflowId>().is_err());
    assert!("{123e4567-e89b-12d3-a456-426614174000}".parse::<WorkflowId>().is_err());
    assert!("urn:uuid:123e4567-e89b-12d3-a456-426614174000".parse::<WorkflowId>().is_err());
    assert!("123E4567-E89B-12D3-A456-426614174000".parse::<WorkflowId>().is_err());
    let id: WorkflowId = "123e4567-e89b-12d3-a456-426614174000".parse().unwrap();
    assert_eq!(id.as_str(), "123e4567-e89b-12d3-a456-426614174000");
}

#[test]
fn identity_newtypes_enforce_schema_constraints() {
    assert!(ProjectName::try_from("demo".to_owned()).is_ok());
    assert!(ProjectName::try_from(String::new()).is_err());
    let bidi = format!("a{}b", '\u{202e}');
    assert!(ProjectName::try_from(bidi).is_err());
    assert!(ProjectName::try_from("x".repeat(101)).is_err());
    assert!(Slug::try_from("my assistant".to_owned()).is_ok());
    assert!(Slug::try_from("bad\nslug".to_owned()).is_err());
    assert!(Slug::try_from("x".repeat(101)).is_err());
    assert!(SkillName::try_from("triage-skill".to_owned()).is_ok());
    assert!(SkillName::try_from("ab".to_owned()).is_err());
    assert!(SkillName::try_from("UPPER".to_owned()).is_err());
    assert!(SkillName::try_from("ends-with-dash-".to_owned()).is_err());
    assert!(RepositoryName::try_from("product-docs".to_owned()).is_ok());
    assert!(RepositoryName::try_from("abc".to_owned()).is_err());
    assert!(RepositoryName::try_from("bad name".to_owned()).is_err());
}

#[test]
fn uuid_selector_accepts_canonical_uuid() {
    assert!(is_uuid("123e4567-e89b-12d3-a456-426614174000"));
}

#[test]
fn uuid_selector_rejects_non_uuid() {
    assert!(!is_uuid("workflow-id"));
}

#[test]
fn uuid_selector_accepts_either_case_and_rejects_bad_groups() {
    assert!(is_uuid("123E4567-E89B-12D3-A456-426614174000"));
    assert!(!is_uuid("123e4567-e89b-12d3-a456-42661417400"));
    assert!(!is_uuid("123e4567-e89b-12d3-a456-4266141740000"));
    assert!(!is_uuid("123e4567e-89b-12d3-a456-426614174000"));
    assert!(!is_uuid("123e4567-e89b-12d3-a456-42661417400g"));
}

#[test]
fn identity_name_lengths_are_bounded() {
    assert!(ProjectName::try_from("x".repeat(100)).is_ok());
    assert!(SkillName::try_from("a".repeat(64)).is_ok());
    assert!(SkillName::try_from("a".repeat(65)).is_err());
    assert!(SkillName::try_from("-ab".to_owned()).is_err());
    assert!(RepositoryName::try_from("a".repeat(50)).is_ok());
    assert!(RepositoryName::try_from("a".repeat(51)).is_err());
    assert!(RepositoryName::try_from("_abc".to_owned()).is_err());
    assert!(RepositoryName::try_from("A_b-c".to_owned()).is_ok());
}

#[test]
fn server_id_requires_text() {
    assert!(ServerId::try_from(String::new()).is_err());
    assert_eq!(ServerId::try_from("id-1".to_owned()).unwrap().as_str(), "id-1");
}

#[test]
fn datasource_kinds_round_trip() {
    for text in ["git", "svn", "confluence", "jira", "xray", "file", "google", "azure_devops_wiki", "azure_devops_work_item", "sharepoint"] {
        let kind: DatasourceKind = text.parse().unwrap();
        assert_eq!(kind.as_str(), text);
    }
    assert!("future-kind".parse::<DatasourceKind>().is_err());
}

#[test]
fn natural_identity_keeps_kind_and_selector_shape_together() {
    let identity = NaturalIdentity::try_from_parsed(ParsedNaturalIdentity::Datasource {
        project: "demo".into(),
        repository: "docs".into(),
        index_type: "git".into(),
    })
    .unwrap();
    assert_eq!(identity.kind(), codemie_gitops::kind::EntityKind::Datasource);
    assert_eq!(identity.project(), "demo");
    assert_eq!(identity.selector(), "docs");
    assert_eq!(identity.datasource_index_type(), Some("git"));
}

#[test]
fn natural_identity_rejects_empty_semantic_fields() {
    let result = NaturalIdentity::try_from_parsed(ParsedNaturalIdentity::Assistant {
        project: String::new(),
        slug: "assistant".into(),
    });
    assert!(matches!(result, Err(AppError::Schema(_))));
}

#[test]
fn natural_identity_rejects_unknown_datasource_kind() {
    let result = NaturalIdentity::try_from_parsed(ParsedNaturalIdentity::Datasource {
        project: "demo".into(),
        repository: "docs".into(),
        index_type: "future-kind".into(),
    });
    assert!(result.is_err());
}

#[test]
fn adoption_selector_is_for_workflows_only() {
    let workflow = TargetIdentity::Workflow { project: "p".into(), slug: "s".into() };
    let skill = TargetIdentity::Skill { project: "p".into(), name: "s".into() };
    assert!(validate_adoption_selector(&workflow, None).is_ok());
    assert!(validate_adoption_selector(&skill, None).is_ok());
    assert!(validate_adoption_selector(&workflow, Some("123e4567-e89b-12d3-a456-426614174000")).is_ok());
    assert!(matches!(validate_adoption_selector(&workflow, Some("nope")), Err(AppError::Usage(_))));
    assert!(matches!(
        validate_adoption_selector(&skill, Some("123e4567-e89b-12d3-a456-426614174000")),
        Err(AppError::Usage(_))
    ));
}

#[test]
fn verification_reconciliation_becomes_write_uncertain() {
    let error = classify_verification_failure(AppError::Reconciliation("ambiguous".into()));
    assert!(matches!(error, AppError::WriteUncertain(_)));
    assert_eq!(error.exit_code(), 1);
    assert!(matches!(
        classify_verification_failure(AppError::Timeout("t".into())),
        AppError::WriteVerificationUnavailable(_)
    ));
    assert!(matches!(
        classify_verification_failure(AppError::ApiIncompatible("x".into())),
        AppError::WriteVerificationIncompatible(_)
    ));
    assert!(matches!(classify_verification_failure(AppError::Internal("x".into())), AppError::Internal(_)));
}
