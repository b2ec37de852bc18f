use std::path::PathBuf;

use codemie_gitops::auth::AuthMode;
use codemie_gitops::discovery::{
    DiscoveredFile, FileVisitor, MAX_AGGREGATE_UPLOAD_BYTES, MAX_SIDECAR_FILE_BYTES, MAX_SOURCE_FILE_PATH_BYTES,
    MAX_VISITED_FILES,
};
use codemie_gitops::http::ApiRoute;
use codemie_gitops::index::{EntityKind, IndexEntry, RepositoryIndex};
use codemie_gitops::pagination::{Pagination, PaginationError, PaginationInput, SERVER_LIST_PAGE_SIZE};
use codemie_gitops::parse::{
    MAX_YAML_COLLECTION_MEMBERS, MAX_YAML_DEPTH, MAX_YAML_FILE_BYTES, MAX_YAML_SCALAR_BYTES,
};
use codemie_gitops::preflight::EXPECTED_BACKEND_COMMIT;

fn valid(page: u32, total: u32, pages: u32) -> PaginationInput {
    PaginationInput { requested_page: page, page, per_page: SERVER_LIST_PAGE_SIZE, total, pages }
}

#[test]
fn accepts_consistent_zero_indexed_metadata() {
    let pagination = Pagination::try_from(valid(1, 101, 2)).unwrap();
    assert_eq!(pagination.pages(), 2);
    assert_eq!(pagination.total(), 101);
}

#[test]
fn rejects_every_shared_invariant_violation() {
    let cases = [
        PaginationInput { requested_page: 0, page: 1, per_page: 100, total: 0, pages: 0 },
        PaginationInput { requested_page: 0, page: 0, per_page: 99, total: 0, pages: 0 },
        valid(0, 100_001, 1_001),
        valid(0, 0, 1),
        valid(0, 101, 1),
    ];
    assert!(cases.into_iter().all(|case| Pagination::try_from(case).is_err()));
}

#[test]
fn detects_fingerprint_drift() {
    let first = Pagination::try_from(valid(0, 101, 2)).unwrap();
    let second = Pagination::try_from(valid(1, 200, 2)).unwrap();
    assert!(matches!(second.ensure_stable(Some(first)), Err(PaginationError::Drift)));
}

#[test]
fn auth_auth_mode_variants_are_distinct() {
    assert_ne!(AuthMode::KeycloakClientCredentials, AuthMode::LocalAuth);
    assert_ne!(AuthMode::KeycloakRopc, AuthMode::BearerToken);
}

#[test]
fn mod_auth_mode_variants_are_distinct() {
    assert_ne!(AuthMode::KeycloakClientCredentials, AuthMode::LocalAuth);
    assert_ne!(AuthMode::KeycloakRopc, AuthMode::BearerToken);
}

#[test]
fn max_visited_files_is_ten_thousand() {
    assert_eq!(MAX_VISITED_FILES, 10_000);
}

#[test]
fn sidecar_budget_is_32_mib() {
    assert_eq!(MAX_SIDECAR_FILE_BYTES, 32 * 1024 * 1024);
}

#[test]
fn aggregate_budget_is_128_mib() {
    assert_eq!(MAX_AGGREGATE_UPLOAD_BYTES, 128 * 1024 * 1024);
}

#[test]
fn source_path_limit_is_4096() {
    assert_eq!(MAX_SOURCE_FILE_PATH_BYTES, 4_096);
}

#[test]
fn discovered_file_stores_path_and_size() {
    let f = DiscoveredFile { path: PathBuf::from("/tmp/decl.yaml"), byte_len: 1024 };
    assert_eq!(f.byte_len, 1024);
    assert_eq!(f.path, PathBuf::from("/tmp/decl.yaml"));
}

#[test]
fn api_route_rejects_path_without_leading_slash() {
    assert!(ApiRoute::try_from("v1/user").is_err());
}

#[test]
fn api_route_rules() {
    assert_eq!(ApiRoute::try_from("/v1/user").unwrap().as_str(), "/v1/user");
    assert!(ApiRoute::try_from("//evil.example.com").is_err());
    assert!(ApiRoute::try_from("/v1/a#b").is_err());
    assert!(ApiRoute::try_from("/v1/a\u{7f}").is_err());
    assert!(ApiRoute::try_from("/v1/a?b=c").is_ok());
}

#[test]
fn entity_kind_as_str() {
    assert_eq!(EntityKind::Assistant.as_str(), "Assistant");
    assert_eq!(EntityKind::Workflow.as_str(), "Workflow");
    assert_eq!(EntityKind::Skill.as_str(), "Skill");
    assert_eq!(EntityKind::Datasource.as_str(), "Datasource");
}

#[test]
fn empty_index_returns_empty_entries() {
    let idx = RepositoryIndex::new(vec![]);
    assert!(idx.entries().is_empty());
}

#[test]
fn find_by_project_kind_filters_correctly() {
    let entries = vec![
        IndexEntry { project: "proj-a".into(), kind: EntityKind::Assistant, key: "slug-1".into(), source_path: PathBuf::from("a.yaml") },
        IndexEntry { project: "proj-a".into(), kind: EntityKind::Skill, key: "skill-1".into(), source_path: PathBuf::from("b.yaml") },
        IndexEntry { project: "proj-b".into(), kind: EntityKind::Assistant, key: "slug-2".into(), source_path: PathBuf::from("c.yaml") },
    ];
    let idx = RepositoryIndex::new(entries);
    let found = idx.find_by_project_kind("proj-a", EntityKind::Assistant);
    assert_eq!(found.len(), 1);
    assert_eq!(found[0].key, "slug-1");
}

#[test]
fn parse_yaml_file_byte_limit_is_1_mib() {
    assert_eq!(MAX_YAML_FILE_BYTES, 1024 * 1024);
}

#[test]
fn parse_yaml_depth_limit_is_32() {
    assert_eq!(MAX_YAML_DEPTH, 32);
}

#[test]
fn parse_yaml_scalar_limit_is_128_kib() {
    assert_eq!(MAX_YAML_SCALAR_BYTES, 128 * 1024);
}

#[test]
fn parse_yaml_collection_member_limit_is_10000() {
    assert_eq!(MAX_YAML_COLLECTION_MEMBERS, 10_000);
}

#[test]
fn mod_yaml_file_byte_limit_is_1_mib() {
    assert_eq!(MAX_YAML_FILE_BYTES, 1024 * 1024);
}

#[test]
fn mod_yaml_depth_limit_is_32() {
    assert_eq!(MAX_YAML_DEPTH, 32);
}

#[test]
fn mod_yaml_scalar_limit_is_128_kib() {
    assert_eq!(MAX_YAML_SCALAR_BYTES, 128 * 1024);
}

#[test]
fn mod_yaml_collection_member_limit_is_10000() {
    assert_eq!(MAX_YAML_COLLECTION_MEMBERS, 10_000);
}

#[test]
fn expected_backend_commit_matches_manifest_value() {
    assert_eq!(
        EXPECTED_BACKEND_COMMIT,
        "2a481c290c99bf30ef80aadafa03d876a7f5f732",
        "EXPECTED_BACKEND_COMMIT must match the pinned value"
    );
}

#[test]
fn compatibility_requires_the_pinned_commit() {
    assert!(codemie_gitops::preflight::check_compatibility(EXPECTED_BACKEND_COMMIT.to_owned()).is_ok());
    assert!(codemie_gitops::preflight::check_compatibility("0.16.0".to_owned()).is_err());
}

#[test]
fn file_visitor_counts_and_filters() {
    let mut visitor = FileVisitor::new();
    assert_eq!(visitor.visit(false, Some("yaml")).unwrap(), true);
    assert_eq!(visitor.visit(false, Some("yml")).unwrap(), true);
    assert_eq!(visitor.visit(false, Some("md")).unwrap(), false);
    assert_eq!(visitor.visit(true, Some("yaml")).unwrap(), false);
    assert_eq!(visitor.visit(false, None).unwrap(), false);
    assert!(codemie_gitops::discovery::is_skipped_directory(Some(".git")));
    assert!(!codemie_gitops::discovery::is_skipped_directory(Some("git")));
}

#[test]
fn cancellation_token_stops_work_once_cancelled() {
    let token = codemie_gitops::cancellation::CancellationToken::new();
    assert!(token.checkpoint().is_ok());
    let shared = token.clone();
    shared.cancel();
    assert!(token.is_cancelled());
    assert!(matches!(token.checkpoint(), Err(codemie_gitops::error::AppError::Timeout(_))));
}
