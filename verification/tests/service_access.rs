use luwiki_mcp::access::{AuthContext, BearerScope, McpOperation, UserAttribute};
use luwiki_mcp::errors::McpErrorCode;
use luwiki_mcp::paths::path_matches_prefix_exec as path_matches_prefix;
use luwiki_mcp::service::{McpService, PrefixFilterMode};

fn auth_with(scopes: Vec<BearerScope>, prefixes: Vec<&str>) -> AuthContext {
    AuthContext::new(
        "alice".to_string(),
        scopes,
        prefixes.into_iter().map(|p| p.to_string()).collect(),
        None,
    )
}

#[test]
fn operation_scope_follows_required_scope_table() {
    let service = McpService::new();
    let auth = auth_with(vec![BearerScope::Write], vec![]);

    assert!(service.ensure_operation_scope(&auth, McpOperation::GetPage).is_ok());
    assert_eq!(McpOperation::ListPrompts.required_scope(), BearerScope::Read);
    assert!(!McpOperation::ListPrompts.is_write());
    assert_eq!(McpOperation::ListResources.required_scope(), BearerScope::Read);
    assert!(!McpOperation::ListResources.is_write());
    assert_eq!(McpOperation::GetPrompt.required_scope(), BearerScope::Read);
    assert!(!McpOperation::GetPrompt.is_write());
    assert!(service.ensure_operation_scope(&auth, McpOperation::CreatePage).is_ok());
    assert!(service.ensure_operation_scope(&auth, McpOperation::UpdatePage).is_ok());
    assert!(service.ensure_operation_scope(&auth, McpOperation::AppendPage).is_ok());
    assert!(service.ensure_operation_scope(&auth, McpOperation::DeletePage).is_ok());
}

#[test]
fn operation_scope_rejects_insufficient_decomposed_scope() {
    let service = McpService::new();
    let append_only = auth_with(vec![BearerScope::Append], vec![]);
    let update_only = auth_with(vec![BearerScope::Update], vec![]);

    let update_err = service
        .ensure_operation_scope(&append_only, McpOperation::UpdatePage)
        .expect_err("append only must not allow update");
    let append_err = service
        .ensure_operation_scope(&update_only, McpOperation::AppendPage)
        .expect_err("update only must not allow append");

    assert_eq!(update_err.code(), McpErrorCode::Forbidden);
    assert_eq!(append_err.code(), McpErrorCode::Forbidden);
}

#[test]
fn operation_scope_rejects_read_only_user_only_for_write_operations() {
    let service = McpService::new();
    let auth = AuthContext::new_with_attributes(
        "alice".to_string(),
        vec![BearerScope::Write],
        vec![],
        vec![UserAttribute::ReadOnly],
        None,
        None,
    );

    assert!(service.ensure_operation_scope(&auth, McpOperation::GetPage).is_ok());

    let err = service
        .ensure_operation_scope(&auth, McpOperation::UpdatePage)
        .expect_err("read only user must not allow update");

    assert_eq!(err.code(), McpErrorCode::Forbidden);
    assert_eq!(err.message(), "read only denied: write operation is not allowed");
}

#[test]
fn scope_denial_names_the_required_scope() {
    let service = McpService::new();
    let auth = auth_with(vec![BearerScope::Read], vec![]);
    let err = service
        .ensure_operation_scope(&auth, McpOperation::EditPage)
        .expect_err("read only scope must not allow edit");
    assert_eq!(err.code(), McpErrorCode::Forbidden);
    assert_eq!(err.message(), "required scope denied: update");
}

#[test]
fn path_prefix_matches_boundary_only() {
    assert!(path_matches_prefix("/docs", "/docs"));
    assert!(path_matches_prefix("/docs/a", "/docs"));
    assert!(!path_matches_prefix("/docs2", "/docs"));
}

#[test]
fn root_prefix_matches_every_path() {
    assert!(path_matches_prefix("/anything/below", "/"));
    assert!(path_matches_prefix("/", "/"));
}

#[test]
fn validate_and_normalize_path_trims_non_root_trailing_slash() {
    let service = McpService::new();

    assert_eq!(
        service.validate_and_normalize_path("/docs/topic/").expect("normalize failed"),
        "/docs/topic",
    );
    assert_eq!(service.validate_and_normalize_path("/").expect("root normalize failed"), "/");
}

#[test]
fn validate_and_normalize_path_rejects_dot_segments() {
    let service = McpService::new();

    let err = service
        .validate_and_normalize_path("/docs/../private")
        .expect_err("dot segment must fail");

    assert_eq!(err.code(), McpErrorCode::InvalidInput);
}

#[test]
fn validate_and_normalize_path_reports_each_refusal() {
    let service = McpService::new();
    let relative = service.validate_and_normalize_path("docs").expect_err("relative must fail");
    assert_eq!(relative.code(), McpErrorCode::InvalidInput);
    assert_eq!(relative.message(), "path must be absolute");
    let backslash = service.validate_and_normalize_path("/docs\\a").expect_err("backslash must fail");
    assert_eq!(backslash.message(), "path contains invalid character");
    let dot = service.validate_and_normalize_path("/docs/.").expect_err("dot must fail");
    assert_eq!(dot.message(), "path must not contain '.' or '..' segments");
    assert_eq!(service.validate_and_normalize_path("/docs/.hidden/").unwrap(), "/docs/.hidden");
}

#[test]
fn resolve_prefix_request_denies_outside_prefix() {
    let service = McpService::new();
    let auth = auth_with(vec![BearerScope::Read], vec!["/docs"]);

    let err = service
        .resolve_list_prefix_request(&auth, Some("/private"))
        .expect_err("outside prefix must fail");

    assert_eq!(err.code(), McpErrorCode::Forbidden);
    assert_eq!(err.message(), "path prefix denied: /private");
}

#[test]
fn filter_authorized_paths_keeps_only_allowed_paths() {
    let service = McpService::new();
    let auth = auth_with(vec![BearerScope::Read], vec!["/docs"]);

    let filtered =
        service.filter_authorized_paths(&auth, vec!["/docs", "/docs/a", "/private", "/docs2"]);

    assert_eq!(filtered, vec!["/docs", "/docs/a"]);
}

#[test]
fn rename_requires_both_source_and_destination_in_prefix() {
    let service = McpService::new();
    let auth = auth_with(vec![BearerScope::Update], vec!["/docs"]);

    assert!(service.ensure_rename_authorized(&auth, "/docs/a", "/docs/b").is_ok());

    let err = service
        .ensure_rename_authorized(&auth, "/docs/a", "/private/b")
        .expect_err("outside destination must fail");
    assert_eq!(err.code(), McpErrorCode::Forbidden);
}

#[test]
fn search_prefix_request_uses_search_scope_and_prefix_filter() {
    let service = McpService::new();
    let auth = auth_with(vec![BearerScope::Read], vec!["/docs"]);

    let resolved = service
        .resolve_search_prefix_request(&auth, Some("/docs"))
        .expect("search prefix resolve failed");
    let filtered = service.filter_paths_for_prefix_request(
        &auth,
        &resolved,
        vec!["/docs", "/docs/a", "/private", "/docs2"],
    );

    assert_eq!(filtered, vec!["/docs", "/docs/a"]);
}

#[test]
fn resolve_prefix_request_normalizes_trailing_slash() {
    let service = McpService::new();
    let auth = auth_with(vec![BearerScope::Read], vec!["/docs"]);

    let resolved = service
        .resolve_list_prefix_request(&auth, Some("/docs/"))
        .expect("prefix normalize failed");

    assert_eq!(resolved.requested_prefix(), Some("/docs"));
    assert_eq!(resolved.filter_mode(), &PrefixFilterMode::DescendantsOf("/docs".to_string()));
}

#[test]
fn resolve_prefix_request_without_prefix_admits_everything() {
    let service = McpService::new();
    let auth = auth_with(vec![], vec!["/docs"]);
    let resolved = service.resolve_list_prefix_request(&auth, None).expect("no prefix is fine");
    assert_eq!(resolved.requested_prefix(), None);
    assert!(service.matches_requested_prefix(&resolved, "/private"));
}

#[test]
fn ensure_all_path_prefixes_reports_first_refusal() {
    let service = McpService::new();
    let auth = auth_with(vec![BearerScope::Read], vec!["/docs"]);
    let err = service
        .ensure_all_path_prefixes_allowed(&auth, &["/docs/a", "/x", "/y"])
        .expect_err("second path is outside");
    assert_eq!(err.message(), "path prefix denied: /x");
    assert!(service.ensure_all_path_prefixes_allowed(&auth, &["/docs", "/docs/z"]).is_ok());
}

#[test]
fn resolve_limit_applies_default_and_bounds() {
    let service = McpService::new();
    assert_eq!(service.resolve_limit(None, 50).unwrap(), 50);
    assert_eq!(service.resolve_limit(Some(100), 50).unwrap(), 100);
    let zero = service.resolve_limit(Some(0), 50).expect_err("zero must fail");
    assert_eq!(zero.code(), McpErrorCode::InvalidInput);
    assert_eq!(zero.message(), "limit must be between 1 and 100");
    assert!(service.resolve_limit(Some(101), 50).is_err());
}
