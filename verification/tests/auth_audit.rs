use luwiki_mcp::audit::{audit_result_from_error, denied_path_from_error, AuditResult};
use luwiki_mcp::auth::{parse_mcp_authorization, McpAuthErrorKind, McpAuthGateway, ParsedMcpAuthorization};
use luwiki_mcp::errors::{McpError, McpErrorCode, McpErrorResponse};
use luwiki_mcp::service::McpService;

fn error(code: McpErrorCode, message: &str) -> McpError {
    McpError::new(code, message.to_string())
}

#[test]
fn authenticate_rejects_missing_bearer_token() {
    let gateway = McpAuthGateway::new();
    let err = parse_mcp_authorization(None).expect_err("missing token must fail");

    assert_eq!(err.kind(), McpAuthErrorKind::MissingBearer);
    assert_eq!(err.message(), "missing bearer token for MCP");

    let _ = gateway;
}

#[test]
fn authenticate_rejects_invalid_bearer_format() {
    for value in ["Bearer", "Bearer token extra", ""] {
        let err = parse_mcp_authorization(Some(value))
            .expect_err("invalid bearer format must fail");
        assert_eq!(err.kind(), McpAuthErrorKind::InvalidBearerFormat);
    }
}

#[test]
fn audit_result_from_error_distinguishes_authorization_failure_kind() {
    let scope_denied = error(McpErrorCode::Forbidden, "required scope denied: update");
    let prefix_denied = error(McpErrorCode::Forbidden, "path prefix denied: /private");
    let read_only_denied = error(
        McpErrorCode::Forbidden,
        "read only denied: write operation is not allowed",
    );
    let root_denied = error(McpErrorCode::Forbidden, "operation is not allowed for root page");

    assert_eq!(audit_result_from_error(&scope_denied), AuditResult::ScopeDenied);
    assert_eq!(audit_result_from_error(&prefix_denied), AuditResult::PathPrefixDenied);
    assert_eq!(audit_result_from_error(&read_only_denied), AuditResult::ReadOnlyDenied);
    assert_eq!(audit_result_from_error(&root_denied), AuditResult::Unsupported);
}

#[test]
fn audit_result_from_error_maps_edit_page_consistency_failures() {
    let not_latest_revision = error(McpErrorCode::NotLatestRevision, "revision is not latest");
    let instance_id_not_match = error(
        McpErrorCode::InstanceIdNotMatch,
        "instance_id does not match latest content",
    );

    assert_eq!(audit_result_from_error(&not_latest_revision), AuditResult::Conflict);
    assert_eq!(audit_result_from_error(&instance_id_not_match), AuditResult::Conflict);
}

#[test]
fn mcp_error_response_preserves_edit_page_error_codes() {
    let not_latest_revision = McpErrorResponse::from(error(
        McpErrorCode::NotLatestRevision,
        "revision is not latest",
    ));
    let instance_id_not_match = McpErrorResponse::from(error(
        McpErrorCode::InstanceIdNotMatch,
        "instance_id does not match latest content",
    ));

    assert_eq!(not_latest_revision.code(), "not_latest_revision");
    assert_eq!(instance_id_not_match.code(), "instance_id_not_match");
}

#[test]
fn unsupported_operations_return_unsupported_code() {
    let service = McpService::new();

    let deleted = service
        .get_deleted_page("/mcp/deleted")
        .expect_err("deleted page request must fail");
    let restore = service
        .restore_page("/mcp/deleted", "/mcp/restored")
        .expect_err("restore request must fail");
    let asset = service
        .asset_operation("/mcp/page")
        .expect_err("asset operation must fail");
    let lock = service
        .lock_operation("/mcp/page")
        .expect_err("lock operation must fail");

    assert_eq!(deleted.code(), McpErrorCode::Unsupported);
    assert_eq!(restore.code(), McpErrorCode::Unsupported);
    assert_eq!(asset.code(), McpErrorCode::Unsupported);
    assert_eq!(lock.code(), McpErrorCode::Unsupported);
}

#[test]
fn bearer_authorization_yields_its_token() {
    match parse_mcp_authorization(Some("Bearer abc.def")) {
        Ok(ParsedMcpAuthorization::Bearer(token)) => assert_eq!(token, "abc.def"),
        _ => panic!("bearer value must parse"),
    }
}

#[test]
fn basic_authorization_is_an_unsupported_scheme() {
    assert_eq!(
        parse_mcp_authorization(Some("basic dGVzdA==")).ok(),
        Some(ParsedMcpAuthorization::Basic)
    );
    let err = McpAuthGateway::new()
        .bearer_token(Some("Basic dGVzdA=="))
        .expect_err("basic must fail");
    assert_eq!(err.kind(), McpAuthErrorKind::UnsupportedScheme);
    assert_eq!(err.message(), "basic authorization is not supported for MCP");
}

#[test]
fn error_response_keeps_message_and_spells_every_code() {
    let response = McpErrorResponse::from_error(error(McpErrorCode::NotFound, "page not found"));
    assert_eq!(response.code(), "not_found");
    assert_eq!(response.message(), "page not found");
    assert_eq!(McpErrorCode::Forbidden.as_str(), "forbidden");
    assert_eq!(McpErrorCode::Conflict.as_str(), "conflict");
    assert_eq!(McpErrorCode::InvalidInput.as_str(), "invalid_input");
    assert_eq!(McpErrorCode::Unsupported.as_str(), "unsupported");
    assert_eq!(McpErrorCode::InternalError.as_str(), "internal_error");
}

#[test]
fn other_errors_map_to_their_audit_results() {
    assert_eq!(
        audit_result_from_error(&error(McpErrorCode::NotFound, "page not found")),
        AuditResult::NotFound
    );
    assert_eq!(
        audit_result_from_error(&error(McpErrorCode::Conflict, "page already exists")),
        AuditResult::Conflict
    );
    assert_eq!(
        audit_result_from_error(&error(McpErrorCode::InvalidInput, "bad path")),
        AuditResult::InvalidInput
    );
    assert_eq!(
        denied_path_from_error(&error(McpErrorCode::Forbidden, "path prefix denied: /private")),
        Some("/private".to_string())
    );
    assert_eq!(
        denied_path_from_error(&error(McpErrorCode::Forbidden, "required scope denied: update")),
        None
    );
}
