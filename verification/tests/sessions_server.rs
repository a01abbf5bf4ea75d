use luwiki_mcp::errors::{McpError, McpErrorCode};
use luwiki_mcp::model::{ListPromptsServiceResult, PromptListArgument, PromptListItem};
use luwiki_mcp::server::{
    get_prompt_protocol_error, list_prompt_protocol_error, list_resource_protocol_error,
    prompt_listing, read_resource_protocol_error, LuwikiMcpServer, ProtocolErrorKind,
};
use luwiki_mcp::sessions::{ManagedSessionManager, SessionManagerConfig};

fn manager(idle_ttl_ms: u64, max_sessions: usize) -> ManagedSessionManager {
    ManagedSessionManager::new_with_config(SessionManagerConfig::new(idle_ttl_ms, 300_000, max_sessions))
}

#[test]
fn create_session_registers_metadata() {
    let mut m = manager(300_000, 4);
    m.insert_metadata("s1".to_string(), 1_000);
    assert!(m.has_session("s1"));
    assert_eq!(m.open_count(), 1);
}

#[test]
fn has_session_does_not_touch_last_access() {
    let mut m = manager(300_000, 4);
    m.insert_metadata("s1".to_string(), 1_000);
    assert!(m.has_session("s1"));
    // Still idle since 1_000: at 301_000 it has idled for the whole limit.
    assert_eq!(m.collect_expired_sessions(301_000), vec!["s1".to_string()]);
    m.touch_session("s1", 200_000);
    assert!(m.collect_expired_sessions(301_000).is_empty());
}

#[test]
fn sweep_closes_expired_session() {
    let mut m = manager(50, 4);
    m.insert_metadata("old".to_string(), 0);
    m.insert_metadata("new".to_string(), 990);
    let expired = m.collect_expired_sessions(1_000);
    assert_eq!(expired, vec!["old".to_string()]);
    for id in expired {
        assert!(m.begin_close(&id));
        m.remove_metadata(&id);
    }
    assert!(!m.has_session("old"));
    assert!(m.has_session("new"));
}

#[test]
fn create_session_evicts_lru() {
    let mut m = manager(300_000, 1);
    m.insert_metadata("first".to_string(), 10);
    assert_eq!(m.evict_lru_if_needed(), Some("first".to_string()));
    assert!(m.begin_close("first"));
    assert_eq!(m.evict_lru_if_needed(), None);
    m.remove_metadata("first");
    m.insert_metadata("second".to_string(), 20);
    assert!(!m.has_session("first"));
    assert!(m.has_session("second"));
}

#[test]
fn lru_prefers_older_use_then_older_creation() {
    let mut m = manager(300_000, 8);
    m.insert_metadata("a".to_string(), 5);
    m.insert_metadata("b".to_string(), 3);
    m.insert_metadata("c".to_string(), 4);
    m.touch_session("b", 9);
    assert_eq!(m.select_lru_session(), Some("c".to_string()));
    m.touch_session("c", 9);
    m.touch_session("a", 9);
    // All last used at 9: the one created first goes first.
    assert_eq!(m.select_lru_session(), Some("b".to_string()));
    assert_eq!(m.evict_lru_if_needed(), None);
}

#[test]
fn close_goes_on_once_and_closing_sessions_are_not_touched() {
    let mut m = manager(100, 4);
    m.insert_metadata("s".to_string(), 0);
    assert!(m.begin_close("s"));
    assert!(!m.begin_close("s"));
    assert!(!m.has_session("s"));
    m.touch_session("s", 50);
    // A closing session is neither open nor expired.
    assert!(m.collect_expired_sessions(1_000).is_empty());
    assert_eq!(m.select_lru_session(), None);
    assert_eq!(m.open_count(), 0);
    assert!(!m.begin_close("unknown"));
}

#[test]
fn default_session_limits() {
    let c = SessionManagerConfig::default();
    assert_eq!(c.idle_ttl_ms, 30 * 60 * 1000);
    assert_eq!(c.sweep_interval_ms, 60 * 1000);
    assert_eq!(c.max_sessions, 64);
    assert_eq!(ManagedSessionManager::new().config(), c);
}

#[test]
fn capabilities_follow_index_readiness() {
    let both = LuwikiMcpServer::new(Some(true), Some(true)).build_capabilities();
    assert!(both.tools && both.prompts && both.resources);
    let none = LuwikiMcpServer::new(Some(false), None).build_capabilities();
    assert!(none.tools && !none.prompts && !none.resources);
    let prompts_only = LuwikiMcpServer::new(Some(true), Some(false)).build_capabilities();
    assert!(prompts_only.prompts && !prompts_only.resources);
}

fn err(code: McpErrorCode, message: &str) -> McpError {
    McpError::new(code, message.to_string())
}

#[test]
fn listing_errors_map_to_protocol_errors() {
    let forbidden = list_resource_protocol_error(err(McpErrorCode::Forbidden, "required scope denied: read"));
    assert_eq!(forbidden.kind, ProtocolErrorKind::InvalidRequest);
    assert_eq!(forbidden.message, "operation is not allowed");
    assert_eq!(forbidden.data_code.as_deref(), Some("forbidden"));
    let cursor = list_prompt_protocol_error(err(McpErrorCode::InvalidInput, "cursor is bad"));
    assert_eq!(cursor.kind, ProtocolErrorKind::InvalidParams);
    assert_eq!(cursor.message, "cursor is invalid");
    assert_eq!(cursor.data_code.as_deref(), Some("invalid_input"));
    let other = list_prompt_protocol_error(err(McpErrorCode::Conflict, "x"));
    assert_eq!(other.kind, ProtocolErrorKind::InternalError);
    assert_eq!(other.message, "internal error");
    assert_eq!(other.data_code.as_deref(), Some("internal_error"));
}

#[test]
fn read_and_get_errors_map_to_protocol_errors() {
    let missing = read_resource_protocol_error(err(McpErrorCode::NotFound, "resource not found: x"));
    assert_eq!(missing.kind, ProtocolErrorKind::InvalidParams);
    assert_eq!(missing.message, "resource not found");
    assert_eq!(missing.data_code.as_deref(), Some("not_found"));
    let bad_uri = read_resource_protocol_error(err(McpErrorCode::InvalidInput, "bad"));
    assert_eq!(bad_uri.message, "resource uri is invalid");
    let no_prompt = get_prompt_protocol_error(err(McpErrorCode::NotFound, "prompt not found: p"));
    assert_eq!(no_prompt.message, "prompt not found");
    let bad_arg = get_prompt_protocol_error(err(McpErrorCode::InvalidInput, "missing required argument: topic"));
    assert_eq!(bad_arg.kind, ProtocolErrorKind::InvalidParams);
    assert_eq!(bad_arg.message, "missing required argument: topic");
    assert_eq!(bad_arg.data_code.as_deref(), Some("invalid_input"));
    let refused = get_prompt_protocol_error(err(McpErrorCode::Forbidden, "no"));
    assert_eq!(refused.kind, ProtocolErrorKind::InvalidRequest);
}

#[test]
fn prompt_listing_leaves_out_empty_argument_lists() {
    let result = ListPromptsServiceResult::new(
        vec![
            PromptListItem::new("plain".to_string(), "no arguments".to_string(), vec![]),
            PromptListItem::new(
                "summary".to_string(),
                "summarize".to_string(),
                vec![PromptListArgument::new("topic".to_string(), "what".to_string(), Some(true))],
            ),
        ],
        Some("summary".to_string()),
    );
    let listing = prompt_listing(result);
    assert_eq!(listing.prompts.len(), 2);
    assert_eq!(listing.prompts[0].name, "plain");
    assert_eq!(listing.prompts[0].arguments, None);
    let args = listing.prompts[1].arguments.as_ref().expect("arguments");
    assert_eq!(args[0].name, "topic");
    assert_eq!(args[0].required, Some(true));
    assert_eq!(listing.next_cursor.as_deref(), Some("summary"));
}
