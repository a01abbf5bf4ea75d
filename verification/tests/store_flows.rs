use luwiki_mcp::access::{AuthContext, BearerScope};
use luwiki_mcp::audit::{AuditOperation, AuditResult};
use luwiki_mcp::errors::McpErrorCode;
use luwiki_mcp::handler::{HandlerStep, McpHandler};
use luwiki_mcp::auth::McpAuthGateway;
use luwiki_mcp::pages::PageIndex;
use luwiki_mcp::service::McpService;
use luwiki_mcp::store::{
    AppendConflictState, AppendPageResult, OpStep, PageListEntry, PageSource, StoreError,
    StoreErrorKind, StoreReply, StoreRequest,
};

fn reader() -> AuthContext {
    AuthContext::new("alice".to_string(), vec![BearerScope::Read], vec![], Some("tok".to_string()))
}

fn writer() -> AuthContext {
    AuthContext::new("alice".to_string(), vec![BearerScope::Write], vec![], None)
}

fn page_id(id: &str) -> StoreReply {
    StoreReply::PageId(Ok(Some(id.to_string())))
}

fn page_index(path: &str, latest: u64) -> StoreReply {
    StoreReply::PageIndex(Ok(Some(PageIndex::new(Some(path.to_string()), false, latest))))
}

fn source(text: &str, instance: &str) -> StoreReply {
    StoreReply::PageSource(Ok(Some(PageSource {
        source: text.to_string(),
        instance_id: Some(instance.to_string()),
    })))
}

#[test]
fn get_page_asks_for_id_index_and_source_in_turn() {
    let service = McpService::new();
    let auth = reader();
    let mut replies: Vec<StoreReply> = Vec::new();

    match service.get_page(&auth, "/docs/a/", None, &replies) {
        OpStep::Ask(StoreRequest::PageId { path }) => assert_eq!(path, "/docs/a"),
        other => panic!("unexpected step: {:?}", other),
    }
    replies.push(page_id("p1"));
    match service.get_page(&auth, "/docs/a/", None, &replies) {
        OpStep::Ask(StoreRequest::PageIndex { page_id }) => assert_eq!(page_id, "p1"),
        other => panic!("unexpected step: {:?}", other),
    }
    replies.push(page_index("/docs/a", 3));
    match service.get_page(&auth, "/docs/a/", None, &replies) {
        OpStep::Ask(StoreRequest::PageSource { page_id, revision }) => {
            assert_eq!(page_id, "p1");
            assert_eq!(revision, 3);
        },
        other => panic!("unexpected step: {:?}", other),
    }
    replies.push(source("# A\n\nbody\n", "inst-3"));
    match service.get_page(&auth, "/docs/a/", None, &replies) {
        OpStep::Done(Ok(page)) => {
            assert_eq!(page.path, "/docs/a");
            assert_eq!(page.revision, 3);
            assert_eq!(page.instance_id, "inst-3");
            assert_eq!(page.content, "# A\n\nbody\n");
        },
        other => panic!("unexpected step: {:?}", other),
    }
}

#[test]
fn get_page_reports_missing_deleted_and_zero_revision() {
    let service = McpService::new();
    let auth = reader();

    let missing = vec![StoreReply::PageId(Ok(None))];
    match service.get_page(&auth, "/docs/a", None, &missing) {
        OpStep::Done(Err(e)) => {
            assert_eq!(e.code(), McpErrorCode::NotFound);
            assert_eq!(e.message(), "page not found: /docs/a");
        },
        other => panic!("unexpected step: {:?}", other),
    }

    let deleted = vec![page_id("p1"), StoreReply::PageIndex(Ok(Some(PageIndex::new(None, false, 2))))];
    match service.get_page(&auth, "/docs/a", None, &deleted) {
        OpStep::Done(Err(e)) => {
            assert_eq!(e.code(), McpErrorCode::NotFound);
            assert_eq!(e.message(), "deleted page is not available: /docs/a");
        },
        other => panic!("unexpected step: {:?}", other),
    }

    let found = vec![page_id("p1"), page_index("/docs/a", 2)];
    match service.get_page(&auth, "/docs/a", Some(0), &found) {
        OpStep::Done(Err(e)) => {
            assert_eq!(e.code(), McpErrorCode::InvalidInput);
            assert_eq!(e.message(), "revision must be greater than zero");
        },
        other => panic!("unexpected step: {:?}", other),
    }

    let wrong = vec![StoreReply::Waited];
    match service.get_page(&auth, "/docs/a", None, &wrong) {
        OpStep::Done(Err(e)) => assert_eq!(e.code(), McpErrorCode::InternalError),
        other => panic!("unexpected step: {:?}", other),
    }
}

#[test]
fn create_page_writes_then_reads_back_the_instance_id() {
    let service = McpService::new();
    let auth = writer();
    let mut replies: Vec<StoreReply> = Vec::new();

    match service.create_page(&auth, "/docs/new", "hello", &replies) {
        OpStep::Ask(StoreRequest::CreatePage { path, user_name, content }) => {
            assert_eq!(path, "/docs/new");
            assert_eq!(user_name, "alice");
            assert_eq!(content, "hello");
        },
        other => panic!("unexpected step: {:?}", other),
    }
    replies.push(StoreReply::Written(Ok(())));
    replies.push(page_id("p9"));
    match service.create_page(&auth, "/docs/new", "hello", &replies) {
        OpStep::Ask(StoreRequest::PageSource { page_id, revision }) => {
            assert_eq!(page_id, "p9");
            assert_eq!(revision, 1);
        },
        other => panic!("unexpected step: {:?}", other),
    }
    replies.push(source("hello", "inst-1"));
    match service.create_page(&auth, "/docs/new", "hello", &replies) {
        OpStep::Done(Ok(w)) => {
            assert_eq!(w.path, "/docs/new");
            assert_eq!(w.revision, 1);
            assert_eq!(w.instance_id, "inst-1");
            assert_eq!(w.summary, "page created");
        },
        other => panic!("unexpected step: {:?}", other),
    }

    match service.create_page(&auth, "/", "hello", &[]) {
        OpStep::Done(Err(e)) => {
            assert_eq!(e.code(), McpErrorCode::Forbidden);
            assert_eq!(e.message(), "operation is not allowed for root page");
        },
        other => panic!("unexpected step: {:?}", other),
    }

    let exists = vec![StoreReply::Written(Err(StoreError::new(
        StoreErrorKind::PageAlreadyExists,
        "exists".to_string(),
    )))];
    match service.create_page(&auth, "/docs/new", "hello", &exists) {
        OpStep::Done(Err(e)) => assert_eq!(e.code(), McpErrorCode::Conflict),
        other => panic!("unexpected step: {:?}", other),
    }
}

#[test]
fn update_page_checks_the_lock_and_saves_the_next_revision() {
    let service = McpService::new();
    let auth = writer();
    let mut replies = vec![page_id("p1"), page_index("/docs/a", 4)];

    match service.update_page(&auth, "/docs/a", "new text", &replies) {
        OpStep::Ask(StoreRequest::LockInfo { page_id }) => assert_eq!(page_id, "p1"),
        other => panic!("unexpected step: {:?}", other),
    }
    let mut locked = replies.clone_replies();
    locked.push(StoreReply::LockInfo(Ok(true)));
    match service.update_page(&auth, "/docs/a", "new text", &locked) {
        OpStep::Done(Err(e)) => {
            assert_eq!(e.code(), McpErrorCode::Conflict);
            assert_eq!(e.message(), "page is locked");
        },
        other => panic!("unexpected step: {:?}", other),
    }
    replies.push(StoreReply::LockInfo(Ok(false)));
    match service.update_page(&auth, "/docs/a", "new text", &replies) {
        OpStep::Ask(StoreRequest::PutPage { page_id, user_name, content }) => {
            assert_eq!(page_id, "p1");
            assert_eq!(user_name, "alice");
            assert_eq!(content, "new text");
        },
        other => panic!("unexpected step: {:?}", other),
    }
    replies.push(StoreReply::Written(Ok(())));
    replies.push(source("new text", "inst-5"));
    match service.update_page(&auth, "/docs/a", "new text", &replies) {
        OpStep::Done(Ok(w)) => {
            assert_eq!(w.revision, 5);
            assert_eq!(w.instance_id, "inst-5");
            assert_eq!(w.summary, "page updated");
        },
        other => panic!("unexpected step: {:?}", other),
    }
}

trait CloneReplies {
    fn clone_replies(&self) -> Vec<StoreReply>;
}

impl CloneReplies for Vec<StoreReply> {
    fn clone_replies(&self) -> Vec<StoreReply> {
        self.iter()
            .map(|r| match r {
                StoreReply::PageId(Ok(v)) => StoreReply::PageId(Ok(v.clone())),
                StoreReply::PageIndex(Ok(Some(i))) => StoreReply::PageIndex(Ok(Some(PageIndex::new(
                    i.current_path.clone(),
                    i.draft,
                    i.latest,
                )))),
                StoreReply::LockInfo(Ok(b)) => StoreReply::LockInfo(Ok(*b)),
                _ => panic!("reply not cloned in this test"),
            })
            .collect()
    }
}

#[test]
fn append_page_amends_the_users_own_latest_revision() {
    let service = McpService::new();
    let auth = writer();
    let mut replies = vec![page_id("p1"), page_index("/docs/a", 2)];

    match service.append_page(&auth, "/docs/a", " more", &replies) {
        OpStep::Ask(StoreRequest::UserId { user_name }) => assert_eq!(user_name, "alice"),
        other => panic!("unexpected step: {:?}", other),
    }
    replies.push(StoreReply::UserId(Ok(Some("u1".to_string()))));
    replies.push(StoreReply::AppendState {
        answer: Ok(Some(AppendConflictState {
            draft: false,
            locked: false,
            latest_revision: Some(2),
            latest_user_id: Some("u1".to_string()),
        })),
        elapsed_ms: 0,
    });
    replies.push(source("base", "inst-2"));
    match service.append_page(&auth, "/docs/a", " more", &replies) {
        OpStep::Ask(StoreRequest::AppendPage { page_id, source, base_revision, allow_amend, .. }) => {
            assert_eq!(page_id, "p1");
            assert_eq!(source, "base more");
            assert_eq!(base_revision, 2);
            assert!(allow_amend);
        },
        other => panic!("unexpected step: {:?}", other),
    }
    replies.push(StoreReply::Appended {
        answer: Ok(AppendPageResult { revision: 2, amended: true }),
        elapsed_ms: 3,
    });
    replies.push(source("base more", "inst-2b"));
    match service.append_page(&auth, "/docs/a", " more", &replies) {
        OpStep::Done(Ok(a)) => {
            assert_eq!(a.path, "/docs/a");
            assert_eq!(a.revision, 2);
            assert_eq!(a.instance_id, "inst-2b");
            assert_eq!(a.summary, "page appended (amended)");
            assert!(a.amended);
        },
        other => panic!("unexpected step: {:?}", other),
    }
}

#[test]
fn append_page_waits_while_locked_and_gives_up_after_the_timeout() {
    let service = McpService::new();
    let auth = writer();
    let locked = |elapsed_ms: u64| StoreReply::AppendState {
        answer: Ok(Some(AppendConflictState {
            draft: false,
            locked: true,
            latest_revision: Some(2),
            latest_user_id: None,
        })),
        elapsed_ms,
    };
    let mut replies = vec![
        page_id("p1"),
        page_index("/docs/a", 2),
        StoreReply::UserId(Ok(Some("u1".to_string()))),
        locked(10),
    ];
    match service.append_page(&auth, "/docs/a", "x", &replies) {
        OpStep::Ask(StoreRequest::Wait { millis }) => assert_eq!(millis, 50),
        other => panic!("unexpected step: {:?}", other),
    }
    replies.push(StoreReply::Waited);
    replies.push(locked(1000));
    match service.append_page(&auth, "/docs/a", "x", &replies) {
        OpStep::Done(Err(e)) => {
            assert_eq!(e.code(), McpErrorCode::Conflict);
            assert_eq!(e.message(), "page is locked");
        },
        other => panic!("unexpected step: {:?}", other),
    }

    let empty = vec![page_id("p1"), page_index("/docs/a", 2)];
    match service.append_page(&auth, "/docs/a", "", &empty) {
        OpStep::Done(Err(e)) => assert_eq!(e.code(), McpErrorCode::InvalidInput),
        other => panic!("unexpected step: {:?}", other),
    }
}

#[test]
fn list_pages_keeps_visible_pages_in_path_order() {
    let service = McpService::new();
    let auth = reader();
    let entry = |path: &str, deleted: bool, draft: bool, rev: u64| PageListEntry {
        path: path.to_string(),
        deleted,
        draft,
        latest_revision: rev,
        updated_at: "2025-01-01T00:00:00+09:00".to_string(),
        user_name: "alice".to_string(),
    };
    match service.list_pages(&auth, "/docs", Some(2), None, &[]) {
        OpStep::Ask(StoreRequest::ListEntries { prefix }) => assert_eq!(prefix, "/docs"),
        other => panic!("unexpected step: {:?}", other),
    }
    let replies = vec![StoreReply::Entries(Ok(vec![
        entry("/docs/c", false, false, 1),
        entry("/docs/a", false, false, 4),
        entry("/docs/b", true, false, 2),
        entry("/docs/d", false, true, 1),
        entry("/docs", false, false, 7),
    ]))];
    match service.list_pages(&auth, "/docs", Some(2), None, &replies) {
        OpStep::Done(Ok(list)) => {
            let paths: Vec<&str> = list.items.iter().map(|i| i.path.as_str()).collect();
            assert_eq!(paths, vec!["/docs", "/docs/a"]);
            assert!(list.has_more);
            assert_eq!(list.next_cursor.as_deref(), Some("/docs/a"));
            assert_eq!(list.items[1].revision, 4);
        },
        other => panic!("unexpected step: {:?}", other),
    }
    match service.list_pages(&auth, "/docs", Some(2), Some("/docs/a"), &replies) {
        OpStep::Done(Ok(list)) => {
            let paths: Vec<&str> = list.items.iter().map(|i| i.path.as_str()).collect();
            assert_eq!(paths, vec!["/docs/c"]);
            assert!(!list.has_more);
            assert_eq!(list.next_cursor, None);
        },
        other => panic!("unexpected step: {:?}", other),
    }
}

#[test]
fn handle_get_page_audits_success_and_failure() {
    let handler = McpHandler::new(McpAuthGateway::new(), McpService::new(), true);
    let auth = reader();
    let replies = vec![page_id("p1"), page_index("/docs/a", 3), source("text", "inst-3")];

    match handler.handle_get_page(&auth, "/docs/a", None, &replies, None) {
        HandlerStep::Ask(StoreRequest::AuditUserId { user_name }) => assert_eq!(user_name, "alice"),
        other => panic!("unexpected step: {:?}", other),
    }
    let user = StoreReply::UserId(Ok(Some("u1".to_string())));
    match handler.handle_get_page(&auth, "/docs/a", None, &replies, Some(&user)) {
        HandlerStep::Done(Ok(page), Some(record)) => {
            assert_eq!(page.content, "text");
            assert_eq!(record.operation, AuditOperation::Get);
            assert_eq!(record.user_id, "u1");
            assert_eq!(record.token_id.as_deref(), Some("tok"));
            assert_eq!(record.target_path.as_deref(), Some("/docs/a"));
            assert_eq!(record.result, AuditResult::Success);
            assert_eq!(record.revision, Some(3));
        },
        other => panic!("unexpected step: {:?}", other),
    }

    let limited = AuthContext::new(
        "alice".to_string(),
        vec![BearerScope::Read],
        vec!["/docs".to_string()],
        None,
    );
    match handler.handle_get_page(&limited, "/private/x", None, &[], Some(&user)) {
        HandlerStep::Done(Err(e), Some(record)) => {
            assert_eq!(e.code(), McpErrorCode::Forbidden);
            assert_eq!(record.result, AuditResult::PathPrefixDenied);
            assert_eq!(record.target_path.as_deref(), Some("/private/x"));
            assert_eq!(record.summary.as_deref(), Some(e.message()));
            assert_eq!(record.revision, None);
        },
        other => panic!("unexpected step: {:?}", other),
    }

    let nobody = StoreReply::UserId(Ok(None));
    match handler.handle_get_page(&auth, "/docs/a", None, &replies, Some(&nobody)) {
        HandlerStep::Done(Ok(_), None) => {},
        other => panic!("unexpected step: {:?}", other),
    }
    let quiet = McpHandler::new(McpAuthGateway::new(), McpService::new(), false);
    match quiet.handle_get_page(&auth, "/docs/a", None, &replies, Some(&user)) {
        HandlerStep::Done(Ok(_), None) => {},
        other => panic!("unexpected step: {:?}", other),
    }
}

#[test]
fn handle_rename_page_records_the_destination() {
    let handler = McpHandler::new(McpAuthGateway::new(), McpService::new(), true);
    let auth = writer();
    let denied = AuthContext::new("alice".to_string(), vec![BearerScope::Read], vec![], None);
    let user = StoreReply::UserId(Ok(Some("u1".to_string())));
    let found = vec![page_id("p1"), page_index("/docs/a", 2)];
    match handler.handle_rename_page(&denied, "/docs/a", "/docs/b", &found, Some(&user)) {
        HandlerStep::Done(Err(e), Some(record)) => {
            assert_eq!(e.code(), McpErrorCode::Forbidden);
            assert_eq!(record.operation, AuditOperation::Rename);
            assert_eq!(record.result, AuditResult::ScopeDenied);
            assert_eq!(record.target_path.as_deref(), Some("/docs/a"));
        },
        other => panic!("unexpected step: {:?}", other),
    }
    match handler.handle_rename_page(&auth, "/docs/a", "/docs/b", &[], None) {
        HandlerStep::Ask(StoreRequest::PageId { path }) => assert_eq!(path, "/docs/a"),
        other => panic!("unexpected step: {:?}", other),
    }
}

fn edit_request(revision: u64, instance_id: &str) -> luwiki_mcp::editing::EditPageRequest {
    luwiki_mcp::editing::EditPageRequest {
        path: "/docs/a".to_string(),
        revision,
        instance_id: instance_id.to_string(),
        operation: luwiki_mcp::editing::EditPageOperation::ReplaceText {
            old_text: "old".to_string(),
            new_text: "new".to_string(),
            occurrence: None,
        },
    }
}

#[test]
fn edit_page_refuses_a_stale_revision_before_writing() {
    let service = McpService::new();
    let auth = writer();
    let replies = vec![page_id("p1"), page_index("/docs/a", 3), source("old text", "inst-3")];
    match service.edit_page(&auth, &edit_request(2, "inst-3"), &replies) {
        OpStep::Done(Err(e)) => {
            assert_eq!(e.code(), McpErrorCode::NotLatestRevision);
            assert_eq!(e.message(), "revision is not latest");
        },
        other => panic!("unexpected step: {:?}", other),
    }
}

#[test]
fn edit_page_refuses_changed_content_before_writing() {
    let service = McpService::new();
    let auth = writer();
    let replies = vec![
        page_id("p1"),
        page_index("/docs/a", 3),
        source("old text", "inst-3"),
        source("old text", "inst-3b"),
    ];
    match service.edit_page(&auth, &edit_request(3, "inst-3"), &replies) {
        OpStep::Done(Err(e)) => {
            assert_eq!(e.code(), McpErrorCode::InstanceIdNotMatch);
            assert_eq!(e.message(), "instance_id does not match latest content");
        },
        other => panic!("unexpected step: {:?}", other),
    }
}

#[test]
fn edit_page_writes_the_edited_text() {
    let service = McpService::new();
    let auth = writer();
    let mut replies = vec![
        page_id("p1"),
        page_index("/docs/a", 3),
        source("old text, old", "inst-3"),
        source("old text, old", "inst-3"),
        StoreReply::LockInfo(Ok(false)),
    ];
    match service.edit_page(&auth, &edit_request(3, "inst-3"), &replies) {
        OpStep::Ask(StoreRequest::PutPage { page_id, user_name, content }) => {
            assert_eq!(page_id, "p1");
            assert_eq!(user_name, "alice");
            assert_eq!(content, "new text, old");
        },
        other => panic!("unexpected step: {:?}", other),
    }
    replies.push(StoreReply::Written(Ok(())));
    replies.push(source("new text, old", "inst-4"));
    match service.edit_page(&auth, &edit_request(3, "inst-3"), &replies) {
        OpStep::Done(Ok(r)) => {
            assert_eq!(r.revision, 4);
            assert_eq!(r.summary, "page edited");
        },
        other => panic!("unexpected step: {:?}", other),
    }
}
