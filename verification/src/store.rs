//! The conversation between the service layer and the page store.
//!
//! An operation that needs the store is a function of the replies it has
//! received so far: it either asks for the next request or finishes. The
//! caller performs each request and hands back the reply, so every decision
//! between two store calls is made, and verified, here.

use vstd::prelude::*;
use crate::errors::{ErrorView, McpError, McpErrorCode, err_view};
use crate::pages::PageIndex;
use crate::model::ResourceListItem;
use crate::prompts::{PromptCandidate, PromptSourceEntry};
use crate::resources::{ResourceCandidate, ResourceContents, ResourceLookup, candidate_key};

verus! {

/// The kind of a failure that the page store reports.
#[derive(Clone, Copy, Debug, PartialEq, Eq, Structural)]
pub enum StoreErrorKind {
    /// The page does not exist.
    PageNotFound,
    /// A page already exists at the path.
    PageAlreadyExists,
    /// The user does not exist.
    UserNotFound,
    /// Amending the latest revision is not allowed.
    AmendForbidden,
    /// The page is locked.
    PageLocked,
    /// The latest revision changed meanwhile.
    RevisionConflict,
    /// The destination of a move is not allowed.
    InvalidMoveDestination,
    /// The root page cannot be changed this way.
    RootPageProtected,
    /// The page is a draft.
    DraftPage,
    /// Any other failure.
    Other,
}

/// A failure of the page store: its kind and its text.
#[derive(Clone, Debug)]
pub struct StoreError {
    /// What failed.
    pub kind: StoreErrorKind,
    /// How the store describes it.
    pub message: String,
}

impl StoreError {
    /// Builds the value from its fields.
    pub fn new(kind: StoreErrorKind, message: String) -> (r: StoreError)
        ensures
            r.kind == kind,
            r.message == message,
    {
        StoreError { kind, message }
    }
}

/// The text of one revision of a page.
#[derive(Clone, Debug)]
pub struct PageSource {
    /// Markdown text.
    pub source: String,
    /// Id of the stored content; absent in damaged records.
    pub instance_id: Option<String>,
}

/// What `append` needs to know before it writes.
#[derive(Clone, Debug)]
pub struct AppendConflictState {
    /// Whether the page is a draft.
    pub draft: bool,
    /// Whether the page is locked.
    pub locked: bool,
    /// Latest revision; absent for drafts.
    pub latest_revision: Option<u64>,
    /// Who wrote the latest revision.
    pub latest_user_id: Option<String>,
}

/// What the store did with an append.
#[derive(Clone, Copy, Debug, PartialEq, Eq, Structural)]
pub struct AppendPageResult {
    /// The revision written.
    pub revision: u64,
    /// Whether the latest revision was amended instead of a new one added.
    pub amended: bool,
}

/// One page of a listing.
#[derive(Clone, Debug)]
pub struct PageListEntry {
    /// Current path.
    pub path: String,
    /// Whether the page is deleted.
    pub deleted: bool,
    /// Whether the page is a draft.
    pub draft: bool,
    /// Latest revision.
    pub latest_revision: u64,
    /// When the latest revision was written, as MCP shows it.
    pub updated_at: String,
    /// Who wrote the latest revision.
    pub user_name: String,
}

/// What an operation asks of the store.
#[derive(Clone, Debug)]
pub enum StoreRequest {
    /// The id of the page at a path.
    PageId { path: String },
    /// The index record of a page.
    PageIndex { page_id: String },
    /// The text of one revision.
    PageSource { page_id: String, revision: u64 },
    /// Whether the page is locked.
    LockInfo { page_id: String },
    /// Create a page with its first revision.
    CreatePage { path: String, user_name: String, content: String },
    /// Save a new revision (never amending).
    PutPage { page_id: String, user_name: String, content: String },
    /// Move a page and its descendants.
    RenamePages { page_id: String, rename_to: String },
    /// The id of a user.
    UserId { user_name: String },
    /// The append conflict state of a page.
    AppendState { page_id: String },
    /// Append: save `source` on top of `base_revision`.
    AppendPage {
        page_id: String,
        user_name: String,
        source: String,
        base_revision: u64,
        allow_amend: bool,
    },
    /// Wait before asking again.
    Wait { millis: u64 },
    /// The pages at or under a prefix, drafts and deleted pages included.
    ListEntries { prefix: String },
    /// The prompts that pages publish.
    PromptCandidates,
    /// The latest source of the prompt with a name.
    PromptSource { name: String },
    /// The resources that pages publish.
    ResourceCandidates,
    /// The latest source of the page that publishes a resource path.
    ResourceSource { resource_path: String },
    /// The resource list: the built-in resources merged with those of the
    /// given pages.
    MergeResources { candidates: Vec<ResourceCandidate> },
    /// The contents of a built-in resource.
    BuiltinResource { builtin_id: String },
    /// The id of the user an audit record names; answered with `UserId`.
    AuditUserId { user_name: String },
}

/// What the store answered to a request.
#[derive(Debug)]
pub enum StoreReply {
    /// To `PageId`.
    PageId(Result<Option<String>, StoreError>),
    /// To `PageIndex`.
    PageIndex(Result<Option<PageIndex>, StoreError>),
    /// To `PageSource`.
    PageSource(Result<Option<PageSource>, StoreError>),
    /// To `LockInfo`: whether a lock exists.
    LockInfo(Result<bool, StoreError>),
    /// To `CreatePage`, `PutPage` or `RenamePages`.
    Written(Result<(), StoreError>),
    /// To `UserId`.
    UserId(Result<Option<String>, StoreError>),
    /// To `AppendState`, with the milliseconds spent since the operation
    /// began its first attempt.
    AppendState { answer: Result<Option<AppendConflictState>, StoreError>, elapsed_ms: u64 },
    /// To `AppendPage`, with the milliseconds spent since the operation
    /// began its first attempt.
    Appended { answer: Result<AppendPageResult, StoreError>, elapsed_ms: u64 },
    /// To `Wait`.
    Waited,
    /// To `ListEntries`.
    Entries(Result<Vec<PageListEntry>, StoreError>),
    /// To `PromptCandidates`.
    Prompts(Result<Vec<PromptCandidate>, StoreError>),
    /// To `PromptSource`.
    PromptSource(Result<Option<PromptSourceEntry>, StoreError>),
    /// To `ResourceCandidates`.
    Resources(Result<Vec<ResourceCandidate>, StoreError>),
    /// To `ResourceSource`.
    ResourceSource(Result<ResourceLookup, StoreError>),
    /// To `MergeResources`.
    Merged(Result<Vec<ResourceListItem>, StoreError>),
    /// To `BuiltinResource`: its contents, when there is such a resource.
    Builtin(Option<ResourceContents>),
}

/// The next move of an operation: a request to the store, or its result.
#[derive(Debug)]
pub enum OpStep<T> {
    /// Perform this request and call again with its reply added.
    Ask(StoreRequest),
    /// The operation is over.
    Done(Result<T, McpError>),
}

/// A request, with its texts taken as character sequences.
pub ghost enum RequestView {
    PageId(Seq<char>),
    PageIndex(Seq<char>),
    PageSource(Seq<char>, u64),
    LockInfo(Seq<char>),
    CreatePage(Seq<char>, Seq<char>, Seq<char>),
    PutPage(Seq<char>, Seq<char>, Seq<char>),
    RenamePages(Seq<char>, Seq<char>),
    UserId(Seq<char>),
    AppendState(Seq<char>),
    AppendPage(Seq<char>, Seq<char>, Seq<char>, u64, bool),
    Wait(u64),
    ListEntries(Seq<char>),
    PromptCandidates,
    PromptSource(Seq<char>),
    ResourceCandidates,
    ResourceSource(Seq<char>),
    MergeResources(Seq<(Seq<char>, Seq<char>, Seq<char>)>),
    BuiltinResource(Seq<char>),
    AuditUserId(Seq<char>),
}

/// The view of a request.
pub open spec fn request_view(r: StoreRequest) -> RequestView {
    match r {
        StoreRequest::PageId { path } => RequestView::PageId(path@),
        StoreRequest::PageIndex { page_id } => RequestView::PageIndex(page_id@),
        StoreRequest::PageSource { page_id, revision } => RequestView::PageSource(page_id@, revision),
        StoreRequest::LockInfo { page_id } => RequestView::LockInfo(page_id@),
        StoreRequest::CreatePage { path, user_name, content } => RequestView::CreatePage(
            path@,
            user_name@,
            content@,
        ),
        StoreRequest::PutPage { page_id, user_name, content } => RequestView::PutPage(
            page_id@,
            user_name@,
            content@,
        ),
        StoreRequest::RenamePages { page_id, rename_to } => RequestView::RenamePages(
            page_id@,
            rename_to@,
        ),
        StoreRequest::UserId { user_name } => RequestView::UserId(user_name@),
        StoreRequest::AppendState { page_id } => RequestView::AppendState(page_id@),
        StoreRequest::AppendPage { page_id, user_name, source, base_revision, allow_amend } =>
            RequestView::AppendPage(page_id@, user_name@, source@, base_revision, allow_amend),
        StoreRequest::Wait { millis } => RequestView::Wait(millis),
        StoreRequest::ListEntries { prefix } => RequestView::ListEntries(prefix@),
        StoreRequest::PromptCandidates => RequestView::PromptCandidates,
        StoreRequest::PromptSource { name } => RequestView::PromptSource(name@),
        StoreRequest::ResourceCandidates => RequestView::ResourceCandidates,
        StoreRequest::ResourceSource { resource_path } => RequestView::ResourceSource(
            resource_path@,
        ),
        StoreRequest::MergeResources { candidates } => RequestView::MergeResources(
            candidates@.map_values(|c: ResourceCandidate| candidate_key(c)),
        ),
        StoreRequest::BuiltinResource { builtin_id } => RequestView::BuiltinResource(builtin_id@),
        StoreRequest::AuditUserId { user_name } => RequestView::AuditUserId(user_name@),
    }
}

/// How far an operation got: it needs a request, it failed, or it produced a
/// value after reading the replies before index `next`.
pub ghost enum Progress<T> {
    Ask(RequestView),
    Fail(ErrorView),
    Got(T, int),
}

/// How far a part of an operation got (executable form of [`Progress`]).
#[derive(Debug)]
pub enum Stage<T> {
    /// Perform this request and call again with its reply added.
    Ask(StoreRequest),
    /// The operation failed.
    Fail(McpError),
    /// The part produced a value; the next reply to read is at the index.
    Got(T, usize),
}

/// Continues a progress with what comes after its value.
pub open spec fn then<A, B>(p: Progress<A>, f: spec_fn(A, int) -> Progress<B>) -> Progress<B> {
    match p {
        Progress::Ask(q) => Progress::Ask(q),
        Progress::Fail(e) => Progress::Fail(e),
        Progress::Got(a, n) => f(a, n),
    }
}

/// Whether an executable stage is a progress, its value taken by `f`.
pub open spec fn stage_is<T, V>(r: Stage<T>, p: Progress<V>, f: spec_fn(T) -> V) -> bool {
    match p {
        Progress::Ask(q) => r matches Stage::Ask(a) && request_view(a) == q,
        Progress::Fail(ev) => r matches Stage::Fail(e) && err_view(e) == ev,
        Progress::Got(v, n) => r matches Stage::Got(x, m) && f(x) == v && m == n,
    }
}

/// Whether an executable step is a progress, its result taken by `f`.
pub open spec fn step_is<T, V>(r: OpStep<T>, p: Progress<V>, f: spec_fn(T) -> V) -> bool {
    match p {
        Progress::Ask(q) => r matches OpStep::Ask(a) && request_view(a) == q,
        Progress::Fail(ev) => r matches OpStep::Done(Err(e)) && err_view(e) == ev,
        Progress::Got(v, _) => r matches OpStep::Done(Ok(x)) && f(x) == v,
    }
}

/// The error for a reply that does not answer the request that was made.
pub open spec fn unexpected_reply() -> ErrorView {
    (McpErrorCode::InternalError, "unexpected store reply"@)
}

/// The error for a reply that does not answer the request that was made.
pub fn unexpected_reply_error() -> (e: McpError)
    ensures
        err_view(e) == unexpected_reply(),
{
    McpError::new(McpErrorCode::InternalError, String::from_str("unexpected store reply"))
}

/// What a failed page creation becomes.
pub open spec fn spec_map_create_error(err: StoreError) -> ErrorView {
    match err.kind {
        StoreErrorKind::PageAlreadyExists => (McpErrorCode::Conflict, "page already exists"@),
        StoreErrorKind::UserNotFound => (McpErrorCode::InternalError, "user resolution failed"@),
        _ => (McpErrorCode::InternalError, "page create failed: "@ + err.message@),
    }
}

/// What a failed save becomes.
pub open spec fn spec_map_update_error(err: StoreError) -> ErrorView {
    match err.kind {
        StoreErrorKind::PageNotFound => (McpErrorCode::NotFound, "page not found"@),
        StoreErrorKind::AmendForbidden => (McpErrorCode::Conflict, "append amend is not allowed"@),
        StoreErrorKind::UserNotFound => (McpErrorCode::InternalError, "user resolution failed"@),
        _ => (McpErrorCode::InternalError, "page update failed: "@ + err.message@),
    }
}

/// What a failed move becomes.
pub open spec fn spec_map_rename_error(err: StoreError) -> ErrorView {
    match err.kind {
        StoreErrorKind::PageNotFound => (McpErrorCode::NotFound, "page not found"@),
        StoreErrorKind::PageAlreadyExists => (McpErrorCode::Conflict, "page already exists"@),
        StoreErrorKind::PageLocked => (McpErrorCode::Conflict, "page is locked"@),
        StoreErrorKind::InvalidMoveDestination => (
            McpErrorCode::InvalidInput,
            "invalid destination path"@,
        ),
        StoreErrorKind::RootPageProtected => (
            McpErrorCode::Forbidden,
            "operation is not allowed for root page"@,
        ),
        _ => (McpErrorCode::InternalError, "page rename failed: "@ + err.message@),
    }
}

/// What a failed append becomes.
pub open spec fn spec_map_append_error(err: StoreError) -> ErrorView {
    match err.kind {
        StoreErrorKind::PageNotFound => (McpErrorCode::NotFound, "page not found"@),
        StoreErrorKind::DraftPage => (McpErrorCode::Conflict, "draft page is not supported"@),
        StoreErrorKind::PageLocked | StoreErrorKind::RevisionConflict
        | StoreErrorKind::AmendForbidden => (McpErrorCode::Conflict, "append conflict"@),
        StoreErrorKind::UserNotFound => (McpErrorCode::InternalError, "user resolution failed"@),
        _ => (McpErrorCode::InternalError, "page append failed: "@ + err.message@),
    }
}

/// `prefix` followed by the store's text of an error.
pub fn message_with(prefix: &str, err: &StoreError) -> (s: String)
    ensures
        s@ == prefix@ + err.message@,
{
    let mut s = String::from_str(prefix);
    s.append(err.message.as_str());
    s
}

fn plain_error(code: McpErrorCode, message: &str) -> (e: McpError)
    ensures
        err_view(e) == (code, message@),
{
    McpError::new(code, String::from_str(message))
}

/// The MCP error for a failed page creation.
pub fn map_create_db_error(err: &StoreError) -> (e: McpError)
    ensures
        err_view(e) == spec_map_create_error(*err),
{
    match err.kind {
        StoreErrorKind::PageAlreadyExists => plain_error(
            McpErrorCode::Conflict,
            "page already exists",
        ),
        StoreErrorKind::UserNotFound => plain_error(
            McpErrorCode::InternalError,
            "user resolution failed",
        ),
        _ => McpError::new(McpErrorCode::InternalError, message_with("page create failed: ", err)),
    }
}

/// The MCP error for a failed save.
pub fn map_update_db_error(err: &StoreError) -> (e: McpError)
    ensures
        err_view(e) == spec_map_update_error(*err),
{
    match err.kind {
        StoreErrorKind::PageNotFound => plain_error(McpErrorCode::NotFound, "page not found"),
        StoreErrorKind::AmendForbidden => plain_error(
            McpErrorCode::Conflict,
            "append amend is not allowed",
        ),
        StoreErrorKind::UserNotFound => plain_error(
            McpErrorCode::InternalError,
            "user resolution failed",
        ),
        _ => McpError::new(McpErrorCode::InternalError, message_with("page update failed: ", err)),
    }
}

/// The MCP error for a failed move.
pub fn map_rename_db_error(err: &StoreError) -> (e: McpError)
    ensures
        err_view(e) == spec_map_rename_error(*err),
{
    match err.kind {
        StoreErrorKind::PageNotFound => plain_error(McpErrorCode::NotFound, "page not found"),
        StoreErrorKind::PageAlreadyExists => plain_error(
            McpErrorCode::Conflict,
            "page already exists",
        ),
        StoreErrorKind::PageLocked => plain_error(McpErrorCode::Conflict, "page is locked"),
        StoreErrorKind::InvalidMoveDestination => plain_error(
            McpErrorCode::InvalidInput,
            "invalid destination path",
        ),
        StoreErrorKind::RootPageProtected => plain_error(
            McpErrorCode::Forbidden,
            "operation is not allowed for root page",
        ),
        _ => McpError::new(McpErrorCode::InternalError, message_with("page rename failed: ", err)),
    }
}

/// The MCP error for a failed append.
pub fn map_append_db_error(err: &StoreError) -> (e: McpError)
    ensures
        err_view(e) == spec_map_append_error(*err),
{
    match err.kind {
        StoreErrorKind::PageNotFound => plain_error(McpErrorCode::NotFound, "page not found"),
        StoreErrorKind::DraftPage => plain_error(
            McpErrorCode::Conflict,
            "draft page is not supported",
        ),
        StoreErrorKind::PageLocked | StoreErrorKind::RevisionConflict
        | StoreErrorKind::AmendForbidden => plain_error(McpErrorCode::Conflict, "append conflict"),
        StoreErrorKind::UserNotFound => plain_error(
            McpErrorCode::InternalError,
            "user resolution failed",
        ),
        _ => McpError::new(McpErrorCode::InternalError, message_with("page append failed: ", err)),
    }
}

/// A failed full-text search: whether the query could not be parsed, and
/// how the search engine describes the failure.
#[derive(Clone, Debug)]
pub struct SearchError {
    /// The query could not be parsed.
    pub query_invalid: bool,
    /// The engine's text of the failure.
    pub message: String,
}

/// What a failed search becomes.
pub open spec fn spec_map_search_error(err: SearchError) -> ErrorView {
    if err.query_invalid {
        (McpErrorCode::InvalidInput, "query is invalid"@)
    } else {
        (McpErrorCode::InternalError, "search failed: "@ + err.message@)
    }
}

/// The MCP error for a failed search.
pub fn map_search_error(err: &SearchError) -> (e: McpError)
    ensures
        err_view(e) == spec_map_search_error(*err),
{
    if err.query_invalid {
        plain_error(McpErrorCode::InvalidInput, "query is invalid")
    } else {
        let mut m = String::from_str("search failed: ");
        m.append(err.message.as_str());
        McpError::new(McpErrorCode::InternalError, m)
    }
}

} // verus!
