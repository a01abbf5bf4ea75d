//! Writing pages through the store: create, update, edit, rename and
//! append, each checked before it writes and confirmed after.

use vstd::prelude::*;
use crate::access::{AuthContext, McpOperation};
use crate::editing::{EditPageRequest, spec_apply_edit};
use crate::errors::{ErrorView, McpError, McpErrorCode, err_view};
use crate::pages::{AppendServiceResult, EditPageResult, ResolvedPage, WritePageResult};
use crate::paths::{path_matches_prefix, path_matches_prefix_exec, spec_validate_and_normalize};
use crate::reads::{FoundPage, spec_resolve_page, spec_revision_source};
use crate::service::{McpService, spec_authorized_path, spec_prefix_check, spec_scope_check};
use crate::store::{
    AppendConflictState, AppendPageResult, PageSource, OpStep, Progress, RequestView, Stage, StoreError, StoreErrorKind, StoreReply,
    StoreRequest, map_append_db_error, map_create_db_error, map_rename_db_error,
    map_update_db_error, message_with, spec_map_append_error, spec_map_create_error,
    spec_map_rename_error, spec_map_update_error, stage_is, step_is, then, unexpected_reply,
    unexpected_reply_error,
};
use crate::text::str_eq;

verus! {

/// How long `append` waits for a lock or a conflict to clear, in
/// milliseconds.
pub const APPEND_WAIT_TIMEOUT_MS: u64 = 1000;

/// How long `append` waits between two attempts, in milliseconds.
pub const APPEND_WAIT_INTERVAL_MS: u64 = 50;

/// No index record in the replies shows the largest revision number, so a
/// revision after the latest can be numbered.
pub open spec fn revisions_in_range(replies: Seq<StoreReply>) -> bool {
    forall|k: int|
        0 <= k < replies.len() ==> match #[trigger] replies[k] {
            StoreReply::PageIndex(Ok(Some(ix))) => ix.latest < u64::MAX,
            _ => true,
        }
}

/// The revision a save creates: the one after the latest, or the first.
pub open spec fn next_revision(latest: Option<u64>) -> int {
    match latest {
        Some(l) => l + 1,
        None => 1,
    }
}

/// Reading the instance id of a revision just written; `action` names the
/// write in the messages.
pub open spec fn spec_saved_instance(
    page_id: Seq<char>,
    revision: u64,
    action: Seq<char>,
    replies: Seq<StoreReply>,
    at: int,
) -> Progress<Seq<char>> {
    if at >= replies.len() {
        Progress::Ask(RequestView::PageSource(page_id, revision))
    } else {
        match replies[at] {
            StoreReply::PageSource(Err(e)) => Progress::Fail(
                (
                    McpErrorCode::InternalError,
                    action + " page source lookup failed: "@ + e.message@,
                ),
            ),
            StoreReply::PageSource(Ok(None)) => Progress::Fail(
                (McpErrorCode::InternalError, action + " page source not found"@),
            ),
            StoreReply::PageSource(Ok(Some(ps))) => match ps.instance_id {
                None => Progress::Fail(
                    (McpErrorCode::InternalError, action + " page source instance_id is missing"@),
                ),
                Some(i) => Progress::Got(i@, at + 1),
            },
            _ => Progress::Fail(unexpected_reply()),
        }
    }
}

/// Checking that a page is not locked.
pub open spec fn spec_not_locked(page_id: Seq<char>, replies: Seq<StoreReply>, at: int) -> Progress<
    (),
> {
    if at >= replies.len() {
        Progress::Ask(RequestView::LockInfo(page_id))
    } else {
        match replies[at] {
            StoreReply::LockInfo(Err(e)) => Progress::Fail(
                (McpErrorCode::InternalError, "lock lookup failed: "@ + e.message@),
            ),
            StoreReply::LockInfo(Ok(true)) => Progress::Fail(
                (McpErrorCode::Conflict, "page is locked"@),
            ),
            StoreReply::LockInfo(Ok(false)) => Progress::Got((), at + 1),
            _ => Progress::Fail(unexpected_reply()),
        }
    }
}

/// Saving a whole new text as the next revision, when the page is not
/// locked: the revision written and its instance id.
pub open spec fn spec_save_updated(
    page_id: Seq<char>,
    latest: Option<u64>,
    user_name: Seq<char>,
    content: Seq<char>,
    replies: Seq<StoreReply>,
    at: int,
) -> Progress<(u64, Seq<char>)> {
    then(
        spec_not_locked(page_id, replies, at),
        |u: (), n: int|
            if n >= replies.len() {
                Progress::Ask(RequestView::PutPage(page_id, user_name, content))
            } else {
                match replies[n] {
                    StoreReply::Written(Err(e)) => Progress::Fail(spec_map_update_error(e)),
                    StoreReply::Written(Ok(_)) => then(
                        spec_saved_instance(
                            page_id,
                            next_revision(latest) as u64,
                            "saved"@,
                            replies,
                            n + 1,
                        ),
                        |i: Seq<char>, m: int| Progress::Got((next_revision(latest) as u64, i), m),
                    ),
                    _ => Progress::Fail(unexpected_reply()),
                }
            },
    )
}

/// What `create_page` gives: the new page at revision one.
pub open spec fn spec_create_page(
    auth: AuthContext,
    raw: Seq<char>,
    content: Seq<char>,
    replies: Seq<StoreReply>,
) -> Progress<(Seq<char>, u64, Seq<char>, Seq<char>)> {
    match spec_authorized_path(auth, McpOperation::CreatePage, raw) {
        Err(e) => Progress::Fail(e),
        Ok(p) => if p == "/"@ {
            Progress::Fail((McpErrorCode::Forbidden, "operation is not allowed for root page"@))
        } else if replies.len() == 0 {
            Progress::Ask(RequestView::CreatePage(p, auth.spec_user_id(), content))
        } else {
            match replies[0] {
                StoreReply::Written(Err(e)) => Progress::Fail(spec_map_create_error(e)),
                StoreReply::Written(Ok(_)) => if replies.len() == 1 {
                    Progress::Ask(RequestView::PageId(p))
                } else {
                    match replies[1] {
                        StoreReply::PageId(Err(e)) => Progress::Fail(
                            (McpErrorCode::InternalError, "page id lookup failed: "@ + e.message@),
                        ),
                        StoreReply::PageId(Ok(None)) => Progress::Fail(
                            (McpErrorCode::InternalError, "created page id not found"@),
                        ),
                        StoreReply::PageId(Ok(Some(id))) => then(
                            spec_saved_instance(id@, 1, "created"@, replies, 2),
                            |i: Seq<char>, m: int| Progress::Got((p, 1u64, i, "page created"@), m),
                        ),
                        _ => Progress::Fail(unexpected_reply()),
                    }
                },
                _ => Progress::Fail(unexpected_reply()),
            }
        },
    }
}

/// What `update_page` gives: the page with its whole text replaced.
pub open spec fn spec_update_page(
    auth: AuthContext,
    raw: Seq<char>,
    content: Seq<char>,
    replies: Seq<StoreReply>,
) -> Progress<(Seq<char>, u64, Seq<char>, Seq<char>)> {
    match spec_authorized_path(auth, McpOperation::UpdatePage, raw) {
        Err(e) => Progress::Fail(e),
        Ok(p) => then(
            spec_resolve_page(p, replies, 0),
            |f: FoundPage, n: int|
                then(
                    spec_save_updated(
                        f.page_id,
                        f.latest_revision,
                        auth.spec_user_id(),
                        content,
                        replies,
                        n,
                    ),
                    |s: (u64, Seq<char>), m: int| Progress::Got((f.path, s.0, s.1, "page updated"@), m),
                ),
        ),
    }
}

/// What `edit_page` gives: the edit applied to the latest revision, which
/// must be the revision and the instance the edit was based on.
pub open spec fn spec_edit_page(
    auth: AuthContext,
    request: EditPageRequest,
    replies: Seq<StoreReply>,
) -> Progress<(Seq<char>, u64, Seq<char>, Seq<char>)> {
    match spec_authorized_path(auth, McpOperation::EditPage, request.path@) {
        Err(e) => Progress::Fail(e),
        Ok(p) => then(
            spec_resolve_page(p, replies, 0),
            |f: FoundPage, n: int|
                then(
                    spec_revision_source(f.path, f.page_id, f.latest_revision, None, replies, n),
                    |t: (u64, Seq<char>, Seq<char>), m: int|
                        if request.revision != t.0 {
                            Progress::Fail(
                                (McpErrorCode::NotLatestRevision, "revision is not latest"@),
                            )
                        } else if m >= replies.len() {
                            Progress::Ask(RequestView::PageSource(f.page_id, t.0))
                        } else {
                            match replies[m] {
                                StoreReply::PageSource(Err(e)) => Progress::Fail(
                                    (
                                        McpErrorCode::InternalError,
                                        "latest page source lookup failed: "@ + e.message@,
                                    ),
                                ),
                                StoreReply::PageSource(Ok(None)) => Progress::Fail(
                                    (McpErrorCode::InternalError, "latest page source not found"@),
                                ),
                                StoreReply::PageSource(Ok(Some(ps))) => match ps.instance_id {
                                    None => Progress::Fail(
                                        (
                                            McpErrorCode::InternalError,
                                            "latest page source instance_id is missing"@,
                                        ),
                                    ),
                                    Some(i) => if request.instance_id@ != i@ {
                                        Progress::Fail(
                                            (
                                                McpErrorCode::InstanceIdNotMatch,
                                                "instance_id does not match latest content"@,
                                            ),
                                        )
                                    } else {
                                        match spec_apply_edit(t.2, request.operation) {
                                            Err(e) => Progress::Fail(e),
                                            Ok(updated) => then(
                                                spec_save_updated(
                                                    f.page_id,
                                                    f.latest_revision,
                                                    auth.spec_user_id(),
                                                    updated,
                                                    replies,
                                                    m + 1,
                                                ),
                                                |s: (u64, Seq<char>), k: int|
                                                    Progress::Got(
                                                        (f.path, s.0, s.1, "page edited"@),
                                                        k,
                                                    ),
                                            ),
                                        }
                                    },
                                },
                                _ => Progress::Fail(unexpected_reply()),
                            }
                        },
                ),
        ),
    }
}

/// A new page is written with exactly the given text, at its normalized
/// path and as the calling user, before anything else is asked.
pub proof fn law_create_writes_the_given_text(auth: AuthContext, raw: Seq<char>, content: Seq<char>, path: Seq<char>)
    requires
        spec_authorized_path(auth, McpOperation::CreatePage, raw) == Ok::<Seq<char>, ErrorView>(path),
        path != "/"@,
    ensures
        spec_create_page(auth, raw, content, Seq::empty()) == Progress::<(Seq<char>, u64, Seq<char>, Seq<char>)>::Ask(
            RequestView::CreatePage(path, auth.spec_user_id(), content),
        ),
{
}

/// An update of an unlocked page writes exactly the given text, as the
/// calling user.
pub proof fn law_update_writes_the_given_text(
    auth: AuthContext,
    raw: Seq<char>,
    content: Seq<char>,
    replies: Seq<StoreReply>,
    path: Seq<char>,
    found: FoundPage,
    n: int,
    k: int,
)
    requires
        spec_authorized_path(auth, McpOperation::UpdatePage, raw) == Ok::<Seq<char>, ErrorView>(path),
        spec_resolve_page(path, replies, 0) == Progress::Got(found, n),
        spec_not_locked(found.page_id, replies, n) == Progress::Got((), k),
        k >= replies.len(),
    ensures
        spec_update_page(auth, raw, content, replies) == Progress::<(Seq<char>, u64, Seq<char>, Seq<char>)>::Ask(
            RequestView::PutPage(found.page_id, auth.spec_user_id(), content),
        ),
{
}

/// An edit based on a revision that is no longer the latest is refused as
/// such, before anything is written.
pub proof fn law_stale_revision_edit_is_refused(
    auth: AuthContext,
    request: EditPageRequest,
    replies: Seq<StoreReply>,
    path: Seq<char>,
    found: FoundPage,
    n: int,
    latest: (u64, Seq<char>, Seq<char>),
    m: int,
)
    requires
        spec_authorized_path(auth, McpOperation::EditPage, request.path@) == Ok::<Seq<char>, ErrorView>(path),
        spec_resolve_page(path, replies, 0) == Progress::Got(found, n),
        spec_revision_source(found.path, found.page_id, found.latest_revision, None, replies, n)
            == Progress::Got(latest, m),
        request.revision != latest.0,
    ensures
        spec_edit_page(auth, request, replies) == Progress::<(Seq<char>, u64, Seq<char>, Seq<char>)>::Fail(
            (McpErrorCode::NotLatestRevision, "revision is not latest"@),
        ),
{
}

/// An edit whose instance id is not that of the latest content is refused
/// as such, before anything is written.
pub proof fn law_changed_content_edit_is_refused(
    auth: AuthContext,
    request: EditPageRequest,
    replies: Seq<StoreReply>,
    path: Seq<char>,
    found: FoundPage,
    n: int,
    latest: (u64, Seq<char>, Seq<char>),
    m: int,
)
    requires
        spec_authorized_path(auth, McpOperation::EditPage, request.path@) == Ok::<Seq<char>, ErrorView>(path),
        spec_resolve_page(path, replies, 0) == Progress::Got(found, n),
        spec_revision_source(found.path, found.page_id, found.latest_revision, None, replies, n)
            == Progress::Got(latest, m),
        request.revision == latest.0,
        0 <= m < replies.len(),
        replies[m] matches StoreReply::PageSource(Ok(Some(ps))) && ps.instance_id matches Some(i)
            && i@ != request.instance_id@,
    ensures
        spec_edit_page(auth, request, replies) == Progress::<(Seq<char>, u64, Seq<char>, Seq<char>)>::Fail(
            (McpErrorCode::InstanceIdNotMatch, "instance_id does not match latest content"@),
        ),
{
}

/// An edit that passes its checks writes the page's latest text with the
/// operation applied, as the editing user, and nothing else.
pub proof fn law_edit_writes_the_edited_text(
    auth: AuthContext,
    request: EditPageRequest,
    replies: Seq<StoreReply>,
    path: Seq<char>,
    found: FoundPage,
    n: int,
    latest: (u64, Seq<char>, Seq<char>),
    m: int,
    edited: Seq<char>,
    k: int,
)
    requires
        spec_authorized_path(auth, McpOperation::EditPage, request.path@) == Ok::<Seq<char>, ErrorView>(path),
        spec_resolve_page(path, replies, 0) == Progress::Got(found, n),
        spec_revision_source(found.path, found.page_id, found.latest_revision, None, replies, n)
            == Progress::Got(latest, m),
        request.revision == latest.0,
        0 <= m < replies.len(),
        replies[m] matches StoreReply::PageSource(Ok(Some(ps))) && ps.instance_id matches Some(i)
            && i@ == request.instance_id@,
        spec_apply_edit(latest.2, request.operation) == Ok::<Seq<char>, ErrorView>(edited),
        spec_not_locked(found.page_id, replies, m + 1) == Progress::Got((), k),
        k >= replies.len(),
    ensures
        spec_edit_page(auth, request, replies) == Progress::<(Seq<char>, u64, Seq<char>, Seq<char>)>::Ask(
            RequestView::PutPage(found.page_id, auth.spec_user_id(), edited),
        ),
{
}

/// An append writes the latest text with the new content after it, on top
/// of the latest revision, and may amend that revision only when the same
/// user wrote it.
pub proof fn law_append_writes_latest_text_then_content(
    page_id: Seq<char>,
    user_name: Seq<char>,
    user_id: Seq<char>,
    content: Seq<char>,
    replies: Seq<StoreReply>,
    at: int,
    state: AppendConflictState,
    elapsed_ms: u64,
    latest: u64,
    base: PageSource,
)
    requires
        0 <= at,
        at + 2 == replies.len(),
        replies[at] == (StoreReply::AppendState { answer: Ok(Some(state)), elapsed_ms }),
        !state.draft,
        !state.locked,
        state.latest_revision == Some(latest),
        replies[at + 1] == StoreReply::PageSource(Ok(Some(base))),
    ensures
        spec_append_attempts(page_id, user_name, user_id, content, replies, at) == Progress::<
            (u64, Seq<char>, Seq<char>, bool),
        >::Ask(
            RequestView::AppendPage(
                page_id,
                user_name,
                base.source@ + content,
                latest,
                state.latest_user_id matches Some(u) && u@ == user_id,
            ),
        ),
{
}

/// The checks of a rename after the page is found: rename scope and both
/// prefixes, the root page, and a destination under the page itself.
pub open spec fn spec_rename_found(
    auth: AuthContext,
    f: FoundPage,
    dest: Seq<char>,
    replies: Seq<StoreReply>,
    n: int,
) -> Progress<(Seq<char>, u64, Seq<char>, Seq<char>)> {
    let latest = match f.latest_revision {
        Some(l) => l,
        None => 0,
    };
    match spec_scope_check(auth, McpOperation::RenamePage) {
        Some(e) => Progress::Fail(e),
        None => match spec_prefix_check(auth, f.path) {
            Some(e) => Progress::Fail(e),
            None => match spec_prefix_check(auth, dest) {
                Some(e) => Progress::Fail(e),
                None => if f.path == "/"@ {
                    Progress::Fail(
                        (McpErrorCode::Forbidden, "operation is not allowed for root page"@),
                    )
                } else if f.path == dest {
                    then(
                        spec_saved_instance(f.page_id, latest, "renamed"@, replies, n),
                        |i: Seq<char>, m: int|
                            Progress::Got((dest, latest, i, "page rename skipped"@), m),
                    )
                } else if path_matches_prefix(dest, f.path) {
                    Progress::Fail((McpErrorCode::InvalidInput, "invalid destination path"@))
                } else if n >= replies.len() {
                    Progress::Ask(RequestView::RenamePages(f.page_id, dest))
                } else {
                    match replies[n] {
                        StoreReply::Written(Err(e)) => Progress::Fail(spec_map_rename_error(e)),
                        StoreReply::Written(Ok(_)) => then(
                            spec_saved_instance(
                                f.page_id,
                                (latest + 1) as u64,
                                "renamed"@,
                                replies,
                                n + 1,
                            ),
                            |i: Seq<char>, m: int|
                                Progress::Got(
                                    (dest, (latest + 1) as u64, i, "page renamed from "@ + f.path),
                                    m,
                                ),
                        ),
                        _ => Progress::Fail(unexpected_reply()),
                    }
                },
            },
        },
    }
}

/// What `rename_page` gives: the page at its new path.
pub open spec fn spec_rename_page(
    auth: AuthContext,
    raw: Seq<char>,
    raw_rename_to: Seq<char>,
    replies: Seq<StoreReply>,
) -> Progress<(Seq<char>, u64, Seq<char>, Seq<char>)> {
    match spec_validate_and_normalize(raw) {
        Err(m) => Progress::Fail((McpErrorCode::InvalidInput, m)),
        Ok(p) => match spec_validate_and_normalize(raw_rename_to) {
            Err(m) => Progress::Fail((McpErrorCode::InvalidInput, m)),
            Ok(q) => then(
                spec_resolve_page(p, replies, 0),
                |f: FoundPage, n: int| spec_rename_found(auth, f, q, replies, n),
            ),
        },
    }
}

/// Law: a rename that succeeds answers with the normalized destination as
/// the page's path; when the page really moves, its summary names the old
/// path and its revision is the one after the latest.
pub proof fn law_rename_answers_with_destination(
    auth: AuthContext,
    raw: Seq<char>,
    raw_rename_to: Seq<char>,
    replies: Seq<StoreReply>,
)
    ensures
        spec_rename_page(auth, raw, raw_rename_to, replies) matches Progress::Got(t, _) ==> {
            &&& spec_validate_and_normalize(raw_rename_to) == Ok::<Seq<char>, Seq<char>>(t.0)
            &&& spec_validate_and_normalize(raw) matches Ok(p) && spec_resolve_page(p, replies, 0) matches Progress::Got(f, _)
                && (f.path != t.0 ==> t.3 == "page renamed from "@ + f.path && t.1 == ((match f.latest_revision {
                Some(l) => l,
                None => 0,
            }) + 1) as u64)
        },
{
}

/// The summary of an append.
pub open spec fn append_summary(amended: bool) -> Seq<char> {
    if amended {
        "page appended (amended)"@
    } else {
        "page appended"@
    }
}

/// Whether an append failure is worth another attempt.
pub open spec fn retryable(kind: StoreErrorKind) -> bool {
    kind == StoreErrorKind::PageLocked || kind == StoreErrorKind::RevisionConflict
}

/// The attempts of an append from the reply at index `at` on: each reads
/// the conflict state; a locked page, or a retryable failure of the append
/// itself, waits and tries again until the time is up. The result is the
/// revision written, its instance id, the summary and whether it amended.
pub open spec fn spec_append_attempts(
    page_id: Seq<char>,
    user_name: Seq<char>,
    user_id: Seq<char>,
    content: Seq<char>,
    replies: Seq<StoreReply>,
    at: int,
) -> Progress<(u64, Seq<char>, Seq<char>, bool)>
    decreases replies.len() - at,
{
    if at < 0 || at >= replies.len() {
        Progress::Ask(RequestView::AppendState(page_id))
    } else {
        match replies[at] {
            StoreReply::AppendState { answer: Err(e), elapsed_ms: _ } => Progress::Fail(
                (
                    McpErrorCode::InternalError,
                    "append conflict state lookup failed: "@ + e.message@,
                ),
            ),
            StoreReply::AppendState { answer: Ok(None), elapsed_ms: _ } => Progress::Fail(
                (McpErrorCode::NotFound, "page not found"@),
            ),
            StoreReply::AppendState { answer: Ok(Some(st)), elapsed_ms } => if st.draft {
                Progress::Fail((McpErrorCode::Conflict, "draft page is not supported"@))
            } else if st.locked {
                if elapsed_ms >= APPEND_WAIT_TIMEOUT_MS {
                    Progress::Fail((McpErrorCode::Conflict, "page is locked"@))
                } else if at + 1 >= replies.len() {
                    Progress::Ask(RequestView::Wait(APPEND_WAIT_INTERVAL_MS))
                } else {
                    match replies[at + 1] {
                        StoreReply::Waited => spec_append_attempts(
                            page_id,
                            user_name,
                            user_id,
                            content,
                            replies,
                            at + 2,
                        ),
                        _ => Progress::Fail(unexpected_reply()),
                    }
                }
            } else {
                match st.latest_revision {
                    None => Progress::Fail(
                        (McpErrorCode::Conflict, "draft page does not have latest revision"@),
                    ),
                    Some(latest) => if at + 1 >= replies.len() {
                        Progress::Ask(RequestView::PageSource(page_id, latest))
                    } else {
                        match replies[at + 1] {
                            StoreReply::PageSource(Err(e)) => Progress::Fail(
                                (
                                    McpErrorCode::InternalError,
                                    "page source lookup failed: "@ + e.message@,
                                ),
                            ),
                            StoreReply::PageSource(Ok(None)) => Progress::Fail(
                                (McpErrorCode::InternalError, "page source not found"@),
                            ),
                            StoreReply::PageSource(Ok(Some(ps))) => {
                                let allow_amend = st.latest_user_id matches Some(u) && u@
                                    == user_id;
                                if at + 2 >= replies.len() {
                                    Progress::Ask(
                                        RequestView::AppendPage(
                                            page_id,
                                            user_name,
                                            ps.source@ + content,
                                            latest,
                                            allow_amend,
                                        ),
                                    )
                                } else {
                                    match replies[at + 2] {
                                        StoreReply::Appended { answer: Ok(res), elapsed_ms: _ } =>
                                            then(
                                            spec_saved_instance(
                                                page_id,
                                                res.revision,
                                                "appended"@,
                                                replies,
                                                at + 3,
                                            ),
                                            |i: Seq<char>, m: int|
                                                Progress::Got(
                                                    (
                                                        res.revision,
                                                        i,
                                                        append_summary(res.amended),
                                                        res.amended,
                                                    ),
                                                    m,
                                                ),
                                        ),
                                        StoreReply::Appended {
                                            answer: Err(e),
                                            elapsed_ms: waited,
                                        } => if retryable(e.kind) {
                                            if waited >= APPEND_WAIT_TIMEOUT_MS {
                                                Progress::Fail(
                                                    (McpErrorCode::Conflict, "append conflict"@),
                                                )
                                            } else if at + 3 >= replies.len() {
                                                Progress::Ask(
                                                    RequestView::Wait(APPEND_WAIT_INTERVAL_MS),
                                                )
                                            } else {
                                                match replies[at + 3] {
                                                    StoreReply::Waited => spec_append_attempts(
                                                        page_id,
                                                        user_name,
                                                        user_id,
                                                        content,
                                                        replies,
                                                        at + 4,
                                                    ),
                                                    _ => Progress::Fail(unexpected_reply()),
                                                }
                                            }
                                        } else {
                                            Progress::Fail(spec_map_append_error(e))
                                        },
                                        _ => Progress::Fail(unexpected_reply()),
                                    }
                                }
                            },
                            _ => Progress::Fail(unexpected_reply()),
                        }
                    },
                }
            },
            _ => Progress::Fail(unexpected_reply()),
        }
    }
}

/// What `append_page` gives: `content` added at the end of the latest
/// revision, amending it when the same user wrote it.
pub open spec fn spec_append_page(
    auth: AuthContext,
    raw: Seq<char>,
    content: Seq<char>,
    replies: Seq<StoreReply>,
) -> Progress<(Seq<char>, u64, Seq<char>, Seq<char>, bool)> {
    match spec_authorized_path(auth, McpOperation::AppendPage, raw) {
        Err(e) => Progress::Fail(e),
        Ok(p) => then(
            spec_resolve_page(p, replies, 0),
            |f: FoundPage, n: int|
                if content.len() == 0 {
                    Progress::Fail((McpErrorCode::InvalidInput, "content must not be empty"@))
                } else if n >= replies.len() {
                    Progress::Ask(RequestView::UserId(auth.spec_user_id()))
                } else {
                    match replies[n] {
                        StoreReply::UserId(Err(e)) => Progress::Fail(
                            (McpErrorCode::InternalError, "user lookup failed: "@ + e.message@),
                        ),
                        StoreReply::UserId(Ok(None)) => Progress::Fail(
                            (McpErrorCode::InternalError, "user resolution failed"@),
                        ),
                        StoreReply::UserId(Ok(Some(uid))) => then(
                            spec_append_attempts(
                                f.page_id,
                                auth.spec_user_id(),
                                uid@,
                                content,
                                replies,
                                n + 1,
                            ),
                            |t: (u64, Seq<char>, Seq<char>, bool), m: int|
                                Progress::Got((f.path, t.0, t.1, t.2, t.3), m),
                        ),
                        _ => Progress::Fail(unexpected_reply()),
                    }
                },
        ),
    }
}

/// The view of a write result.
pub open spec fn write_view(w: WritePageResult) -> (Seq<char>, u64, Seq<char>, Seq<char>) {
    (w.path@, w.revision, w.instance_id@, w.summary@)
}

proof fn lemma_resolved_latest_in_range(raw: Seq<char>, replies: Seq<StoreReply>, at: int)
    requires
        revisions_in_range(replies),
        0 <= at,
    ensures
        spec_resolve_page(raw, replies, at) matches Progress::Got(f, _) ==> f.latest_revision
            matches Some(l) && l < u64::MAX,
{
    if at + 1 < replies.len() {
        let r = replies[at + 1];
        assert(revisions_in_range(replies));
        match r {
            StoreReply::PageIndex(Ok(Some(ix))) => {
                assert(ix.latest < u64::MAX);
            },
            _ => {},
        }
    }
}

fn plain(code: McpErrorCode, message: &str) -> (e: McpError)
    ensures
        err_view(e) == (code, message@),
{
    McpError::new(code, String::from_str(message))
}

fn text_after(action: &str, suffix: &str) -> (s: String)
    ensures
        s@ == action@ + suffix@,
{
    let mut s = String::from_str(action);
    s.append(suffix);
    s
}

impl McpService {
    /// Reads the instance id of a revision just written, from the reply at
    /// index `at`; `action` names the write in the messages.
    pub fn lookup_saved_instance_id(
        &self,
        page_id: &str,
        revision: u64,
        action: &str,
        replies: &[StoreReply],
        at: usize,
    ) -> (r: Stage<String>)
        ensures
            stage_is(
                r,
                spec_saved_instance(page_id@, revision, action@, replies@, at as int),
                |s: String| s@,
            ),
    {
        if at >= replies.len() {
            return Stage::Ask(
                StoreRequest::PageSource { page_id: String::from_str(page_id), revision },
            );
        }
        match &replies[at] {
            StoreReply::PageSource(Err(e)) => {
                let mut m = text_after(action, " page source lookup failed: ");
                m.append(e.message.as_str());
                Stage::Fail(McpError::new(McpErrorCode::InternalError, m))
            },
            StoreReply::PageSource(Ok(None)) => Stage::Fail(
                McpError::new(McpErrorCode::InternalError, text_after(action, " page source not found")),
            ),
            StoreReply::PageSource(Ok(Some(ps))) => match &ps.instance_id {
                None => Stage::Fail(
                    McpError::new(
                        McpErrorCode::InternalError,
                        text_after(action, " page source instance_id is missing"),
                    ),
                ),
                Some(i) => Stage::Got(i.clone(), at + 1),
            },
            _ => Stage::Fail(unexpected_reply_error()),
        }
    }

    /// Checks, from the reply at index `at`, that a page is not locked.
    pub fn ensure_page_not_locked(&self, page_id: &str, replies: &[StoreReply], at: usize) -> (r:
        Stage<()>)
        ensures
            stage_is(r, spec_not_locked(page_id@, replies@, at as int), |u: ()| u),
    {
        if at >= replies.len() {
            return Stage::Ask(StoreRequest::LockInfo { page_id: String::from_str(page_id) });
        }
        match &replies[at] {
            StoreReply::LockInfo(Err(e)) => Stage::Fail(
                McpError::new(McpErrorCode::InternalError, message_with("lock lookup failed: ", e)),
            ),
            StoreReply::LockInfo(Ok(locked)) => if *locked {
                Stage::Fail(plain(McpErrorCode::Conflict, "page is locked"))
            } else {
                Stage::Got((), at + 1)
            },
            _ => Stage::Fail(unexpected_reply_error()),
        }
    }

    /// Saves `content` as the next revision of a resolved page when it is not
    /// locked, never amending: the revision written and its instance id.
    pub fn save_updated_page(
        &self,
        resolved: &ResolvedPage,
        user_name: &str,
        content: String,
        replies: &[StoreReply],
        at: usize,
    ) -> (r: Stage<(u64, String)>)
        requires
            resolved.latest_revision matches Some(l) ==> l < u64::MAX,
        ensures
            stage_is(
                r,
                spec_save_updated(
                    resolved.page_id@,
                    resolved.latest_revision,
                    user_name@,
                    content@,
                    replies@,
                    at as int,
                ),
                |s: (u64, String)| (s.0, s.1@),
            ),
    {
        let n = match self.ensure_page_not_locked(resolved.page_id(), replies, at) {
            Stage::Ask(q) => return Stage::Ask(q),
            Stage::Fail(e) => return Stage::Fail(e),
            Stage::Got(_, n) => n,
        };
        if n >= replies.len() {
            return Stage::Ask(
                StoreRequest::PutPage {
                    page_id: resolved.page_id.clone(),
                    user_name: String::from_str(user_name),
                    content,
                },
            );
        }
        match &replies[n] {
            StoreReply::Written(Err(e)) => return Stage::Fail(map_update_db_error(e)),
            StoreReply::Written(Ok(_)) => {},
            _ => return Stage::Fail(unexpected_reply_error()),
        }
        let revision = match resolved.latest_revision() {
            Some(l) => l + 1,
            None => 1,
        };
        match self.lookup_saved_instance_id(resolved.page_id(), revision, "saved", replies, n + 1) {
            Stage::Ask(q) => Stage::Ask(q),
            Stage::Fail(e) => Stage::Fail(e),
            Stage::Got(i, m) => Stage::Got((revision, i), m),
        }
    }

    /// [`McpService::create_page`], also giving the index of the first reply it did
    /// not read, for callers that continue the conversation.
    pub(crate) fn create_page_stage(
        &self,
        auth: &AuthContext,
        raw_path: &str,
        content: &str,
        replies: &[StoreReply],
    ) -> (r: Stage<WritePageResult>)
        ensures
            stage_is(
                r,
                spec_create_page(*auth, raw_path@, content@, replies@),
                |w: WritePageResult| write_view(w),
            ),
    {
        let p = match self.ensure_authorized_path(auth, McpOperation::CreatePage, raw_path) {
            Ok(p) => p,
            Err(e) => return Stage::Fail(e),
        };
        let root = "/";
        if str_eq(p.as_str(), root) {
            return Stage::Fail(plain(McpErrorCode::Forbidden, "operation is not allowed for root page"));
        }
        if replies.len() == 0 {
            return Stage::Ask(
                StoreRequest::CreatePage {
                    path: p,
                    user_name: String::from_str(auth.user_id()),
                    content: String::from_str(content),
                },
            );
        }
        match &replies[0] {
            StoreReply::Written(Err(e)) => return Stage::Fail(map_create_db_error(e)),
            StoreReply::Written(Ok(_)) => {},
            _ => return Stage::Fail(unexpected_reply_error()),
        }
        if replies.len() == 1 {
            return Stage::Ask(StoreRequest::PageId { path: p });
        }
        let id = match &replies[1] {
            StoreReply::PageId(Err(e)) => {
                return Stage::Fail(
                        McpError::new(
                            McpErrorCode::InternalError,
                            message_with("page id lookup failed: ", e),
                        ),
                    );
            },
            StoreReply::PageId(Ok(None)) => {
                return Stage::Fail(plain(McpErrorCode::InternalError, "created page id not found"));
            },
            StoreReply::PageId(Ok(Some(id))) => id,
            _ => return Stage::Fail(unexpected_reply_error()),
        };
        match self.lookup_saved_instance_id(id.as_str(), 1, "created", replies, 2) {
            Stage::Ask(q) => Stage::Ask(q),
            Stage::Fail(e) => Stage::Fail(e),
            Stage::Got(i, m) => Stage::Got(WritePageResult::new(p, 1, i, String::from_str("page created")), m),
        }
    }

    /// `create_page`: creates the page at `raw_path` with `content` as its
    /// first revision; the root page cannot be created.
    pub fn create_page(
        &self,
        auth: &AuthContext,
        raw_path: &str,
        content: &str,
        replies: &[StoreReply],
    ) -> (r: OpStep<WritePageResult>)
        ensures
            step_is(
                r,
                spec_create_page(*auth, raw_path@, content@, replies@),
                |w: WritePageResult| write_view(w),
            ),
    {
        match self.create_page_stage(auth, raw_path, content, replies) {
            Stage::Ask(q) => OpStep::Ask(q),
            Stage::Fail(e) => OpStep::Done(Err(e)),
            Stage::Got(v, _) => OpStep::Done(Ok(v)),
        }
    }


    /// [`McpService::update_page`], also giving the index of the first reply it did
    /// not read, for callers that continue the conversation.
    pub(crate) fn update_page_stage(
        &self,
        auth: &AuthContext,
        raw_path: &str,
        content: &str,
        replies: &[StoreReply],
    ) -> (r: Stage<WritePageResult>)
        requires
            revisions_in_range(replies@),
        ensures
            stage_is(
                r,
                spec_update_page(*auth, raw_path@, content@, replies@),
                |w: WritePageResult| write_view(w),
            ),
    {
        let p = match self.ensure_authorized_path(auth, McpOperation::UpdatePage, raw_path) {
            Ok(p) => p,
            Err(e) => return Stage::Fail(e),
        };
        proof {
            lemma_resolved_latest_in_range(p@, replies@, 0);
        }
        let (resolved, n) = match self.resolve_page_by_path(p.as_str(), replies, 0) {
            Stage::Ask(q) => return Stage::Ask(q),
            Stage::Fail(e) => return Stage::Fail(e),
            Stage::Got(rp, n) => (rp, n),
        };
        match self.save_updated_page(
            &resolved,
            auth.user_id(),
            String::from_str(content),
            replies,
            n,
        ) {
            Stage::Ask(q) => Stage::Ask(q),
            Stage::Fail(e) => Stage::Fail(e),
            Stage::Got((rev, i), m) => Stage::Got(
                    WritePageResult::new(
                        resolved.normalized_path.clone(),
                        rev,
                        i,
                        String::from_str("page updated"),
                    )
                , m),
        }
    }

    /// `update_page`: replaces the whole text of the page at `raw_path`.
    pub fn update_page(
        &self,
        auth: &AuthContext,
        raw_path: &str,
        content: &str,
        replies: &[StoreReply],
    ) -> (r: OpStep<WritePageResult>)
        requires
            revisions_in_range(replies@),
        ensures
            step_is(
                r,
                spec_update_page(*auth, raw_path@, content@, replies@),
                |w: WritePageResult| write_view(w),
            ),
    {
        match self.update_page_stage(auth, raw_path, content, replies) {
            Stage::Ask(q) => OpStep::Ask(q),
            Stage::Fail(e) => OpStep::Done(Err(e)),
            Stage::Got(v, _) => OpStep::Done(Ok(v)),
        }
    }


    /// [`McpService::edit_page`], also giving the index of the first reply it did
    /// not read, for callers that continue the conversation.
    pub(crate) fn edit_page_stage(&self, auth: &AuthContext, request: &EditPageRequest, replies: &[StoreReply]) -> (r: Stage<EditPageResult>)
        requires
            revisions_in_range(replies@),
        ensures
            stage_is(
                r,
                spec_edit_page(*auth, *request, replies@),
                |w: EditPageResult| (w.path@, w.revision, w.instance_id@, w.summary@),
            ),
    {
        let p = match self.ensure_authorized_path(auth, McpOperation::EditPage, request.path()) {
            Ok(p) => p,
            Err(e) => return Stage::Fail(e),
        };
        proof {
            lemma_resolved_latest_in_range(p@, replies@, 0);
        }
        let (resolved, n) = match self.resolve_page_by_path(p.as_str(), replies, 0) {
            Stage::Ask(q) => return Stage::Ask(q),
            Stage::Fail(e) => return Stage::Fail(e),
            Stage::Got(rp, n) => (rp, n),
        };
        let (latest_revision, latest_source, m) = match self.resolve_revision_source(
            &resolved,
            None,
            replies,
            n,
        ) {
            Stage::Ask(q) => return Stage::Ask(q),
            Stage::Fail(e) => return Stage::Fail(e),
            Stage::Got((rev, _, src), m) => (rev, src, m),
        };
        if request.revision() != latest_revision {
            return Stage::Fail(plain(McpErrorCode::NotLatestRevision, "revision is not latest"));
        }
        if m >= replies.len() {
            return Stage::Ask(
                StoreRequest::PageSource {
                    page_id: resolved.page_id.clone(),
                    revision: latest_revision,
                },
            );
        }
        let latest_instance = match &replies[m] {
            StoreReply::PageSource(Err(e)) => {
                return Stage::Fail(
                        McpError::new(
                            McpErrorCode::InternalError,
                            message_with("latest page source lookup failed: ", e),
                        ),
                    );
            },
            StoreReply::PageSource(Ok(None)) => {
                return Stage::Fail(plain(McpErrorCode::InternalError, "latest page source not found"));
            },
            StoreReply::PageSource(Ok(Some(ps))) => match &ps.instance_id {
                None => {
                    return Stage::Fail(
                            plain(
                                McpErrorCode::InternalError,
                                "latest page source instance_id is missing",
                            ),
                        );
                },
                Some(i) => i,
            },
            _ => return Stage::Fail(unexpected_reply_error()),
        };
        if !str_eq(request.instance_id(), latest_instance.as_str()) {
            return Stage::Fail(
                    plain(
                        McpErrorCode::InstanceIdNotMatch,
                        "instance_id does not match latest content",
                    ),
                );
        }
        let updated = match self.apply_edit_page_operation(
            latest_source.as_str(),
            request.operation(),
        ) {
            Ok(u) => u,
            Err(e) => return Stage::Fail(e),
        };
        match self.save_updated_page(&resolved, auth.user_id(), updated, replies, m + 1) {
            Stage::Ask(q) => Stage::Ask(q),
            Stage::Fail(e) => Stage::Fail(e),
            Stage::Got((rev, i), m) => Stage::Got(
                    EditPageResult::new(
                        resolved.normalized_path.clone(),
                        rev,
                        i,
                        String::from_str("page edited"),
                    )
                , m),
        }
    }

    /// `edit_page`: applies one edit to the latest revision of a page; the
    /// request must name the latest revision and its instance id.
    pub fn edit_page(&self, auth: &AuthContext, request: &EditPageRequest, replies: &[StoreReply]) -> (r:
        OpStep<EditPageResult>)
        requires
            revisions_in_range(replies@),
        ensures
            step_is(
                r,
                spec_edit_page(*auth, *request, replies@),
                |w: EditPageResult| (w.path@, w.revision, w.instance_id@, w.summary@),
            ),
    {
        match self.edit_page_stage(auth, request, replies) {
            Stage::Ask(q) => OpStep::Ask(q),
            Stage::Fail(e) => OpStep::Done(Err(e)),
            Stage::Got(v, _) => OpStep::Done(Ok(v)),
        }
    }


    /// [`McpService::rename_page`], also giving the index of the first reply it did
    /// not read, for callers that continue the conversation.
    pub(crate) fn rename_page_stage(
        &self,
        auth: &AuthContext,
        raw_path: &str,
        raw_rename_to: &str,
        replies: &[StoreReply],
    ) -> (r: Stage<WritePageResult>)
        requires
            revisions_in_range(replies@),
        ensures
            stage_is(
                r,
                spec_rename_page(*auth, raw_path@, raw_rename_to@, replies@),
                |w: WritePageResult| write_view(w),
            ),
    {
        let p = match self.validate_and_normalize_path(raw_path) {
            Ok(p) => p,
            Err(e) => return Stage::Fail(e),
        };
        let dest = match self.validate_and_normalize_path(raw_rename_to) {
            Ok(q) => q,
            Err(e) => return Stage::Fail(e),
        };
        proof {
            lemma_resolved_latest_in_range(p@, replies@, 0);
        }
        let (resolved, n) = match self.resolve_page_by_path(p.as_str(), replies, 0) {
            Stage::Ask(q) => return Stage::Ask(q),
            Stage::Fail(e) => return Stage::Fail(e),
            Stage::Got(rp, n) => (rp, n),
        };
        if let Err(e) = self.ensure_rename_authorized(
            auth,
            resolved.normalized_path(),
            dest.as_str(),
        ) {
            return Stage::Fail(e);
        }
        let root = "/";
        if str_eq(resolved.normalized_path(), root) {
            return Stage::Fail(plain(McpErrorCode::Forbidden, "operation is not allowed for root page"));
        }
        let latest = match resolved.latest_revision() {
            Some(l) => l,
            None => 0,
        };
        if str_eq(resolved.normalized_path(), dest.as_str()) {
            return match self.lookup_saved_instance_id(
                resolved.page_id(),
                latest,
                "renamed",
                replies,
                n,
            ) {
                Stage::Ask(q) => Stage::Ask(q),
                Stage::Fail(e) => Stage::Fail(e),
                Stage::Got(i, m) => Stage::Got(WritePageResult::new(dest, latest, i, String::from_str("page rename skipped")), m),
            };
        }
        if path_matches_prefix_exec(dest.as_str(), resolved.normalized_path()) {
            return Stage::Fail(plain(McpErrorCode::InvalidInput, "invalid destination path"));
        }
        if n >= replies.len() {
            return Stage::Ask(
                StoreRequest::RenamePages { page_id: resolved.page_id.clone(), rename_to: dest },
            );
        }
        match &replies[n] {
            StoreReply::Written(Err(e)) => return Stage::Fail(map_rename_db_error(e)),
            StoreReply::Written(Ok(_)) => {},
            _ => return Stage::Fail(unexpected_reply_error()),
        }
        let renamed_revision = latest + 1;
        match self.lookup_saved_instance_id(
            resolved.page_id(),
            renamed_revision,
            "renamed",
            replies,
            n + 1,
        ) {
            Stage::Ask(q) => Stage::Ask(q),
            Stage::Fail(e) => Stage::Fail(e),
            Stage::Got(i, m) => {
                let summary = text_after("page renamed from ", resolved.normalized_path());
                Stage::Got(WritePageResult::new(dest, renamed_revision, i, summary), m)
            },
        }
    }

    /// `rename_page`: moves the page at `raw_path`, with its descendants, to
    /// `raw_rename_to`. Renaming to the same path changes nothing; the root
    /// page cannot move, and a page cannot move under itself.
    pub fn rename_page(
        &self,
        auth: &AuthContext,
        raw_path: &str,
        raw_rename_to: &str,
        replies: &[StoreReply],
    ) -> (r: OpStep<WritePageResult>)
        requires
            revisions_in_range(replies@),
        ensures
            step_is(
                r,
                spec_rename_page(*auth, raw_path@, raw_rename_to@, replies@),
                |w: WritePageResult| write_view(w),
            ),
    {
        match self.rename_page_stage(auth, raw_path, raw_rename_to, replies) {
            Stage::Ask(q) => OpStep::Ask(q),
            Stage::Fail(e) => OpStep::Done(Err(e)),
            Stage::Got(v, _) => OpStep::Done(Ok(v)),
        }
    }


    /// Looks up, from the reply at index `at`, the id of the user with the
    /// authenticated name.
    pub fn resolve_auth_user_id(&self, user_name: &str, replies: &[StoreReply], at: usize) -> (r:
        Stage<String>)
        ensures
            stage_is(
                r,
                if at >= replies@.len() {
                    Progress::Ask(RequestView::UserId(user_name@))
                } else {
                    match replies@[at as int] {
                        StoreReply::UserId(Err(e)) => Progress::Fail(
                            (McpErrorCode::InternalError, "user lookup failed: "@ + e.message@),
                        ),
                        StoreReply::UserId(Ok(None)) => Progress::Fail(
                            (McpErrorCode::InternalError, "user resolution failed"@),
                        ),
                        StoreReply::UserId(Ok(Some(uid))) => Progress::Got(uid@, at + 1),
                        _ => Progress::Fail(unexpected_reply()),
                    }
                },
                |s: String| s@,
            ),
    {
        if at >= replies.len() {
            return Stage::Ask(StoreRequest::UserId { user_name: String::from_str(user_name) });
        }
        match &replies[at] {
            StoreReply::UserId(Err(e)) => Stage::Fail(
                McpError::new(McpErrorCode::InternalError, message_with("user lookup failed: ", e)),
            ),
            StoreReply::UserId(Ok(None)) => Stage::Fail(
                plain(McpErrorCode::InternalError, "user resolution failed"),
            ),
            StoreReply::UserId(Ok(Some(uid))) => Stage::Got(uid.clone(), at + 1),
            _ => Stage::Fail(unexpected_reply_error()),
        }
    }

    /// Whether an append has waited long enough: `elapsed_ms` milliseconds
    /// since its first attempt reach the limit.
    pub fn append_wait_timed_out(&self, elapsed_ms: u64) -> (b: bool)
        ensures
            b == (elapsed_ms >= APPEND_WAIT_TIMEOUT_MS),
    {
        elapsed_ms >= APPEND_WAIT_TIMEOUT_MS
    }

    /// Whether a failed append may be tried again: the page was locked or
    /// its latest revision changed meanwhile.
    pub fn is_retryable_append_conflict(&self, err: &StoreError) -> (b: bool)
        ensures
            b == retryable(err.kind),
    {
        match err.kind {
            StoreErrorKind::PageLocked | StoreErrorKind::RevisionConflict => true,
            _ => false,
        }
    }

    /// The result of an append the store accepted, with the instance id of
    /// the revision written (read from the reply at index `at`).
    pub fn build_append_result(
        &self,
        page_id: &str,
        path: &str,
        result: AppendPageResult,
        replies: &[StoreReply],
        at: usize,
    ) -> (r: Stage<AppendServiceResult>)
        ensures
            stage_is(
                r,
                then(
                    spec_saved_instance(page_id@, result.revision, "appended"@, replies@, at as int),
                    |i: Seq<char>, m: int|
                        Progress::Got(
                            (path@, result.revision, i, append_summary(result.amended), result.amended),
                            m,
                        ),
                ),
                |a: AppendServiceResult| (a.path@, a.revision, a.instance_id@, a.summary@, a.amended),
            ),
    {
        let summary = if result.amended {
            "page appended (amended)"
        } else {
            "page appended"
        };
        match self.lookup_saved_instance_id(page_id, result.revision, "appended", replies, at) {
            Stage::Ask(q) => Stage::Ask(q),
            Stage::Fail(e) => Stage::Fail(e),
            Stage::Got(i, m) => Stage::Got(
                AppendServiceResult::new(
                    String::from_str(path),
                    result.revision,
                    i,
                    String::from_str(summary),
                    result.amended,
                ),
                m,
            ),
        }
    }

    /// Reads the append conflict state of a page from the reply at index
    /// `at`, with the milliseconds spent since the first attempt.
    pub fn get_append_conflict_state(&self, page_id: &str, replies: &[StoreReply], at: usize) -> (r:
        Stage<(AppendConflictState, u64)>)
        ensures
            stage_is(
                r,
                if at >= replies@.len() {
                    Progress::Ask(RequestView::AppendState(page_id@))
                } else {
                    match replies@[at as int] {
                        StoreReply::AppendState { answer: Err(e), elapsed_ms: _ } => Progress::Fail(
                            (
                                McpErrorCode::InternalError,
                                "append conflict state lookup failed: "@ + e.message@,
                            ),
                        ),
                        StoreReply::AppendState { answer: Ok(None), elapsed_ms: _ } =>
                            Progress::Fail((McpErrorCode::NotFound, "page not found"@)),
                        StoreReply::AppendState { answer: Ok(Some(st)), elapsed_ms } =>
                            Progress::Got((st, elapsed_ms), at + 1),
                        _ => Progress::Fail(unexpected_reply()),
                    }
                },
                |t: (AppendConflictState, u64)| t,
            ),
    {
        if at >= replies.len() {
            return Stage::Ask(StoreRequest::AppendState { page_id: String::from_str(page_id) });
        }
        match &replies[at] {
            StoreReply::AppendState { answer: Err(e), elapsed_ms: _ } => Stage::Fail(
                McpError::new(
                    McpErrorCode::InternalError,
                    message_with("append conflict state lookup failed: ", e),
                ),
            ),
            StoreReply::AppendState { answer: Ok(None), elapsed_ms: _ } => Stage::Fail(
                plain(McpErrorCode::NotFound, "page not found"),
            ),
            StoreReply::AppendState { answer: Ok(Some(st)), elapsed_ms } => Stage::Got(
                (
                    AppendConflictState {
                        draft: st.draft,
                        locked: st.locked,
                        latest_revision: st.latest_revision,
                        latest_user_id: match &st.latest_user_id {
                            Some(u) => Some(u.clone()),
                            None => None,
                        },
                    },
                    *elapsed_ms,
                ),
                at + 1,
            ),
            _ => Stage::Fail(unexpected_reply_error()),
        }
    }

    /// Reads, from the reply at index `at`, the text an append builds on.
    pub fn resolve_append_base_source(
        &self,
        page_id: &str,
        revision: u64,
        replies: &[StoreReply],
        at: usize,
    ) -> (r: Stage<String>)
        ensures
            stage_is(
                r,
                if at >= replies@.len() {
                    Progress::Ask(RequestView::PageSource(page_id@, revision))
                } else {
                    match replies@[at as int] {
                        StoreReply::PageSource(Err(e)) => Progress::Fail(
                            (McpErrorCode::InternalError, "page source lookup failed: "@ + e.message@),
                        ),
                        StoreReply::PageSource(Ok(None)) => Progress::Fail(
                            (McpErrorCode::InternalError, "page source not found"@),
                        ),
                        StoreReply::PageSource(Ok(Some(ps))) => Progress::Got(ps.source@, at + 1),
                        _ => Progress::Fail(unexpected_reply()),
                    }
                },
                |s: String| s@,
            ),
    {
        if at >= replies.len() {
            return Stage::Ask(
                StoreRequest::PageSource { page_id: String::from_str(page_id), revision },
            );
        }
        match &replies[at] {
            StoreReply::PageSource(Err(e)) => Stage::Fail(
                McpError::new(
                    McpErrorCode::InternalError,
                    message_with("page source lookup failed: ", e),
                ),
            ),
            StoreReply::PageSource(Ok(None)) => Stage::Fail(
                plain(McpErrorCode::InternalError, "page source not found"),
            ),
            StoreReply::PageSource(Ok(Some(ps))) => Stage::Got(ps.source.clone(), at + 1),
            _ => Stage::Fail(unexpected_reply_error()),
        }
    }

    /// The attempts of an append, from the reply at index `at` on.
    fn append_attempts(
        &self,
        page_id: &str,
        path: &str,
        user_name: &str,
        user_id: &str,
        content: &str,
        replies: &[StoreReply],
        at: usize,
    ) -> (r: Stage<AppendServiceResult>)
        ensures
            stage_is(
                r,
                then(
                    spec_append_attempts(page_id@, user_name@, user_id@, content@, replies@, at as int),
                    |t: (u64, Seq<char>, Seq<char>, bool), m: int|
                        Progress::Got((path@, t.0, t.1, t.2, t.3), m),
                ),
                |a: AppendServiceResult| (a.path@, a.revision, a.instance_id@, a.summary@, a.amended),
            ),
    {
        let mut k: usize = at;
        loop
            invariant
                at <= k,
                spec_append_attempts(page_id@, user_name@, user_id@, content@, replies@, k as int)
                    == spec_append_attempts(
                    page_id@,
                    user_name@,
                    user_id@,
                    content@,
                    replies@,
                    at as int,
                ),
            decreases replies@.len() - k,
        {
            if k >= replies.len() {
                return Stage::Ask(StoreRequest::AppendState { page_id: String::from_str(page_id) });
            }
            let (st, elapsed) = match self.get_append_conflict_state(page_id, replies, k) {
                Stage::Ask(q) => return Stage::Ask(q),
                Stage::Fail(e) => return Stage::Fail(e),
                Stage::Got(t, _) => t,
            };
            if st.draft {
                return Stage::Fail(plain(McpErrorCode::Conflict, "draft page is not supported"));
            }
            if st.locked {
                if self.append_wait_timed_out(elapsed) {
                    return Stage::Fail(plain(McpErrorCode::Conflict, "page is locked"));
                }
                if k + 1 >= replies.len() {
                    return Stage::Ask(StoreRequest::Wait { millis: APPEND_WAIT_INTERVAL_MS });
                }
                match &replies[k + 1] {
                    StoreReply::Waited => {},
                    _ => return Stage::Fail(unexpected_reply_error()),
                }
                k = k + 2;
                continue;
            }
            let latest = match st.latest_revision {
                Some(l) => l,
                None => {
                    return Stage::Fail(
                        plain(McpErrorCode::Conflict, "draft page does not have latest revision"),
                    );
                },
            };
            let base = match self.resolve_append_base_source(page_id, latest, replies, k + 1) {
                Stage::Ask(q) => return Stage::Ask(q),
                Stage::Fail(e) => return Stage::Fail(e),
                Stage::Got(b, _) => b,
            };
            let allow_amend = match &st.latest_user_id {
                Some(u) => str_eq(u.as_str(), user_id),
                None => false,
            };
            if k + 2 >= replies.len() {
                let mut source = base;
                source.append(content);
                return Stage::Ask(
                    StoreRequest::AppendPage {
                        page_id: String::from_str(page_id),
                        user_name: String::from_str(user_name),
                        source,
                        base_revision: latest,
                        allow_amend,
                    },
                );
            }
            match &replies[k + 2] {
                StoreReply::Appended { answer: Ok(res), elapsed_ms: _ } => {
                    return self.build_append_result(page_id, path, *res, replies, k + 3);
                },
                StoreReply::Appended { answer: Err(e), elapsed_ms } => {
                    if !self.is_retryable_append_conflict(e) {
                        return Stage::Fail(map_append_db_error(e));
                    }
                    if self.append_wait_timed_out(*elapsed_ms) {
                        return Stage::Fail(plain(McpErrorCode::Conflict, "append conflict"));
                    }
                },
                _ => return Stage::Fail(unexpected_reply_error()),
            }
            if k + 3 >= replies.len() {
                return Stage::Ask(StoreRequest::Wait { millis: APPEND_WAIT_INTERVAL_MS });
            }
            match &replies[k + 3] {
                StoreReply::Waited => {},
                _ => return Stage::Fail(unexpected_reply_error()),
            }
            k = k + 4;
        }
    }

    /// [`McpService::append_page`], also giving the index of the first reply it did
    /// not read, for callers that continue the conversation.
    pub(crate) fn append_page_stage(
        &self,
        auth: &AuthContext,
        raw_path: &str,
        content: &str,
        replies: &[StoreReply],
    ) -> (r: Stage<AppendServiceResult>)
        ensures
            stage_is(
                r,
                spec_append_page(*auth, raw_path@, content@, replies@),
                |a: AppendServiceResult| (a.path@, a.revision, a.instance_id@, a.summary@, a.amended),
            ),
    {
        let p = match self.ensure_authorized_path(auth, McpOperation::AppendPage, raw_path) {
            Ok(p) => p,
            Err(e) => return Stage::Fail(e),
        };
        let (resolved, n) = match self.resolve_page_by_path(p.as_str(), replies, 0) {
            Stage::Ask(q) => return Stage::Ask(q),
            Stage::Fail(e) => return Stage::Fail(e),
            Stage::Got(rp, n) => (rp, n),
        };
        if content.unicode_len() == 0 {
            return Stage::Fail(plain(McpErrorCode::InvalidInput, "content must not be empty"));
        }
        let (user_id, m) = match self.resolve_auth_user_id(auth.user_id(), replies, n) {
            Stage::Ask(q) => return Stage::Ask(q),
            Stage::Fail(e) => return Stage::Fail(e),
            Stage::Got(u, m) => (u, m),
        };
        match self.append_attempts(
            resolved.page_id(),
            resolved.normalized_path(),
            auth.user_id(),
            user_id.as_str(),
            content,
            replies,
            m,
        ) {
            Stage::Ask(q) => Stage::Ask(q),
            Stage::Fail(e) => Stage::Fail(e),
            Stage::Got(a, m) => Stage::Got(a, m),
        }
    }

    /// `append_page`: adds `content` at the end of the latest revision of the
    /// page at `raw_path`. The latest revision is amended when the same user
    /// wrote it; a locked page or a concurrent write is waited out for up to
    /// a second.
    pub fn append_page(
        &self,
        auth: &AuthContext,
        raw_path: &str,
        content: &str,
        replies: &[StoreReply],
    ) -> (r: OpStep<AppendServiceResult>)
        ensures
            step_is(
                r,
                spec_append_page(*auth, raw_path@, content@, replies@),
                |a: AppendServiceResult| (a.path@, a.revision, a.instance_id@, a.summary@, a.amended),
            ),
    {
        match self.append_page_stage(auth, raw_path, content, replies) {
            Stage::Ask(q) => OpStep::Ask(q),
            Stage::Fail(e) => OpStep::Done(Err(e)),
            Stage::Got(v, _) => OpStep::Done(Ok(v)),
        }
    }

}

} // verus!
