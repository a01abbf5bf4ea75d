//! Audit records of MCP calls: which operation a call is, how an error is
//! classified, which path it concerns, and what summary may be logged.

use vstd::prelude::*;
use crate::access::{AuthContext, McpOperation, operation_scope, operation_writes, scope_text};
use crate::service::{spec_prefix_check, spec_scope_check};
use crate::resources::{decides, prompt_name_audit_summary, resource_uri_audit_summary, uri_summary};
use crate::errors::{McpError, McpErrorCode};
use crate::model::{
    GetPromptServiceResult, ListPromptsServiceResult, ListResourcesServiceResult,
    McpRequestEnvelope, McpToolRequest, ReadResourceServiceResult,
};
use crate::pages::{
    AppendServiceResult, EditPageResult, GetPageResult, GetPageSectionResult, GetPageTocResult,
    ListPagesResult, WritePageResult,
};
use crate::text::{
    bool_text, chars_of, decimal, decimal_string, starts_with, starts_with_exec,
};

verus! {

/// The operation an audit record is about.
#[derive(Clone, Copy, Debug, PartialEq, Eq, Structural)]
pub enum AuditOperation {
    /// Reading a page or its table of contents.
    Get,
    /// Listing pages.
    List,
    /// Searching pages.
    Search,
    /// Creating a page.
    Create,
    /// Updating or editing a page.
    Update,
    /// Appending to a page.
    Append,
    /// Renaming a page.
    Rename,
    /// Reading a section.
    GetSection,
    /// Listing prompts.
    ListPrompts,
    /// Listing resources.
    ListResources,
    /// Reading a resource.
    ReadResource,
    /// Reading a prompt.
    GetPrompt,
}

/// How an audited call ended.
#[derive(Clone, Copy, Debug, PartialEq, Eq, Structural)]
pub enum AuditResult {
    /// It succeeded.
    Success,
    /// The target was not found.
    NotFound,
    /// It conflicted with the current state.
    Conflict,
    /// The input was invalid.
    InvalidInput,
    /// It is not supported, or was refused for another reason.
    Unsupported,
    /// It failed internally.
    InternalError,
    /// A scope was missing.
    ScopeDenied,
    /// A path lay outside the token's prefixes.
    PathPrefixDenied,
    /// A read-only user asked to write.
    ReadOnlyDenied,
}

/// One audit record, without the client address and time (the caller adds
/// them when it writes the record).
#[derive(Clone, Debug, PartialEq, Eq)]
pub struct AuditRecord {
    /// The operation.
    pub operation: AuditOperation,
    /// The user.
    pub user_id: String,
    /// The token, if the call was made with one.
    pub token_id: Option<String>,
    /// The path concerned, if any.
    pub target_path: Option<String>,
    /// How the call ended.
    pub result: AuditResult,
    /// A summary that may be logged.
    pub summary: Option<String>,
    /// The revision concerned, if any.
    pub revision: Option<u64>,
}

/// The view of an optional string.
pub open spec fn opt_view(s: Option<String>) -> Option<Seq<char>> {
    match s {
        Some(v) => Some(v@),
        None => None,
    }
}

/// How an error is classified: a `forbidden` error by the start of its
/// message, every other code by the code alone.
pub open spec fn spec_audit_result(code: McpErrorCode, message: Seq<char>) -> AuditResult {
    match code {
        McpErrorCode::NotFound => AuditResult::NotFound,
        McpErrorCode::Conflict => AuditResult::Conflict,
        McpErrorCode::InvalidInput => AuditResult::InvalidInput,
        McpErrorCode::NotLatestRevision => AuditResult::Conflict,
        McpErrorCode::InstanceIdNotMatch => AuditResult::Conflict,
        McpErrorCode::Unsupported => AuditResult::Unsupported,
        McpErrorCode::InternalError => AuditResult::InternalError,
        McpErrorCode::Forbidden => if starts_with(message, "required scope denied:"@) {
            AuditResult::ScopeDenied
        } else if starts_with(message, "path prefix denied:"@) {
            AuditResult::PathPrefixDenied
        } else if starts_with(message, "read only denied:"@) {
            AuditResult::ReadOnlyDenied
        } else {
            AuditResult::Unsupported
        },
    }
}

/// Classifies an error for the audit log.
pub fn audit_result_from_error(error: &McpError) -> (r: AuditResult)
    ensures
        r == spec_audit_result(error.spec_code(), error.spec_message()),
{
    match error.code() {
        McpErrorCode::NotFound => AuditResult::NotFound,
        McpErrorCode::Conflict => AuditResult::Conflict,
        McpErrorCode::InvalidInput => AuditResult::InvalidInput,
        McpErrorCode::NotLatestRevision => AuditResult::Conflict,
        McpErrorCode::InstanceIdNotMatch => AuditResult::Conflict,
        McpErrorCode::Unsupported => AuditResult::Unsupported,
        McpErrorCode::InternalError => AuditResult::InternalError,
        McpErrorCode::Forbidden => {
            let message = chars_of(error.message());
            if starts_with_exec(&message, &chars_of("required scope denied:")) {
                AuditResult::ScopeDenied
            } else if starts_with_exec(&message, &chars_of("path prefix denied:")) {
                AuditResult::PathPrefixDenied
            } else if starts_with_exec(&message, &chars_of("read only denied:")) {
                AuditResult::ReadOnlyDenied
            } else {
                AuditResult::Unsupported
            }
        },
    }
}

/// The path named by a prefix denial, if the error is one.
pub open spec fn spec_denied_path(message: Seq<char>) -> Option<Seq<char>> {
    if starts_with(message, "path prefix denied: "@) {
        Some(message.skip("path prefix denied: "@.len() as int))
    } else {
        None
    }
}

/// The path named by a prefix denial, if the error is one.
pub fn denied_path_from_error(error: &McpError) -> (r: Option<String>)
    ensures
        opt_view(r) == spec_denied_path(error.spec_message()),
{
    let message = chars_of(error.message());
    let marker = chars_of("path prefix denied: ");
    if starts_with_exec(&message, &marker) {
        let n = error.message().unicode_len();
        let rest = error.message().substring_char(marker.len(), n);
        assert(rest@ =~= error.spec_message().skip(marker@.len() as int));
        Some(String::from_str(rest))
    } else {
        None
    }
}

/// A refusal is audited by its kind: a read-only user's write as a
/// read-only denial, a missing scope as a scope denial, and a path outside
/// the token's prefixes as a prefix denial that names the refused path.
pub proof fn law_refusals_are_audited_by_kind(auth: AuthContext, op: McpOperation, path: Seq<char>)
    ensures
        spec_scope_check(auth, op) matches Some(e) ==> spec_audit_result(e.0, e.1) == (if operation_writes(op)
            && auth.spec_read_only() {
            AuditResult::ReadOnlyDenied
        } else {
            AuditResult::ScopeDenied
        }),
        spec_prefix_check(auth, path) matches Some(e) ==> spec_audit_result(e.0, e.1)
            == AuditResult::PathPrefixDenied && spec_denied_path(e.1) == Some(path),
{
    reveal_strlit("required scope denied:");
    reveal_strlit("required scope denied: ");
    reveal_strlit("path prefix denied:");
    reveal_strlit("path prefix denied: ");
    reveal_strlit("read only denied:");
    reveal_strlit("read only denied: write operation is not allowed");
    let scope_msg = "required scope denied: "@ + scope_text(operation_scope(op));
    assert(scope_msg.take("required scope denied:"@.len() as int) =~= "required scope denied:"@);
    assert(scope_msg[0] == 'r' && "path prefix denied:"@[0] == 'p');
    assert(!starts_with(scope_msg, "path prefix denied:"@));
    let ro_msg = "read only denied: write operation is not allowed"@;
    assert(ro_msg.take("read only denied:"@.len() as int) =~= "read only denied:"@);
    assert(ro_msg[2] == 'a' && "required scope denied:"@[2] == 'q');
    assert(!starts_with(ro_msg, "required scope denied:"@));
    assert(ro_msg[0] == 'r' && "path prefix denied:"@[0] == 'p');
    assert(!starts_with(ro_msg, "path prefix denied:"@));
    let prefix_msg = "path prefix denied: "@ + path;
    assert(prefix_msg.take("path prefix denied:"@.len() as int) =~= "path prefix denied:"@);
    assert(prefix_msg.take("path prefix denied: "@.len() as int) =~= "path prefix denied: "@);
    assert(prefix_msg.skip("path prefix denied: "@.len() as int) =~= path);
    assert(prefix_msg[0] == 'p' && "required scope denied:"@[0] == 'r');
    assert(!starts_with(prefix_msg, "required scope denied:"@));
}

/// The audited operation of a tool call.
pub open spec fn spec_audit_operation(request: McpToolRequest) -> AuditOperation {
    match request {
        McpToolRequest::GetPage(_) => AuditOperation::Get,
        McpToolRequest::GetPageToc(_) => AuditOperation::Get,
        McpToolRequest::ListPages(_) => AuditOperation::List,
        McpToolRequest::SearchPages(_) => AuditOperation::Search,
        McpToolRequest::CreatePage(_) => AuditOperation::Create,
        McpToolRequest::UpdatePage(_) => AuditOperation::Update,
        McpToolRequest::EditPage(_) => AuditOperation::Update,
        McpToolRequest::AppendPage(_) => AuditOperation::Append,
        McpToolRequest::RenamePage(_) => AuditOperation::Rename,
        McpToolRequest::GetPageSection(_) => AuditOperation::GetSection,
    }
}

/// The audited operation of a tool call.
pub fn audit_operation(request: &McpRequestEnvelope) -> (op: AuditOperation)
    ensures
        op == spec_audit_operation(request.request),
{
    match request.request() {
        McpToolRequest::GetPage(_) => AuditOperation::Get,
        McpToolRequest::GetPageToc(_) => AuditOperation::Get,
        McpToolRequest::ListPages(_) => AuditOperation::List,
        McpToolRequest::SearchPages(_) => AuditOperation::Search,
        McpToolRequest::CreatePage(_) => AuditOperation::Create,
        McpToolRequest::UpdatePage(_) => AuditOperation::Update,
        McpToolRequest::EditPage(_) => AuditOperation::Update,
        McpToolRequest::AppendPage(_) => AuditOperation::Append,
        McpToolRequest::RenamePage(_) => AuditOperation::Rename,
        McpToolRequest::GetPageSection(_) => AuditOperation::GetSection,
    }
}

/// The path a tool call names first: its page path, the listed prefix, or
/// the searched prefix when there is one.
pub open spec fn spec_primary_target(request: McpToolRequest) -> Option<Seq<char>> {
    match request {
        McpToolRequest::GetPage(r) => Some(r.path@),
        McpToolRequest::GetPageToc(r) => Some(r.path@),
        McpToolRequest::ListPages(r) => Some(r.prefix@),
        McpToolRequest::SearchPages(r) => opt_view(r.prefix),
        McpToolRequest::CreatePage(r) => Some(r.path@),
        McpToolRequest::UpdatePage(r) => Some(r.path@),
        McpToolRequest::EditPage(r) => Some(r.path@),
        McpToolRequest::AppendPage(r) => Some(r.path@),
        McpToolRequest::RenamePage(r) => Some(r.path@),
        McpToolRequest::GetPageSection(r) => Some(r.path@),
    }
}

fn owned(s: &String) -> (r: String)
    ensures
        r@ == s@,
{
    String::from_str(s.as_str())
}

/// The path a tool call names first.
pub fn primary_target_path(request: &McpRequestEnvelope) -> (r: Option<String>)
    ensures
        opt_view(r) == spec_primary_target(request.request),
{
    match request.request() {
        McpToolRequest::GetPage(r) => Some(owned(&r.path)),
        McpToolRequest::GetPageToc(r) => Some(owned(&r.path)),
        McpToolRequest::ListPages(r) => Some(owned(&r.prefix)),
        McpToolRequest::SearchPages(r) => match &r.prefix {
            Some(p) => Some(owned(p)),
            None => None,
        },
        McpToolRequest::CreatePage(r) => Some(owned(&r.path)),
        McpToolRequest::UpdatePage(r) => Some(owned(&r.path)),
        McpToolRequest::EditPage(r) => Some(owned(&r.path)),
        McpToolRequest::AppendPage(r) => Some(owned(&r.path)),
        McpToolRequest::RenamePage(r) => Some(owned(&r.path)),
        McpToolRequest::GetPageSection(r) => Some(owned(&r.path)),
    }
}

fn token_of(auth: &AuthContext) -> (r: Option<String>)
    ensures
        opt_view(r) == auth.spec_token_id(),
{
    match auth.token_id() {
        Some(t) => Some(String::from_str(t)),
        None => None,
    }
}

/// Whether `rec` records `op` by `user` through the context's token with
/// the given path, result, summary and revision.
pub open spec fn record_is(
    rec: AuditRecord,
    op: AuditOperation,
    user: Seq<char>,
    auth: AuthContext,
    target: Option<Seq<char>>,
    result: AuditResult,
    summary: Option<Seq<char>>,
    revision: Option<u64>,
) -> bool {
    &&& rec.operation == op
    &&& rec.user_id@ == user
    &&& opt_view(rec.token_id) == auth.spec_token_id()
    &&& opt_view(rec.target_path) == target
    &&& rec.result == result
    &&& opt_view(rec.summary) == summary
    &&& rec.revision == revision
}

/// A success record.
pub fn build_success_record(
    operation: AuditOperation,
    user_id: String,
    auth: &AuthContext,
    target_path: Option<String>,
    revision: Option<u64>,
    summary: Option<String>,
) -> (rec: AuditRecord)
    ensures
        record_is(
            rec,
            operation,
            user_id@,
            *auth,
            opt_view(target_path),
            AuditResult::Success,
            opt_view(summary),
            revision,
        ),
{
    AuditRecord {
        operation,
        user_id,
        token_id: token_of(auth),
        target_path,
        result: AuditResult::Success,
        summary,
        revision,
    }
}

/// The path a failure record names: for a prefix denial the denied path
/// (when the message carries one), otherwise the call's first path.
pub open spec fn spec_error_target(request: McpToolRequest, error: McpError) -> Option<Seq<char>> {
    if spec_audit_result(error.spec_code(), error.spec_message()) == AuditResult::PathPrefixDenied {
        match spec_denied_path(error.spec_message()) {
            Some(p) => Some(p),
            None => spec_primary_target(request),
        }
    } else {
        spec_primary_target(request)
    }
}

/// The record of a failed tool call: its message is the summary.
pub fn build_error_audit_record(
    auth: &AuthContext,
    request: &McpRequestEnvelope,
    error: &McpError,
    user_id: String,
) -> (rec: AuditRecord)
    ensures
        record_is(
            rec,
            spec_audit_operation(request.request),
            user_id@,
            *auth,
            spec_error_target(request.request, *error),
            spec_audit_result(error.spec_code(), error.spec_message()),
            Some(error.spec_message()),
            None,
        ),
{
    let operation = audit_operation(request);
    let result = audit_result_from_error(error);
    let target_path = if result == AuditResult::PathPrefixDenied {
        match denied_path_from_error(error) {
            Some(p) => Some(p),
            None => primary_target_path(request),
        }
    } else {
        primary_target_path(request)
    };
    AuditRecord {
        operation,
        user_id,
        token_id: token_of(auth),
        target_path,
        result,
        summary: Some(String::from_str(error.message())),
        revision: None,
    }
}

/// The record of a successful `get_page`.
pub fn build_get_page_audit_record(
    auth: &AuthContext,
    request: &McpRequestEnvelope,
    result: &GetPageResult,
    user_id: String,
) -> (rec: AuditRecord)
    ensures
        record_is(
            rec,
            AuditOperation::Get,
            user_id@,
            *auth,
            Some(result.path@),
            AuditResult::Success,
            None,
            Some(result.revision),
        ),
{
    build_success_record(
        AuditOperation::Get,
        user_id,
        auth,
        Some(owned(&result.path)),
        Some(result.revision),
        None,
    )
}

/// The record of a successful `get_page_toc`.
pub fn build_get_page_toc_audit_record(
    auth: &AuthContext,
    request: &McpRequestEnvelope,
    result: &GetPageTocResult,
    user_id: String,
) -> (rec: AuditRecord)
    ensures
        record_is(
            rec,
            AuditOperation::Get,
            user_id@,
            *auth,
            Some(result.path@),
            AuditResult::Success,
            None,
            Some(result.revision),
        ),
{
    build_success_record(
        AuditOperation::Get,
        user_id,
        auth,
        Some(owned(&result.path)),
        Some(result.revision),
        None,
    )
}

/// The record of a successful `list_pages`: it names the listed prefix.
pub fn build_list_pages_audit_record(
    auth: &AuthContext,
    request: &McpRequestEnvelope,
    result: &ListPagesResult,
    user_id: String,
) -> (rec: AuditRecord)
    ensures
        record_is(
            rec,
            AuditOperation::List,
            user_id@,
            *auth,
            spec_primary_target(request.request),
            AuditResult::Success,
            None,
            None,
        ),
{
    build_success_record(
        AuditOperation::List,
        user_id,
        auth,
        primary_target_path(request),
        None,
        None,
    )
}

/// The record of a successful `search_pages`: it names the searched prefix.
pub fn build_search_pages_audit_record(
    auth: &AuthContext,
    request: &McpRequestEnvelope,
    user_id: String,
) -> (rec: AuditRecord)
    ensures
        record_is(
            rec,
            AuditOperation::Search,
            user_id@,
            *auth,
            spec_primary_target(request.request),
            AuditResult::Success,
            None,
            None,
        ),
{
    build_success_record(
        AuditOperation::Search,
        user_id,
        auth,
        primary_target_path(request),
        None,
        None,
    )
}

/// The record of a successful `create_page` or `update_page`.
pub fn build_write_page_audit_record(
    auth: &AuthContext,
    request: &McpRequestEnvelope,
    result: &WritePageResult,
    user_id: String,
) -> (rec: AuditRecord)
    ensures
        record_is(
            rec,
            if request.request is CreatePage {
                AuditOperation::Create
            } else {
                AuditOperation::Update
            },
            user_id@,
            *auth,
            Some(result.path@),
            AuditResult::Success,
            Some(result.summary@),
            Some(result.revision),
        ),
{
    let operation = match request.request() {
        McpToolRequest::CreatePage(_) => AuditOperation::Create,
        _ => AuditOperation::Update,
    };
    build_success_record(
        operation,
        user_id,
        auth,
        Some(owned(&result.path)),
        Some(result.revision),
        Some(owned(&result.summary)),
    )
}

/// The record of a successful `edit_page`.
pub fn build_edit_page_audit_record(
    auth: &AuthContext,
    request: &McpRequestEnvelope,
    result: &EditPageResult,
    user_id: String,
) -> (rec: AuditRecord)
    ensures
        record_is(
            rec,
            AuditOperation::Update,
            user_id@,
            *auth,
            Some(result.path@),
            AuditResult::Success,
            Some(result.summary@),
            Some(result.revision),
        ),
{
    build_success_record(
        AuditOperation::Update,
        user_id,
        auth,
        Some(owned(&result.path)),
        Some(result.revision),
        Some(owned(&result.summary)),
    )
}

/// The record of a successful `append_page`.
pub fn build_append_page_audit_record(
    auth: &AuthContext,
    request: &McpRequestEnvelope,
    result: &AppendServiceResult,
    user_id: String,
) -> (rec: AuditRecord)
    ensures
        record_is(
            rec,
            AuditOperation::Append,
            user_id@,
            *auth,
            Some(result.path@),
            AuditResult::Success,
            Some(result.summary@),
            Some(result.revision),
        ),
{
    build_success_record(
        AuditOperation::Append,
        user_id,
        auth,
        Some(owned(&result.path)),
        Some(result.revision),
        Some(owned(&result.summary)),
    )
}

/// The summary of a rename record: the destination for a rename call,
/// otherwise the result's summary.
pub open spec fn spec_rename_summary(request: McpToolRequest, result: WritePageResult) -> Seq<
    char,
> {
    match request {
        McpToolRequest::RenamePage(r) => "rename to "@ + r.rename_to@,
        _ => result.summary@,
    }
}

/// The record of a successful `rename_page`: it names the source path.
pub fn build_rename_page_audit_record(
    auth: &AuthContext,
    request: &McpRequestEnvelope,
    result: &WritePageResult,
    user_id: String,
) -> (rec: AuditRecord)
    ensures
        record_is(
            rec,
            AuditOperation::Rename,
            user_id@,
            *auth,
            spec_primary_target(request.request),
            AuditResult::Success,
            Some(spec_rename_summary(request.request, *result)),
            Some(result.revision),
        ),
{
    let summary = match request.request() {
        McpToolRequest::RenamePage(input) => String::from_str("rename to ").concat(
            input.rename_to.as_str(),
        ),
        _ => owned(&result.summary),
    };
    build_success_record(
        AuditOperation::Rename,
        user_id,
        auth,
        primary_target_path(request),
        Some(result.revision),
        Some(summary),
    )
}

/// The record of a successful `get_page_section`.
pub fn build_get_page_section_audit_record(
    auth: &AuthContext,
    request: &McpRequestEnvelope,
    result: &GetPageSectionResult,
    user_id: String,
) -> (rec: AuditRecord)
    ensures
        record_is(
            rec,
            AuditOperation::GetSection,
            user_id@,
            *auth,
            Some(result.path@),
            AuditResult::Success,
            None,
            Some(result.revision),
        ),
{
    build_success_record(
        AuditOperation::GetSection,
        user_id,
        auth,
        Some(owned(&result.path)),
        Some(result.revision),
        None,
    )
}

/// The summary of a listing: how many items, and whether more follow.
pub open spec fn count_summary(count: nat, has_more: bool) -> Seq<char> {
    "count="@ + decimal(count) + " has_more="@ + bool_text(has_more)
}

fn count_summary_exec(count: usize, has_more: bool) -> (s: String)
    ensures
        s@ == count_summary(count as nat, has_more),
{
    let mut s = String::from_str("count=");
    s.append(decimal_string(count).as_str());
    s.append(" has_more=");
    s.append(if has_more { "true" } else { "false" });
    s
}

/// The record of a successful `prompts/list`.
pub fn build_list_prompts_audit_record(
    auth: &AuthContext,
    result: &ListPromptsServiceResult,
    user_id: String,
) -> (rec: AuditRecord)
    ensures
        record_is(
            rec,
            AuditOperation::ListPrompts,
            user_id@,
            *auth,
            None,
            AuditResult::Success,
            Some(count_summary(result.items@.len(), result.next_cursor is Some)),
            None,
        ),
{
    let summary = count_summary_exec(result.items.len(), result.next_cursor.is_some());
    build_success_record(AuditOperation::ListPrompts, user_id, auth, None, None, Some(summary))
}

/// The summary logged for a failed listing: the error is not repeated.
pub open spec fn listing_error_summary(result: AuditResult) -> Seq<char> {
    match result {
        AuditResult::ScopeDenied => "operation is not allowed"@,
        AuditResult::InvalidInput => "cursor is invalid"@,
        _ => "internal error"@,
    }
}

fn listing_error_summary_exec(result: AuditResult) -> (s: String)
    ensures
        s@ == listing_error_summary(result),
{
    match result {
        AuditResult::ScopeDenied => String::from_str("operation is not allowed"),
        AuditResult::InvalidInput => String::from_str("cursor is invalid"),
        _ => String::from_str("internal error"),
    }
}

/// The record of a failed `prompts/list`.
pub fn build_list_prompts_error_audit_record(
    auth: &AuthContext,
    error: &McpError,
    user_id: String,
) -> (rec: AuditRecord)
    ensures
        record_is(
            rec,
            AuditOperation::ListPrompts,
            user_id@,
            *auth,
            None,
            spec_audit_result(error.spec_code(), error.spec_message()),
            Some(listing_error_summary(spec_audit_result(error.spec_code(), error.spec_message()))),
            None,
        ),
{
    let result = audit_result_from_error(error);
    AuditRecord {
        operation: AuditOperation::ListPrompts,
        user_id,
        token_id: token_of(auth),
        target_path: None,
        result,
        summary: Some(listing_error_summary_exec(result)),
        revision: None,
    }
}

/// The record of a successful `resources/list`.
pub fn build_list_resources_audit_record(
    auth: &AuthContext,
    result: &ListResourcesServiceResult,
    user_id: String,
) -> (rec: AuditRecord)
    ensures
        record_is(
            rec,
            AuditOperation::ListResources,
            user_id@,
            *auth,
            None,
            AuditResult::Success,
            Some(count_summary(result.items@.len(), result.next_cursor is Some)),
            None,
        ),
{
    let summary = count_summary_exec(result.items.len(), result.next_cursor.is_some());
    build_success_record(AuditOperation::ListResources, user_id, auth, None, None, Some(summary))
}

/// The record of a failed `resources/list`.
pub fn build_list_resources_error_audit_record(
    auth: &AuthContext,
    error: &McpError,
    user_id: String,
) -> (rec: AuditRecord)
    ensures
        record_is(
            rec,
            AuditOperation::ListResources,
            user_id@,
            *auth,
            None,
            spec_audit_result(error.spec_code(), error.spec_message()),
            Some(listing_error_summary(spec_audit_result(error.spec_code(), error.spec_message()))),
            None,
        ),
{
    let result = audit_result_from_error(error);
    AuditRecord {
        operation: AuditOperation::ListResources,
        user_id,
        token_id: token_of(auth),
        target_path: None,
        result,
        summary: Some(listing_error_summary_exec(result)),
        revision: None,
    }
}

/// The summary an audit record gives of a prompt name.
pub open spec fn name_summary(name: Seq<char>, is_prompt_name: spec_fn(Seq<char>) -> bool) -> Option<
    Seq<char>,
> {
    if is_prompt_name(name) {
        Some("name="@ + name)
    } else {
        None
    }
}

/// The record of a successful `resources/read`; `is_resource_path` tells
/// whether a text is a valid resource path.
pub fn build_read_resource_audit_record<F: Fn(&str) -> bool>(
    auth: &AuthContext,
    uri: &str,
    result: &ReadResourceServiceResult,
    user_id: String,
    resource_authority: &str,
    is_resource_path: &F,
) -> (rec: AuditRecord)
    requires
        forall|s: &str| call_requires(*is_resource_path, (s,)),
    ensures
        forall|p: spec_fn(Seq<char>) -> bool|
            decides(*is_resource_path, p) ==> record_is(
                rec,
                AuditOperation::ReadResource,
                user_id@,
                *auth,
                None,
                AuditResult::Success,
                uri_summary(uri@, resource_authority@, p),
                result.revision,
            ),
{
    let summary = resource_uri_audit_summary(uri, resource_authority, is_resource_path);
    build_success_record(AuditOperation::ReadResource, user_id, auth, None, result.revision, summary)
}

/// The record of a failed `resources/read`.
pub fn build_read_resource_error_audit_record<F: Fn(&str) -> bool>(
    auth: &AuthContext,
    uri: &str,
    error: &McpError,
    user_id: String,
    resource_authority: &str,
    is_resource_path: &F,
) -> (rec: AuditRecord)
    requires
        forall|s: &str| call_requires(*is_resource_path, (s,)),
    ensures
        forall|p: spec_fn(Seq<char>) -> bool|
            decides(*is_resource_path, p) ==> record_is(
                rec,
                AuditOperation::ReadResource,
                user_id@,
                *auth,
                None,
                spec_audit_result(error.spec_code(), error.spec_message()),
                uri_summary(uri@, resource_authority@, p),
                None,
            ),
{
    AuditRecord {
        operation: AuditOperation::ReadResource,
        user_id,
        token_id: token_of(auth),
        target_path: None,
        result: audit_result_from_error(error),
        summary: resource_uri_audit_summary(uri, resource_authority, is_resource_path),
        revision: None,
    }
}

/// The record of a successful `prompts/get`; `is_prompt_name` tells whether
/// a text is a valid prompt name.
pub fn build_get_prompt_audit_record<F: Fn(&str) -> bool>(
    auth: &AuthContext,
    name: &str,
    result: &GetPromptServiceResult,
    user_id: String,
    is_prompt_name: &F,
) -> (rec: AuditRecord)
    requires
        forall|s: &str| call_requires(*is_prompt_name, (s,)),
    ensures
        forall|p: spec_fn(Seq<char>) -> bool|
            decides(*is_prompt_name, p) ==> record_is(
                rec,
                AuditOperation::GetPrompt,
                user_id@,
                *auth,
                None,
                AuditResult::Success,
                name_summary(name@, p),
                Some(result.revision),
            ),
{
    let summary = prompt_name_audit_summary(name, is_prompt_name);
    build_success_record(AuditOperation::GetPrompt, user_id, auth, None, Some(result.revision), summary)
}

/// The record of a failed `prompts/get`.
pub fn build_get_prompt_error_audit_record<F: Fn(&str) -> bool>(
    auth: &AuthContext,
    name: &str,
    error: &McpError,
    user_id: String,
    is_prompt_name: &F,
) -> (rec: AuditRecord)
    requires
        forall|s: &str| call_requires(*is_prompt_name, (s,)),
    ensures
        forall|p: spec_fn(Seq<char>) -> bool|
            decides(*is_prompt_name, p) ==> record_is(
                rec,
                AuditOperation::GetPrompt,
                user_id@,
                *auth,
                None,
                spec_audit_result(error.spec_code(), error.spec_message()),
                name_summary(name@, p),
                None,
            ),
{
    AuditRecord {
        operation: AuditOperation::GetPrompt,
        user_id,
        token_id: token_of(auth),
        target_path: None,
        result: audit_result_from_error(error),
        summary: prompt_name_audit_summary(name, is_prompt_name),
        revision: None,
    }
}

} // verus!
