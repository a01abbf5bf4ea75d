//! The MCP server surface: which primitives the server announces, how the
//! standard `prompts` and `resources` requests are answered, and how their
//! failures become protocol errors.

use vstd::prelude::*;
use crate::access::{AuthContext, opt_view};
use crate::audit::{
    AuditOperation, AuditRecord, AuditResult, count_summary, listing_error_summary, record_is,
    spec_audit_result,
};
use crate::auth::McpAuthGateway;
use crate::errors::{ErrorView, McpError, McpErrorCode};
use crate::handler::{HandlerStep, McpHandler, audit_user, audited_user, opt_reply};
use crate::model::{
    GetPromptServiceResult, ListPromptsServiceResult, ListResourcesServiceResult,
    PromptListArgument, PromptListItem, ReadResourceServiceResult, ResourceListItem,
};
use crate::prompts::{PromptArgument, prompt_item_view, spec_get_prompt, spec_list_prompts};
use crate::audit::name_summary;
use crate::resources::{decides, spec_list_resources, spec_read_resource, uri_summary};
use crate::service::{DEFAULT_RESOURCE_AUTHORITY, McpService, opt_str_view};
use crate::store::{Progress, RequestView, StoreReply, StoreRequest, request_view};

verus! {

/// The JSON-RPC class of a protocol error.
#[derive(Clone, Copy, Debug, PartialEq, Eq, Structural)]
pub enum ProtocolErrorKind {
    /// The request is not allowed.
    InvalidRequest,
    /// A parameter is wrong.
    InvalidParams,
    /// The server failed.
    InternalError,
}

/// A protocol error: its class, the public message and the logical code
/// carried in its data.
#[derive(Clone, Debug, PartialEq, Eq)]
pub struct ProtocolError {
    /// The JSON-RPC class.
    pub kind: ProtocolErrorKind,
    /// The public message.
    pub message: String,
    /// The logical code, when the error carries one.
    pub data_code: Option<String>,
}

/// A protocol error as contracts speak of it.
pub open spec fn protocol_view(e: ProtocolError) -> (ProtocolErrorKind, Seq<char>, Option<Seq<char>>) {
    (
        e.kind,
        e.message@,
        match e.data_code {
            Some(c) => Some(c@),
            None => None,
        },
    )
}

/// The protocol error of a failed `prompts/list` or `resources/list`: a
/// refusal, a bad cursor, or an internal failure for anything else.
pub open spec fn spec_listing_protocol_error(code: McpErrorCode) -> (
    ProtocolErrorKind,
    Seq<char>,
    Option<Seq<char>>,
) {
    match code {
        McpErrorCode::Forbidden => (
            ProtocolErrorKind::InvalidRequest,
            "operation is not allowed"@,
            Some("forbidden"@),
        ),
        McpErrorCode::InvalidInput => (
            ProtocolErrorKind::InvalidParams,
            "cursor is invalid"@,
            Some("invalid_input"@),
        ),
        _ => (ProtocolErrorKind::InternalError, "internal error"@, Some("internal_error"@)),
    }
}

/// The protocol error of a failed `resources/read`.
pub open spec fn spec_read_resource_protocol_error(code: McpErrorCode) -> (
    ProtocolErrorKind,
    Seq<char>,
    Option<Seq<char>>,
) {
    match code {
        McpErrorCode::Forbidden => (
            ProtocolErrorKind::InvalidRequest,
            "operation is not allowed"@,
            Some("forbidden"@),
        ),
        McpErrorCode::NotFound => (
            ProtocolErrorKind::InvalidParams,
            "resource not found"@,
            Some("not_found"@),
        ),
        McpErrorCode::InvalidInput => (
            ProtocolErrorKind::InvalidParams,
            "resource uri is invalid"@,
            Some("invalid_input"@),
        ),
        _ => (ProtocolErrorKind::InternalError, "internal error"@, Some("internal_error"@)),
    }
}

/// The protocol error of a failed `prompts/get`: a bad argument keeps its
/// own message.
pub open spec fn spec_get_prompt_protocol_error(code: McpErrorCode, message: Seq<char>) -> (
    ProtocolErrorKind,
    Seq<char>,
    Option<Seq<char>>,
) {
    match code {
        McpErrorCode::Forbidden => (
            ProtocolErrorKind::InvalidRequest,
            "operation is not allowed"@,
            Some("forbidden"@),
        ),
        McpErrorCode::NotFound => (
            ProtocolErrorKind::InvalidParams,
            "prompt not found"@,
            Some("not_found"@),
        ),
        McpErrorCode::InvalidInput => (ProtocolErrorKind::InvalidParams, message, Some("invalid_input"@)),
        _ => (ProtocolErrorKind::InternalError, "internal error"@, Some("internal_error"@)),
    }
}

fn protocol_error(kind: ProtocolErrorKind, message: &str, data_code: &str) -> (e: ProtocolError)
    ensures
        protocol_view(e) == (kind, message@, Some(data_code@)),
{
    ProtocolError {
        kind,
        message: String::from_str(message),
        data_code: Some(String::from_str(data_code)),
    }
}

/// The protocol error of a failed `resources/list`.
pub fn list_resource_protocol_error(error: McpError) -> (e: ProtocolError)
    ensures
        protocol_view(e) == spec_listing_protocol_error(error.spec_code()),
{
    listing_protocol_error(error)
}

/// The protocol error of a failed `prompts/list`.
pub fn list_prompt_protocol_error(error: McpError) -> (e: ProtocolError)
    ensures
        protocol_view(e) == spec_listing_protocol_error(error.spec_code()),
{
    listing_protocol_error(error)
}

fn listing_protocol_error(error: McpError) -> (e: ProtocolError)
    ensures
        protocol_view(e) == spec_listing_protocol_error(error.spec_code()),
{
    match error.code() {
        McpErrorCode::Forbidden => protocol_error(
            ProtocolErrorKind::InvalidRequest,
            "operation is not allowed",
            "forbidden",
        ),
        McpErrorCode::InvalidInput => protocol_error(
            ProtocolErrorKind::InvalidParams,
            "cursor is invalid",
            "invalid_input",
        ),
        _ => protocol_error(ProtocolErrorKind::InternalError, "internal error", "internal_error"),
    }
}

/// The protocol error of a failed `resources/read`.
pub fn read_resource_protocol_error(error: McpError) -> (e: ProtocolError)
    ensures
        protocol_view(e) == spec_read_resource_protocol_error(error.spec_code()),
{
    match error.code() {
        McpErrorCode::Forbidden => protocol_error(
            ProtocolErrorKind::InvalidRequest,
            "operation is not allowed",
            "forbidden",
        ),
        McpErrorCode::NotFound => protocol_error(
            ProtocolErrorKind::InvalidParams,
            "resource not found",
            "not_found",
        ),
        McpErrorCode::InvalidInput => protocol_error(
            ProtocolErrorKind::InvalidParams,
            "resource uri is invalid",
            "invalid_input",
        ),
        _ => protocol_error(ProtocolErrorKind::InternalError, "internal error", "internal_error"),
    }
}

/// The protocol error of a failed `prompts/get`.
pub fn get_prompt_protocol_error(error: McpError) -> (e: ProtocolError)
    ensures
        protocol_view(e) == spec_get_prompt_protocol_error(error.spec_code(), error.spec_message()),
{
    match error.code() {
        McpErrorCode::Forbidden => protocol_error(
            ProtocolErrorKind::InvalidRequest,
            "operation is not allowed",
            "forbidden",
        ),
        McpErrorCode::NotFound => protocol_error(
            ProtocolErrorKind::InvalidParams,
            "prompt not found",
            "not_found",
        ),
        McpErrorCode::InvalidInput => protocol_error(
            ProtocolErrorKind::InvalidParams,
            error.message(),
            "invalid_input",
        ),
        _ => protocol_error(ProtocolErrorKind::InternalError, "internal error", "internal_error"),
    }
}

/// What the server announces besides its tools.
#[derive(Clone, Copy, Debug, PartialEq, Eq, Structural)]
pub struct Capabilities {
    /// Tools are always offered.
    pub tools: bool,
    /// Prompts, once their name index is ready.
    pub prompts: bool,
    /// Resources, once their URI index is ready.
    pub resources: bool,
}

/// The next move of a standard request: a request to the store, or the
/// answer (a protocol error on failure) with the audit record to write.
#[derive(Debug)]
pub enum ServerStep<T> {
    /// Perform this request and call again with its reply added.
    Ask(StoreRequest),
    /// The request is over.
    Done(Result<T, ProtocolError>, Option<AuditRecord>),
}

/// A prompt as `prompts/list` shows it: no argument list when it declares
/// none.
#[derive(Clone, Debug, PartialEq, Eq)]
pub struct ListedPrompt {
    /// Prompt name.
    pub name: String,
    /// Prompt description.
    pub description: String,
    /// Declared arguments, absent when there are none.
    pub arguments: Option<Vec<PromptListArgument>>,
}

/// The answer to `prompts/list`.
#[derive(Clone, Debug, PartialEq, Eq)]
pub struct PromptListing {
    /// The prompts of this page.
    pub prompts: Vec<ListedPrompt>,
    /// Where the next page starts, when there is one.
    pub next_cursor: Option<String>,
}

/// How a listed prompt shows an item of the service result.
pub open spec fn listed_prompt_of(item: PromptListItem) -> ListedPrompt {
    ListedPrompt {
        name: item.name,
        description: item.description,
        arguments: if item.arguments@.len() == 0 {
            None
        } else {
            Some(item.arguments)
        },
    }
}

/// A listed prompt as contracts speak of it: the same triple as the service
/// item, with an absent argument list read as an empty one.
pub open spec fn listed_prompt_view(p: ListedPrompt) -> (
    Seq<char>,
    Seq<char>,
    Seq<(Seq<char>, Seq<char>, Option<bool>)>,
) {
    (
        p.name@,
        p.description@,
        match p.arguments {
            Some(a) => a@.map_values(|x: PromptListArgument| (x.name@, x.description@, x.required)),
            None => Seq::empty(),
        },
    )
}

/// A listed prompt shows what its service item says.
proof fn lemma_listed_prompts_keep_items(items: Seq<PromptListItem>)
    ensures
        items.map_values(|i: PromptListItem| listed_prompt_of(i)).map_values(
            |q: ListedPrompt| listed_prompt_view(q),
        ) == items.map_values(|i: PromptListItem| prompt_item_view(i)),
{
    let lhs = items.map_values(|i: PromptListItem| listed_prompt_of(i)).map_values(
        |q: ListedPrompt| listed_prompt_view(q),
    );
    let rhs = items.map_values(|i: PromptListItem| prompt_item_view(i));
    assert forall|k: int| 0 <= k < items.len() implies lhs[k] == rhs[k] by {
        let x = items[k];
        if x.arguments@.len() == 0 {
            assert(x.arguments@.map_values(
                |a: PromptListArgument| (a.name@, a.description@, a.required),
            ) =~= Seq::empty());
        }
    }
    assert(lhs =~= rhs);
}

/// A prompt of the service result as `prompts/list` shows it.
pub fn listed_prompt(item: PromptListItem) -> (p: ListedPrompt)
    ensures
        p == listed_prompt_of(item),
{
    let arguments = if item.arguments.len() == 0 {
        None
    } else {
        Some(item.arguments)
    };
    ListedPrompt { name: item.name, description: item.description, arguments }
}

/// The answer to `prompts/list` built from the service result.
pub fn prompt_listing(result: ListPromptsServiceResult) -> (l: PromptListing)
    ensures
        l.prompts@ == result.items@.map_values(|i: PromptListItem| listed_prompt_of(i)),
        l.next_cursor == result.next_cursor,
{
    let ghost items0 = result.items@;
    let mut items = result.items;
    let mut prompts: Vec<ListedPrompt> = Vec::new();
    while items.len() > 0
        invariant
            items0.len() == prompts@.len() + items@.len(),
            items@ == items0.skip(prompts@.len() as int),
            prompts@ == items0.take(prompts@.len() as int).map_values(
                |i: PromptListItem| listed_prompt_of(i),
            ),
        decreases items@.len(),
    {
        let item = items.remove(0);
        let ghost k = prompts@.len() as int;
        prompts.push(listed_prompt(item));
        assert(items0.take(k + 1) =~= items0.take(k).push(items0[k]));
        assert(prompts@ =~= items0.take(k + 1).map_values(|i: PromptListItem| listed_prompt_of(i)));
        assert(items@ =~= items0.skip(k + 1));
    }
    assert(items0.take(prompts@.len() as int) =~= items0);
    PromptListing { prompts, next_cursor: result.next_cursor }
}

/// How a server step ends a request with progress `prog`: it asks what the
/// request asks; once the request is over it asks for the audit user, then
/// answers, a failure as the protocol error `perr` gives, with an audit
/// record when auditing is on and the user was found.
pub open spec fn served_shape<T, V>(
    r: ServerStep<T>,
    prog: Progress<V>,
    audit_reply: Option<StoreReply>,
    user_name: Seq<char>,
    enabled: bool,
    perr: spec_fn(ErrorView) -> (ProtocolErrorKind, Seq<char>, Option<Seq<char>>),
) -> bool {
    match prog {
        Progress::Ask(q) => r matches ServerStep::Ask(a) && request_view(a) == q,
        _ => match audit_reply {
            None => r matches ServerStep::Ask(a) && request_view(a) == RequestView::AuditUserId(
                user_name,
            ),
            Some(ar) => r matches ServerStep::Done(res, audit) && (audit is Some <==> (enabled
                && audit_user(ar) is Some)) && (prog matches Progress::Fail(ev) ==> res matches Err(
                pe) && protocol_view(pe) == perr(ev)) && (prog is Got ==> res is Ok),
        },
    }
}

/// Whether a readiness query said that an index is ready; a failed query
/// counts as not ready.
pub open spec fn is_ready(answer: Option<bool>) -> bool {
    answer == Some(true)
}

/// The MCP server: which indexes were ready when it started.
#[derive(Clone, Copy, Debug)]
pub struct LuwikiMcpServer {
    prompts_ready: bool,
    resources_ready: bool,
}

impl LuwikiMcpServer {
    /// Whether prompts are published.
    pub closed spec fn spec_prompts_ready(&self) -> bool {
        self.prompts_ready
    }

    /// Whether resources are published.
    pub closed spec fn spec_resources_ready(&self) -> bool {
        self.resources_ready
    }

    /// A server, from the answers of the two readiness queries (none when the
    /// query could not be made or failed).
    pub fn new(prompt_index_ready: Option<bool>, resource_index_ready: Option<bool>) -> (s: LuwikiMcpServer)
        ensures
            s.spec_prompts_ready() == is_ready(prompt_index_ready),
            s.spec_resources_ready() == is_ready(resource_index_ready),
    {
        LuwikiMcpServer {
            prompts_ready: match prompt_index_ready {
                Some(b) => b,
                None => false,
            },
            resources_ready: match resource_index_ready {
                Some(b) => b,
                None => false,
            },
        }
    }

    /// The capabilities announced: tools always, prompts and resources once
    /// their indexes are ready.
    pub fn build_capabilities(&self) -> (c: Capabilities)
        ensures
            c.tools,
            c.prompts == self.spec_prompts_ready(),
            c.resources == self.spec_resources_ready(),
    {
        Capabilities { tools: true, prompts: self.prompts_ready, resources: self.resources_ready }
    }

    /// A tool entry for one request; `audit_configured` tells whether the
    /// shared state holds an audit log.
    pub fn create_handler(&self, audit_configured: bool) -> (h: McpHandler)
        ensures
            h.spec_audit_enabled() == audit_configured,
            h.spec_service().spec_authority() == DEFAULT_RESOURCE_AUTHORITY@,
    {
        McpHandler::new(McpAuthGateway::new(), McpService::new(), audit_configured)
    }

    /// `prompts/list`: the audited listing in the protocol's form.
    pub fn list_prompts_for_auth_at<F: Fn(&str) -> bool>(
        &self,
        audit_configured: bool,
        auth: &AuthContext,
        cursor: Option<&str>,
        is_prompt_name: &F,
        replies: &[StoreReply],
        audit_reply: Option<&StoreReply>,
    ) -> (r: ServerStep<PromptListing>)
        requires
            forall|s: &str| call_requires(*is_prompt_name, (s,)),
        ensures
            forall|p: spec_fn(Seq<char>) -> bool|
                decides(*is_prompt_name, p) ==> ({
                    let prog = spec_list_prompts(*auth, opt_str_view(cursor), p, replies@);
                    &&& served_shape(r, prog, opt_reply(audit_reply), auth.spec_user_id(), audit_configured, |ev: ErrorView| spec_listing_protocol_error(ev.0))
                    &&& match prog {
                        Progress::Got(v, _) => r matches ServerStep::Done(Ok(l), audit) ==> (
                            l.prompts@.map_values(|q: ListedPrompt| listed_prompt_view(q)) == v.0
                            && opt_view(l.next_cursor) == v.1
                            && (audit matches Some(rec) ==> record_is(rec, AuditOperation::ListPrompts, audited_user(audit_reply), *auth, None, AuditResult::Success, Some(count_summary(v.0.len(), v.1 is Some)), None))),
                        Progress::Fail(ev) => r matches ServerStep::Done(_, Some(rec)) ==> record_is(rec, AuditOperation::ListPrompts, audited_user(audit_reply), *auth, None, spec_audit_result(ev.0, ev.1), Some(listing_error_summary(spec_audit_result(ev.0, ev.1))), None),
                        _ => true,
                    }
                }),
    {
        let handler = self.create_handler(audit_configured);
        match handler.handle_list_prompts(auth, cursor, is_prompt_name, replies, audit_reply) {
            HandlerStep::Ask(q) => ServerStep::Ask(q),
            HandlerStep::Done(Ok(g), audit) => {
                proof {
                    lemma_listed_prompts_keep_items(g.items@);
                }
                let listing = prompt_listing(g);
                ServerStep::Done(Ok(listing), audit)
            },
            HandlerStep::Done(Err(e), audit) => ServerStep::Done(
                Err(list_prompt_protocol_error(e)),
                audit,
            ),
        }
    }

    /// `resources/list`: the audited listing, a failure as a protocol error.
    pub fn list_resources_for_auth_at<F: Fn(&str) -> bool, G: Fn(&str) -> bool>(
        &self,
        audit_configured: bool,
        auth: &AuthContext,
        cursor: Option<&str>,
        is_resource_path: &F,
        is_token_id: &G,
        replies: &[StoreReply],
        audit_reply: Option<&StoreReply>,
    ) -> (r: ServerStep<ListResourcesServiceResult>)
        requires
            forall|s: &str| call_requires(*is_resource_path, (s,)),
            forall|s: &str| call_requires(*is_token_id, (s,)),
        ensures
            forall|p: spec_fn(Seq<char>) -> bool, q: spec_fn(Seq<char>) -> bool|
                decides(*is_resource_path, p) && decides(*is_token_id, q) ==> ({
                    let prog = spec_list_resources(*auth, DEFAULT_RESOURCE_AUTHORITY@, opt_str_view(cursor), p, q, replies@);
                    &&& served_shape(r, prog, opt_reply(audit_reply), auth.spec_user_id(), audit_configured, |ev: ErrorView| spec_listing_protocol_error(ev.0))
                    &&& match prog {
                        Progress::Got(v, _) => r matches ServerStep::Done(Ok(g), audit) ==> (
                            (g.items@.map_values(|i: ResourceListItem| crate::resources::item_view(i)), opt_view(g.next_cursor)) == v
                            && (audit matches Some(rec) ==> record_is(rec, AuditOperation::ListResources, audited_user(audit_reply), *auth, None, AuditResult::Success, Some(count_summary(v.0.len(), v.1 is Some)), None))),
                        Progress::Fail(ev) => r matches ServerStep::Done(_, Some(rec)) ==> record_is(rec, AuditOperation::ListResources, audited_user(audit_reply), *auth, None, spec_audit_result(ev.0, ev.1), Some(listing_error_summary(spec_audit_result(ev.0, ev.1))), None),
                        _ => true,
                    }
                }),
    {
        let handler = self.create_handler(audit_configured);
        match handler.handle_list_resources(auth, cursor, is_resource_path, is_token_id, replies, audit_reply) {
            HandlerStep::Ask(q) => ServerStep::Ask(q),
            HandlerStep::Done(Ok(g), audit) => ServerStep::Done(Ok(g), audit),
            HandlerStep::Done(Err(e), audit) => ServerStep::Done(
                Err(list_resource_protocol_error(e)),
                audit,
            ),
        }
    }

    /// `resources/read`: the audited contents, a failure as a protocol error.
    pub fn read_resource_for_auth_at<F: Fn(&str) -> bool, H: Fn(&str) -> bool, G: Fn(&str) -> bool>(
        &self,
        audit_configured: bool,
        auth: &AuthContext,
        uri: &str,
        default_mime_type: &str,
        is_resource_path: &F,
        is_path_shape: &H,
        is_token_id: &G,
        replies: &[StoreReply],
        audit_reply: Option<&StoreReply>,
    ) -> (r: ServerStep<ReadResourceServiceResult>)
        requires
            forall|s: &str| call_requires(*is_resource_path, (s,)),
            forall|s: &str| call_requires(*is_path_shape, (s,)),
            forall|s: &str| call_requires(*is_token_id, (s,)),
        ensures
            forall|p: spec_fn(Seq<char>) -> bool, h: spec_fn(Seq<char>) -> bool, q: spec_fn(Seq<char>) -> bool|
                decides(*is_resource_path, p) && decides(*is_path_shape, h) && decides(*is_token_id, q) ==> ({
                    let prog = spec_read_resource(*auth, DEFAULT_RESOURCE_AUTHORITY@, uri@, default_mime_type@, p, h, q, replies@);
                    &&& served_shape(r, prog, opt_reply(audit_reply), auth.spec_user_id(), audit_configured, |ev: ErrorView| spec_read_resource_protocol_error(ev.0))
                    &&& match prog {
                        Progress::Got(v, _) => r matches ServerStep::Done(Ok(g), audit) ==> (
                            (g.uri@, g.mime_type@, g.text@, g.revision) == v
                            && (audit matches Some(rec) ==> record_is(rec, AuditOperation::ReadResource, audited_user(audit_reply), *auth, None, AuditResult::Success, uri_summary(uri@, DEFAULT_RESOURCE_AUTHORITY@, p), v.3))),
                        Progress::Fail(ev) => r matches ServerStep::Done(_, Some(rec)) ==> record_is(rec, AuditOperation::ReadResource, audited_user(audit_reply), *auth, None, spec_audit_result(ev.0, ev.1), uri_summary(uri@, DEFAULT_RESOURCE_AUTHORITY@, p), None),
                        _ => true,
                    }
                }),
    {
        let handler = self.create_handler(audit_configured);
        match handler.handle_read_resource(
            auth,
            uri,
            default_mime_type,
            is_resource_path,
            is_path_shape,
            is_token_id,
            replies,
            audit_reply,
        ) {
            HandlerStep::Ask(q) => ServerStep::Ask(q),
            HandlerStep::Done(Ok(g), audit) => ServerStep::Done(Ok(g), audit),
            HandlerStep::Done(Err(e), audit) => ServerStep::Done(
                Err(read_resource_protocol_error(e)),
                audit,
            ),
        }
    }

    /// `prompts/get`: the audited expansion, a failure as a protocol error.
    pub fn get_prompt_for_auth_at<F: Fn(&str) -> bool, G: Fn(&str) -> bool>(
        &self,
        audit_configured: bool,
        auth: &AuthContext,
        name: &str,
        arguments: Option<&Vec<PromptArgument>>,
        is_prompt_name: &F,
        is_arg_name: &G,
        replies: &[StoreReply],
        audit_reply: Option<&StoreReply>,
    ) -> (r: ServerStep<GetPromptServiceResult>)
        requires
            forall|s: &str| call_requires(*is_prompt_name, (s,)),
            forall|s: &str| call_requires(*is_arg_name, (s,)),
        ensures
            forall|p: spec_fn(Seq<char>) -> bool, q: spec_fn(Seq<char>) -> bool|
                decides(*is_prompt_name, p) && decides(*is_arg_name, q) ==> ({
                    let prog = spec_get_prompt(*auth, name@, match arguments { Some(a) => Some(a@), None => None }, p, q, replies@);
                    &&& served_shape(r, prog, opt_reply(audit_reply), auth.spec_user_id(), audit_configured, |ev: ErrorView| spec_get_prompt_protocol_error(ev.0, ev.1))
                    &&& match prog {
                        Progress::Got(v, _) => r matches ServerStep::Done(Ok(g), audit) ==> (
                            (g.description@, g.message@, g.revision) == v
                            && (audit matches Some(rec) ==> record_is(rec, AuditOperation::GetPrompt, audited_user(audit_reply), *auth, None, AuditResult::Success, name_summary(name@, p), Some(v.2)))),
                        Progress::Fail(ev) => r matches ServerStep::Done(_, Some(rec)) ==> record_is(rec, AuditOperation::GetPrompt, audited_user(audit_reply), *auth, None, spec_audit_result(ev.0, ev.1), name_summary(name@, p), None),
                        _ => true,
                    }
                }),
    {
        let handler = self.create_handler(audit_configured);
        match handler.handle_get_prompt(auth, name, arguments, is_prompt_name, is_arg_name, replies, audit_reply) {
            HandlerStep::Ask(q) => ServerStep::Ask(q),
            HandlerStep::Done(Ok(g), audit) => ServerStep::Done(Ok(g), audit),
            HandlerStep::Done(Err(e), audit) => ServerStep::Done(
                Err(get_prompt_protocol_error(e)),
                audit,
            ),
        }
    }
}

} // verus!
