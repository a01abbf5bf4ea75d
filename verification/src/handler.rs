//! The tool entry: dispatches a tool call to the service layer, turns the
//! result into the tool's answer and prepares the audit record of the call.

use vstd::prelude::*;
use crate::access::{AuthContext, McpOperation, opt_view};
use crate::audit::{
    AuditOperation, AuditRecord, AuditResult, build_get_prompt_audit_record,
    build_get_prompt_error_audit_record, build_list_prompts_audit_record,
    build_list_prompts_error_audit_record, build_list_resources_audit_record,
    build_list_resources_error_audit_record, build_read_resource_audit_record,
    build_read_resource_error_audit_record, count_summary, listing_error_summary, name_summary,
    spec_audit_result, build_append_page_audit_record,
    build_edit_page_audit_record, build_get_page_audit_record,
    build_get_page_section_audit_record, build_get_page_toc_audit_record,
    build_list_pages_audit_record, build_rename_page_audit_record, build_write_page_audit_record,
    record_is, spec_primary_target,
};
use crate::auth::McpAuthGateway;
use crate::convert::{edit_request_of, section_selector, section_selector_of, service_edit_request};
use crate::errors::{McpError, err_view};
use crate::model::{
    GetPromptServiceResult, ListPromptsServiceResult, ListResourcesServiceResult,
    ReadResourceServiceResult, PromptListItem, ResourceListItem, AppendPageResponse, EditPageResponse, GetPageResponse, GetPageSectionResponse,
    McpPageListItem, McpResponseEnvelope, McpSectionInfo, McpToolRequest, McpToolResponse,
    McpRequestEnvelope, WritePageResponse,
};
use crate::reads::{
    TocView, spec_get_page_section, spec_get_page_toc, spec_list_pages, spec_read_page,
};
use crate::prompts::{PromptArgument, prompt_item_view, spec_get_prompt, spec_list_prompts};
use crate::resources::{decides, spec_list_resources, spec_read_resource, uri_summary};
use crate::search::{SearchPlan, spec_plan_search};
use crate::service::{McpService, opt_str_view};
use crate::store::{OpStep, Progress, RequestView, Stage, StoreReply, StoreRequest, request_view};
use crate::writes::{
    revisions_in_range, spec_append_page, spec_create_page, spec_edit_page, spec_rename_page,
    spec_update_page,
};

verus! {

/// The tool entry.
#[derive(Clone, Debug)]
pub struct McpHandler {
    auth: McpAuthGateway,
    service: McpService,
    audit_enabled: bool,
}

/// What the tool entry hands back for a call.
#[derive(Debug)]
pub enum HandledTool {
    /// The tool's answer.
    Response(McpResponseEnvelope),
    /// A checked search, to be run against the full-text index.
    Search(SearchPlan),
}

/// The next move of the tool entry: a request to the store, or the outcome
/// of the call with the audit record to write, if any.
#[derive(Debug)]
pub enum HandlerStep<T> {
    /// Perform this request and call again with its reply added.
    Ask(StoreRequest),
    /// The call is over.
    Done(Result<T, McpError>, Option<AuditRecord>),
}

/// The user an audit record names, from the reply to the audit user lookup:
/// none when the lookup failed or found nobody.
pub open spec fn audit_user(reply: StoreReply) -> Option<Seq<char>> {
    match reply {
        StoreReply::UserId(Ok(Some(u))) => Some(u@),
        _ => None,
    }
}

/// The user an audit record names (executable).
pub fn resolve_audit_user_id(reply: &StoreReply) -> (r: Option<String>)
    ensures
        opt_view(r) == audit_user(*reply),
{
    match reply {
        StoreReply::UserId(Ok(Some(u))) => Some(u.clone()),
        _ => None,
    }
}

/// A table-of-contents entry as the client sees it.
pub open spec fn info_toc(s: McpSectionInfo) -> TocView {
    TocView {
        id: s.id@,
        title: s.title@,
        level: s.level,
        ordinal: s.ordinal,
        parent_id: opt_view(s.parent_id),
        section_chars: s.section_chars as nat,
    }
}

/// How the tool entry ends a call whose service part has progress `prog`:
/// it asks what the service part asks, reports its failure without an audit
/// record, and after a success asks for the audit user (answered apart from
/// the other replies); a
/// record comes with the answer only when auditing is on and the user was
/// found.
pub open spec fn handled_shape<V>(
    r: HandlerStep<HandledTool>,
    prog: Progress<V>,
    audit_reply: Option<StoreReply>,
    user_name: Seq<char>,
    enabled: bool,
) -> bool {
    match prog {
        Progress::Ask(q) => r matches HandlerStep::Ask(a) && request_view(a) == q,
        Progress::Fail(ev) => r matches HandlerStep::Done(Err(e), None) && err_view(e) == ev,
        Progress::Got(_, _) => match audit_reply {
            None => r matches HandlerStep::Ask(a) && request_view(a) == RequestView::AuditUserId(
                user_name,
            ),
            Some(ar) => r matches HandlerStep::Done(Ok(HandledTool::Response(_)), audit) && (audit
                is Some <==> (enabled && audit_user(ar) is Some)),
        },
    }
}

/// The reply to the audit user lookup, when it was made.
pub open spec fn opt_reply(r: Option<&StoreReply>) -> Option<StoreReply> {
    match r {
        Some(x) => Some(*x),
        None => None,
    }
}

/// The answer and the audit record of a successful call.
pub open spec fn answered(r: HandlerStep<HandledTool>) -> Option<(McpResponseEnvelope, Option<AuditRecord>)> {
    match r {
        HandlerStep::Done(Ok(HandledTool::Response(env)), audit) => Some((env, audit)),
        _ => None,
    }
}

/// How a direct handler ends an operation with progress `prog`: it asks
/// what the operation asks; once the operation is over it asks for the
/// audit user (answered apart from the other replies), then answers with
/// the operation's outcome, a failure as it is, and an audit record when
/// auditing is on and the user was found.
pub open spec fn audited_shape<T, V>(
    r: HandlerStep<T>,
    prog: Progress<V>,
    audit_reply: Option<StoreReply>,
    user_name: Seq<char>,
    enabled: bool,
) -> bool {
    match prog {
        Progress::Ask(q) => r matches HandlerStep::Ask(a) && request_view(a) == q,
        _ => match audit_reply {
            None => r matches HandlerStep::Ask(a) && request_view(a) == RequestView::AuditUserId(
                user_name,
            ),
            Some(ar) => r matches HandlerStep::Done(res, audit) && (audit is Some <==> (enabled
                && audit_user(ar) is Some)) && (prog matches Progress::Fail(ev) ==> res matches Err(
                e) && err_view(e) == ev) && (prog is Got ==> res is Ok),
        },
    }
}

/// The user an audit record of a finished call names.
pub open spec fn audited_user(audit_reply: Option<&StoreReply>) -> Seq<char> {
    match audit_reply {
        Some(ar) => match audit_user(*ar) {
            Some(u) => u,
            None => Seq::empty(),
        },
        None => Seq::empty(),
    }
}

impl McpHandler {
    /// Whether audit records are written.
    pub closed spec fn spec_audit_enabled(&self) -> bool {
        self.audit_enabled
    }

    /// The service layer behind the entry.
    pub closed spec fn spec_service(&self) -> McpService {
        self.service
    }

    /// Builds the entry; `audit_enabled` tells whether an audit log is
    /// configured.
    pub fn new(auth: McpAuthGateway, service: McpService, audit_enabled: bool) -> (h: McpHandler)
        ensures
            h.spec_audit_enabled() == audit_enabled,
            h.spec_service() == service,
    {
        McpHandler { auth, service, audit_enabled }
    }

    /// The authentication entry point.
    pub fn auth(&self) -> (a: &McpAuthGateway) {
        &self.auth
    }

    /// The service layer.
    pub fn service(&self) -> (s: &McpService)
        ensures
            *s == self.spec_service(),
    {
        &self.service
    }

    /// The record to hand to the audit log: the record itself when an audit
    /// log is configured, otherwise none.
    pub fn try_record_audit(&self, record: AuditRecord) -> (r: Option<AuditRecord>)
        ensures
            self.spec_audit_enabled() ==> r == Some(record),
            !self.spec_audit_enabled() ==> r is None,
    {
        if self.audit_enabled {
            Some(record)
        } else {
            None
        }
    }

    /// Dispatches a tool call to the service layer. A success is answered in
    /// the tool's form and audited once the audit user lookup is answered; a
    /// failure is answered as it is. A search is checked and handed back as
    /// a plan.
    #[verifier::spinoff_prover]
    #[verifier::rlimit(50)]
    pub fn handle(
        &self,
        auth: &AuthContext,
        request: &McpRequestEnvelope,
        replies: &[StoreReply],
        audit_reply: Option<&StoreReply>,
    ) -> (r: HandlerStep<HandledTool>)
        requires
            revisions_in_range(replies@),
        ensures
            match request.request {
                McpToolRequest::GetPage(i) => ({
                    let p = spec_read_page(*auth, McpOperation::GetPage, i.path@, i.revision, replies@);
                    &&& handled_shape(r, p, opt_reply(audit_reply), auth.spec_user_id(), self.spec_audit_enabled())
                    &&& match p {
                        Progress::Got(v, m) => audit_reply is Some ==> (answered(r) matches Some((env, audit)) && env.tool_name == request.tool_name && (env.response matches McpToolResponse::GetPage(g) && (g.path@, g.revision, g.instance_id@, g.content@) == v) && (audit matches Some(rec) ==> record_is(rec, AuditOperation::Get, audit_user(*audit_reply.unwrap()).unwrap(), *auth, Some(v.0), AuditResult::Success, None, Some(v.1)))),
                        _ => true,
                    }
                }),
                McpToolRequest::GetPageToc(i) => ({
                    let p = spec_get_page_toc(*auth, i.path@, i.revision, replies@);
                    &&& handled_shape(r, p, opt_reply(audit_reply), auth.spec_user_id(), self.spec_audit_enabled())
                    &&& match p {
                        Progress::Got(v, m) => audit_reply is Some ==> (answered(r) matches Some((env, audit)) && env.tool_name == request.tool_name && (env.response matches McpToolResponse::GetPageToc(g) && g.path@ == v.0 && g.revision == v.1 && g.instance_id@ == v.2 && g.sections@.map_values(|s: McpSectionInfo| info_toc(s)) == v.3) && (audit matches Some(rec) ==> record_is(rec, AuditOperation::Get, audit_user(*audit_reply.unwrap()).unwrap(), *auth, Some(v.0), AuditResult::Success, None, Some(v.1)))),
                        _ => true,
                    }
                }),
                McpToolRequest::ListPages(i) => ({
                    let p = spec_list_pages(*auth, i.prefix@, i.limit, opt_view(i.cursor), replies@);
                    &&& handled_shape(r, p, opt_reply(audit_reply), auth.spec_user_id(), self.spec_audit_enabled())
                    &&& match p {
                        Progress::Got(v, m) => audit_reply is Some ==> (answered(r) matches Some((env, audit)) && env.tool_name == request.tool_name && (env.response matches McpToolResponse::ListPages(g) && g.items@.map_values(|x: McpPageListItem| (x.path@, x.revision, x.updated_at@, x.updated_by@)) == v.0 && g.has_more == v.1 && opt_view(g.next_cursor) == v.2) && (audit matches Some(rec) ==> record_is(rec, AuditOperation::List, audit_user(*audit_reply.unwrap()).unwrap(), *auth, spec_primary_target(request.request), AuditResult::Success, None, None))),
                        _ => true,
                    }
                }),
                McpToolRequest::SearchPages(i) => match spec_plan_search(*auth, i.query@, i.targets@.len(), opt_view(i.prefix), i.limit) {
                    Ok((q, p, l)) => r matches HandlerStep::Done(Ok(HandledTool::Search(plan)), None)
                        && plan.query@ == q && plan.targets@ == i.targets@ && plan.prefix.wf()
                        && plan.prefix.spec_prefix() == p && plan.limit == l,
                    Err(ev) => r matches HandlerStep::Done(Err(e), None) && err_view(e) == ev,
                },
                McpToolRequest::CreatePage(i) => ({
                    let p = spec_create_page(*auth, i.path@, i.content@, replies@);
                    &&& handled_shape(r, p, opt_reply(audit_reply), auth.spec_user_id(), self.spec_audit_enabled())
                    &&& match p {
                        Progress::Got(v, m) => audit_reply is Some ==> (answered(r) matches Some((env, audit)) && env.tool_name == request.tool_name && (env.response matches McpToolResponse::CreatePage(g) && (g.path@, g.revision, g.instance_id@, g.summary@) == v) && (audit matches Some(rec) ==> record_is(rec, AuditOperation::Create, audit_user(*audit_reply.unwrap()).unwrap(), *auth, Some(v.0), AuditResult::Success, Some(v.3), Some(v.1)))),
                        _ => true,
                    }
                }),
                McpToolRequest::UpdatePage(i) => ({
                    let p = spec_update_page(*auth, i.path@, i.content@, replies@);
                    &&& handled_shape(r, p, opt_reply(audit_reply), auth.spec_user_id(), self.spec_audit_enabled())
                    &&& match p {
                        Progress::Got(v, m) => audit_reply is Some ==> (answered(r) matches Some((env, audit)) && env.tool_name == request.tool_name && (env.response matches McpToolResponse::UpdatePage(g) && (g.path@, g.revision, g.instance_id@, g.summary@) == v) && (audit matches Some(rec) ==> record_is(rec, AuditOperation::Update, audit_user(*audit_reply.unwrap()).unwrap(), *auth, Some(v.0), AuditResult::Success, Some(v.3), Some(v.1)))),
                        _ => true,
                    }
                }),
                McpToolRequest::EditPage(i) => ({
                    let p = spec_edit_page(*auth, service_edit_request(i), replies@);
                    &&& handled_shape(r, p, opt_reply(audit_reply), auth.spec_user_id(), self.spec_audit_enabled())
                    &&& match p {
                        Progress::Got(v, m) => audit_reply is Some ==> (answered(r) matches Some((env, audit)) && env.tool_name == request.tool_name && (env.response matches McpToolResponse::EditPage(g) && (g.path@, g.revision, g.instance_id@, g.summary@) == v) && (audit matches Some(rec) ==> record_is(rec, AuditOperation::Update, audit_user(*audit_reply.unwrap()).unwrap(), *auth, Some(v.0), AuditResult::Success, Some(v.3), Some(v.1)))),
                        _ => true,
                    }
                }),
                McpToolRequest::AppendPage(i) => ({
                    let p = spec_append_page(*auth, i.path@, i.content@, replies@);
                    &&& handled_shape(r, p, opt_reply(audit_reply), auth.spec_user_id(), self.spec_audit_enabled())
                    &&& match p {
                        Progress::Got(v, m) => audit_reply is Some ==> (answered(r) matches Some((env, audit)) && env.tool_name == request.tool_name && (env.response matches McpToolResponse::AppendPage(g) && (g.path@, g.revision, g.instance_id@, g.summary@, g.amended) == v) && (audit matches Some(rec) ==> record_is(rec, AuditOperation::Append, audit_user(*audit_reply.unwrap()).unwrap(), *auth, Some(v.0), AuditResult::Success, Some(v.3), Some(v.1)))),
                        _ => true,
                    }
                }),
                McpToolRequest::RenamePage(i) => ({
                    let p = spec_rename_page(*auth, i.path@, i.rename_to@, replies@);
                    &&& handled_shape(r, p, opt_reply(audit_reply), auth.spec_user_id(), self.spec_audit_enabled())
                    &&& match p {
                        Progress::Got(v, m) => audit_reply is Some ==> (answered(r) matches Some((env, audit)) && env.tool_name == request.tool_name && (env.response matches McpToolResponse::RenamePage(g) && (g.path@, g.revision, g.instance_id@, g.summary@) == v) && (audit matches Some(rec) ==> record_is(rec, AuditOperation::Rename, audit_user(*audit_reply.unwrap()).unwrap(), *auth, spec_primary_target(request.request), AuditResult::Success, Some("rename to "@ + i.rename_to@), Some(v.1)))),
                        _ => true,
                    }
                }),
                McpToolRequest::GetPageSection(i) => ({
                    let p = spec_get_page_section(*auth, i.path@, section_selector(i.section), i.revision, replies@);
                    &&& handled_shape(r, p, opt_reply(audit_reply), auth.spec_user_id(), self.spec_audit_enabled())
                    &&& match p {
                        Progress::Got(v, m) => audit_reply is Some ==> (answered(r) matches Some((env, audit)) && env.tool_name == request.tool_name && (env.response matches McpToolResponse::GetPageSection(g) && g.path@ == v.0 && g.revision == v.1 && info_toc(g.section) == v.2 && g.content@ == v.3) && (audit matches Some(rec) ==> record_is(rec, AuditOperation::GetSection, audit_user(*audit_reply.unwrap()).unwrap(), *auth, Some(v.0), AuditResult::Success, None, Some(v.1)))),
                        _ => true,
                    }
                }),
            },
    {
        let tool_name = request.tool_name;
        match &request.request {
            McpToolRequest::GetPage(input) => {
                let res = match self.service.get_page_stage(
                    auth,
                    input.path.as_str(),
                    input.revision,
                    replies,
                ) {
                    Stage::Ask(q) => return HandlerStep::Ask(q),
                    Stage::Fail(e) => return HandlerStep::Done(Err(e), None),
                    Stage::Got(res, _) => res,
                };
                let ar = match audit_reply {
                    Some(ar) => ar,
                    None => return self.ask_audit_user(auth),
                };
                let audit = match resolve_audit_user_id(ar) {
                    Some(u) => self.try_record_audit(build_get_page_audit_record(auth, request, &res, u)),
                    None => None,
                };
                let response = McpToolResponse::GetPage(GetPageResponse::from(res));
                HandlerStep::Done(
                    Ok(HandledTool::Response(McpResponseEnvelope::new(tool_name, response))),
                    audit,
                )
            },
            McpToolRequest::GetPageToc(input) => {
                let res = match self.service.get_page_toc_stage(
                    auth,
                    input.path.as_str(),
                    input.revision,
                    replies,
                ) {
                    Stage::Ask(q) => return HandlerStep::Ask(q),
                    Stage::Fail(e) => return HandlerStep::Done(Err(e), None),
                    Stage::Got(res, _) => res,
                };
                let ar = match audit_reply {
                    Some(ar) => ar,
                    None => return self.ask_audit_user(auth),
                };
                let audit = match resolve_audit_user_id(ar) {
                    Some(u) => self.try_record_audit(
                        build_get_page_toc_audit_record(auth, request, &res, u),
                    ),
                    None => None,
                };
                let response = McpToolResponse::GetPageToc(crate::convert::toc_response(res));
                HandlerStep::Done(
                    Ok(HandledTool::Response(McpResponseEnvelope::new(tool_name, response))),
                    audit,
                )
            },
            McpToolRequest::ListPages(input) => {
                let cursor = match &input.cursor {
                    Some(c) => Some(c.as_str()),
                    None => None,
                };
                let res = match self.service.list_pages_stage(
                    auth,
                    input.prefix.as_str(),
                    input.limit,
                    cursor,
                    replies,
                ) {
                    Stage::Ask(q) => return HandlerStep::Ask(q),
                    Stage::Fail(e) => return HandlerStep::Done(Err(e), None),
                    Stage::Got(res, _) => res,
                };
                let ar = match audit_reply {
                    Some(ar) => ar,
                    None => return self.ask_audit_user(auth),
                };
                let audit = match resolve_audit_user_id(ar) {
                    Some(u) => self.try_record_audit(
                        build_list_pages_audit_record(auth, request, &res, u),
                    ),
                    None => None,
                };
                let response = McpToolResponse::ListPages(crate::convert::list_pages_response(res));
                HandlerStep::Done(
                    Ok(HandledTool::Response(McpResponseEnvelope::new(tool_name, response))),
                    audit,
                )
            },
            McpToolRequest::SearchPages(input) => {
                let prefix = match &input.prefix {
                    Some(p) => Some(p.as_str()),
                    None => None,
                };
                match self.service.plan_search_pages(
                    auth,
                    input.query.as_str(),
                    input.targets.as_slice(),
                    prefix,
                    input.limit,
                ) {
                    Ok(plan) => HandlerStep::Done(Ok(HandledTool::Search(plan)), None),
                    Err(e) => HandlerStep::Done(Err(e), None),
                }
            },
            McpToolRequest::CreatePage(input) => {
                let res = match self.service.create_page_stage(
                    auth,
                    input.path.as_str(),
                    input.content.as_str(),
                    replies,
                ) {
                    Stage::Ask(q) => return HandlerStep::Ask(q),
                    Stage::Fail(e) => return HandlerStep::Done(Err(e), None),
                    Stage::Got(res, _) => res,
                };
                let ar = match audit_reply {
                    Some(ar) => ar,
                    None => return self.ask_audit_user(auth),
                };
                let audit = match resolve_audit_user_id(ar) {
                    Some(u) => self.try_record_audit(
                        build_write_page_audit_record(auth, request, &res, u),
                    ),
                    None => None,
                };
                let response = McpToolResponse::CreatePage(WritePageResponse::from(res));
                HandlerStep::Done(
                    Ok(HandledTool::Response(McpResponseEnvelope::new(tool_name, response))),
                    audit,
                )
            },
            McpToolRequest::UpdatePage(input) => {
                let res = match self.service.update_page_stage(
                    auth,
                    input.path.as_str(),
                    input.content.as_str(),
                    replies,
                ) {
                    Stage::Ask(q) => return HandlerStep::Ask(q),
                    Stage::Fail(e) => return HandlerStep::Done(Err(e), None),
                    Stage::Got(res, _) => res,
                };
                let ar = match audit_reply {
                    Some(ar) => ar,
                    None => return self.ask_audit_user(auth),
                };
                let audit = match resolve_audit_user_id(ar) {
                    Some(u) => self.try_record_audit(
                        build_write_page_audit_record(auth, request, &res, u),
                    ),
                    None => None,
                };
                let response = McpToolResponse::UpdatePage(WritePageResponse::from(res));
                HandlerStep::Done(
                    Ok(HandledTool::Response(McpResponseEnvelope::new(tool_name, response))),
                    audit,
                )
            },
            McpToolRequest::EditPage(input) => {
                let edit = edit_request_of(input);
                let res = match self.service.edit_page_stage(auth, &edit, replies) {
                    Stage::Ask(q) => return HandlerStep::Ask(q),
                    Stage::Fail(e) => return HandlerStep::Done(Err(e), None),
                    Stage::Got(res, _) => res,
                };
                let ar = match audit_reply {
                    Some(ar) => ar,
                    None => return self.ask_audit_user(auth),
                };
                let audit = match resolve_audit_user_id(ar) {
                    Some(u) => self.try_record_audit(
                        build_edit_page_audit_record(auth, request, &res, u),
                    ),
                    None => None,
                };
                let response = McpToolResponse::EditPage(EditPageResponse::from(res));
                HandlerStep::Done(
                    Ok(HandledTool::Response(McpResponseEnvelope::new(tool_name, response))),
                    audit,
                )
            },
            McpToolRequest::AppendPage(input) => {
                let res = match self.service.append_page_stage(
                    auth,
                    input.path.as_str(),
                    input.content.as_str(),
                    replies,
                ) {
                    Stage::Ask(q) => return HandlerStep::Ask(q),
                    Stage::Fail(e) => return HandlerStep::Done(Err(e), None),
                    Stage::Got(res, _) => res,
                };
                let ar = match audit_reply {
                    Some(ar) => ar,
                    None => return self.ask_audit_user(auth),
                };
                let audit = match resolve_audit_user_id(ar) {
                    Some(u) => self.try_record_audit(
                        build_append_page_audit_record(auth, request, &res, u),
                    ),
                    None => None,
                };
                let response = McpToolResponse::AppendPage(AppendPageResponse::from(res));
                HandlerStep::Done(
                    Ok(HandledTool::Response(McpResponseEnvelope::new(tool_name, response))),
                    audit,
                )
            },
            McpToolRequest::RenamePage(input) => {
                let res = match self.service.rename_page_stage(
                    auth,
                    input.path.as_str(),
                    input.rename_to.as_str(),
                    replies,
                ) {
                    Stage::Ask(q) => return HandlerStep::Ask(q),
                    Stage::Fail(e) => return HandlerStep::Done(Err(e), None),
                    Stage::Got(res, _) => res,
                };
                let ar = match audit_reply {
                    Some(ar) => ar,
                    None => return self.ask_audit_user(auth),
                };
                let audit = match resolve_audit_user_id(ar) {
                    Some(u) => self.try_record_audit(
                        build_rename_page_audit_record(auth, request, &res, u),
                    ),
                    None => None,
                };
                let response = McpToolResponse::RenamePage(WritePageResponse::from(res));
                HandlerStep::Done(
                    Ok(HandledTool::Response(McpResponseEnvelope::new(tool_name, response))),
                    audit,
                )
            },
            McpToolRequest::GetPageSection(input) => {
                let selector = section_selector_of(&input.section);
                let res = match self.service.get_page_section_stage(
                    auth,
                    input.path.as_str(),
                    selector,
                    input.revision,
                    replies,
                ) {
                    Stage::Ask(q) => return HandlerStep::Ask(q),
                    Stage::Fail(e) => return HandlerStep::Done(Err(e), None),
                    Stage::Got(res, _) => res,
                };
                let ar = match audit_reply {
                    Some(ar) => ar,
                    None => return self.ask_audit_user(auth),
                };
                let audit = match resolve_audit_user_id(ar) {
                    Some(u) => self.try_record_audit(
                        build_get_page_section_audit_record(auth, request, &res, u),
                    ),
                    None => None,
                };
                let response = McpToolResponse::GetPageSection(GetPageSectionResponse::from(res));
                HandlerStep::Done(
                    Ok(HandledTool::Response(McpResponseEnvelope::new(tool_name, response))),
                    audit,
                )
            },
        }
    }

    fn ask_audit_user(&self, auth: &AuthContext) -> (r: HandlerStep<HandledTool>)
        ensures
            r matches HandlerStep::Ask(a) && request_view(a) == RequestView::AuditUserId(
                auth.spec_user_id(),
            ),
    {
        HandlerStep::Ask(StoreRequest::AuditUserId { user_name: String::from_str(auth.user_id()) })
    }

    /// `prompts/list` with its audit record, on success or failure.
    pub fn handle_list_prompts<F: Fn(&str) -> bool>(
        &self,
        auth: &AuthContext,
        cursor: Option<&str>,
        is_prompt_name: &F,
        replies: &[StoreReply],
        audit_reply: Option<&StoreReply>,
    ) -> (r: HandlerStep<ListPromptsServiceResult>)
        requires
            forall|s: &str| call_requires(*is_prompt_name, (s,)),
        ensures
            forall|p: spec_fn(Seq<char>) -> bool|
                decides(*is_prompt_name, p) ==> ({
                    let prog = spec_list_prompts(*auth, opt_str_view(cursor), p, replies@);
                    &&& audited_shape(r, prog, opt_reply(audit_reply), auth.spec_user_id(), self.spec_audit_enabled())
                    &&& match prog {
                        Progress::Got(v, _) => r matches HandlerStep::Done(Ok(g), _) ==> (g.items@.map_values(|i: PromptListItem| prompt_item_view(i)), opt_view(g.next_cursor)) == v,
                        _ => true,
                    }
                    &&& match r {
                        HandlerStep::Done(Ok(g), Some(rec)) => record_is(rec, AuditOperation::ListPrompts, audited_user(audit_reply), *auth, None, AuditResult::Success, Some(count_summary(g.items@.len(), g.next_cursor is Some)), None),
                        HandlerStep::Done(Err(e), Some(rec)) => record_is(rec, AuditOperation::ListPrompts, audited_user(audit_reply), *auth, None, spec_audit_result(e.spec_code(), e.spec_message()), Some(listing_error_summary(spec_audit_result(e.spec_code(), e.spec_message()))), None),
                        _ => true,
                    }
                }),
    {
        let outcome = match self.service.list_prompts(auth, cursor, is_prompt_name, replies) {
            OpStep::Ask(q) => return HandlerStep::Ask(q),
            OpStep::Done(res) => res,
        };
        let ar = match audit_reply {
            Some(ar) => ar,
            None => return self.ask_audit_user_for(auth),
        };
        let audit = match resolve_audit_user_id(ar) {
            Some(u) => self.try_record_audit(
                match &outcome {
                    Ok(g) => build_list_prompts_audit_record(auth, g, u),
                    Err(e) => build_list_prompts_error_audit_record(auth, e, u),
                },
            ),
            None => None,
        };
        HandlerStep::Done(outcome, audit)
    }

    /// `resources/list` with its audit record, on success or failure.
    pub fn handle_list_resources<F: Fn(&str) -> bool, G: Fn(&str) -> bool>(
        &self,
        auth: &AuthContext,
        cursor: Option<&str>,
        is_resource_path: &F,
        is_token_id: &G,
        replies: &[StoreReply],
        audit_reply: Option<&StoreReply>,
    ) -> (r: HandlerStep<ListResourcesServiceResult>)
        requires
            forall|s: &str| call_requires(*is_resource_path, (s,)),
            forall|s: &str| call_requires(*is_token_id, (s,)),
        ensures
            forall|p: spec_fn(Seq<char>) -> bool, q: spec_fn(Seq<char>) -> bool|
                decides(*is_resource_path, p) && decides(*is_token_id, q) ==> ({
                    let prog = spec_list_resources(*auth, self.spec_service().spec_authority(), opt_str_view(cursor), p, q, replies@);
                    &&& audited_shape(r, prog, opt_reply(audit_reply), auth.spec_user_id(), self.spec_audit_enabled())
                    &&& match prog {
                        Progress::Got(v, _) => r matches HandlerStep::Done(Ok(g), _) ==> (g.items@.map_values(|i: ResourceListItem| crate::resources::item_view(i)), opt_view(g.next_cursor)) == v,
                        _ => true,
                    }
                    &&& match r {
                        HandlerStep::Done(Ok(g), Some(rec)) => record_is(rec, AuditOperation::ListResources, audited_user(audit_reply), *auth, None, AuditResult::Success, Some(count_summary(g.items@.len(), g.next_cursor is Some)), None),
                        HandlerStep::Done(Err(e), Some(rec)) => record_is(rec, AuditOperation::ListResources, audited_user(audit_reply), *auth, None, spec_audit_result(e.spec_code(), e.spec_message()), Some(listing_error_summary(spec_audit_result(e.spec_code(), e.spec_message()))), None),
                        _ => true,
                    }
                }),
    {
        let outcome = match self.service.list_resources(
            auth,
            cursor,
            is_resource_path,
            is_token_id,
            replies,
        ) {
            OpStep::Ask(q) => return HandlerStep::Ask(q),
            OpStep::Done(res) => res,
        };
        let ar = match audit_reply {
            Some(ar) => ar,
            None => return self.ask_audit_user_for(auth),
        };
        let audit = match resolve_audit_user_id(ar) {
            Some(u) => self.try_record_audit(
                match &outcome {
                    Ok(g) => build_list_resources_audit_record(auth, g, u),
                    Err(e) => build_list_resources_error_audit_record(auth, e, u),
                },
            ),
            None => None,
        };
        HandlerStep::Done(outcome, audit)
    }

    /// `resources/read` with its audit record, on success or failure.
    pub fn handle_read_resource<F: Fn(&str) -> bool, H: Fn(&str) -> bool, G: Fn(&str) -> bool>(
        &self,
        auth: &AuthContext,
        uri: &str,
        default_mime_type: &str,
        is_resource_path: &F,
        is_path_shape: &H,
        is_token_id: &G,
        replies: &[StoreReply],
        audit_reply: Option<&StoreReply>,
    ) -> (r: HandlerStep<ReadResourceServiceResult>)
        requires
            forall|s: &str| call_requires(*is_resource_path, (s,)),
            forall|s: &str| call_requires(*is_path_shape, (s,)),
            forall|s: &str| call_requires(*is_token_id, (s,)),
        ensures
            forall|p: spec_fn(Seq<char>) -> bool, h: spec_fn(Seq<char>) -> bool, q: spec_fn(Seq<char>) -> bool|
                decides(*is_resource_path, p) && decides(*is_path_shape, h) && decides(*is_token_id, q) ==> ({
                    let prog = spec_read_resource(*auth, self.spec_service().spec_authority(), uri@, default_mime_type@, p, h, q, replies@);
                    &&& audited_shape(r, prog, opt_reply(audit_reply), auth.spec_user_id(), self.spec_audit_enabled())
                    &&& match prog {
                        Progress::Got(v, _) => r matches HandlerStep::Done(Ok(g), _) ==> (g.uri@, g.mime_type@, g.text@, g.revision) == v,
                        _ => true,
                    }
                    &&& match r {
                        HandlerStep::Done(Ok(g), Some(rec)) => record_is(rec, AuditOperation::ReadResource, audited_user(audit_reply), *auth, None, AuditResult::Success, uri_summary(uri@, self.spec_service().spec_authority(), p), g.revision),
                        HandlerStep::Done(Err(e), Some(rec)) => record_is(rec, AuditOperation::ReadResource, audited_user(audit_reply), *auth, None, spec_audit_result(e.spec_code(), e.spec_message()), uri_summary(uri@, self.spec_service().spec_authority(), p), None),
                        _ => true,
                    }
                }),
    {
        let outcome = match self.service.read_resource(
            auth,
            uri,
            default_mime_type,
            is_resource_path,
            is_path_shape,
            is_token_id,
            replies,
        ) {
            OpStep::Ask(q) => return HandlerStep::Ask(q),
            OpStep::Done(res) => res,
        };
        let ar = match audit_reply {
            Some(ar) => ar,
            None => return self.ask_audit_user_for(auth),
        };
        let authority = self.service.resource_authority();
        let audit = match resolve_audit_user_id(ar) {
            Some(u) => self.try_record_audit(
                match &outcome {
                    Ok(g) => build_read_resource_audit_record(
                        auth,
                        uri,
                        g,
                        u,
                        authority,
                        is_resource_path,
                    ),
                    Err(e) => build_read_resource_error_audit_record(
                        auth,
                        uri,
                        e,
                        u,
                        authority,
                        is_resource_path,
                    ),
                },
            ),
            None => None,
        };
        HandlerStep::Done(outcome, audit)
    }

    /// `prompts/get` with its audit record, on success or failure.
    pub fn handle_get_prompt<F: Fn(&str) -> bool, G: Fn(&str) -> bool>(
        &self,
        auth: &AuthContext,
        name: &str,
        arguments: Option<&Vec<PromptArgument>>,
        is_prompt_name: &F,
        is_arg_name: &G,
        replies: &[StoreReply],
        audit_reply: Option<&StoreReply>,
    ) -> (r: HandlerStep<GetPromptServiceResult>)
        requires
            forall|s: &str| call_requires(*is_prompt_name, (s,)),
            forall|s: &str| call_requires(*is_arg_name, (s,)),
        ensures
            forall|p: spec_fn(Seq<char>) -> bool, q: spec_fn(Seq<char>) -> bool|
                decides(*is_prompt_name, p) && decides(*is_arg_name, q) ==> ({
                    let prog = spec_get_prompt(*auth, name@, match arguments { Some(a) => Some(a@), None => None }, p, q, replies@);
                    &&& audited_shape(r, prog, opt_reply(audit_reply), auth.spec_user_id(), self.spec_audit_enabled())
                    &&& match prog {
                        Progress::Got(v, _) => r matches HandlerStep::Done(Ok(g), _) ==> (g.description@, g.message@, g.revision) == v,
                        _ => true,
                    }
                    &&& match r {
                        HandlerStep::Done(Ok(g), Some(rec)) => record_is(rec, AuditOperation::GetPrompt, audited_user(audit_reply), *auth, None, AuditResult::Success, name_summary(name@, p), Some(g.revision)),
                        HandlerStep::Done(Err(e), Some(rec)) => record_is(rec, AuditOperation::GetPrompt, audited_user(audit_reply), *auth, None, spec_audit_result(e.spec_code(), e.spec_message()), name_summary(name@, p), None),
                        _ => true,
                    }
                }),
    {
        let outcome = match self.service.get_prompt(
            auth,
            name,
            arguments,
            is_prompt_name,
            is_arg_name,
            replies,
        ) {
            OpStep::Ask(q) => return HandlerStep::Ask(q),
            OpStep::Done(res) => res,
        };
        let ar = match audit_reply {
            Some(ar) => ar,
            None => return self.ask_audit_user_for(auth),
        };
        let audit = match resolve_audit_user_id(ar) {
            Some(u) => self.try_record_audit(
                match &outcome {
                    Ok(g) => build_get_prompt_audit_record(auth, name, g, u, is_prompt_name),
                    Err(e) => build_get_prompt_error_audit_record(auth, name, e, u, is_prompt_name),
                },
            ),
            None => None,
        };
        HandlerStep::Done(outcome, audit)
    }

    pub(crate) fn ask_audit_user_for<T>(&self, auth: &AuthContext) -> (r: HandlerStep<T>)
        ensures
            r matches HandlerStep::Ask(a) && request_view(a) == RequestView::AuditUserId(
                auth.spec_user_id(),
            ),
    {
        HandlerStep::Ask(StoreRequest::AuditUserId { user_name: String::from_str(auth.user_id()) })
    }
}

} // verus!
