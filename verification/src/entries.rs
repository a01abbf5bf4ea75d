//! The per-tool entries: each runs one tool against the service layer and
//! prepares the audit record of the call, for a success and for a failure.

use vstd::prelude::*;
use crate::access::{AuthContext, McpOperation, opt_view};
use crate::audit::{
    AuditOperation, AuditRecord, AuditResult, build_append_page_audit_record,
    build_edit_page_audit_record, build_error_audit_record, build_get_page_audit_record,
    build_get_page_section_audit_record, build_get_page_toc_audit_record,
    build_list_pages_audit_record, build_rename_page_audit_record, build_write_page_audit_record,
    record_is, spec_audit_operation, spec_audit_result, spec_denied_path, spec_error_target,
};
use crate::convert::{
    edit_request_of, list_pages_response, section_selector, section_selector_of,
    service_edit_request, toc_response,
};
use crate::errors::{McpError, err_view};
use crate::handler::{
    HandlerStep, McpHandler, audit_user, audited_shape, audited_user, info_toc, opt_reply,
    resolve_audit_user_id,
};
use crate::model::{
    AppendPageResponse, EditPageRequest, EditPageResponse, GetPageRequest, GetPageResponse,
    GetPageSectionRequest, GetPageSectionResponse, GetPageTocRequest, GetPageTocResponse,
    ListPagesRequest, ListPagesResponse, McpPageListItem, McpRequestEnvelope, McpSectionInfo,
    McpSectionSelector, McpToolName, McpToolRequest, RenamePageRequest, SearchPagesRequest,
    SearchTarget, WritePageRequest, WritePageResponse,
};
use crate::reads::{spec_get_page_section, spec_get_page_toc, spec_list_pages, spec_read_page};
use crate::search::{SearchPlan, copy_targets, spec_plan_search};
use crate::service::opt_str_view;
use crate::store::{OpStep, Progress, RequestView, StoreReply, request_view};
use crate::writes::{
    revisions_in_range, spec_append_page, spec_create_page, spec_edit_page, spec_rename_page,
    spec_update_page,
};

verus! {

/// The path a failure record names: the denied path of a prefix denial
/// whose message carries one, otherwise the call's first path.
pub open spec fn entry_error_target(primary: Option<Seq<char>>, error: McpError) -> Option<Seq<char>> {
    if spec_audit_result(error.spec_code(), error.spec_message()) == AuditResult::PathPrefixDenied {
        match spec_denied_path(error.spec_message()) {
            Some(p) => Some(p),
            None => primary,
        }
    } else {
        primary
    }
}

/// Whether `rec` records the failure `error` of `op` by `user`, for a call
/// whose first path is `primary`: the error's class, its message as the
/// summary, and no revision.
pub open spec fn failure_record_is(
    rec: AuditRecord,
    op: AuditOperation,
    user: Seq<char>,
    auth: AuthContext,
    primary: Option<Seq<char>>,
    error: McpError,
) -> bool {
    record_is(
        rec,
        op,
        user,
        auth,
        entry_error_target(primary, error),
        spec_audit_result(error.spec_code(), error.spec_message()),
        Some(error.spec_message()),
        None,
    )
}

impl McpHandler {
    /// The audit record of a failed call, when an audit log is configured and
    /// the audit user lookup found the user.
    pub fn record_error(
        &self,
        auth: &AuthContext,
        request: &McpRequestEnvelope,
        error: &McpError,
        audit_reply: &StoreReply,
    ) -> (r: Option<AuditRecord>)
        ensures
            r is Some <==> (self.spec_audit_enabled() && audit_user(*audit_reply) is Some),
            r matches Some(rec) ==> record_is(
                rec,
                spec_audit_operation(request.request),
                audit_user(*audit_reply).unwrap(),
                *auth,
                spec_error_target(request.request, *error),
                spec_audit_result(error.spec_code(), error.spec_message()),
                Some(error.spec_message()),
                None,
            ),
    {
        match resolve_audit_user_id(audit_reply) {
            Some(u) => self.try_record_audit(build_error_audit_record(auth, request, error, u)),
            None => None,
        }
    }

    /// `get_page` as a tool of its own, audited on success and on failure.
    pub fn handle_get_page(
        &self,
        auth: &AuthContext,
        path: &str,
        revision: Option<u64>,
        replies: &[StoreReply],
        audit_reply: Option<&StoreReply>,
    ) -> (r: HandlerStep<GetPageResponse>)
        ensures
            ({
                let prog = spec_read_page(*auth, McpOperation::GetPage, path@, revision, replies@);
                &&& audited_shape(r, prog, opt_reply(audit_reply), auth.spec_user_id(), self.spec_audit_enabled())
                &&& match prog {
                    Progress::Got(v, _) => r matches HandlerStep::Done(Ok(g), _) ==> (g.path@, g.revision, g.instance_id@, g.content@) == v,
                    _ => true,
                }
                &&& match r {
                    HandlerStep::Done(Ok(g), Some(rec)) => record_is(rec, AuditOperation::Get, audited_user(audit_reply), *auth, Some(g.path@), AuditResult::Success, None, Some(g.revision)),
                    HandlerStep::Done(Err(e), Some(rec)) => failure_record_is(rec, AuditOperation::Get, audited_user(audit_reply), *auth, Some(path@), e),
                    _ => true,
                }
            }),
    {
        let request = McpRequestEnvelope::new(
            McpToolName::GetPage,
            McpToolRequest::GetPage(GetPageRequest::new(String::from_str(path), revision)),
        );
        let outcome = match self.service().get_page(auth, path, revision, replies) {
            OpStep::Ask(q) => return HandlerStep::Ask(q),
            OpStep::Done(res) => res,
        };
        let ar = match audit_reply {
            Some(ar) => ar,
            None => return self.ask_audit_user_for(auth),
        };
        match outcome {
            Ok(res) => {
                let audit = match resolve_audit_user_id(ar) {
                    Some(u) => self.try_record_audit(build_get_page_audit_record(auth, &request, &res, u)),
                    None => None,
                };
                HandlerStep::Done(Ok(GetPageResponse::from(res)), audit)
            },
            Err(e) => {
                let audit = self.record_error(auth, &request, &e, ar);
                HandlerStep::Done(Err(e), audit)
            },
        }
    }

    /// `get_page_toc` as a tool of its own, audited on success and on failure.
    pub fn handle_get_page_toc(
        &self,
        auth: &AuthContext,
        path: &str,
        revision: Option<u64>,
        replies: &[StoreReply],
        audit_reply: Option<&StoreReply>,
    ) -> (r: HandlerStep<GetPageTocResponse>)
        ensures
            ({
                let prog = spec_get_page_toc(*auth, path@, revision, replies@);
                &&& audited_shape(r, prog, opt_reply(audit_reply), auth.spec_user_id(), self.spec_audit_enabled())
                &&& match prog {
                    Progress::Got(v, _) => r matches HandlerStep::Done(Ok(g), _) ==> g.path@ == v.0 && g.revision == v.1 && g.instance_id@ == v.2 && g.sections@.map_values(|s: McpSectionInfo| info_toc(s)) == v.3,
                    _ => true,
                }
                &&& match r {
                    HandlerStep::Done(Ok(g), Some(rec)) => record_is(rec, AuditOperation::Get, audited_user(audit_reply), *auth, Some(g.path@), AuditResult::Success, None, Some(g.revision)),
                    HandlerStep::Done(Err(e), Some(rec)) => failure_record_is(rec, AuditOperation::Get, audited_user(audit_reply), *auth, Some(path@), e),
                    _ => true,
                }
            }),
    {
        let request = McpRequestEnvelope::new(
            McpToolName::GetPageToc,
            McpToolRequest::GetPageToc(GetPageTocRequest::new(String::from_str(path), revision)),
        );
        let outcome = match self.service().get_page_toc(auth, path, revision, replies) {
            OpStep::Ask(q) => return HandlerStep::Ask(q),
            OpStep::Done(res) => res,
        };
        let ar = match audit_reply {
            Some(ar) => ar,
            None => return self.ask_audit_user_for(auth),
        };
        match outcome {
            Ok(res) => {
                let audit = match resolve_audit_user_id(ar) {
                    Some(u) => self.try_record_audit(build_get_page_toc_audit_record(auth, &request, &res, u)),
                    None => None,
                };
                HandlerStep::Done(Ok(toc_response(res)), audit)
            },
            Err(e) => {
                let audit = self.record_error(auth, &request, &e, ar);
                HandlerStep::Done(Err(e), audit)
            },
        }
    }

    /// `list_pages` as a tool of its own, audited on success and on failure.
    pub fn handle_list_pages(
        &self,
        auth: &AuthContext,
        prefix: &str,
        limit: Option<usize>,
        cursor: Option<&str>,
        replies: &[StoreReply],
        audit_reply: Option<&StoreReply>,
    ) -> (r: HandlerStep<ListPagesResponse>)
        ensures
            ({
                let prog = spec_list_pages(*auth, prefix@, limit, opt_str_view(cursor), replies@);
                &&& audited_shape(r, prog, opt_reply(audit_reply), auth.spec_user_id(), self.spec_audit_enabled())
                &&& match prog {
                    Progress::Got(v, _) => r matches HandlerStep::Done(Ok(g), _) ==> g.items@.map_values(|x: McpPageListItem| (x.path@, x.revision, x.updated_at@, x.updated_by@)) == v.0 && g.has_more == v.1 && opt_view(g.next_cursor) == v.2,
                    _ => true,
                }
                &&& match r {
                    HandlerStep::Done(Ok(g), Some(rec)) => record_is(rec, AuditOperation::List, audited_user(audit_reply), *auth, Some(prefix@), AuditResult::Success, None, None),
                    HandlerStep::Done(Err(e), Some(rec)) => failure_record_is(rec, AuditOperation::List, audited_user(audit_reply), *auth, Some(prefix@), e),
                    _ => true,
                }
            }),
    {
        let owned_cursor = match cursor {
            Some(c) => Some(String::from_str(c)),
            None => None,
        };
        let request = McpRequestEnvelope::new(
            McpToolName::ListPages,
            McpToolRequest::ListPages(ListPagesRequest::new(String::from_str(prefix), limit, owned_cursor)),
        );
        let outcome = match self.service().list_pages(auth, prefix, limit, cursor, replies) {
            OpStep::Ask(q) => return HandlerStep::Ask(q),
            OpStep::Done(res) => res,
        };
        let ar = match audit_reply {
            Some(ar) => ar,
            None => return self.ask_audit_user_for(auth),
        };
        match outcome {
            Ok(res) => {
                let audit = match resolve_audit_user_id(ar) {
                    Some(u) => self.try_record_audit(build_list_pages_audit_record(auth, &request, &res, u)),
                    None => None,
                };
                HandlerStep::Done(Ok(list_pages_response(res)), audit)
            },
            Err(e) => {
                let audit = self.record_error(auth, &request, &e, ar);
                HandlerStep::Done(Err(e), audit)
            },
        }
    }

    /// `get_page_section` as a tool of its own, audited on success and on failure.
    pub fn handle_get_page_section(
        &self,
        auth: &AuthContext,
        path: &str,
        section: McpSectionSelector,
        revision: Option<u64>,
        replies: &[StoreReply],
        audit_reply: Option<&StoreReply>,
    ) -> (r: HandlerStep<GetPageSectionResponse>)
        ensures
            ({
                let prog = spec_get_page_section(*auth, path@, section_selector(section), revision, replies@);
                &&& audited_shape(r, prog, opt_reply(audit_reply), auth.spec_user_id(), self.spec_audit_enabled())
                &&& match prog {
                    Progress::Got(v, _) => r matches HandlerStep::Done(Ok(g), _) ==> g.path@ == v.0 && g.revision == v.1 && info_toc(g.section) == v.2 && g.content@ == v.3,
                    _ => true,
                }
                &&& match r {
                    HandlerStep::Done(Ok(g), Some(rec)) => record_is(rec, AuditOperation::GetSection, audited_user(audit_reply), *auth, Some(g.path@), AuditResult::Success, None, Some(g.revision)),
                    HandlerStep::Done(Err(e), Some(rec)) => failure_record_is(rec, AuditOperation::GetSection, audited_user(audit_reply), *auth, Some(path@), e),
                    _ => true,
                }
            }),
    {
        let selector = section_selector_of(&section);
        let request = McpRequestEnvelope::new(
            McpToolName::GetPageSection,
            McpToolRequest::GetPageSection(GetPageSectionRequest::new(String::from_str(path), section.clone(), revision)),
        );
        let outcome = match self.service().get_page_section(auth, path, selector, revision, replies) {
            OpStep::Ask(q) => return HandlerStep::Ask(q),
            OpStep::Done(res) => res,
        };
        let ar = match audit_reply {
            Some(ar) => ar,
            None => return self.ask_audit_user_for(auth),
        };
        match outcome {
            Ok(res) => {
                let audit = match resolve_audit_user_id(ar) {
                    Some(u) => self.try_record_audit(build_get_page_section_audit_record(auth, &request, &res, u)),
                    None => None,
                };
                HandlerStep::Done(Ok(GetPageSectionResponse::from(res)), audit)
            },
            Err(e) => {
                let audit = self.record_error(auth, &request, &e, ar);
                HandlerStep::Done(Err(e), audit)
            },
        }
    }

    /// `create_page` as a tool of its own, audited on success and on failure.
    pub fn handle_create_page(
        &self,
        auth: &AuthContext,
        path: &str,
        content: &str,
        replies: &[StoreReply],
        audit_reply: Option<&StoreReply>,
    ) -> (r: HandlerStep<WritePageResponse>)
        ensures
            ({
                let prog = spec_create_page(*auth, path@, content@, replies@);
                &&& audited_shape(r, prog, opt_reply(audit_reply), auth.spec_user_id(), self.spec_audit_enabled())
                &&& match prog {
                    Progress::Got(v, _) => r matches HandlerStep::Done(Ok(g), _) ==> (g.path@, g.revision, g.instance_id@, g.summary@) == v,
                    _ => true,
                }
                &&& match r {
                    HandlerStep::Done(Ok(g), Some(rec)) => record_is(rec, AuditOperation::Create, audited_user(audit_reply), *auth, Some(g.path@), AuditResult::Success, Some(g.summary@), Some(g.revision)),
                    HandlerStep::Done(Err(e), Some(rec)) => failure_record_is(rec, AuditOperation::Create, audited_user(audit_reply), *auth, Some(path@), e),
                    _ => true,
                }
            }),
    {
        let request = McpRequestEnvelope::new(
            McpToolName::CreatePage,
            McpToolRequest::CreatePage(WritePageRequest::new(String::from_str(path), String::from_str(content))),
        );
        let outcome = match self.service().create_page(auth, path, content, replies) {
            OpStep::Ask(q) => return HandlerStep::Ask(q),
            OpStep::Done(res) => res,
        };
        let ar = match audit_reply {
            Some(ar) => ar,
            None => return self.ask_audit_user_for(auth),
        };
        match outcome {
            Ok(res) => {
                let audit = match resolve_audit_user_id(ar) {
                    Some(u) => self.try_record_audit(build_write_page_audit_record(auth, &request, &res, u)),
                    None => None,
                };
                HandlerStep::Done(Ok(WritePageResponse::from(res)), audit)
            },
            Err(e) => {
                let audit = self.record_error(auth, &request, &e, ar);
                HandlerStep::Done(Err(e), audit)
            },
        }
    }

    /// `update_page` as a tool of its own, audited on success and on failure.
    pub fn handle_update_page(
        &self,
        auth: &AuthContext,
        path: &str,
        content: &str,
        replies: &[StoreReply],
        audit_reply: Option<&StoreReply>,
    ) -> (r: HandlerStep<WritePageResponse>)
        requires
            revisions_in_range(replies@),
        ensures
            ({
                let prog = spec_update_page(*auth, path@, content@, replies@);
                &&& audited_shape(r, prog, opt_reply(audit_reply), auth.spec_user_id(), self.spec_audit_enabled())
                &&& match prog {
                    Progress::Got(v, _) => r matches HandlerStep::Done(Ok(g), _) ==> (g.path@, g.revision, g.instance_id@, g.summary@) == v,
                    _ => true,
                }
                &&& match r {
                    HandlerStep::Done(Ok(g), Some(rec)) => record_is(rec, AuditOperation::Update, audited_user(audit_reply), *auth, Some(g.path@), AuditResult::Success, Some(g.summary@), Some(g.revision)),
                    HandlerStep::Done(Err(e), Some(rec)) => failure_record_is(rec, AuditOperation::Update, audited_user(audit_reply), *auth, Some(path@), e),
                    _ => true,
                }
            }),
    {
        let request = McpRequestEnvelope::new(
            McpToolName::UpdatePage,
            McpToolRequest::UpdatePage(WritePageRequest::new(String::from_str(path), String::from_str(content))),
        );
        let outcome = match self.service().update_page(auth, path, content, replies) {
            OpStep::Ask(q) => return HandlerStep::Ask(q),
            OpStep::Done(res) => res,
        };
        let ar = match audit_reply {
            Some(ar) => ar,
            None => return self.ask_audit_user_for(auth),
        };
        match outcome {
            Ok(res) => {
                let audit = match resolve_audit_user_id(ar) {
                    Some(u) => self.try_record_audit(build_write_page_audit_record(auth, &request, &res, u)),
                    None => None,
                };
                HandlerStep::Done(Ok(WritePageResponse::from(res)), audit)
            },
            Err(e) => {
                let audit = self.record_error(auth, &request, &e, ar);
                HandlerStep::Done(Err(e), audit)
            },
        }
    }

    /// `edit_page` as a tool of its own, audited on success and on failure.
    pub fn handle_edit_page(
        &self,
        auth: &AuthContext,
        edit: EditPageRequest,
        replies: &[StoreReply],
        audit_reply: Option<&StoreReply>,
    ) -> (r: HandlerStep<EditPageResponse>)
        requires
            revisions_in_range(replies@),
        ensures
            ({
                let prog = spec_edit_page(*auth, service_edit_request(edit), replies@);
                &&& audited_shape(r, prog, opt_reply(audit_reply), auth.spec_user_id(), self.spec_audit_enabled())
                &&& match prog {
                    Progress::Got(v, _) => r matches HandlerStep::Done(Ok(g), _) ==> (g.path@, g.revision, g.instance_id@, g.summary@) == v,
                    _ => true,
                }
                &&& match r {
                    HandlerStep::Done(Ok(g), Some(rec)) => record_is(rec, AuditOperation::Update, audited_user(audit_reply), *auth, Some(g.path@), AuditResult::Success, Some(g.summary@), Some(g.revision)),
                    HandlerStep::Done(Err(e), Some(rec)) => failure_record_is(rec, AuditOperation::Update, audited_user(audit_reply), *auth, Some(edit.path@), e),
                    _ => true,
                }
            }),
    {
        let service_request = edit_request_of(&edit);
        let request = McpRequestEnvelope::new(
            McpToolName::EditPage,
            McpToolRequest::EditPage(edit),
        );
        let outcome = match self.service().edit_page(auth, &service_request, replies) {
            OpStep::Ask(q) => return HandlerStep::Ask(q),
            OpStep::Done(res) => res,
        };
        let ar = match audit_reply {
            Some(ar) => ar,
            None => return self.ask_audit_user_for(auth),
        };
        match outcome {
            Ok(res) => {
                let audit = match resolve_audit_user_id(ar) {
                    Some(u) => self.try_record_audit(build_edit_page_audit_record(auth, &request, &res, u)),
                    None => None,
                };
                HandlerStep::Done(Ok(EditPageResponse::from(res)), audit)
            },
            Err(e) => {
                let audit = self.record_error(auth, &request, &e, ar);
                HandlerStep::Done(Err(e), audit)
            },
        }
    }

    /// `append_page` as a tool of its own, audited on success and on failure.
    pub fn handle_append_page(
        &self,
        auth: &AuthContext,
        path: &str,
        content: &str,
        replies: &[StoreReply],
        audit_reply: Option<&StoreReply>,
    ) -> (r: HandlerStep<AppendPageResponse>)
        ensures
            ({
                let prog = spec_append_page(*auth, path@, content@, replies@);
                &&& audited_shape(r, prog, opt_reply(audit_reply), auth.spec_user_id(), self.spec_audit_enabled())
                &&& match prog {
                    Progress::Got(v, _) => r matches HandlerStep::Done(Ok(g), _) ==> (g.path@, g.revision, g.instance_id@, g.summary@, g.amended) == v,
                    _ => true,
                }
                &&& match r {
                    HandlerStep::Done(Ok(g), Some(rec)) => record_is(rec, AuditOperation::Append, audited_user(audit_reply), *auth, Some(g.path@), AuditResult::Success, Some(g.summary@), Some(g.revision)),
                    HandlerStep::Done(Err(e), Some(rec)) => failure_record_is(rec, AuditOperation::Append, audited_user(audit_reply), *auth, Some(path@), e),
                    _ => true,
                }
            }),
    {
        let request = McpRequestEnvelope::new(
            McpToolName::AppendPage,
            McpToolRequest::AppendPage(WritePageRequest::new(String::from_str(path), String::from_str(content))),
        );
        let outcome = match self.service().append_page(auth, path, content, replies) {
            OpStep::Ask(q) => return HandlerStep::Ask(q),
            OpStep::Done(res) => res,
        };
        let ar = match audit_reply {
            Some(ar) => ar,
            None => return self.ask_audit_user_for(auth),
        };
        match outcome {
            Ok(res) => {
                let audit = match resolve_audit_user_id(ar) {
                    Some(u) => self.try_record_audit(build_append_page_audit_record(auth, &request, &res, u)),
                    None => None,
                };
                HandlerStep::Done(Ok(AppendPageResponse::from(res)), audit)
            },
            Err(e) => {
                let audit = self.record_error(auth, &request, &e, ar);
                HandlerStep::Done(Err(e), audit)
            },
        }
    }

    /// `rename_page` as a tool of its own, audited on success and on failure; the
    /// record names the source path and the destination.
    pub fn handle_rename_page(
        &self,
        auth: &AuthContext,
        path: &str,
        rename_to: &str,
        replies: &[StoreReply],
        audit_reply: Option<&StoreReply>,
    ) -> (r: HandlerStep<WritePageResponse>)
        requires
            revisions_in_range(replies@),
        ensures
            ({
                let prog = spec_rename_page(*auth, path@, rename_to@, replies@);
                &&& audited_shape(r, prog, opt_reply(audit_reply), auth.spec_user_id(), self.spec_audit_enabled())
                &&& match prog {
                    Progress::Got(v, _) => r matches HandlerStep::Done(Ok(g), _) ==> (g.path@, g.revision, g.instance_id@, g.summary@) == v,
                    _ => true,
                }
                &&& match r {
                    HandlerStep::Done(Ok(g), Some(rec)) => record_is(rec, AuditOperation::Rename, audited_user(audit_reply), *auth, Some(path@), AuditResult::Success, Some("rename to "@ + rename_to@), Some(g.revision)),
                    HandlerStep::Done(Err(e), Some(rec)) => failure_record_is(rec, AuditOperation::Rename, audited_user(audit_reply), *auth, Some(path@), e),
                    _ => true,
                }
            }),
    {
        let request = McpRequestEnvelope::new(
            McpToolName::RenamePage,
            McpToolRequest::RenamePage(RenamePageRequest::new(String::from_str(path), String::from_str(rename_to))),
        );
        let outcome = match self.service().rename_page(auth, path, rename_to, replies) {
            OpStep::Ask(q) => return HandlerStep::Ask(q),
            OpStep::Done(res) => res,
        };
        let ar = match audit_reply {
            Some(ar) => ar,
            None => return self.ask_audit_user_for(auth),
        };
        match outcome {
            Ok(res) => {
                let audit = match resolve_audit_user_id(ar) {
                    Some(u) => self.try_record_audit(build_rename_page_audit_record(auth, &request, &res, u)),
                    None => None,
                };
                HandlerStep::Done(Ok(WritePageResponse::from(res)), audit)
            },
            Err(e) => {
                let audit = self.record_error(auth, &request, &e, ar);
                HandlerStep::Done(Err(e), audit)
            },
        }
    }

    /// The checks of `search_pages` as a tool of its own: a refused search is
    /// answered with its error and audited as a failure; an accepted one is
    /// handed back as a plan, to be run against the full-text index and
    /// audited with `build_search_pages_audit_record`.
    pub fn handle_search_pages(
        &self,
        auth: &AuthContext,
        query: &str,
        targets: &[SearchTarget],
        prefix: Option<&str>,
        limit: Option<usize>,
        audit_reply: Option<&StoreReply>,
    ) -> (r: HandlerStep<SearchPlan>)
        ensures
            match spec_plan_search(*auth, query@, targets@.len(), opt_str_view(prefix), limit) {
                Ok((q, p, l)) => r matches HandlerStep::Done(Ok(plan), None) && plan.query@ == q
                    && plan.targets@ == targets@ && plan.prefix.wf() && plan.prefix.spec_prefix()
                    == p && plan.limit == l,
                Err(ev) => match audit_reply {
                    None => r matches HandlerStep::Ask(a) && request_view(a)
                        == RequestView::AuditUserId(auth.spec_user_id()),
                    Some(ar) => r matches HandlerStep::Done(Err(e), audit) && err_view(e) == ev
                        && (audit is Some <==> (self.spec_audit_enabled() && audit_user(*ar) is Some))
                        && (audit matches Some(rec) ==> failure_record_is(rec, AuditOperation::Search, audited_user(audit_reply), *auth, opt_str_view(prefix), e)),
                },
            },
    {
        let e = match self.service().plan_search_pages(auth, query, targets, prefix, limit) {
            Ok(plan) => return HandlerStep::Done(Ok(plan), None),
            Err(e) => e,
        };
        let ar = match audit_reply {
            Some(ar) => ar,
            None => return self.ask_audit_user_for(auth),
        };
        let owned_prefix = match prefix {
            Some(p) => Some(String::from_str(p)),
            None => None,
        };
        let request = McpRequestEnvelope::new(
            McpToolName::SearchPages,
            McpToolRequest::SearchPages(
                SearchPagesRequest::new(String::from_str(query), copy_targets(targets), owned_prefix, limit),
            ),
        );
        let audit = self.record_error(auth, &request, &e, ar);
        HandlerStep::Done(Err(e), audit)
    }
}

} // verus!
