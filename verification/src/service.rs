//! The MCP service layer: authorization of each request against scopes and
//! path prefixes, resolution of list and search prefixes, and the checks
//! that every tool shares.

use vstd::prelude::*;
use crate::access::{
    AuthContext, McpOperation, operation_scope, operation_writes, prefixes_allow,
    scope_text, scopes_allow,
};
use crate::errors::{ErrorView, McpError, McpErrorCode, is_err_view};
use crate::paths::{
    path_matches_prefix, path_matches_prefix_exec, spec_validate_and_normalize,
    validate_and_normalize_path,
};
use crate::pages::{GetPageResult, WritePageResult};
use crate::seqs::{lemma_filter_take_step, lemma_take_full};

verus! {

/// The resource URI authority used when none is configured.
pub const DEFAULT_RESOURCE_AUTHORITY: &'static str = "local.luwiki";

/// Default number of pages that `list_pages` returns.
pub const DEFAULT_LIST_LIMIT: usize = 50;

/// Default number of pages that `search_pages` returns.
pub const DEFAULT_SEARCH_LIMIT: usize = 20;

/// Largest number of pages that `list_pages` or `search_pages` returns.
pub const MAX_PAGE_RESULT_LIMIT: usize = 100;

/// The MCP service layer.
#[derive(Clone, Debug)]
pub struct McpService {
    resource_authority: String,
}

/// How results are narrowed by a requested prefix.
#[derive(Clone, Debug, PartialEq, Eq)]
pub enum PrefixFilterMode {
    /// No prefix was requested.
    NoPrefix,
    /// Only the prefix and what lies under it.
    DescendantsOf(String),
}

/// A requested prefix after validation and authorization.
#[derive(Clone, Debug, PartialEq, Eq)]
pub struct ResolvedPrefixRequest {
    requested_prefix: Option<String>,
    filter_mode: PrefixFilterMode,
}

impl ResolvedPrefixRequest {
    /// The requested prefix, normalized.
    pub closed spec fn spec_prefix(&self) -> Option<Seq<char>> {
        match self.requested_prefix {
            Some(p) => Some(p@),
            None => None,
        }
    }

    /// The filter mode agrees with the requested prefix.
    pub closed spec fn wf(&self) -> bool {
        match (self.requested_prefix, self.filter_mode) {
            (Some(p), PrefixFilterMode::DescendantsOf(q)) => p@ == q@,
            (None, PrefixFilterMode::NoPrefix) => true,
            _ => false,
        }
    }

    /// A request narrowed to `prefix`, or not narrowed at all.
    pub fn new(requested_prefix: Option<String>) -> (r: ResolvedPrefixRequest)
        ensures
            r.wf(),
            r.spec_prefix() == (match requested_prefix {
                Some(p) => Some(p@),
                None => None::<Seq<char>>,
            }),
    {
        match requested_prefix {
            Some(p) => {
                let mode = PrefixFilterMode::DescendantsOf(p.clone());
                ResolvedPrefixRequest { requested_prefix: Some(p), filter_mode: mode }
            },
            None => ResolvedPrefixRequest {
                requested_prefix: None,
                filter_mode: PrefixFilterMode::NoPrefix,
            },
        }
    }

    /// The requested prefix, normalized.
    pub fn requested_prefix(&self) -> (p: Option<&str>)
        ensures
            p matches Some(s) ==> self.spec_prefix() == Some(s@),
            p is None ==> self.spec_prefix() is None,
    {
        match &self.requested_prefix {
            Some(s) => Some(s.as_str()),
            None => None,
        }
    }

    /// How results are narrowed.
    pub fn filter_mode(&self) -> (m: &PrefixFilterMode)
        requires
            self.wf(),
        ensures
            m matches PrefixFilterMode::DescendantsOf(q) ==> self.spec_prefix() == Some(q@),
            m is NoPrefix ==> self.spec_prefix() is None,
    {
        &self.filter_mode
    }
}

/// Whether a path passes the narrowing of a requested prefix.
pub open spec fn prefix_request_admits(prefix: Option<Seq<char>>, path: Seq<char>) -> bool {
    match prefix {
        Some(p) => path_matches_prefix(path, p),
        None => true,
    }
}

/// The outcome of the scope check of an operation.
pub open spec fn spec_scope_check(auth: AuthContext, op: McpOperation) -> Option<ErrorView> {
    if operation_writes(op) && auth.spec_read_only() {
        Some((McpErrorCode::Forbidden, "read only denied: write operation is not allowed"@))
    } else if scopes_allow(auth.spec_scopes(), operation_scope(op)) {
        None
    } else {
        Some(
            (
                McpErrorCode::Forbidden,
                "required scope denied: "@ + scope_text(operation_scope(op)),
            ),
        )
    }
}

/// The outcome of the prefix check of one path.
pub open spec fn spec_prefix_check(auth: AuthContext, path: Seq<char>) -> Option<ErrorView> {
    if prefixes_allow(auth.spec_prefixes(), path) {
        None
    } else {
        Some((McpErrorCode::Forbidden, "path prefix denied: "@ + path))
    }
}

/// The outcome of checking several paths in order: the first refusal.
pub open spec fn spec_prefixes_check(auth: AuthContext, paths: Seq<Seq<char>>) -> Option<
    ErrorView,
>
    decreases paths.len(),
{
    if paths.len() == 0 {
        None
    } else {
        match spec_prefix_check(auth, paths[0]) {
            Some(e) => Some(e),
            None => spec_prefixes_check(auth, paths.drop_first()),
        }
    }
}

/// What `ensure_authorized_path` returns: the normalized path when the path
/// is valid, the operation's scope is granted and the path is allowed.
pub open spec fn spec_authorized_path(auth: AuthContext, op: McpOperation, raw: Seq<char>) -> Result<
    Seq<char>,
    ErrorView,
> {
    match spec_validate_and_normalize(raw) {
        Err(m) => Err((McpErrorCode::InvalidInput, m)),
        Ok(p) => match spec_scope_check(auth, op) {
            Some(e) => Err(e),
            None => match spec_prefix_check(auth, p) {
                Some(e) => Err(e),
                None => Ok(p),
            },
        },
    }
}

/// What `resolve_prefix_request` returns.
pub open spec fn spec_resolve_prefix(
    auth: AuthContext,
    op: McpOperation,
    raw: Option<Seq<char>>,
) -> Result<Option<Seq<char>>, ErrorView> {
    match raw {
        None => Ok(None),
        Some(r) => match spec_authorized_path(auth, op, r) {
            Ok(p) => Ok(Some(p)),
            Err(e) => Err(e),
        },
    }
}

/// The view of an optional string slice.
pub open spec fn opt_str_view(s: Option<&str>) -> Option<Seq<char>> {
    match s {
        Some(v) => Some(v@),
        None => None,
    }
}

/// Whether `r` is the result that `spec` describes, strings taken by view.
pub open spec fn string_result_is(r: Result<String, McpError>, spec: Result<Seq<char>, ErrorView>) -> bool {
    match spec {
        Ok(p) => r matches Ok(s) && s@ == p,
        Err(ev) => is_err_view(r, ev),
    }
}

impl McpService {
    /// The resource URI authority.
    pub closed spec fn spec_authority(&self) -> Seq<char> {
        self.resource_authority@
    }

    /// A service with the default resource authority.
    pub fn new() -> (s: McpService)
        ensures
            s.spec_authority() == DEFAULT_RESOURCE_AUTHORITY@,
    {
        McpService::with_resource_authority(String::from_str(DEFAULT_RESOURCE_AUTHORITY))
    }

    /// A service with the given resource authority.
    pub fn with_resource_authority(resource_authority: String) -> (s: McpService)
        ensures
            s.spec_authority() == resource_authority@,
    {
        McpService { resource_authority }
    }

    /// The resource URI authority.
    pub fn resource_authority(&self) -> (a: &str)
        ensures
            a@ == self.spec_authority(),
    {
        self.resource_authority.as_str()
    }

    /// Validates and normalizes a raw path.
    pub fn validate_and_normalize_path(&self, raw_path: &str) -> (r: Result<String, McpError>)
        ensures
            string_result_is(r, match spec_validate_and_normalize(raw_path@) {
                Ok(p) => Ok(p),
                Err(m) => Err((McpErrorCode::InvalidInput, m)),
            }),
    {
        validate_and_normalize_path(raw_path)
    }

    /// Checks that the context may perform `operation`: read-only users may
    /// not write, and the operation's scope must be granted.
    pub fn ensure_operation_scope(&self, auth: &AuthContext, operation: McpOperation) -> (r:
        Result<(), McpError>)
        ensures
            match spec_scope_check(*auth, operation) {
                None => r is Ok,
                Some(ev) => is_err_view(r, ev),
            },
    {
        let required = operation.required_scope();
        if operation.is_write() && auth.is_read_only() {
            return Err(McpError::forbidden_read_only());
        }
        if auth.allows_scope(required) {
            return Ok(());
        }
        let message = String::from_str("required scope denied: ").concat(required.as_str());
        Err(McpError::new(McpErrorCode::Forbidden, message))
    }

    /// Whether the context's path prefixes allow `target_path`.
    pub fn is_path_prefix_allowed(&self, auth: &AuthContext, target_path: &str) -> (b: bool)
        ensures
            b == prefixes_allow(auth.spec_prefixes(), target_path@),
    {
        auth.allows_path(target_path)
    }

    /// Checks that the context's path prefixes allow `target_path`.
    pub fn ensure_path_prefix_allowed(&self, auth: &AuthContext, target_path: &str) -> (r: Result<
        (),
        McpError,
    >)
        ensures
            match spec_prefix_check(*auth, target_path@) {
                None => r is Ok,
                Some(ev) => is_err_view(r, ev),
            },
    {
        if self.is_path_prefix_allowed(auth, target_path) {
            return Ok(());
        }
        let message = String::from_str("path prefix denied: ").concat(target_path);
        Err(McpError::new(McpErrorCode::Forbidden, message))
    }

    /// Checks every path in order and reports the first refusal.
    pub fn ensure_all_path_prefixes_allowed(&self, auth: &AuthContext, target_paths: &[&str]) -> (r:
        Result<(), McpError>)
        ensures
            match spec_prefixes_check(*auth, target_paths@.map_values(|p: &str| p@)) {
                None => r is Ok,
                Some(ev) => is_err_view(r, ev),
            },
    {
        let ghost all = target_paths@.map_values(|p: &str| p@);
        let mut i: usize = 0;
        assert(all.skip(0) =~= all);
        while i < target_paths.len()
            invariant
                i <= target_paths@.len(),
                all == target_paths@.map_values(|p: &str| p@),
                spec_prefixes_check(*auth, all) == spec_prefixes_check(*auth, all.skip(i as int)),
            decreases target_paths@.len() - i,
        {
            let path = target_paths[i];
            let ghost rest = all.skip(i as int);
            assert(rest[0] == path@);
            assert(rest.drop_first() =~= all.skip(i + 1));
            match self.ensure_path_prefix_allowed(auth, path) {
                Err(e) => {
                    return Err(e);
                },
                Ok(()) => {},
            }
            i = i + 1;
        }
        assert(all.skip(i as int).len() == 0);
        Ok(())
    }

    /// Checks a rename: the rename scope, then the source and the destination
    /// prefixes, in that order.
    pub fn ensure_rename_authorized(
        &self,
        auth: &AuthContext,
        current_path: &str,
        rename_to: &str,
    ) -> (r: Result<(), McpError>)
        ensures
            match spec_scope_check(*auth, McpOperation::RenamePage) {
                Some(ev) => is_err_view(r, ev),
                None => match spec_prefix_check(*auth, current_path@) {
                    Some(ev) => is_err_view(r, ev),
                    None => match spec_prefix_check(*auth, rename_to@) {
                        Some(ev) => is_err_view(r, ev),
                        None => r is Ok,
                    },
                },
            },
    {
        self.ensure_operation_scope(auth, McpOperation::RenamePage)?;
        self.ensure_path_prefix_allowed(auth, current_path)?;
        self.ensure_path_prefix_allowed(auth, rename_to)
    }

    /// Validates and normalizes a path, then checks the operation's scope
    /// and the path's prefix.
    pub fn ensure_authorized_path(
        &self,
        auth: &AuthContext,
        operation: McpOperation,
        raw_path: &str,
    ) -> (r: Result<String, McpError>)
        ensures
            string_result_is(r, spec_authorized_path(*auth, operation, raw_path@)),
    {
        let normalized = validate_and_normalize_path(raw_path)?;
        self.ensure_operation_scope(auth, operation)?;
        self.ensure_path_prefix_allowed(auth, normalized.as_str())?;
        Ok(normalized)
    }

    /// Resolves the prefix of a list or search request.
    pub fn resolve_prefix_request(
        &self,
        auth: &AuthContext,
        operation: McpOperation,
        raw_prefix: Option<&str>,
    ) -> (r: Result<ResolvedPrefixRequest, McpError>)
        ensures
            match spec_resolve_prefix(*auth, operation, opt_str_view(raw_prefix)) {
                Ok(p) => r matches Ok(q) && q.wf() && q.spec_prefix() == p,
                Err(ev) => is_err_view(r, ev),
            },
    {
        match raw_prefix {
            Some(prefix) => {
                let normalized = self.ensure_authorized_path(auth, operation, prefix)?;
                Ok(ResolvedPrefixRequest::new(Some(normalized)))
            },
            None => Ok(ResolvedPrefixRequest::new(None)),
        }
    }

    /// Resolves the prefix of a `list_pages` request.
    pub fn resolve_list_prefix_request(&self, auth: &AuthContext, raw_prefix: Option<&str>) -> (r:
        Result<ResolvedPrefixRequest, McpError>)
        ensures
            match spec_resolve_prefix(*auth, McpOperation::ListPages, opt_str_view(raw_prefix)) {
                Ok(p) => r matches Ok(q) && q.wf() && q.spec_prefix() == p,
                Err(ev) => is_err_view(r, ev),
            },
    {
        self.resolve_prefix_request(auth, McpOperation::ListPages, raw_prefix)
    }

    /// Resolves the prefix of a `search_pages` request.
    pub fn resolve_search_prefix_request(&self, auth: &AuthContext, raw_prefix: Option<&str>) -> (r:
        Result<ResolvedPrefixRequest, McpError>)
        ensures
            match spec_resolve_prefix(*auth, McpOperation::SearchPages, opt_str_view(raw_prefix)) {
                Ok(p) => r matches Ok(q) && q.wf() && q.spec_prefix() == p,
                Err(ev) => is_err_view(r, ev),
            },
    {
        self.resolve_prefix_request(auth, McpOperation::SearchPages, raw_prefix)
    }

    /// Whether a path passes the narrowing of a resolved prefix request.
    pub fn matches_requested_prefix(&self, resolved: &ResolvedPrefixRequest, target_path: &str) -> (b:
        bool)
        requires
            resolved.wf(),
        ensures
            b == prefix_request_admits(resolved.spec_prefix(), target_path@),
    {
        match resolved.filter_mode() {
            PrefixFilterMode::NoPrefix => true,
            PrefixFilterMode::DescendantsOf(prefix) => path_matches_prefix_exec(
                target_path,
                prefix.as_str(),
            ),
        }
    }

    /// The paths that the context's path prefixes allow, in order.
    pub fn filter_authorized_paths<'a>(&self, auth: &AuthContext, paths: Vec<&'a str>) -> (r: Vec<
        &'a str,
    >)
        ensures
            r@ == paths@.filter(|p: &str| prefixes_allow(auth.spec_prefixes(), p@)),
    {
        let ghost pred = |p: &str| prefixes_allow(auth.spec_prefixes(), p@);
        let mut out: Vec<&'a str> = Vec::new();
        let mut i: usize = 0;
        while i < paths.len()
            invariant
                i <= paths@.len(),
                pred == (|p: &str| prefixes_allow(auth.spec_prefixes(), p@)),
                out@ == paths@.take(i as int).filter(pred),
            decreases paths@.len() - i,
        {
            let path = paths[i];
            proof {
                lemma_filter_take_step(paths@, pred, i as int);
            }
            if self.is_path_prefix_allowed(auth, path) {
                out.push(path);
            }
            i = i + 1;
        }
        proof {
            lemma_take_full(paths@);
        }
        out
    }

    /// The paths that a resolved prefix request admits, in order.
    pub fn filter_paths_by_request_prefix<'a>(
        &self,
        resolved: &ResolvedPrefixRequest,
        paths: Vec<&'a str>,
    ) -> (r: Vec<&'a str>)
        requires
            resolved.wf(),
        ensures
            r@ == paths@.filter(|p: &str| prefix_request_admits(resolved.spec_prefix(), p@)),
    {
        let ghost pred = |p: &str| prefix_request_admits(resolved.spec_prefix(), p@);
        let mut out: Vec<&'a str> = Vec::new();
        let mut i: usize = 0;
        while i < paths.len()
            invariant
                resolved.wf(),
                i <= paths@.len(),
                pred == (|p: &str| prefix_request_admits(resolved.spec_prefix(), p@)),
                out@ == paths@.take(i as int).filter(pred),
            decreases paths@.len() - i,
        {
            let path = paths[i];
            proof {
                lemma_filter_take_step(paths@, pred, i as int);
            }
            if self.matches_requested_prefix(resolved, path) {
                out.push(path);
            }
            i = i + 1;
        }
        proof {
            lemma_take_full(paths@);
        }
        out
    }

    /// The paths that both the context's prefixes and the requested prefix
    /// admit, in order.
    pub fn filter_paths_for_prefix_request<'a>(
        &self,
        auth: &AuthContext,
        resolved: &ResolvedPrefixRequest,
        paths: Vec<&'a str>,
    ) -> (r: Vec<&'a str>)
        requires
            resolved.wf(),
        ensures
            r@ == paths@.filter(|p: &str| prefixes_allow(auth.spec_prefixes(), p@)).filter(
                |p: &str| prefix_request_admits(resolved.spec_prefix(), p@),
            ),
    {
        let authorized = self.filter_authorized_paths(auth, paths);
        self.filter_paths_by_request_prefix(resolved, authorized)
    }

    /// The result limit: the default when absent, and it must lie in
    /// `1..=100`.
    pub fn resolve_limit(&self, limit: Option<usize>, default_limit: usize) -> (r: Result<
        usize,
        McpError,
    >)
        ensures
            ({
                let l = match limit {
                    Some(v) => v,
                    None => default_limit,
                };
                if 1 <= l <= MAX_PAGE_RESULT_LIMIT {
                    r == Ok::<usize, McpError>(l)
                } else {
                    is_err_view(
                        r,
                        (McpErrorCode::InvalidInput, "limit must be between 1 and 100"@),
                    )
                }
            }),
    {
        let l = match limit {
            Some(v) => v,
            None => default_limit,
        };
        if l < 1 || l > MAX_PAGE_RESULT_LIMIT {
            return Err(
                McpError::new(
                    McpErrorCode::InvalidInput,
                    String::from_str("limit must be between 1 and 100"),
                ),
            );
        }
        Ok(l)
    }

    /// Deleted pages are not served: the path is validated, then the request
    /// is refused as unsupported.
    pub fn get_deleted_page(&self, raw_path: &str) -> (r: Result<GetPageResult, McpError>)
        ensures
            match spec_validate_and_normalize(raw_path@) {
                Err(m) => is_err_view(r, (McpErrorCode::InvalidInput, m)),
                Ok(_) => is_err_view(
                    r,
                    (McpErrorCode::Unsupported, "deleted page access is not supported"@),
                ),
            },
    {
        self.validate_and_normalize_path(raw_path)?;
        Err(
            McpError::new(
                McpErrorCode::Unsupported,
                String::from_str("deleted page access is not supported"),
            ),
        )
    }

    /// Restoring is not served: both paths are validated, then the request is
    /// refused as unsupported.
    pub fn restore_page(&self, raw_path: &str, raw_restore_to: &str) -> (r: Result<
        WritePageResult,
        McpError,
    >)
        ensures
            match spec_validate_and_normalize(raw_path@) {
                Err(m) => is_err_view(r, (McpErrorCode::InvalidInput, m)),
                Ok(_) => match spec_validate_and_normalize(raw_restore_to@) {
                    Err(m) => is_err_view(r, (McpErrorCode::InvalidInput, m)),
                    Ok(_) => is_err_view(
                        r,
                        (McpErrorCode::Unsupported, "restore is not supported"@),
                    ),
                },
            },
    {
        self.validate_and_normalize_path(raw_path)?;
        self.validate_and_normalize_path(raw_restore_to)?;
        Err(McpError::new(McpErrorCode::Unsupported, String::from_str("restore is not supported")))
    }

    /// Asset operations are not served: the path is validated, then the
    /// request is refused as unsupported.
    pub fn asset_operation(&self, raw_path: &str) -> (r: Result<(), McpError>)
        ensures
            match spec_validate_and_normalize(raw_path@) {
                Err(m) => is_err_view(r, (McpErrorCode::InvalidInput, m)),
                Ok(_) => is_err_view(
                    r,
                    (McpErrorCode::Unsupported, "asset operation is not supported"@),
                ),
            },
    {
        self.validate_and_normalize_path(raw_path)?;
        Err(
            McpError::new(
                McpErrorCode::Unsupported,
                String::from_str("asset operation is not supported"),
            ),
        )
    }

    /// Lock operations are not served: the path is validated, then the
    /// request is refused as unsupported.
    pub fn lock_operation(&self, raw_path: &str) -> (r: Result<(), McpError>)
        ensures
            match spec_validate_and_normalize(raw_path@) {
                Err(m) => is_err_view(r, (McpErrorCode::InvalidInput, m)),
                Ok(_) => is_err_view(
                    r,
                    (McpErrorCode::Unsupported, "lock operation is not supported"@),
                ),
            },
    {
        self.validate_and_normalize_path(raw_path)?;
        Err(
            McpError::new(
                McpErrorCode::Unsupported,
                String::from_str("lock operation is not supported"),
            ),
        )
    }
}

} // verus!
