//! The checks of `search_pages` before the full-text index is asked: its
//! scope, query, targets, prefix and limit. Ranking by score is done by the
//! caller, where the index's scores are.

use vstd::prelude::*;
use crate::access::{AuthContext, McpOperation, prefixes_allow};
use crate::errors::{ErrorView, McpError, McpErrorCode, err_view};
use crate::model::SearchTarget;
use crate::reads::spec_limit;
use crate::service::{
    DEFAULT_SEARCH_LIMIT, McpService, ResolvedPrefixRequest, opt_str_view, prefix_request_admits,
    spec_resolve_prefix, spec_scope_check,
};
use crate::text::{trim, trim_str};

verus! {

/// A checked search: trimmed query, targets, prefix and limit.
#[derive(Clone, Debug)]
pub struct SearchPlan {
    /// The query without surrounding white space.
    pub query: String,
    /// Where to search.
    pub targets: Vec<SearchTarget>,
    /// The requested prefix.
    pub prefix: ResolvedPrefixRequest,
    /// Largest number of results.
    pub limit: usize,
}

/// What checking a search gives: trimmed query, prefix and limit.
pub open spec fn spec_plan_search(
    auth: AuthContext,
    query: Seq<char>,
    target_count: nat,
    prefix: Option<Seq<char>>,
    limit: Option<usize>,
) -> Result<(Seq<char>, Option<Seq<char>>, usize), ErrorView> {
    match spec_scope_check(auth, McpOperation::SearchPages) {
        Some(e) => Err(e),
        None => if trim(query).len() == 0 {
            Err((McpErrorCode::InvalidInput, "query must not be empty"@))
        } else if target_count == 0 {
            Err((McpErrorCode::InvalidInput, "target must not be empty"@))
        } else {
            match spec_resolve_prefix(auth, McpOperation::SearchPages, prefix) {
                Err(e) => Err(e),
                Ok(p) => match spec_limit(limit, DEFAULT_SEARCH_LIMIT) {
                    Err(e) => Err(e),
                    Ok(l) => Ok((trim(query), p, l)),
                },
            }
        },
    }
}

impl McpService {
    /// Checks a search: the search scope, a query that is not blank, at least
    /// one target, the prefix and the limit (by default 20).
    pub fn plan_search_pages(
        &self,
        auth: &AuthContext,
        query: &str,
        targets: &[SearchTarget],
        raw_prefix: Option<&str>,
        limit: Option<usize>,
    ) -> (r: Result<SearchPlan, McpError>)
        ensures
            match spec_plan_search(
                *auth,
                query@,
                targets@.len(),
                opt_str_view(raw_prefix),
                limit,
            ) {
                Ok((q, p, l)) => r matches Ok(plan) && plan.query@ == q && plan.targets@
                    == targets@ && plan.prefix.wf() && plan.prefix.spec_prefix() == p && plan.limit
                    == l,
                Err(ev) => r matches Err(e) && err_view(e) == ev,
            },
    {
        self.ensure_operation_scope(auth, McpOperation::SearchPages)?;
        let q = trim_str(query);
        if q.unicode_len() == 0 {
            return Err(
                McpError::new(McpErrorCode::InvalidInput, String::from_str("query must not be empty")),
            );
        }
        if targets.len() == 0 {
            return Err(
                McpError::new(McpErrorCode::InvalidInput, String::from_str("target must not be empty")),
            );
        }
        let prefix = self.resolve_search_prefix_request(auth, raw_prefix)?;
        let limit = self.resolve_limit(limit, DEFAULT_SEARCH_LIMIT)?;
        Ok(SearchPlan { query: String::from_str(q), targets: copy_targets(targets), prefix, limit })
    }
}

/// Where the page of a search hit is now.
#[derive(Clone, Debug)]
pub struct CurrentPagePath {
    /// Its current path.
    pub current_path: String,
    /// Whether it is deleted.
    pub deleted: bool,
    /// Whether it is a draft.
    pub draft: bool,
}

/// Whether a search hit is shown: its page is known, neither deleted nor a
/// draft, allowed by the token's prefixes and under the requested prefix.
pub open spec fn spec_hit_visible(
    auth: AuthContext,
    requested: Option<Seq<char>>,
    current: Option<CurrentPagePath>,
) -> bool {
    match current {
        None => false,
        Some(c) => !c.deleted && !c.draft && prefixes_allow(auth.spec_prefixes(), c.current_path@)
            && prefix_request_admits(requested, c.current_path@),
    }
}

/// Law: a search hit is shown only when its page is known, neither deleted
/// nor a draft, allowed by the token's prefixes, and lies at or under the
/// requested prefix when one is given; every such hit is shown.
pub proof fn law_shown_hits_lie_under_requested_prefix(
    auth: AuthContext,
    requested: Option<Seq<char>>,
    current: Option<CurrentPagePath>,
)
    ensures
        spec_hit_visible(auth, requested, current) ==> (current matches Some(c) && !c.deleted
            && !c.draft && prefixes_allow(auth.spec_prefixes(), c.current_path@) && (
        requested matches Some(p) ==> crate::paths::path_matches_prefix(c.current_path@, p))),
        (current matches Some(c) && !c.deleted && !c.draft && prefixes_allow(
            auth.spec_prefixes(),
            c.current_path@,
        ) && (requested matches Some(p) ==> crate::paths::path_matches_prefix(
            c.current_path@,
            p,
        ))) ==> spec_hit_visible(auth, requested, current),
{
}

impl McpService {
    /// Whether a hit of a planned search is shown, given where its page is
    /// now (none when the store does not know the page).
    pub fn search_hit_visible(
        &self,
        auth: &AuthContext,
        plan: &SearchPlan,
        current: Option<&CurrentPagePath>,
    ) -> (b: bool)
        requires
            plan.prefix.wf(),
        ensures
            b == spec_hit_visible(
                *auth,
                plan.prefix.spec_prefix(),
                match current {
                    Some(c) => Some(*c),
                    None => None,
                },
            ),
    {
        match current {
            None => false,
            Some(c) => !c.deleted && !c.draft && self.is_path_prefix_allowed(
                auth,
                c.current_path.as_str(),
            ) && self.matches_requested_prefix(&plan.prefix, c.current_path.as_str()),
        }
    }
}

/// A copy of the searched parts.
pub fn copy_targets(targets: &[SearchTarget]) -> (copied: Vec<SearchTarget>)
    ensures
        copied@ == targets@,
{
    let mut copied: Vec<SearchTarget> = Vec::new();
    let mut i: usize = 0;
    while i < targets.len()
        invariant
            i <= targets@.len(),
            copied@ == targets@.take(i as int),
        decreases targets@.len() - i,
    {
        copied.push(targets[i]);
        i = i + 1;
        assert(copied@ =~= targets@.take(i as int));
    }
    assert(targets@.take(i as int) =~= targets@);
    copied
}

} // verus!
