//! Published resources: resource URIs, their access lists, and the
//! `resources/list` and `resources/read` operations.
//!
//! The text rules of resource paths and token ids belong to the page
//! front-matter rules; the functions here take them as predicates on text,
//! and their contracts hold for whatever predicate the caller's function
//! decides.

use vstd::prelude::*;
use crate::access::{AuthContext, McpOperation, opt_view, prefixes_allow};
use crate::errors::{ErrorView, McpError, McpErrorCode, err_view};
use crate::model::{ListResourcesServiceResult, ReadResourceServiceResult, ResourceListItem};
use crate::service::{McpService, spec_scope_check};
use crate::store::{
    OpStep, Progress, RequestView, StoreReply, StoreRequest, step_is, unexpected_reply,
    unexpected_reply_error,
};
use crate::text::{
    chars_of, contains_char, contains_control, has_char, has_control, lex_lt, position_of,
    position_of_exec, starts_with, starts_with_exec, str_eq, str_lt, trim, trim_str,
};

verus! {

/// Whether the spec predicate `p` says what the function `f` answers, for
/// every text.
pub open spec fn decides<F: Fn(&str) -> bool>(f: F, p: spec_fn(Seq<char>) -> bool) -> bool {
    forall|s: &str, b: bool| #[trigger] call_ensures(f, (s,), b) ==> b == p(s@)
}

/// Whether an access list principal names the caller's token: by id when
/// it reads as a token id, otherwise by name.
pub open spec fn principal_matches(
    auth: AuthContext,
    principal: Seq<char>,
    is_token_id: spec_fn(Seq<char>) -> bool,
) -> bool {
    if is_token_id(principal) {
        auth.spec_token_id() == Some(principal)
    } else {
        auth.spec_token_name() == Some(principal)
    }
}

/// Whether an access list principal names the caller's token; `is_token_id`
/// tells whether a text reads as a token id.
pub fn resource_acl_principal_matches<F: Fn(&str) -> bool>(
    auth: &AuthContext,
    principal: &str,
    is_token_id: &F,
) -> (b: bool)
    requires
        forall|s: &str| call_requires(*is_token_id, (s,)),
    ensures
        forall|p: spec_fn(Seq<char>) -> bool|
            decides(*is_token_id, p) ==> b == principal_matches(*auth, principal@, p),
{
    if is_token_id(principal) {
        match auth.token_id() {
            Some(t) => str_eq(t, principal),
            None => false,
        }
    } else {
        match auth.token_name() {
            Some(n) => str_eq(n, principal),
            None => false,
        }
    }
}

/// Whether some principal of `ps` names the caller's token.
pub open spec fn any_principal(
    auth: AuthContext,
    ps: Seq<String>,
    is_token_id: spec_fn(Seq<char>) -> bool,
) -> bool {
    exists|i: int| 0 <= i < ps.len() && principal_matches(auth, (#[trigger] ps[i])@, is_token_id)
}

fn any_principal_matches<F: Fn(&str) -> bool>(
    auth: &AuthContext,
    ps: &Vec<String>,
    is_token_id: &F,
) -> (b: bool)
    requires
        forall|s: &str| call_requires(*is_token_id, (s,)),
    ensures
        forall|p: spec_fn(Seq<char>) -> bool|
            decides(*is_token_id, p) ==> b == any_principal(*auth, ps@, p),
{
    let mut i: usize = 0;
    while i < ps.len()
        invariant
            forall|s: &str| call_requires(*is_token_id, (s,)),
            i <= ps@.len(),
            forall|p: spec_fn(Seq<char>) -> bool|
                decides(*is_token_id, p) ==> forall|j: int|
                    0 <= j < i ==> !principal_matches(*auth, (#[trigger] ps@[j])@, p),
        decreases ps@.len() - i,
    {
        if resource_acl_principal_matches(auth, ps[i].as_str(), is_token_id) {
            proof {
                assert forall|p: spec_fn(Seq<char>) -> bool|
                    decides(*is_token_id, p) implies any_principal(*auth, ps@, p) by {
                    assert(principal_matches(*auth, ps@[i as int]@, p));
                }
            }
            return true;
        }
        i = i + 1;
    }
    proof {
        assert forall|p: spec_fn(Seq<char>) -> bool|
            decides(*is_token_id, p) implies !any_principal(*auth, ps@, p) by {
            assert(forall|j: int| 0 <= j < ps@.len() ==> !principal_matches(*auth, (#[trigger] ps@[j])@, p));
        }
    }
    false
}

/// A default of an access list.
#[derive(Clone, Copy, Debug, PartialEq, Eq, Structural)]
pub enum ResourceAclDefaultAction {
    /// Allow whom the lists do not name.
    Allow,
    /// Deny whom the lists do not name.
    Deny,
}

/// The principals an access list allows and denies for one operation.
#[derive(Clone, Debug)]
pub struct ResourceAclRule {
    /// Allowed principals.
    pub allow: Vec<String>,
    /// Denied principals.
    pub deny: Vec<String>,
}

/// The access list of a resource page.
#[derive(Clone, Debug)]
pub struct ResourceAcl {
    /// Who may see the resource in listings.
    pub list: Option<ResourceAclRule>,
    /// Who may read the resource.
    pub read: Option<ResourceAclRule>,
    /// Listing default when no list names the caller (allow when absent).
    pub default_list: Option<ResourceAclDefaultAction>,
    /// Reading default when no list names the caller (allow when absent).
    pub default_read: Option<ResourceAclDefaultAction>,
}

/// The operation an access list is asked about.
#[derive(Clone, Copy, Debug, PartialEq, Eq, Structural)]
pub enum ResourceAclOperation {
    /// `resources/list`
    List,
    /// `resources/read`
    Read,
}

/// Whether an access list lets the caller perform `op`: no list allows
/// everyone; a denial naming the caller wins over an allowance; otherwise
/// the default applies.
pub open spec fn acl_allows(
    auth: AuthContext,
    acl: Option<ResourceAcl>,
    op: ResourceAclOperation,
    is_token_id: spec_fn(Seq<char>) -> bool,
) -> bool {
    match acl {
        None => true,
        Some(a) => {
            let rule = match op {
                ResourceAclOperation::List => a.list,
                ResourceAclOperation::Read => a.read,
            };
            let default_allows = match op {
                ResourceAclOperation::List => a.default_list,
                ResourceAclOperation::Read => a.default_read,
            } != Some(ResourceAclDefaultAction::Deny);
            match rule {
                Some(r) => if any_principal(auth, r.deny@, is_token_id) {
                    false
                } else if any_principal(auth, r.allow@, is_token_id) {
                    true
                } else {
                    default_allows
                },
                None => default_allows,
            }
        },
    }
}

/// Whether an access list lets the caller perform `operation`.
pub fn resource_acl_allows<F: Fn(&str) -> bool>(
    auth: &AuthContext,
    acl: Option<&ResourceAcl>,
    operation: ResourceAclOperation,
    is_token_id: &F,
) -> (b: bool)
    requires
        forall|s: &str| call_requires(*is_token_id, (s,)),
    ensures
        forall|p: spec_fn(Seq<char>) -> bool|
            decides(*is_token_id, p) ==> b == acl_allows(
                *auth,
                match acl {
                    Some(a) => Some(*a),
                    None => None,
                },
                operation,
                p,
            ),
{
    let a = match acl {
        Some(a) => a,
        None => return true,
    };
    let rule = match operation {
        ResourceAclOperation::List => &a.list,
        ResourceAclOperation::Read => &a.read,
    };
    let default_action = match operation {
        ResourceAclOperation::List => a.default_list,
        ResourceAclOperation::Read => a.default_read,
    };
    let default_allows = match default_action {
        Some(ResourceAclDefaultAction::Deny) => false,
        _ => true,
    };
    match rule {
        Some(r) => {
            if any_principal_matches(auth, &r.deny, is_token_id) {
                return false;
            }
            if any_principal_matches(auth, &r.allow, is_token_id) {
                return true;
            }
            default_allows
        },
        None => default_allows,
    }
}

/// The scheme part that starts every resource URI.
pub open spec fn uri_scheme() -> Seq<char> {
    "luwiki://"@
}

/// Whether a URI text is usable at all: not blank, without surrounding white
/// space and without control characters.
pub open spec fn uri_text_ok(u: Seq<char>) -> bool {
    &&& trim(u).len() > 0
    &&& trim(u) == u
    &&& !has_control(u)
}

/// A resource URI split into authority and path: what follows the scheme,
/// up to the first `/`, and the rest from that `/` on.
pub open spec fn split_resource_uri(u: Seq<char>) -> Option<(Seq<char>, Seq<char>)> {
    if starts_with(u, uri_scheme()) {
        let rest = u.skip(uri_scheme().len() as int);
        match position_of(rest, '/', 0) {
            Some(k) => Some((rest.take(k), rest.skip(k))),
            None => None,
        }
    } else {
        None
    }
}

/// The id of a built-in resource when the path names one.
pub open spec fn builtin_id_of(path: Seq<char>) -> Option<Seq<char>> {
    if starts_with(path, "/builtin/"@) {
        Some(path.skip("/builtin/"@.len() as int))
    } else {
        None
    }
}

/// Whether a built-in resource id is well formed.
pub open spec fn builtin_id_ok(id: Seq<char>) -> bool {
    &&& id.len() > 0
    &&& !has_char(id, '/')
    &&& trim(id) == id
    &&& !has_control(id)
}

fn split_resource_uri_exec(u: &str) -> (r: Option<(&str, &str)>)
    ensures
        match split_resource_uri(u@) {
            Some((a, p)) => r matches Some((x, y)) && x@ == a && y@ == p,
            None => r is None,
        },
{
    let chars = chars_of(u);
    let scheme = chars_of("luwiki://");
    if !starts_with_exec(&chars, &scheme) {
        return None;
    }
    let n = scheme.len();
    let m = chars.len();
    let ghost rest = u@.skip(n as int);
    match position_of_exec(&chars, '/', n) {
        Some(k) => {
            proof {
                lemma_position_shift(u@, '/', n as int, 0);
            }
            assert(rest.take(k - n) =~= u@.subrange(n as int, k as int));
            assert(rest.skip(k - n) =~= u@.subrange(k as int, m as int));
            Some((u.substring_char(n, k), u.substring_char(k, m)))
        },
        None => {
            proof {
                lemma_position_shift(u@, '/', n as int, 0);
            }
            None
        },
    }
}

proof fn lemma_position_shift(s: Seq<char>, c: char, n: int, k: int)
    requires
        0 <= n <= s.len(),
        0 <= k,
    ensures
        position_of(s, c, n + k) == (match position_of(s.skip(n), c, k) {
            Some(i) => Some(i + n),
            None => None::<int>,
        }),
    decreases s.len() - (n + k),
{
    if n + k < s.len() && s[n + k] != c {
        lemma_position_shift(s, c, n, k + 1);
    }
}

fn uri_text_ok_exec(u: &str) -> (b: bool)
    ensures
        b == uri_text_ok(u@),
{
    let t = trim_str(u);
    t.unicode_len() > 0 && str_eq(t, u) && !contains_control(&chars_of(u))
}

fn builtin_id_of_exec(path: &str) -> (r: Option<&str>)
    ensures
        match builtin_id_of(path@) {
            Some(id) => r matches Some(x) && x@ == id,
            None => r is None,
        },
{
    let chars = chars_of(path);
    let prefix = chars_of("/builtin/");
    if starts_with_exec(&chars, &prefix) {
        assert(path@.subrange(prefix@.len() as int, chars@.len() as int) =~= path@.skip(
            prefix@.len() as int,
        ));
        Some(path.substring_char(prefix.len(), chars.len()))
    } else {
        None
    }
}

fn builtin_id_ok_exec(id: &str) -> (b: bool)
    ensures
        b == builtin_id_ok(id@),
{
    let chars = chars_of(id);
    chars.len() > 0 && !contains_char(&chars, '/') && str_eq(trim_str(id), id) && !contains_control(
        &chars,
    )
}

/// Whether a `resources/list` cursor is acceptable: a usable URI text of at
/// most 512 characters beyond `luwiki://` and the authority, with this
/// server's authority, naming a well-formed built-in resource or a valid
/// resource path.
pub open spec fn cursor_ok(
    cursor: Seq<char>,
    authority: Seq<char>,
    is_resource_path: spec_fn(Seq<char>) -> bool,
) -> bool {
    &&& uri_text_ok(cursor)
    &&& cursor.len() <= uri_scheme().len() + authority.len() + 512
    &&& match split_resource_uri(cursor) {
        Some((a, path)) => a == authority && match builtin_id_of(path) {
            Some(id) => builtin_id_ok(id),
            None => is_resource_path(path),
        },
        None => false,
    }
}

/// Checks a `resources/list` cursor; `is_resource_path` tells whether a
/// text is a valid resource path.
pub fn validate_resource_list_cursor<F: Fn(&str) -> bool>(
    cursor: &str,
    expected_authority: &str,
    is_resource_path: &F,
) -> (r: Result<(), McpError>)
    requires
        forall|s: &str| call_requires(*is_resource_path, (s,)),
    ensures
        forall|p: spec_fn(Seq<char>) -> bool|
            decides(*is_resource_path, p) ==> (if cursor_ok(cursor@, expected_authority@, p) {
                r is Ok
            } else {
                r matches Err(e) && err_view(e) == (McpErrorCode::InvalidInput, "cursor is invalid"@)
            }),
{
    let invalid = McpError::new(McpErrorCode::InvalidInput, String::from_str("cursor is invalid"));
    if !uri_text_ok_exec(cursor) {
        return Err(invalid);
    }
    let scheme = "luwiki://";
    let limit = scheme.unicode_len() as u128 + expected_authority.unicode_len() as u128 + 512;
    if cursor.unicode_len() as u128 > limit {
        return Err(invalid);
    }
    let (authority, path) = match split_resource_uri_exec(cursor) {
        Some(t) => t,
        None => return Err(invalid),
    };
    if !str_eq(authority, expected_authority) {
        return Err(invalid);
    }
    match builtin_id_of_exec(path) {
        Some(id) => if builtin_id_ok_exec(id) {
            Ok(())
        } else {
            Err(invalid)
        },
        None => if is_resource_path(path) {
            Ok(())
        } else {
            Err(invalid)
        },
    }
}

/// What a `resources/read` URI names.
#[derive(Clone, Debug, PartialEq, Eq)]
pub enum ResourceUriTarget {
    /// A built-in resource.
    Builtin { builtin_id: String },
    /// A resource published by a page.
    Page { resource_path: String },
}

/// What a URI names, by view.
pub ghost enum TargetView {
    Builtin(Seq<char>),
    Page(Seq<char>),
}

/// The view of a URI target.
pub open spec fn target_view(t: ResourceUriTarget) -> TargetView {
    match t {
        ResourceUriTarget::Builtin { builtin_id } => TargetView::Builtin(builtin_id@),
        ResourceUriTarget::Page { resource_path } => TargetView::Page(resource_path@),
    }
}

/// The error for a URI that cannot be read as a resource URI.
pub open spec fn uri_invalid() -> ErrorView {
    (McpErrorCode::InvalidInput, "resource uri is invalid"@)
}

/// The error for a resource that is not there, or not shown to the caller.
pub open spec fn not_found() -> ErrorView {
    (McpErrorCode::NotFound, "resource not found"@)
}

/// The error that hides an internal failure.
pub open spec fn internal() -> ErrorView {
    (McpErrorCode::InternalError, "internal error"@)
}

/// The error for a URI that cannot be read as a resource URI.
pub fn resource_uri_invalid() -> (e: McpError)
    ensures
        err_view(e) == uri_invalid(),
{
    McpError::new(McpErrorCode::InvalidInput, String::from_str("resource uri is invalid"))
}

/// The error for a resource that is not there, or not shown to the caller.
pub fn resource_not_found() -> (e: McpError)
    ensures
        err_view(e) == not_found(),
{
    McpError::new(McpErrorCode::NotFound, String::from_str("resource not found"))
}

/// The error that hides an internal failure of a resource operation.
pub fn resource_internal_error() -> (e: McpError)
    ensures
        err_view(e) == internal(),
{
    McpError::new(McpErrorCode::InternalError, String::from_str("internal error"))
}

/// What a `resources/read` URI names: a malformed URI is invalid; another
/// authority, or a malformed built-in id, is not found.
pub open spec fn spec_parse_uri(
    uri: Seq<char>,
    authority: Seq<char>,
    is_resource_path: spec_fn(Seq<char>) -> bool,
) -> Result<TargetView, ErrorView> {
    if !uri_text_ok(uri) {
        Err(uri_invalid())
    } else {
        match split_resource_uri(uri) {
            None => Err(uri_invalid()),
            Some((a, path)) => if a != authority {
                Err(not_found())
            } else {
                match builtin_id_of(path) {
                    Some(id) => if builtin_id_ok(id) {
                        Ok(TargetView::Builtin(id))
                    } else {
                        Err(not_found())
                    },
                    None => if is_resource_path(path) {
                        Ok(TargetView::Page(path))
                    } else {
                        Err(uri_invalid())
                    },
                }
            },
        }
    }
}

/// Reads a `resources/read` URI; `is_resource_path` tells whether a text is
/// a valid resource path.
pub fn parse_resource_read_uri<F: Fn(&str) -> bool>(
    uri: &str,
    expected_authority: &str,
    is_resource_path: &F,
) -> (r: Result<ResourceUriTarget, McpError>)
    requires
        forall|s: &str| call_requires(*is_resource_path, (s,)),
    ensures
        forall|p: spec_fn(Seq<char>) -> bool|
            decides(*is_resource_path, p) ==> match spec_parse_uri(uri@, expected_authority@, p) {
                Ok(t) => r matches Ok(x) && target_view(x) == t,
                Err(ev) => r matches Err(e) && err_view(e) == ev,
            },
{
    if !uri_text_ok_exec(uri) {
        return Err(resource_uri_invalid());
    }
    let (authority, path) = match split_resource_uri_exec(uri) {
        Some(t) => t,
        None => return Err(resource_uri_invalid()),
    };
    if !str_eq(authority, expected_authority) {
        return Err(resource_not_found());
    }
    match builtin_id_of_exec(path) {
        Some(id) => if builtin_id_ok_exec(id) {
            Ok(ResourceUriTarget::Builtin { builtin_id: String::from_str(id) })
        } else {
            Err(resource_not_found())
        },
        None => if is_resource_path(path) {
            Ok(ResourceUriTarget::Page { resource_path: String::from_str(path) })
        } else {
            Err(resource_uri_invalid())
        },
    }
}

/// The summary an audit record gives of a resource URI: `uri=` and the URI,
/// only when the URI is well formed for this server.
pub open spec fn uri_summary(
    uri: Seq<char>,
    authority: Seq<char>,
    is_resource_path: spec_fn(Seq<char>) -> bool,
) -> Option<Seq<char>> {
    if uri_text_ok(uri) && match split_resource_uri(uri) {
        Some((a, path)) => a == authority && match builtin_id_of(path) {
            Some(id) => builtin_id_ok(id),
            None => is_resource_path(path),
        },
        None => false,
    } {
        Some("uri="@ + uri)
    } else {
        None
    }
}

/// The summary an audit record gives of a resource URI.
pub fn resource_uri_audit_summary<F: Fn(&str) -> bool>(
    uri: &str,
    expected_authority: &str,
    is_resource_path: &F,
) -> (r: Option<String>)
    requires
        forall|s: &str| call_requires(*is_resource_path, (s,)),
    ensures
        forall|p: spec_fn(Seq<char>) -> bool|
            decides(*is_resource_path, p) ==> crate::access::opt_view(r) == uri_summary(
                uri@,
                expected_authority@,
                p,
            ),
{
    if !uri_text_ok_exec(uri) {
        return None;
    }
    let (authority, path) = match split_resource_uri_exec(uri) {
        Some(t) => t,
        None => return None,
    };
    if !str_eq(authority, expected_authority) {
        return None;
    }
    let ok = match builtin_id_of_exec(path) {
        Some(id) => builtin_id_ok_exec(id),
        None => is_resource_path(path),
    };
    if ok {
        let mut s = String::from_str("uri=");
        s.append(uri);
        Some(s)
    } else {
        None
    }
}

/// The summary an audit record gives of a prompt name: `name=` and the name,
/// only when the name is valid.
pub fn prompt_name_audit_summary<F: Fn(&str) -> bool>(name: &str, is_prompt_name: &F) -> (r:
    Option<String>)
    requires
        forall|s: &str| call_requires(*is_prompt_name, (s,)),
    ensures
        forall|p: spec_fn(Seq<char>) -> bool|
            decides(*is_prompt_name, p) ==> crate::access::opt_view(r) == (if p(name@) {
                Some("name="@ + name@)
            } else {
                None
            }),
{
    if is_prompt_name(name) {
        let mut s = String::from_str("name=");
        s.append(name);
        Some(s)
    } else {
        None
    }
}

/// The resource path a page publishes by default: `/pages` followed by its
/// current path; it must have the shape of a resource path.
pub open spec fn default_resource_path(current_path: Seq<char>) -> Seq<char> {
    let rest = if starts_with(current_path, "/"@) {
        current_path.skip(1)
    } else {
        current_path
    };
    "/pages/"@ + rest
}

/// The resource path a page publishes by default; `is_path_shape` tells
/// whether a text has the shape of a resource path.
pub fn resource_path_from_current_path<F: Fn(&str) -> bool>(
    current_path: &str,
    is_path_shape: &F,
) -> (r: Result<String, McpError>)
    requires
        forall|s: &str| call_requires(*is_path_shape, (s,)),
    ensures
        forall|p: spec_fn(Seq<char>) -> bool|
            decides(*is_path_shape, p) ==> (if p(default_resource_path(current_path@)) {
                r matches Ok(s) && s@ == default_resource_path(current_path@)
            } else {
                r matches Err(e) && err_view(e) == internal()
            }),
{
    let chars = chars_of(current_path);
    let slash = chars_of("/");
    let rest = if starts_with_exec(&chars, &slash) {
        assert(current_path@.subrange(slash@.len() as int, chars@.len() as int) =~= current_path@.skip(
            slash@.len() as int,
        ));
        current_path.substring_char(slash.len(), chars.len())
    } else {
        current_path
    };
    proof {
        reveal_strlit("/");
    }
    let mut path = String::from_str("/pages/");
    path.append(rest);
    if is_path_shape(path.as_str()) {
        Ok(path)
    } else {
        Err(resource_internal_error())
    }
}

/// How many resources one page of `resources/list` holds.
pub const DEFAULT_RESOURCE_LIST_LIMIT: usize = 50;

/// A resource that a page publishes, as the store lists it.
#[derive(Clone, Debug)]
pub struct ResourceCandidate {
    /// The resource path.
    pub resource_path: String,
    /// Resource name.
    pub name: String,
    /// Resource description.
    pub description: String,
}

/// The view of a resource candidate.
pub open spec fn candidate_key(c: ResourceCandidate) -> (Seq<char>, Seq<char>, Seq<char>) {
    (c.resource_path@, c.name@, c.description@)
}

/// What the front matter of a resource page declares.
#[derive(Clone, Debug)]
pub struct ResourcePage {
    /// Who may list or read the resource.
    pub acl: Option<ResourceAcl>,
    /// The resource path, when declared.
    pub resource_path: Option<String>,
    /// The MIME type, when declared.
    pub mime_type: Option<String>,
}

/// The latest source of the page behind a resource path.
#[derive(Clone, Debug)]
pub struct ResourceSourceEntry {
    /// The page's current path.
    pub current_path: String,
    /// Page revision.
    pub revision: u64,
    /// What its front matter declares; absent when the front matter cannot
    /// be read as a resource page.
    pub resource: Option<ResourcePage>,
    /// The page body after the front matter.
    pub body: String,
    /// The URI the resource path is published under.
    pub uri: String,
}

/// What the store knows of a resource path.
#[derive(Clone, Debug)]
pub enum ResourceLookup {
    /// The page that publishes it.
    Found(ResourceSourceEntry),
    /// No page publishes it.
    NotFound,
    /// The page is not available (deleted or a draft).
    Unavailable,
    /// The store's records disagree.
    Inconsistent,
}

/// The contents of a resource.
#[derive(Clone, Debug)]
pub struct ResourceContents {
    /// Resource URI.
    pub uri: String,
    /// MIME type.
    pub mime_type: String,
    /// Resource text.
    pub text: String,
}

/// The candidates, from index `i` on, whose pages can be read, lie within
/// the token's path prefixes and whose access lists let the caller list
/// them (added to `acc`), reading one reply per candidate from index `at` on.
pub open spec fn spec_listed_candidates(
    auth: AuthContext,
    cands: Seq<ResourceCandidate>,
    i: int,
    replies: Seq<StoreReply>,
    at: int,
    acc: Seq<ResourceCandidate>,
    is_token_id: spec_fn(Seq<char>) -> bool,
) -> Progress<Seq<ResourceCandidate>>
    decreases cands.len() - i,
{
    if i < 0 || i >= cands.len() {
        Progress::Got(acc, at)
    } else if at < 0 || at >= replies.len() {
        Progress::Ask(RequestView::ResourceSource(cands[i].resource_path@))
    } else {
        match replies[at] {
            StoreReply::ResourceSource(Err(_)) => Progress::Fail(internal()),
            StoreReply::ResourceSource(Ok(ResourceLookup::NotFound)) => spec_listed_candidates(
                auth,
                cands,
                i + 1,
                replies,
                at + 1,
                acc,
                is_token_id,
            ),
            StoreReply::ResourceSource(Ok(ResourceLookup::Unavailable)) => spec_listed_candidates(
                auth,
                cands,
                i + 1,
                replies,
                at + 1,
                acc,
                is_token_id,
            ),
            StoreReply::ResourceSource(Ok(ResourceLookup::Inconsistent)) => Progress::Fail(internal()),
            StoreReply::ResourceSource(Ok(ResourceLookup::Found(src))) => match src.resource {
                None => Progress::Fail(internal()),
                Some(rp) => if prefixes_allow(auth.spec_prefixes(), src.current_path@) && acl_allows(
                    auth,
                    rp.acl,
                    ResourceAclOperation::List,
                    is_token_id,
                ) {
                    spec_listed_candidates(
                        auth,
                        cands,
                        i + 1,
                        replies,
                        at + 1,
                        acc.push(cands[i]),
                        is_token_id,
                    )
                } else {
                    spec_listed_candidates(auth, cands, i + 1, replies, at + 1, acc, is_token_id)
                },
            },
            _ => Progress::Fail(unexpected_reply()),
        }
    }
}

/// A listed resource as `resources/list` shows it.
pub open spec fn item_view(i: ResourceListItem) -> (Seq<char>, Seq<char>, Seq<char>, Seq<char>) {
    (i.uri@, i.name@, i.description@, i.mime_type@)
}

/// What `resources/list` gives: the built-in resources and those of the
/// pages the caller may list, as merged, after the cursor, fifty at a time.
pub open spec fn spec_list_resources(
    auth: AuthContext,
    authority: Seq<char>,
    cursor: Option<Seq<char>>,
    is_resource_path: spec_fn(Seq<char>) -> bool,
    is_token_id: spec_fn(Seq<char>) -> bool,
    replies: Seq<StoreReply>,
) -> Progress<(Seq<(Seq<char>, Seq<char>, Seq<char>, Seq<char>)>, Option<Seq<char>>)> {
    match spec_scope_check(auth, McpOperation::ListResources) {
        Some(e) => Progress::Fail(e),
        None => if cursor matches Some(c) && !cursor_ok(c, authority, is_resource_path) {
            Progress::Fail((McpErrorCode::InvalidInput, "cursor is invalid"@))
        } else if replies.len() == 0 {
            Progress::Ask(RequestView::ResourceCandidates)
        } else {
            match replies[0] {
                StoreReply::Resources(Err(_)) => Progress::Fail(internal()),
                StoreReply::Resources(Ok(cands)) => match spec_listed_candidates(
                    auth,
                    cands@,
                    0,
                    replies,
                    1,
                    Seq::empty(),
                    is_token_id,
                ) {
                    Progress::Ask(q) => Progress::Ask(q),
                    Progress::Fail(e) => Progress::Fail(e),
                    Progress::Got(listed, n) => if n >= replies.len() {
                        Progress::Ask(
                            RequestView::MergeResources(
                                listed.map_values(|c: ResourceCandidate| candidate_key(c)),
                            ),
                        )
                    } else {
                        match replies[n] {
                            StoreReply::Merged(Err(_)) => Progress::Fail(internal()),
                            StoreReply::Merged(Ok(entries)) => {
                                let visible = entries@.filter(
                                    |e: ResourceListItem| match cursor {
                                        Some(c) => lex_lt(c, e.uri@),
                                        None => true,
                                    },
                                );
                                let has_more = visible.len() > DEFAULT_RESOURCE_LIST_LIMIT;
                                let selected = if has_more {
                                    visible.take(DEFAULT_RESOURCE_LIST_LIMIT as int)
                                } else {
                                    visible
                                };
                                Progress::Got(
                                    (
                                        selected.map_values(|e: ResourceListItem| item_view(e)),
                                        if has_more {
                                            Some(selected.last().uri@)
                                        } else {
                                            None
                                        },
                                    ),
                                    n + 1,
                                )
                            },
                            _ => Progress::Fail(unexpected_reply()),
                        }
                    },
                },
                _ => Progress::Fail(unexpected_reply()),
            }
        },
    }
}

/// The resource path a page actually publishes: the declared one, or by
/// default one built from its current path.
pub open spec fn actual_resource_path(
    page: ResourcePage,
    current_path: Seq<char>,
    is_path_shape: spec_fn(Seq<char>) -> bool,
) -> Result<Seq<char>, ErrorView> {
    match page.resource_path {
        Some(x) => Ok(x@),
        None => if is_path_shape(default_resource_path(current_path)) {
            Ok(default_resource_path(current_path))
        } else {
            Err(internal())
        },
    }
}

/// What `resources/read` gives: URI, MIME type, text, and for a page
/// resource the page revision. A resource the caller may not read, by its
/// access list or because its page lies outside the token's path prefixes,
/// is not found.
pub open spec fn spec_read_resource(
    auth: AuthContext,
    authority: Seq<char>,
    uri: Seq<char>,
    default_mime_type: Seq<char>,
    is_resource_path: spec_fn(Seq<char>) -> bool,
    is_path_shape: spec_fn(Seq<char>) -> bool,
    is_token_id: spec_fn(Seq<char>) -> bool,
    replies: Seq<StoreReply>,
) -> Progress<(Seq<char>, Seq<char>, Seq<char>, Option<u64>)> {
    match spec_scope_check(auth, McpOperation::ReadResource) {
        Some(e) => Progress::Fail(e),
        None => match spec_parse_uri(uri, authority, is_resource_path) {
            Err(e) => Progress::Fail(e),
            Ok(TargetView::Builtin(id)) => if replies.len() == 0 {
                Progress::Ask(RequestView::BuiltinResource(id))
            } else {
                match replies[0] {
                    StoreReply::Builtin(None) => Progress::Fail(not_found()),
                    StoreReply::Builtin(Some(c)) => Progress::Got(
                        (c.uri@, c.mime_type@, c.text@, None),
                        1,
                    ),
                    _ => Progress::Fail(unexpected_reply()),
                }
            },
            Ok(TargetView::Page(rp)) => if replies.len() == 0 {
                Progress::Ask(RequestView::ResourceSource(rp))
            } else {
                match replies[0] {
                    StoreReply::ResourceSource(Err(_)) => Progress::Fail(internal()),
                    StoreReply::ResourceSource(Ok(ResourceLookup::NotFound)) => Progress::Fail(
                        not_found(),
                    ),
                    StoreReply::ResourceSource(Ok(ResourceLookup::Unavailable)) => Progress::Fail(
                        not_found(),
                    ),
                    StoreReply::ResourceSource(Ok(ResourceLookup::Inconsistent)) => Progress::Fail(
                        internal(),
                    ),
                    StoreReply::ResourceSource(Ok(ResourceLookup::Found(src))) => match src.resource {
                        None => Progress::Fail(internal()),
                        Some(page) => match actual_resource_path(page, src.current_path@, is_path_shape) {
                            Err(e) => Progress::Fail(e),
                            Ok(a) => if a != rp {
                                Progress::Fail(internal())
                            } else if !prefixes_allow(auth.spec_prefixes(), src.current_path@) || !acl_allows(
                                auth,
                                page.acl,
                                ResourceAclOperation::Read,
                                is_token_id,
                            ) {
                                Progress::Fail(not_found())
                            } else {
                                Progress::Got(
                                    (
                                        src.uri@,
                                        match page.mime_type {
                                            Some(m) => m@,
                                            None => default_mime_type,
                                        },
                                        src.body@,
                                        Some(src.revision),
                                    ),
                                    1,
                                )
                            },
                        },
                    },
                    _ => Progress::Fail(unexpected_reply()),
                }
            },
        },
    }
}

/// `resources/read` serves a page only when the page lies within the
/// token's path prefixes and its access list lets the caller read it; what
/// it serves is that page's body.
pub proof fn law_read_resource_serves_only_permitted_pages(
    auth: AuthContext,
    authority: Seq<char>,
    uri: Seq<char>,
    default_mime_type: Seq<char>,
    is_resource_path: spec_fn(Seq<char>) -> bool,
    is_path_shape: spec_fn(Seq<char>) -> bool,
    is_token_id: spec_fn(Seq<char>) -> bool,
    replies: Seq<StoreReply>,
    served: (Seq<char>, Seq<char>, Seq<char>, Option<u64>),
    m: int,
)
    requires
        spec_read_resource(
            auth,
            authority,
            uri,
            default_mime_type,
            is_resource_path,
            is_path_shape,
            is_token_id,
            replies,
        ) == Progress::Got(served, m),
        served.3 is Some,
    ensures
        replies.len() > 0,
        match replies[0] {
            StoreReply::ResourceSource(Ok(ResourceLookup::Found(src))) => {
                &&& prefixes_allow(auth.spec_prefixes(), src.current_path@)
                &&& match src.resource {
                    Some(page) => acl_allows(auth, page.acl, ResourceAclOperation::Read, is_token_id)
                        && served.2 == src.body@,
                    None => false,
                }
            },
            _ => false,
        },
{
}

/// Whether the store's answer about a candidate's page lets the caller list
/// it: the page was found, lies within the token's path prefixes, and its
/// access list allows listing.
pub open spec fn listing_permitted(
    auth: AuthContext,
    reply: StoreReply,
    is_token_id: spec_fn(Seq<char>) -> bool,
) -> bool {
    match reply {
        StoreReply::ResourceSource(Ok(ResourceLookup::Found(src))) => {
            &&& prefixes_allow(auth.spec_prefixes(), src.current_path@)
            &&& match src.resource {
                Some(page) => acl_allows(auth, page.acl, ResourceAclOperation::List, is_token_id),
                None => false,
            }
        },
        _ => false,
    }
}

proof fn lemma_listed_candidates_ask_source(
    auth: AuthContext,
    cands: Seq<ResourceCandidate>,
    i: int,
    replies: Seq<StoreReply>,
    at: int,
    acc: Seq<ResourceCandidate>,
    is_token_id: spec_fn(Seq<char>) -> bool,
)
    ensures
        spec_listed_candidates(auth, cands, i, replies, at, acc, is_token_id) matches Progress::Ask(q)
            ==> q is ResourceSource,
    decreases cands.len() - i,
{
    if i < 0 || i >= cands.len() || at < 0 || at >= replies.len() {
    } else {
        let next_acc = match replies[at] {
            StoreReply::ResourceSource(Ok(ResourceLookup::Found(src))) => match src.resource {
                Some(rp) => if prefixes_allow(auth.spec_prefixes(), src.current_path@) && acl_allows(
                    auth,
                    rp.acl,
                    ResourceAclOperation::List,
                    is_token_id,
                ) {
                    acc.push(cands[i])
                } else {
                    acc
                },
                None => acc,
            },
            _ => acc,
        };
        lemma_listed_candidates_ask_source(auth, cands, i + 1, replies, at + 1, next_acc, is_token_id);
        lemma_listed_candidates_ask_source(auth, cands, i + 1, replies, at + 1, acc, is_token_id);
    }
}

proof fn lemma_listed_candidates_permitted(
    auth: AuthContext,
    cands: Seq<ResourceCandidate>,
    i: int,
    replies: Seq<StoreReply>,
    at: int,
    acc: Seq<ResourceCandidate>,
    is_token_id: spec_fn(Seq<char>) -> bool,
    res: Seq<ResourceCandidate>,
    n: int,
)
    requires
        0 <= i,
        0 <= at,
        spec_listed_candidates(auth, cands, i, replies, at, acc, is_token_id) == Progress::Got(res, n),
    ensures
        forall|x: ResourceCandidate| #[trigger] res.contains(x) ==> acc.contains(x) || exists|j: int|
            i <= j < cands.len() && cands[j] == x && listing_permitted(
                auth,
                replies[at + (j - i)],
                is_token_id,
            ),
    decreases cands.len() - i,
{
    if i >= cands.len() {
    } else if at >= replies.len() {
    } else {
        let next_acc = match replies[at] {
            StoreReply::ResourceSource(Ok(ResourceLookup::Found(src))) => match src.resource {
                Some(rp) => if prefixes_allow(auth.spec_prefixes(), src.current_path@) && acl_allows(
                    auth,
                    rp.acl,
                    ResourceAclOperation::List,
                    is_token_id,
                ) {
                    acc.push(cands[i])
                } else {
                    acc
                },
                None => acc,
            },
            _ => acc,
        };
        match replies[at] {
            StoreReply::ResourceSource(Ok(ResourceLookup::NotFound))
            | StoreReply::ResourceSource(Ok(ResourceLookup::Unavailable))
            | StoreReply::ResourceSource(Ok(ResourceLookup::Found(_))) => {
                lemma_listed_candidates_permitted(auth, cands, i + 1, replies, at + 1, next_acc, is_token_id, res, n);
                assert forall|x: ResourceCandidate| #[trigger] res.contains(x) implies acc.contains(x) || exists|j: int|
                    i <= j < cands.len() && cands[j] == x && listing_permitted(
                        auth,
                        replies[at + (j - i)],
                        is_token_id,
                    ) by {
                    if next_acc.contains(x) && !acc.contains(x) {
                        let k = choose|k: int| 0 <= k < next_acc.len() && next_acc[k] == x;
                        assert(k == acc.len());
                        assert(cands[i] == x && listing_permitted(auth, replies[at + (i - i)], is_token_id));
                    } else if !next_acc.contains(x) {
                        let j = choose|j: int| i + 1 <= j < cands.len() && cands[j] == x && listing_permitted(
                            auth,
                            replies[(at + 1) + (j - (i + 1))],
                            is_token_id,
                        );
                        assert(at + (j - i) == (at + 1) + (j - (i + 1)));
                    }
                }
            },
            _ => {},
        }
    }
}

/// `resources/list` asks the store to merge only candidates whose pages the
/// caller may list: found, within the token's path prefixes and allowed by
/// their access lists.
pub proof fn law_listing_merges_only_permitted_pages(
    auth: AuthContext,
    authority: Seq<char>,
    cursor: Option<Seq<char>>,
    is_resource_path: spec_fn(Seq<char>) -> bool,
    is_token_id: spec_fn(Seq<char>) -> bool,
    replies: Seq<StoreReply>,
    keys: Seq<(Seq<char>, Seq<char>, Seq<char>)>,
)
    requires
        spec_list_resources(auth, authority, cursor, is_resource_path, is_token_id, replies)
            == Progress::<(Seq<(Seq<char>, Seq<char>, Seq<char>, Seq<char>)>, Option<Seq<char>>)>::Ask(
            RequestView::MergeResources(keys),
        ),
    ensures
        replies.len() > 0,
        replies[0] matches StoreReply::Resources(Ok(cands)) && forall|k: int|
            0 <= k < keys.len() ==> exists|j: int|
                0 <= j < cands@.len() && candidate_key(cands@[j]) == #[trigger] keys[k]
                    && listing_permitted(auth, replies[1 + j], is_token_id),
{
    match replies[0] {
        StoreReply::Resources(Ok(cands)) => {
            lemma_listed_candidates_ask_source(auth, cands@, 0, replies, 1, Seq::empty(), is_token_id);
            match spec_listed_candidates(auth, cands@, 0, replies, 1, Seq::empty(), is_token_id) {
                Progress::Got(listed, n) => {
                    lemma_listed_candidates_permitted(
                        auth,
                        cands@,
                        0,
                        replies,
                        1,
                        Seq::empty(),
                        is_token_id,
                        listed,
                        n,
                    );
                    assert(keys == listed.map_values(|c: ResourceCandidate| candidate_key(c)));
                    assert forall|k: int| 0 <= k < keys.len() implies exists|j: int|
                        0 <= j < cands@.len() && candidate_key(cands@[j]) == #[trigger] keys[k]
                            && listing_permitted(auth, replies[1 + j], is_token_id) by {
                        let x = listed[k];
                        assert(listed.contains(x));
                        assert(!Seq::<ResourceCandidate>::empty().contains(x));
                        let j = choose|j: int| 0 <= j < cands@.len() && cands@[j] == x && listing_permitted(
                            auth,
                            replies[1 + (j - 0)],
                            is_token_id,
                        );
                        assert(1 + (j - 0) == 1 + j);
                    }
                },
                _ => {
                    assert(false);
                },
            }
        },
        _ => {
            assert(false);
        },
    }
}

fn copy_candidate(c: &ResourceCandidate) -> (r: ResourceCandidate)
    ensures
        r == *c,
{
    ResourceCandidate {
        resource_path: c.resource_path.clone(),
        name: c.name.clone(),
        description: c.description.clone(),
    }
}

fn copy_item(i: &ResourceListItem) -> (r: ResourceListItem)
    ensures
        r == *i,
{
    ResourceListItem {
        uri: i.uri.clone(),
        name: i.name.clone(),
        description: i.description.clone(),
        mime_type: i.mime_type.clone(),
    }
}

impl McpService {
    /// Reads, from the replies at index `at` on, which candidates the caller
    /// may list.
    fn listed_candidates<G: Fn(&str) -> bool>(
        &self,
        auth: &AuthContext,
        cands: &Vec<ResourceCandidate>,
        is_token_id: &G,
        replies: &[StoreReply],
        at: usize,
    ) -> (r: crate::store::Stage<Vec<ResourceCandidate>>)
        requires
            forall|s: &str| call_requires(*is_token_id, (s,)),
        ensures
            forall|q: spec_fn(Seq<char>) -> bool|
                decides(*is_token_id, q) ==> crate::store::stage_is(
                    r,
                    spec_listed_candidates(
                        *auth,
                        cands@,
                        0,
                        replies@,
                        at as int,
                        Seq::empty(),
                        q,
                    ),
                    |v: Vec<ResourceCandidate>| v@,
                ),
    {
        let mut acc: Vec<ResourceCandidate> = Vec::new();
        let mut i: usize = 0;
        let mut k: usize = at;
        while i < cands.len()
            invariant
                forall|s: &str| call_requires(*is_token_id, (s,)),
                i <= cands@.len(),
                at <= k,
                k - at == i,
                forall|q: spec_fn(Seq<char>) -> bool|
                    decides(*is_token_id, q) ==> spec_listed_candidates(
                        *auth,
                        cands@,
                        i as int,
                        replies@,
                        k as int,
                        acc@,
                        q,
                    ) == spec_listed_candidates(
                        *auth,
                        cands@,
                        0,
                        replies@,
                        at as int,
                        Seq::empty(),
                        q,
                    ),
            decreases cands@.len() - i,
        {
            if k >= replies.len() {
                return crate::store::Stage::Ask(
                    StoreRequest::ResourceSource {
                        resource_path: cands[i].resource_path.clone(),
                    },
                );
            }
            match &replies[k] {
                StoreReply::ResourceSource(Err(_)) => {
                    return crate::store::Stage::Fail(resource_internal_error());
                },
                StoreReply::ResourceSource(Ok(ResourceLookup::NotFound)) => {},
                StoreReply::ResourceSource(Ok(ResourceLookup::Unavailable)) => {},
                StoreReply::ResourceSource(Ok(ResourceLookup::Inconsistent)) => {
                    return crate::store::Stage::Fail(resource_internal_error());
                },
                StoreReply::ResourceSource(Ok(ResourceLookup::Found(src))) => match &src.resource {
                    None => return crate::store::Stage::Fail(resource_internal_error()),
                    Some(rp) => {
                        let acl = match &rp.acl {
                            Some(a) => Some(a),
                            None => None,
                        };
                        if auth.allows_path(src.current_path.as_str()) && resource_acl_allows(
                            auth,
                            acl,
                            ResourceAclOperation::List,
                            is_token_id,
                        ) {
                            acc.push(copy_candidate(&cands[i]));
                        }
                    },
                },
                _ => return crate::store::Stage::Fail(unexpected_reply_error()),
            }
            i = i + 1;
            k = k + 1;
        }
        crate::store::Stage::Got(acc, k)
    }

    /// `resources/list`: the built-in resources and those of the pages the
    /// caller may list, after the cursor, fifty at a time;
    /// `is_resource_path` and `is_token_id` tell whether a text is a valid
    /// resource path or reads as a token id.
    pub fn list_resources<F: Fn(&str) -> bool, G: Fn(&str) -> bool>(
        &self,
        auth: &AuthContext,
        cursor: Option<&str>,
        is_resource_path: &F,
        is_token_id: &G,
        replies: &[StoreReply],
    ) -> (r: OpStep<ListResourcesServiceResult>)
        requires
            forall|s: &str| call_requires(*is_resource_path, (s,)),
            forall|s: &str| call_requires(*is_token_id, (s,)),
        ensures
            forall|p: spec_fn(Seq<char>) -> bool, q: spec_fn(Seq<char>) -> bool|
                decides(*is_resource_path, p) && decides(*is_token_id, q) ==> step_is(
                    r,
                    spec_list_resources(
                        *auth,
                        self.spec_authority(),
                        match cursor {
                            Some(c) => Some(c@),
                            None => None,
                        },
                        p,
                        q,
                        replies@,
                    ),
                    |g: ListResourcesServiceResult|
                        (
                            g.items@.map_values(|i: ResourceListItem| item_view(i)),
                            opt_view(g.next_cursor),
                        ),
                ),
    {
        if let Err(e) = self.ensure_operation_scope(auth, McpOperation::ListResources) {
            return OpStep::Done(Err(e));
        }
        if let Some(c) = cursor {
            if let Err(e) = validate_resource_list_cursor(c, self.resource_authority(), is_resource_path) {
                return OpStep::Done(Err(e));
            }
        }
        if replies.len() == 0 {
            return OpStep::Ask(StoreRequest::ResourceCandidates);
        }
        let cands = match &replies[0] {
            StoreReply::Resources(Err(_)) => return OpStep::Done(Err(resource_internal_error())),
            StoreReply::Resources(Ok(v)) => v,
            _ => return OpStep::Done(Err(unexpected_reply_error())),
        };
        let (listed, n) = match self.listed_candidates(auth, cands, is_token_id, replies, 1) {
            crate::store::Stage::Ask(q) => return OpStep::Ask(q),
            crate::store::Stage::Fail(e) => return OpStep::Done(Err(e)),
            crate::store::Stage::Got(v, n) => (v, n),
        };
        if n >= replies.len() {
            return OpStep::Ask(StoreRequest::MergeResources { candidates: listed });
        }
        let entries = match &replies[n] {
            StoreReply::Merged(Err(_)) => return OpStep::Done(Err(resource_internal_error())),
            StoreReply::Merged(Ok(v)) => v,
            _ => return OpStep::Done(Err(unexpected_reply_error())),
        };
        let ghost cv = match cursor {
            Some(c) => Some(c@),
            None => None::<Seq<char>>,
        };
        let ghost pred = |e: ResourceListItem| match cv {
            Some(c) => lex_lt(c, e.uri@),
            None => true,
        };
        let mut visible: Vec<ResourceListItem> = Vec::new();
        let mut i: usize = 0;
        while i < entries.len()
            invariant
                i <= entries@.len(),
                pred == (|e: ResourceListItem| match cv {
                    Some(c) => lex_lt(c, e.uri@),
                    None => true,
                }),
                cv == (match cursor {
                    Some(c) => Some(c@),
                    None => None::<Seq<char>>,
                }),
                visible@ == entries@.take(i as int).filter(pred),
            decreases entries@.len() - i,
        {
            proof {
                crate::seqs::lemma_filter_take_step(entries@, pred, i as int);
            }
            let keep = match cursor {
                Some(c) => str_lt(c, entries[i].uri.as_str()),
                None => true,
            };
            if keep {
                visible.push(copy_item(&entries[i]));
            }
            i = i + 1;
        }
        proof {
            crate::seqs::lemma_take_full(entries@);
        }
        let has_more = visible.len() > DEFAULT_RESOURCE_LIST_LIMIT;
        let count = if has_more {
            DEFAULT_RESOURCE_LIST_LIMIT
        } else {
            visible.len()
        };
        let mut items: Vec<ResourceListItem> = Vec::new();
        let mut j: usize = 0;
        while j < count
            invariant
                count <= visible@.len(),
                j <= count,
                items@ == visible@.take(j as int),
            decreases count - j,
        {
            items.push(copy_item(&visible[j]));
            j = j + 1;
            assert(items@ =~= visible@.take(j as int));
        }
        let next_cursor = if has_more {
            Some(visible[count - 1].uri.clone())
        } else {
            None
        };
        proof {
            if has_more {
                assert(visible@.take(count as int).last() == visible@[count - 1]);
            } else {
                assert(visible@.take(count as int) =~= visible@);
            }
        }
        OpStep::Done(Ok(ListResourcesServiceResult::new(items, next_cursor)))
    }

    /// `resources/read`: the contents of the resource at `uri`; a page
    /// resource must be published at the path asked for and readable by the
    /// caller. `default_mime_type` is used when the page declares none;
    /// `is_resource_path`, `is_path_shape` and `is_token_id` tell whether a
    /// text is a valid resource path, has the shape of one, or reads as a
    /// token id.
    pub fn read_resource<F: Fn(&str) -> bool, H: Fn(&str) -> bool, G: Fn(&str) -> bool>(
        &self,
        auth: &AuthContext,
        uri: &str,
        default_mime_type: &str,
        is_resource_path: &F,
        is_path_shape: &H,
        is_token_id: &G,
        replies: &[StoreReply],
    ) -> (r: OpStep<ReadResourceServiceResult>)
        requires
            forall|s: &str| call_requires(*is_resource_path, (s,)),
            forall|s: &str| call_requires(*is_path_shape, (s,)),
            forall|s: &str| call_requires(*is_token_id, (s,)),
        ensures
            forall|p: spec_fn(Seq<char>) -> bool, h: spec_fn(Seq<char>) -> bool, q: spec_fn(Seq<char>) -> bool|
                decides(*is_resource_path, p) && decides(*is_path_shape, h) && decides(*is_token_id, q)
                    ==> step_is(
                    r,
                    spec_read_resource(
                        *auth,
                        self.spec_authority(),
                        uri@,
                        default_mime_type@,
                        p,
                        h,
                        q,
                        replies@,
                    ),
                    |g: ReadResourceServiceResult| (g.uri@, g.mime_type@, g.text@, g.revision),
                ),
    {
        if let Err(e) = self.ensure_operation_scope(auth, McpOperation::ReadResource) {
            return OpStep::Done(Err(e));
        }
        let target = match parse_resource_read_uri(uri, self.resource_authority(), is_resource_path) {
            Ok(t) => t,
            Err(e) => return OpStep::Done(Err(e)),
        };
        match target {
            ResourceUriTarget::Builtin { builtin_id } => {
                if replies.len() == 0 {
                    return OpStep::Ask(StoreRequest::BuiltinResource { builtin_id });
                }
                match &replies[0] {
                    StoreReply::Builtin(None) => OpStep::Done(Err(resource_not_found())),
                    StoreReply::Builtin(Some(c)) => OpStep::Done(
                        Ok(
                            ReadResourceServiceResult::new(
                                c.uri.clone(),
                                c.mime_type.clone(),
                                c.text.clone(),
                                None,
                            ),
                        ),
                    ),
                    _ => OpStep::Done(Err(unexpected_reply_error())),
                }
            },
            ResourceUriTarget::Page { resource_path } => {
                if replies.len() == 0 {
                    return OpStep::Ask(StoreRequest::ResourceSource { resource_path });
                }
                let src = match &replies[0] {
                    StoreReply::ResourceSource(Err(_)) => {
                        return OpStep::Done(Err(resource_internal_error()));
                    },
                    StoreReply::ResourceSource(Ok(ResourceLookup::NotFound)) => {
                        return OpStep::Done(Err(resource_not_found()));
                    },
                    StoreReply::ResourceSource(Ok(ResourceLookup::Unavailable)) => {
                        return OpStep::Done(Err(resource_not_found()));
                    },
                    StoreReply::ResourceSource(Ok(ResourceLookup::Inconsistent)) => {
                        return OpStep::Done(Err(resource_internal_error()));
                    },
                    StoreReply::ResourceSource(Ok(ResourceLookup::Found(src))) => src,
                    _ => return OpStep::Done(Err(unexpected_reply_error())),
                };
                let page = match &src.resource {
                    Some(page) => page,
                    None => return OpStep::Done(Err(resource_internal_error())),
                };
                let actual = match &page.resource_path {
                    Some(x) => x.clone(),
                    None => match resource_path_from_current_path(
                        src.current_path.as_str(),
                        is_path_shape,
                    ) {
                        Ok(x) => x,
                        Err(e) => return OpStep::Done(Err(e)),
                    },
                };
                if !str_eq(actual.as_str(), resource_path.as_str()) {
                    return OpStep::Done(Err(resource_internal_error()));
                }
                let acl = match &page.acl {
                    Some(a) => Some(a),
                    None => None,
                };
                if !auth.allows_path(src.current_path.as_str()) || !resource_acl_allows(
                    auth,
                    acl,
                    ResourceAclOperation::Read,
                    is_token_id,
                ) {
                    return OpStep::Done(Err(resource_not_found()));
                }
                let mime_type = match &page.mime_type {
                    Some(m) => m.clone(),
                    None => String::from_str(default_mime_type),
                };
                OpStep::Done(
                    Ok(
                        ReadResourceServiceResult::new(
                            src.uri.clone(),
                            mime_type,
                            src.body.clone(),
                            Some(src.revision),
                        ),
                    ),
                )
            },
        }
    }
}

} // verus!
