//! Who may do what: bearer scopes, user attributes, the authenticated
//! context of a request, and the scope each MCP operation needs.

use vstd::prelude::*;
use crate::paths::{path_matches_prefix, path_matches_prefix_exec};

verus! {

/// A bearer token scope.  `Write` stands for every scope.
#[derive(Clone, Copy, Debug, PartialEq, Eq, Structural)]
pub enum BearerScope {
    /// Reading pages.
    Read,
    /// Every operation.
    Write,
    /// Creating pages.
    Create,
    /// Updating, editing and renaming pages.
    Update,
    /// Appending to pages.
    Append,
    /// Deleting pages.
    Delete,
}

/// The external spelling of a scope.
pub open spec fn scope_text(scope: BearerScope) -> Seq<char> {
    match scope {
        BearerScope::Read => "read"@,
        BearerScope::Write => "write"@,
        BearerScope::Create => "create"@,
        BearerScope::Update => "update"@,
        BearerScope::Append => "append"@,
        BearerScope::Delete => "delete"@,
    }
}

impl BearerScope {
    /// The external spelling of the scope.
    pub fn as_str(self) -> (s: &'static str)
        ensures
            s@ == scope_text(self),
    {
        match self {
            BearerScope::Read => "read",
            BearerScope::Write => "write",
            BearerScope::Create => "create",
            BearerScope::Update => "update",
            BearerScope::Append => "append",
            BearerScope::Delete => "delete",
        }
    }
}

/// A user attribute that restricts what the user may do.
#[derive(Clone, Copy, Debug, PartialEq, Eq, Structural)]
pub enum UserAttribute {
    /// The user may not write.
    ReadOnly,
    /// The user may not log in with basic authentication.
    NoBasicAuth,
}

/// Whether a set of granted scopes allows `required`: it does when the
/// scope itself or `Write` was granted.
pub open spec fn scopes_allow(granted: Seq<BearerScope>, required: BearerScope) -> bool {
    granted.contains(required) || granted.contains(BearerScope::Write)
}

/// Whether a set of path prefixes allows `path`: an empty set allows
/// every path, otherwise the path must lie under one of the prefixes.
pub open spec fn prefixes_allow(prefixes: Seq<Seq<char>>, path: Seq<char>) -> bool {
    prefixes.len() == 0 || exists|i: int|
        0 <= i < prefixes.len() && path_matches_prefix(path, #[trigger] prefixes[i])
}

/// The authenticated context of a request.
#[derive(Clone, Debug)]
pub struct AuthContext {
    user_id: String,
    scopes: Vec<BearerScope>,
    path_prefixes: Vec<String>,
    attributes: Vec<UserAttribute>,
    token_id: Option<String>,
    token_name: Option<String>,
}

/// The views of an optional string.
pub open spec fn opt_view(s: Option<String>) -> Option<Seq<char>> {
    match s {
        Some(v) => Some(v@),
        None => None,
    }
}

impl AuthContext {
    /// The authenticated user name.
    pub closed spec fn spec_user_id(&self) -> Seq<char> {
        self.user_id@
    }

    /// The granted scopes.
    pub closed spec fn spec_scopes(&self) -> Seq<BearerScope> {
        self.scopes@
    }

    /// The path prefixes the token is limited to (empty: no limit).
    pub closed spec fn spec_prefixes(&self) -> Seq<Seq<char>> {
        self.path_prefixes@.map_values(|p: String| p@)
    }

    /// The user attributes.
    pub closed spec fn spec_attributes(&self) -> Seq<UserAttribute> {
        self.attributes@
    }

    /// The token id, if the context comes from a token.
    pub closed spec fn spec_token_id(&self) -> Option<Seq<char>> {
        opt_view(self.token_id)
    }

    /// The token name, if the token has one.
    pub closed spec fn spec_token_name(&self) -> Option<Seq<char>> {
        opt_view(self.token_name)
    }

    /// Whether the user is read only.
    pub open spec fn spec_read_only(&self) -> bool {
        self.spec_attributes().contains(UserAttribute::ReadOnly)
    }

    /// Builds a context without user attributes or token name.
    pub fn new(
        user_id: String,
        scopes: Vec<BearerScope>,
        path_prefixes: Vec<String>,
        token_id: Option<String>,
    ) -> (a: AuthContext)
        ensures
            a.spec_user_id() == user_id@,
            a.spec_scopes() == scopes@,
            a.spec_prefixes() == path_prefixes@.map_values(|p: String| p@),
            a.spec_attributes() == Seq::<UserAttribute>::empty(),
            a.spec_token_id() == opt_view(token_id),
            a.spec_token_name() is None,
    {
        AuthContext {
            user_id,
            scopes,
            path_prefixes,
            attributes: Vec::new(),
            token_id,
            token_name: None,
        }
    }

    /// Builds a context with every field given.
    pub fn new_with_attributes(
        user_id: String,
        scopes: Vec<BearerScope>,
        path_prefixes: Vec<String>,
        attributes: Vec<UserAttribute>,
        token_id: Option<String>,
        token_name: Option<String>,
    ) -> (a: AuthContext)
        ensures
            a.spec_user_id() == user_id@,
            a.spec_scopes() == scopes@,
            a.spec_prefixes() == path_prefixes@.map_values(|p: String| p@),
            a.spec_attributes() == attributes@,
            a.spec_token_id() == opt_view(token_id),
            a.spec_token_name() == opt_view(token_name),
    {
        AuthContext { user_id, scopes, path_prefixes, attributes, token_id, token_name }
    }

    /// The authenticated user name.
    pub fn user_id(&self) -> (s: &str)
        ensures
            s@ == self.spec_user_id(),
    {
        self.user_id.as_str()
    }

    /// The token id, if any.
    pub fn token_id(&self) -> (t: Option<&str>)
        ensures
            t matches Some(s) ==> self.spec_token_id() == Some(s@),
            t is None ==> self.spec_token_id() is None,
    {
        match &self.token_id {
            Some(s) => Some(s.as_str()),
            None => None,
        }
    }

    /// The token name, if any.
    pub fn token_name(&self) -> (t: Option<&str>)
        ensures
            t matches Some(s) ==> self.spec_token_name() == Some(s@),
            t is None ==> self.spec_token_name() is None,
    {
        match &self.token_name {
            Some(s) => Some(s.as_str()),
            None => None,
        }
    }

    /// Whether the user is read only.
    pub fn is_read_only(&self) -> (b: bool)
        ensures
            b == self.spec_read_only(),
    {
        let mut i: usize = 0;
        while i < self.attributes.len()
            invariant
                i <= self.attributes@.len(),
                forall|j: int| 0 <= j < i ==> self.attributes@[j] != UserAttribute::ReadOnly,
            decreases self.attributes@.len() - i,
        {
            if self.attributes[i] == UserAttribute::ReadOnly {
                assert(self.attributes@[i as int] == UserAttribute::ReadOnly);
                return true;
            }
            i = i + 1;
        }
        false
    }

    /// Whether the granted scopes allow `required`.
    pub fn allows_scope(&self, required: BearerScope) -> (b: bool)
        ensures
            b == scopes_allow(self.spec_scopes(), required),
    {
        let mut i: usize = 0;
        while i < self.scopes.len()
            invariant
                i <= self.scopes@.len(),
                forall|j: int|
                    0 <= j < i ==> self.scopes@[j] != required && self.scopes@[j]
                        != BearerScope::Write,
            decreases self.scopes@.len() - i,
        {
            let s = self.scopes[i];
            if s == required || s == BearerScope::Write {
                assert(self.scopes@[i as int] == s);
                return true;
            }
            i = i + 1;
        }
        false
    }

    /// Whether the path prefixes of the context allow `path`.
    pub fn allows_path(&self, path: &str) -> (b: bool)
        ensures
            b == prefixes_allow(self.spec_prefixes(), path@),
    {
        let n = self.path_prefixes.len();
        if n == 0 {
            return true;
        }
        let mut i: usize = 0;
        while i < n
            invariant
                n == self.path_prefixes@.len(),
                n > 0,
                i <= n,
                forall|j: int|
                    0 <= j < i ==> !path_matches_prefix(path@, #[trigger] self.spec_prefixes()[j]),
            decreases n - i,
        {
            if path_matches_prefix_exec(path, self.path_prefixes[i].as_str()) {
                assert(path_matches_prefix(path@, self.spec_prefixes()[i as int]));
                return true;
            }
            i = i + 1;
        }
        false
    }
}

/// The operations of the MCP surface.
#[derive(Clone, Copy, Debug, PartialEq, Eq, Structural)]
pub enum McpOperation {
    /// Reading a page.
    GetPage,
    /// Reading a table of contents.
    GetPageToc,
    /// Listing pages.
    ListPages,
    /// Listing prompts.
    ListPrompts,
    /// Listing resources.
    ListResources,
    /// Reading a resource.
    ReadResource,
    /// Reading a prompt.
    GetPrompt,
    /// Searching pages.
    SearchPages,
    /// Reading a section.
    GetPageSection,
    /// Creating a page.
    CreatePage,
    /// Updating a page.
    UpdatePage,
    /// Editing a page.
    EditPage,
    /// Appending to a page.
    AppendPage,
    /// Renaming a page.
    RenamePage,
    /// Deleting a page.
    DeletePage,
}

/// The scope each operation needs.
pub open spec fn operation_scope(op: McpOperation) -> BearerScope {
    match op {
        McpOperation::CreatePage => BearerScope::Create,
        McpOperation::UpdatePage | McpOperation::EditPage | McpOperation::RenamePage =>
            BearerScope::Update,
        McpOperation::AppendPage => BearerScope::Append,
        McpOperation::DeletePage => BearerScope::Delete,
        _ => BearerScope::Read,
    }
}

/// Whether an operation writes.
pub open spec fn operation_writes(op: McpOperation) -> bool {
    match op {
        McpOperation::CreatePage | McpOperation::UpdatePage | McpOperation::EditPage
        | McpOperation::AppendPage | McpOperation::RenamePage | McpOperation::DeletePage => true,
        _ => false,
    }
}

impl McpOperation {
    /// The scope the operation needs.
    pub fn required_scope(self) -> (s: BearerScope)
        ensures
            s == operation_scope(self),
    {
        match self {
            McpOperation::GetPage | McpOperation::GetPageToc | McpOperation::ListPages
            | McpOperation::ListPrompts | McpOperation::ListResources
            | McpOperation::ReadResource | McpOperation::GetPrompt | McpOperation::SearchPages
            | McpOperation::GetPageSection => BearerScope::Read,
            McpOperation::CreatePage => BearerScope::Create,
            McpOperation::UpdatePage | McpOperation::EditPage | McpOperation::RenamePage =>
                BearerScope::Update,
            McpOperation::AppendPage => BearerScope::Append,
            McpOperation::DeletePage => BearerScope::Delete,
        }
    }

    /// Whether the operation writes.
    pub fn is_write(self) -> (b: bool)
        ensures
            b == operation_writes(self),
    {
        match self {
            McpOperation::GetPage | McpOperation::GetPageToc | McpOperation::ListPages
            | McpOperation::ListPrompts | McpOperation::ListResources
            | McpOperation::ReadResource | McpOperation::GetPrompt | McpOperation::SearchPages
            | McpOperation::GetPageSection => false,
            _ => true,
        }
    }
}

/// Law: an operation writes exactly when it needs a scope other than `Read`.
pub proof fn law_write_iff_not_read_scope(op: McpOperation)
    ensures
        operation_writes(op) <==> operation_scope(op) != BearerScope::Read,
{
}

/// Law: `Write` allows every operation, and `Read` allows exactly the
/// operations that do not write.
pub proof fn law_write_scope_covers_all(op: McpOperation)
    ensures
        scopes_allow(seq![BearerScope::Write], operation_scope(op)),
        scopes_allow(seq![BearerScope::Read], operation_scope(op)) <==> !operation_writes(op),
{
    assert(seq![BearerScope::Write][0] == BearerScope::Write);
    assert(seq![BearerScope::Read][0] == BearerScope::Read);
}

} // verus!
