//! The authorization entry of the MCP endpoint: only bearer tokens are
//! accepted, and the `Authorization` value must be exactly a scheme and one
//! credential separated by white space.

use vstd::prelude::*;
use crate::access::AuthContext;
use crate::text::ascii_lower;
use crate::text::{
    char_is_white, chars_of, eq_ignore_ascii_case, eq_ignore_ascii_case_exec, is_white,
};

verus! {

/// Why an MCP request was not authenticated.
#[derive(Clone, Copy, Debug, PartialEq, Eq, Structural)]
pub enum McpAuthErrorKind {
    /// No bearer token was presented.
    MissingBearer,
    /// The scheme is not accepted for MCP.
    UnsupportedScheme,
    /// The bearer value is malformed.
    InvalidBearerFormat,
    /// The token was not accepted.
    Unauthorized,
    /// An internal failure.
    Internal,
}

/// An authentication failure: its kind and a fixed message.
#[derive(Clone, Copy, Debug)]
pub struct McpAuthError {
    kind: McpAuthErrorKind,
    message: &'static str,
}

/// An authentication failure as contracts speak of it.
pub type AuthErrorView = (McpAuthErrorKind, Seq<char>);

impl McpAuthError {
    /// The kind of failure.
    pub closed spec fn spec_kind(&self) -> McpAuthErrorKind {
        self.kind
    }

    /// The message.
    pub closed spec fn spec_message(&self) -> Seq<char> {
        self.message@
    }

    /// Kind and message together.
    pub open spec fn view_pair(&self) -> AuthErrorView {
        (self.spec_kind(), self.spec_message())
    }

    /// Builds a failure.
    pub fn new(kind: McpAuthErrorKind, message: &'static str) -> (e: McpAuthError)
        ensures
            e.spec_kind() == kind,
            e.spec_message() == message@,
    {
        McpAuthError { kind, message }
    }

    /// The kind of failure.
    pub fn kind(&self) -> (k: McpAuthErrorKind)
        ensures
            k == self.spec_kind(),
    {
        self.kind
    }

    /// The message.
    pub fn message(&self) -> (m: &'static str)
        ensures
            m@ == self.spec_message(),
    {
        self.message
    }
}

/// The interpreted `Authorization` value.
#[derive(Clone, Debug, PartialEq, Eq)]
pub enum ParsedMcpAuthorization {
    /// A bearer token.
    Bearer(String),
    /// Basic authentication, which MCP refuses.
    Basic,
    /// Any other scheme.
    Unsupported,
}

/// One past the end of the run of non-white characters starting at `i`.
pub open spec fn word_end(s: Seq<char>, i: int) -> int
    decreases s.len() - i,
{
    if i < 0 || i >= s.len() || is_white(s[i]) {
        i
    } else {
        word_end(s, i + 1)
    }
}

proof fn lemma_word_end(s: Seq<char>, i: int)
    requires
        0 <= i <= s.len(),
    ensures
        i <= word_end(s, i) <= s.len(),
        forall|k: int| i <= k < word_end(s, i) ==> !is_white(s[k]),
        word_end(s, i) < s.len() ==> is_white(s[word_end(s, i)]),
    decreases s.len() - i,
{
    if i < s.len() && !is_white(s[i]) {
        lemma_word_end(s, i + 1);
    }
}

/// A run of non-white characters from `i` that stops at `j` (at the end or
/// at a white character) ends at `j`.
proof fn lemma_word_end_at(s: Seq<char>, i: int, j: int)
    requires
        0 <= i <= j <= s.len(),
        forall|k: int| i <= k < j ==> !is_white(#[trigger] s[k]),
        j == s.len() || is_white(s[j]),
    ensures
        word_end(s, i) == j,
    decreases j - i,
{
    if i < j {
        lemma_word_end_at(s, i + 1, j);
    }
}

/// The white-space separated words of `s` from index `i` on (what
/// `str::split_whitespace` yields).
pub open spec fn words_from(s: Seq<char>, i: int) -> Seq<Seq<char>>
    decreases s.len() - i,
{
    if i < 0 || i >= s.len() {
        Seq::empty()
    } else if is_white(s[i]) {
        words_from(s, i + 1)
    } else {
        let e = word_end(s, i);
        if e <= i || e > s.len() {
            Seq::empty()
        } else {
            seq![s.subrange(i, e)] + words_from(s, e)
        }
    }
}

/// The white-space separated words of `s`.
pub open spec fn words(s: Seq<char>) -> Seq<Seq<char>> {
    words_from(s, 0)
}

/// The interpretation of an `Authorization` value.
pub open spec fn spec_parse_authorization(value: Option<Seq<char>>) -> Result<
    ParsedView,
    AuthErrorView,
> {
    match value {
        None => Err((McpAuthErrorKind::MissingBearer, "missing bearer token for MCP"@)),
        Some(v) => {
            let w = words(v);
            if w.len() != 2 {
                Err((McpAuthErrorKind::InvalidBearerFormat, "invalid bearer token format"@))
            } else if eq_ignore_ascii_case(w[0], "bearer"@) {
                Ok(ParsedView::Bearer(w[1]))
            } else if eq_ignore_ascii_case(w[0], "basic"@) {
                Ok(ParsedView::Basic)
            } else {
                Ok(ParsedView::Unsupported)
            }
        },
    }
}

/// The interpreted `Authorization` value as contracts speak of it.
pub ghost enum ParsedView {
    /// A bearer token.
    Bearer(Seq<char>),
    /// Basic authentication.
    Basic,
    /// Any other scheme.
    Unsupported,
}

/// The view of a parsed value.
pub open spec fn parsed_view(p: ParsedMcpAuthorization) -> ParsedView {
    match p {
        ParsedMcpAuthorization::Bearer(t) => ParsedView::Bearer(t@),
        ParsedMcpAuthorization::Basic => ParsedView::Basic,
        ParsedMcpAuthorization::Unsupported => ParsedView::Unsupported,
    }
}

/// The words of `s` (executable).
pub fn split_whitespace(s: &str) -> (w: Vec<String>)
    ensures
        w@.map_values(|x: String| x@) == words(s@),
{
    let v = chars_of(s);
    let n = v.len();
    let mut out: Vec<String> = Vec::new();
    let mut i: usize = 0;
    while i < n
        invariant
            v@ == s@,
            n == s@.len(),
            i <= n,
            out@.map_values(|x: String| x@) + words_from(s@, i as int) == words(s@),
        decreases n - i,
    {
        if char_is_white(v[i]) {
            i = i + 1;
        } else {
            let start = i;
            while i < n && !char_is_white(v[i])
                invariant
                    v@ == s@,
                    n == s@.len(),
                    start <= i <= n,
                    word_end(s@, start as int) == word_end(s@, i as int),
                decreases n - i,
            {
                i = i + 1;
            }
            proof {
                lemma_word_end(s@, start as int);
            }
            let word = String::from_str(s.substring_char(start, i));
            let ghost before = out@.map_values(|x: String| x@);
            out.push(word);
            assert(out@.map_values(|x: String| x@) =~= before.push(s@.subrange(
                start as int,
                i as int,
            )));
            assert(words_from(s@, start as int) == seq![s@.subrange(start as int, i as int)]
                + words_from(s@, i as int));
            assert(before.push(s@.subrange(start as int, i as int)) + words_from(s@, i as int)
                =~= before + words_from(s@, start as int));
        }
    }
    assert(words_from(s@, i as int) =~= Seq::<Seq<char>>::empty());
    assert(out@.map_values(|x: String| x@) + Seq::<Seq<char>>::empty() =~= out@.map_values(
        |x: String| x@,
    ));
    out
}

/// Interprets an `Authorization` value: a missing value is
/// `MissingBearer`; anything but exactly a scheme and one credential is
/// `InvalidBearerFormat`; the scheme is compared without ASCII case.
pub fn parse_mcp_authorization(authorization: Option<&str>) -> (r: Result<
    ParsedMcpAuthorization,
    McpAuthError,
>)
    ensures
        match spec_parse_authorization(
            match authorization {
                Some(v) => Some(v@),
                None => None,
            },
        ) {
            Ok(p) => r matches Ok(q) && parsed_view(q) == p,
            Err(ev) => r matches Err(e) && e.view_pair() == ev,
        },
{
    let value = match authorization {
        None => {
            return Err(
                McpAuthError::new(McpAuthErrorKind::MissingBearer, "missing bearer token for MCP"),
            );
        },
        Some(v) => v,
    };
    let w = split_whitespace(value);
    proof {
        assert(w@.map_values(|x: String| x@).len() == w@.len());
    }
    if w.len() != 2 {
        return Err(
            McpAuthError::new(McpAuthErrorKind::InvalidBearerFormat, "invalid bearer token format"),
        );
    }
    proof {
        assert(w@.map_values(|x: String| x@)[0] == w@[0]@);
        assert(w@.map_values(|x: String| x@)[1] == w@[1]@);
    }
    let scheme = chars_of(w[0].as_str());
    let bearer = chars_of("bearer");
    if eq_ignore_ascii_case_exec(&scheme, &bearer) {
        let token = w[1].clone();
        return Ok(ParsedMcpAuthorization::Bearer(token));
    }
    let basic = chars_of("basic");
    if eq_ignore_ascii_case_exec(&scheme, &basic) {
        return Ok(ParsedMcpAuthorization::Basic);
    }
    Ok(ParsedMcpAuthorization::Unsupported)
}

/// What the token store said about a bearer token.
#[derive(Clone, Debug)]
pub enum BearerCheck {
    /// The token is valid; the context it grants.
    Accepted(AuthContext),
    /// The token is unknown, expired or revoked.
    Rejected,
    /// The token store failed.
    Failed,
}

/// A bearer value carries its token: `Bearer`, one space and a token with
/// no white space in it gives back that token.
pub proof fn law_bearer_value_carries_its_token(token: Seq<char>)
    requires
        token.len() > 0,
        forall|k: int| 0 <= k < token.len() ==> !is_white(#[trigger] token[k]),
    ensures
        spec_bearer_token(Some("Bearer "@ + token)) == Ok::<Seq<char>, AuthErrorView>(token),
{
    reveal_strlit("Bearer ");
    reveal_strlit("bearer");
    let v = "Bearer "@ + token;
    assert(v[0] == 'B' && v[1] == 'e' && v[2] == 'a' && v[3] == 'r' && v[4] == 'e' && v[5] == 'r');
    assert(v[6] == ' ');
    assert forall|k: int| 0 <= k < 6 implies !is_white(#[trigger] v[k]) by {
        assert(v[k] == "Bearer "@[k]);
    }
    lemma_word_end_at(v, 0, 6);
    assert forall|k: int| 7 <= k < v.len() implies !is_white(#[trigger] v[k]) by {
        assert(v[k] == token[k - 7]);
    }
    lemma_word_end_at(v, 7, v.len() as int);
    assert(words_from(v, v.len() as int) == Seq::<Seq<char>>::empty());
    assert(words_from(v, 7) == seq![v.subrange(7, v.len() as int)] + words_from(v, v.len() as int));
    assert(words_from(v, 6) == words_from(v, 7));
    assert(words_from(v, 0) == seq![v.subrange(0, 6)] + words_from(v, 6));
    assert(v.subrange(7, v.len() as int) =~= token);
    let w = words(v);
    assert(w =~= seq![v.subrange(0, 6), token]);
    assert(eq_ignore_ascii_case(w[0], "bearer"@)) by {
        assert forall|i: int| 0 <= i < w[0].len() implies ascii_lower(#[trigger] w[0][i]) == ascii_lower("bearer"@[i]) by {
            assert(w[0][i] == v[i]);
        }
    }
}

/// The MCP authentication entry point.
#[derive(Clone, Copy, Debug)]
pub struct McpAuthGateway {}

/// What `bearer_token` returns for an `Authorization` value.
pub open spec fn spec_bearer_token(value: Option<Seq<char>>) -> Result<Seq<char>, AuthErrorView> {
    match spec_parse_authorization(value) {
        Err(e) => Err(e),
        Ok(ParsedView::Bearer(t)) => Ok(t),
        Ok(ParsedView::Basic) => Err(
            (McpAuthErrorKind::UnsupportedScheme, "basic authorization is not supported for MCP"@),
        ),
        Ok(ParsedView::Unsupported) => Err(
            (McpAuthErrorKind::UnsupportedScheme, "unsupported authorization scheme for MCP"@),
        ),
    }
}

/// What `authenticate_bearer` returns for a token store answer.
pub open spec fn spec_check_outcome(check: BearerCheck) -> Result<AuthContext, AuthErrorView> {
    match check {
        BearerCheck::Accepted(a) => Ok(a),
        BearerCheck::Rejected => Err((McpAuthErrorKind::Unauthorized, "unauthorized"@)),
        BearerCheck::Failed => Err((McpAuthErrorKind::Internal, "mcp auth failed"@)),
    }
}

impl McpAuthGateway {
    /// A new authentication entry point.
    pub fn new() -> (g: McpAuthGateway) {
        McpAuthGateway {}
    }

    /// The bearer token of an `Authorization` value, or why there is none.
    pub fn bearer_token(&self, authorization: Option<&str>) -> (r: Result<String, McpAuthError>)
        ensures
            match spec_bearer_token(
                match authorization {
                    Some(v) => Some(v@),
                    None => None,
                },
            ) {
                Ok(t) => r matches Ok(s) && s@ == t,
                Err(ev) => r matches Err(e) && e.view_pair() == ev,
            },
    {
        match parse_mcp_authorization(authorization)? {
            ParsedMcpAuthorization::Bearer(token) => Ok(token),
            ParsedMcpAuthorization::Basic => Err(
                McpAuthError::new(
                    McpAuthErrorKind::UnsupportedScheme,
                    "basic authorization is not supported for MCP",
                ),
            ),
            ParsedMcpAuthorization::Unsupported => Err(
                McpAuthError::new(
                    McpAuthErrorKind::UnsupportedScheme,
                    "unsupported authorization scheme for MCP",
                ),
            ),
        }
    }

    /// Turns the token store's answer into the request's context.
    pub fn authenticate_bearer(&self, check: BearerCheck) -> (r: Result<AuthContext, McpAuthError>)
        ensures
            match spec_check_outcome(check) {
                Ok(a) => r == Ok::<AuthContext, McpAuthError>(a),
                Err(ev) => r matches Err(e) && e.view_pair() == ev,
            },
    {
        match check {
            BearerCheck::Accepted(auth) => Ok(auth),
            BearerCheck::Rejected => Err(
                McpAuthError::new(McpAuthErrorKind::Unauthorized, "unauthorized"),
            ),
            BearerCheck::Failed => Err(
                McpAuthError::new(McpAuthErrorKind::Internal, "mcp auth failed"),
            ),
        }
    }

    /// Authenticates a request: the `Authorization` value must carry a bearer
    /// token, which `check` looks up in the token store.
    pub fn authenticate<F: FnOnce(String) -> BearerCheck>(
        &self,
        authorization: Option<&str>,
        check: F,
    ) -> (r: Result<AuthContext, McpAuthError>)
        requires
            forall|t: String| check.requires((t,)),
        ensures
            match spec_bearer_token(
                match authorization {
                    Some(v) => Some(v@),
                    None => None,
                },
            ) {
                Err(ev) => r matches Err(e) && e.view_pair() == ev,
                Ok(t) => exists|token: String, answer: BearerCheck|
                    token@ == t && check.ensures((token,), answer) && match spec_check_outcome(
                        answer,
                    ) {
                        Ok(a) => r == Ok::<AuthContext, McpAuthError>(a),
                        Err(ev) => r matches Err(e) && e.view_pair() == ev,
                    },
            },
    {
        let token = self.bearer_token(authorization)?;
        let ghost t = token;
        let answer = check(token);
        let r = self.authenticate_bearer(answer);
        assert(check.ensures((t,), answer));
        r
    }
}

} // verus!
