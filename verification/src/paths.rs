//! Page path rules of the MCP surface: which paths are accepted, how they
//! are normalized, and when a path lies under a prefix.

use vstd::prelude::*;
use crate::text::{chars_of, contains_char, has_char, starts_with, starts_with_exec};
use crate::errors::{McpError, McpErrorCode};

verus! {

/// The root path `/`.
pub open spec fn root_path() -> Seq<char> {
    seq!['/']
}

/// Whether `target` equals `prefix` or lies below it on a `/` boundary
/// (every path lies below the root prefix).
pub open spec fn path_matches_prefix(target: Seq<char>, prefix: Seq<char>) -> bool {
    ||| prefix == root_path()
    ||| target == prefix
    ||| (starts_with(target, prefix) && target.len() > prefix.len() && target[prefix.len() as int]
        == '/')
}

/// Whether `path` lies below `prefix` on a `/` boundary (executable).
pub fn path_matches_prefix_exec(target: &str, prefix: &str) -> (b: bool)
    ensures
        b == path_matches_prefix(target@, prefix@),
{
    let t = chars_of(target);
    let p = chars_of(prefix);
    if p.len() == 1 && p[0] == '/' {
        assert(p@ =~= root_path());
        return true;
    }
    assert(p@ != root_path());
    if !starts_with_exec(&t, &p) {
        proof {
            if t@ == p@ {
                assert(t@.take(p@.len() as int) =~= p@);
            }
        }
        return false;
    }
    if t.len() == p.len() {
        assert(t@ =~= t@.take(p@.len() as int));
        return true;
    }
    let b = t[p.len()] == '/';
    proof {
        if t@ == p@ {
            assert(t@.len() == p@.len());
        }
    }
    b
}

/// Whether a `.` or `..` segment starts at index `i` of `s`.
pub open spec fn dot_segment_at(s: Seq<char>, i: int) -> bool {
    &&& 0 <= i < s.len()
    &&& (i == 0 || s[i - 1] == '/')
    &&& s[i] == '.'
    &&& (i + 1 == s.len() || s[i + 1] == '/' || (s[i + 1] == '.' && (i + 2 == s.len() || s[i
        + 2] == '/')))
}

/// Whether one of the `/`-separated segments of `s` is `.` or `..`.
pub open spec fn has_dot_segment(s: Seq<char>) -> bool {
    exists|i: int| dot_segment_at(s, i)
}

/// Whether one of the `/`-separated segments of `path` is `.` or `..`
/// (executable).
pub fn has_dot_path_segment(path: &str) -> (b: bool)
    ensures
        b == has_dot_segment(path@),
{
    let s = chars_of(path);
    let mut i: usize = 0;
    while i < s.len()
        invariant
            s@ == path@,
            i <= s.len(),
            forall|j: int| 0 <= j < i ==> !dot_segment_at(s@, j),
        decreases s.len() - i,
    {
        let boundary = i == 0 || s[i - 1] == '/';
        if boundary && s[i] == '.' {
            if i + 1 == s.len() || s[i + 1] == '/' {
                assert(dot_segment_at(s@, i as int));
                return true;
            }
            if s[i + 1] == '.' && (i + 2 == s.len() || s[i + 2] == '/') {
                assert(dot_segment_at(s@, i as int));
                return true;
            }
        }
        i = i + 1;
    }
    false
}

/// Why a raw path is refused by the basic path rules, if it is.
pub open spec fn page_path_problem(path: Seq<char>) -> Option<Seq<char>> {
    if !(path.len() > 0 && path[0] == '/') {
        Some("path must be absolute"@)
    } else if has_char(path, '\\') {
        Some("path contains invalid character"@)
    } else {
        None
    }
}

/// Checks that a path is absolute and free of backslashes.
pub fn validate_page_path_for_mcp(path: &str) -> (r: Result<(), &'static str>)
    ensures
        r is Ok <==> page_path_problem(path@) is None,
        r matches Err(m) ==> page_path_problem(path@) == Some(m@),
{
    let s = chars_of(path);
    if !(s.len() > 0 && s[0] == '/') {
        return Err("path must be absolute");
    }
    if contains_char(&s, '\\') {
        return Err("path contains invalid character");
    }
    Ok(())
}

/// One past the last character before `j` that is not `/`.
pub open spec fn end_non_slash_before(s: Seq<char>, j: int) -> int
    decreases j,
{
    if j <= 0 || j > s.len() {
        0
    } else if s[j - 1] != '/' {
        j
    } else {
        end_non_slash_before(s, j - 1)
    }
}

proof fn lemma_end_non_slash(s: Seq<char>, j: int)
    requires
        0 <= j <= s.len(),
    ensures
        0 <= end_non_slash_before(s, j) <= j,
        forall|k: int| end_non_slash_before(s, j) <= k < j ==> s[k] == '/',
        end_non_slash_before(s, j) > 0 ==> s[end_non_slash_before(s, j) - 1] != '/',
    decreases j,
{
    if j > 0 && s[j - 1] == '/' {
        lemma_end_non_slash(s, j - 1);
    }
}

/// The normalized form of a path: the root stays `/`, any other path loses
/// its trailing slashes.
pub open spec fn normalize_path(path: Seq<char>) -> Seq<char> {
    if path == root_path() {
        root_path()
    } else {
        path.take(end_non_slash_before(path, path.len() as int))
    }
}

/// Normalizes an absolute path (root stays `/`, trailing slashes go).
pub fn normalize_absolute_path(raw_path: &str) -> (r: String)
    ensures
        r@ == normalize_path(raw_path@),
{
    let s = chars_of(raw_path);
    if s.len() == 1 && s[0] == '/' {
        assert(s@ =~= root_path());
        let r = String::from_str("/");
        proof {
            reveal_strlit("/");
        }
        return r;
    }
    assert(s@ != root_path());
    let mut b: usize = s.len();
    while b > 0 && s[b - 1] == '/'
        invariant
            s@ == raw_path@,
            b <= s.len(),
            end_non_slash_before(s@, b as int) == end_non_slash_before(s@, s.len() as int),
        decreases b,
    {
        b = b - 1;
    }
    let t = raw_path.substring_char(0, b);
    assert(t@ =~= raw_path@.take(b as int));
    String::from_str(t)
}

/// What `validate_and_normalize_path` returns for a raw path.
pub open spec fn spec_validate_and_normalize(path: Seq<char>) -> Result<Seq<char>, Seq<char>> {
    match page_path_problem(path) {
        Some(m) => Err(m),
        None => if has_dot_segment(path) {
            Err("path must not contain '.' or '..' segments"@)
        } else {
            Ok(normalize_path(path))
        },
    }
}

/// Validates a raw path and normalizes it; every refusal is `InvalidInput`
/// with the reason as message.
pub fn validate_and_normalize_path(raw_path: &str) -> (r: Result<String, McpError>)
    ensures
        spec_validate_and_normalize(raw_path@) matches Ok(p) ==> (r matches Ok(s) && s@ == p),
        spec_validate_and_normalize(raw_path@) matches Err(m) ==> (r matches Err(e)
            && e.spec_code() == McpErrorCode::InvalidInput && e.spec_message() == m),
{
    match validate_page_path_for_mcp(raw_path) {
        Err(message) => {
            return Err(McpError::new(McpErrorCode::InvalidInput, String::from_str(message)));
        },
        Ok(()) => {},
    }
    if has_dot_path_segment(raw_path) {
        return Err(
            McpError::new(
                McpErrorCode::InvalidInput,
                String::from_str("path must not contain '.' or '..' segments"),
            ),
        );
    }
    Ok(normalize_absolute_path(raw_path))
}

/// Law: every path lies under itself.
pub proof fn law_prefix_reflexive(p: Seq<char>)
    ensures
        path_matches_prefix(p, p),
{
}

/// Law: every path lies under the root.
pub proof fn law_root_prefix_covers_all(p: Seq<char>)
    ensures
        path_matches_prefix(p, root_path()),
{
}

/// Law: lying under a prefix is transitive among absolute paths.
pub proof fn law_prefix_transitive(a: Seq<char>, b: Seq<char>, c: Seq<char>)
    requires
        a.len() > 0 && a[0] == '/',
        path_matches_prefix(a, b),
        path_matches_prefix(b, c),
    ensures
        path_matches_prefix(a, c),
{
    if c == root_path() || a == c {
    } else if b == root_path() {
        // b is the root and a prefix-extension of c: c must be empty
        if b == c {
        } else {
            assert(c.len() == 0);
            assert(a.take(0) =~= c);
        }
    } else if a == b {
    } else if b == c {
    } else {
        assert(starts_with(a, b) && starts_with(b, c));
        assert forall|k: int| 0 <= k < c.len() implies a.take(c.len() as int)[k] == c[k] by {
            assert(a[k] == a.take(b.len() as int)[k]);
            assert(b[k] == b.take(c.len() as int)[k]);
        }
        assert(a.take(c.len() as int) =~= c);
        assert(a[c.len() as int] == a.take(b.len() as int)[c.len() as int]);
    }
}

/// Law: normalizing twice is normalizing once.
pub proof fn law_normalize_idempotent(p: Seq<char>)
    ensures
        normalize_path(normalize_path(p)) == normalize_path(p),
{
    if p == root_path() {
    } else {
        let e = end_non_slash_before(p, p.len() as int);
        lemma_end_non_slash(p, p.len() as int);
        let q = p.take(e);
        if q == root_path() {
            assert(q.len() == 1);
            assert(e == 1);
            assert(q[0] == p[0]);
        } else {
            lemma_end_non_slash(q, q.len() as int);
            if e > 0 {
                assert(q[e - 1] == p[e - 1]);
                assert(end_non_slash_before(q, e) == e);
            }
            assert(q.take(end_non_slash_before(q, q.len() as int)) =~= q);
        }
    }
}

/// Law: a normalized path other than the root never ends with `/`.
pub proof fn law_normalized_has_no_trailing_slash(p: Seq<char>)
    ensures
        normalize_path(p) != root_path() && normalize_path(p).len() > 0 ==> normalize_path(
            p,
        ).last() != '/',
{
    if p != root_path() {
        lemma_end_non_slash(p, p.len() as int);
        let e = end_non_slash_before(p, p.len() as int);
        if e > 0 {
            assert(p.take(e).last() == p[e - 1]);
        }
    }
}

/// Whether `s[i..j]` is one of the pieces that splitting `s` at every `/`
/// gives.
pub open spec fn split_piece(s: Seq<char>, i: int, j: int) -> bool {
    &&& 0 <= i <= j <= s.len()
    &&& i == 0 || s[i - 1] == '/'
    &&& j == s.len() || s[j] == '/'
    &&& forall|k: int| i <= k < j ==> s[k] != '/'
}

/// Whether a piece is `.` or `..`.
pub open spec fn is_dot_piece(p: Seq<char>) -> bool {
    p == seq!['.'] || p == seq!['.', '.']
}

/// Law: a raw path is refused exactly when it is not absolute, holds a
/// backslash, or splits at `/` into a `.` or `..` piece; an accepted path
/// comes back as `/` when it is the root, and otherwise with its trailing
/// slashes, and only those, removed.
pub proof fn law_validate_and_normalize_path(p: Seq<char>)
    ensures
        spec_validate_and_normalize(p) is Err <==> (!(p.len() > 0 && p[0] == '/') || has_char(
            p,
            '\\',
        ) || exists|i: int, j: int| split_piece(p, i, j) && is_dot_piece(#[trigger] p.subrange(i, j))),
        spec_validate_and_normalize(p) matches Ok(n) ==> if p == root_path() {
            n == root_path()
        } else {
            exists|e: int|
                0 <= e <= p.len() && n == #[trigger] p.take(e) && (e == 0 || p[e - 1] != '/')
                    && forall|k: int| e <= k < p.len() ==> p[k] == '/'
        },
{
    if has_dot_segment(p) {
        let i = choose|i: int| dot_segment_at(p, i);
        let j = if i + 1 == p.len() || p[i + 1] == '/' {
            i + 1
        } else {
            i + 2
        };
        assert(split_piece(p, i, j));
        if j == i + 1 {
            assert(p.subrange(i, j) =~= seq!['.']);
        } else {
            assert(p.subrange(i, j) =~= seq!['.', '.']);
        }
    }
    assert forall|i: int, j: int| split_piece(p, i, j) && is_dot_piece(#[trigger] p.subrange(i, j))
        implies has_dot_segment(p) by {
        let q = p.subrange(i, j);
        if q == seq!['.'] {
            assert(q.len() == 1 && q[0] == '.');
            assert(q[0] == p[i]);
        } else {
            assert(q == seq!['.', '.']);
            assert(q.len() == 2 && q[0] == '.' && q[1] == '.');
            assert(q[0] == p[i] && q[1] == p[i + 1]);
        }
        assert(dot_segment_at(p, i));
    }
    if p != root_path() {
        let e = end_non_slash_before(p, p.len() as int);
        lemma_end_non_slash(p, p.len() as int);
        assert(p.take(e) == p.take(e));
    }
}

} // verus!
