//! Character-level text rules shared by the parsers of this crate:
//! Unicode white space and control characters, trimming, searching
//! and ASCII case folding, each stated over `Seq<char>`.

use vstd::prelude::*;

verus! {

/// The Unicode `White_Space` property, which `char::is_whitespace` tests.
pub open spec fn is_white(c: char) -> bool {
    let u = c as u32;
    ||| 0x09 <= u <= 0x0d
    ||| u == 0x20
    ||| u == 0x85
    ||| u == 0xa0
    ||| u == 0x1680
    ||| 0x2000 <= u <= 0x200a
    ||| u == 0x2028
    ||| u == 0x2029
    ||| u == 0x202f
    ||| u == 0x205f
    ||| u == 0x3000
}

/// The Unicode general category `Cc`, which `char::is_control` tests.
pub open spec fn is_control(c: char) -> bool {
    let u = c as u32;
    u <= 0x1f || (0x7f <= u <= 0x9f)
}

/// Executable form of [`is_white`].
pub fn char_is_white(c: char) -> (b: bool)
    ensures
        b == is_white(c),
{
    let u = c as u32;
    (0x09 <= u && u <= 0x0d) || u == 0x20 || u == 0x85 || u == 0xa0 || u == 0x1680 || (0x2000
        <= u && u <= 0x200a) || u == 0x2028 || u == 0x2029 || u == 0x202f || u == 0x205f || u
        == 0x3000
}

/// Executable form of [`is_control`].
pub fn char_is_control(c: char) -> (b: bool)
    ensures
        b == is_control(c),
{
    let u = c as u32;
    u <= 0x1f || (0x7f <= u && u <= 0x9f)
}

/// Whether some character of `s` is a control character.
pub open spec fn has_control(s: Seq<char>) -> bool {
    exists|i: int| 0 <= i < s.len() && is_control(#[trigger] s[i])
}

/// Whether `c` occurs in `s`.
pub open spec fn has_char(s: Seq<char>, c: char) -> bool {
    exists|i: int| 0 <= i < s.len() && #[trigger] s[i] == c
}

/// The characters of a string slice, in order.
pub fn chars_of(s: &str) -> (v: Vec<char>)
    ensures
        v@ == s@,
{
    let n = s.unicode_len();
    let mut v: Vec<char> = Vec::new();
    let mut i: usize = 0;
    while i < n
        invariant
            n == s@.len(),
            i <= n,
            v@ == s@.take(i as int),
        decreases n - i,
    {
        let c = s.get_char(i);
        v.push(c);
        i = i + 1;
        assert(v@ =~= s@.take(i as int));
    }
    assert(v@ =~= s@);
    v
}

/// Whether some character of `s` is a control character (executable).
pub fn contains_control(s: &Vec<char>) -> (b: bool)
    ensures
        b == has_control(s@),
{
    let mut i: usize = 0;
    while i < s.len()
        invariant
            i <= s.len(),
            forall|j: int| 0 <= j < i ==> !is_control(#[trigger] s@[j]),
        decreases s.len() - i,
    {
        if char_is_control(s[i]) {
            return true;
        }
        i = i + 1;
    }
    false
}

/// Whether `c` occurs in `s` (executable).
pub fn contains_char(s: &Vec<char>, c: char) -> (b: bool)
    ensures
        b == has_char(s@, c),
{
    let mut i: usize = 0;
    while i < s.len()
        invariant
            i <= s.len(),
            forall|j: int| 0 <= j < i ==> #[trigger] s@[j] != c,
        decreases s.len() - i,
    {
        if s[i] == c {
            return true;
        }
        i = i + 1;
    }
    false
}

/// Index of the first character at or after `i` that is not white space,
/// or `s.len()` when there is none.
pub open spec fn first_non_white_from(s: Seq<char>, i: int) -> int
    decreases s.len() - i,
{
    if i < 0 || i >= s.len() {
        s.len() as int
    } else if !is_white(s[i]) {
        i
    } else {
        first_non_white_from(s, i + 1)
    }
}

/// One past the index of the last character before `j` that is not white
/// space, or `0` when there is none.
pub open spec fn end_non_white_before(s: Seq<char>, j: int) -> int
    decreases j,
{
    if j <= 0 || j > s.len() {
        0
    } else if !is_white(s[j - 1]) {
        j
    } else {
        end_non_white_before(s, j - 1)
    }
}

/// `s` without leading and trailing white space (what `str::trim` returns).
pub open spec fn trim(s: Seq<char>) -> Seq<char> {
    let a = first_non_white_from(s, 0);
    let b = end_non_white_before(s, s.len() as int);
    if b <= a {
        Seq::empty()
    } else {
        s.subrange(a, b)
    }
}

proof fn lemma_first_non_white_bounds(s: Seq<char>, i: int)
    requires
        0 <= i <= s.len(),
    ensures
        i <= first_non_white_from(s, i) <= s.len(),
    decreases s.len() - i,
{
    if i < s.len() && is_white(s[i]) {
        lemma_first_non_white_bounds(s, i + 1);
    }
}

proof fn lemma_end_non_white_bounds(s: Seq<char>, j: int)
    requires
        0 <= j <= s.len(),
    ensures
        0 <= end_non_white_before(s, j) <= j,
    decreases j,
{
    if j > 0 && is_white(s[j - 1]) {
        lemma_end_non_white_bounds(s, j - 1);
    }
}

/// `s` without leading and trailing white space (executable).
pub fn trim_str(s: &str) -> (t: &str)
    ensures
        t@ == trim(s@),
{
    let v = chars_of(s);
    let n = v.len();
    let mut a: usize = 0;
    while a < n && char_is_white(v[a])
        invariant
            n == s@.len(),
            v@ == s@,
            a <= n,
            first_non_white_from(s@, a as int) == first_non_white_from(s@, 0),
        decreases n - a,
    {
        a = a + 1;
    }
    let mut b: usize = n;
    while b > 0 && char_is_white(v[b - 1])
        invariant
            n == s@.len(),
            v@ == s@,
            b <= n,
            end_non_white_before(s@, b as int) == end_non_white_before(s@, n as int),
        decreases b,
    {
        b = b - 1;
    }
    if b <= a {
        let e = s.substring_char(0, 0);
        assert(e@ =~= trim(s@));
        e
    } else {
        s.substring_char(a, b)
    }
}

/// Whether the pattern `p` occurs in `s` at index `i`.
pub open spec fn matches_at(s: Seq<char>, p: Seq<char>, i: int) -> bool {
    0 <= i && i + p.len() <= s.len() && s.subrange(i, i + p.len()) == p
}

/// The first index at or after `i` where `p` occurs in `s`.
pub open spec fn find_from(s: Seq<char>, p: Seq<char>, i: int) -> Option<int>
    decreases s.len() + 1 - i,
{
    if i < 0 || i + p.len() > s.len() {
        None
    } else if matches_at(s, p, i) {
        Some(i)
    } else {
        find_from(s, p, i + 1)
    }
}

/// The first index where `p` occurs in `s` (what `str::find` returns, counted
/// in characters).
pub open spec fn first_match(s: Seq<char>, p: Seq<char>) -> Option<int> {
    find_from(s, p, 0)
}

/// What [`find_from`] returns: the smallest matching index at or after `i`.
pub proof fn lemma_find_from(s: Seq<char>, p: Seq<char>, i: int)
    requires
        0 <= i,
    ensures
        find_from(s, p, i) matches Some(k) ==> i <= k && matches_at(s, p, k) && (forall|j: int|
            i <= j < k ==> !matches_at(s, p, j)),
        find_from(s, p, i) is None ==> forall|j: int| i <= j ==> !matches_at(s, p, j),
    decreases s.len() + 1 - i,
{
    if i + p.len() > s.len() {
    } else if matches_at(s, p, i) {
    } else {
        lemma_find_from(s, p, i + 1);
    }
}

/// Searching from index `pos` is searching the rest of the text.
pub proof fn lemma_find_from_skip(s: Seq<char>, p: Seq<char>, pos: int, k: int)
    requires
        0 <= pos <= s.len(),
        0 <= k,
    ensures
        find_from(s, p, pos + k) == (match find_from(s.skip(pos), p, k) {
            Some(i) => Some(i + pos),
            None => None::<int>,
        }),
    decreases s.len() + 1 - (pos + k),
{
    let t = s.skip(pos);
    if pos + k + p.len() > s.len() {
    } else {
        assert(s.subrange(pos + k, pos + k + p.len()) =~= t.subrange(k, k + p.len()));
        if matches_at(s, p, pos + k) {
        } else {
            lemma_find_from_skip(s, p, pos, k + 1);
        }
    }
}

/// Whether the characters of `s` from index `i` on begin with `p` (executable).
pub fn matches_at_exec(s: &Vec<char>, p: &Vec<char>, i: usize) -> (b: bool)
    ensures
        b == matches_at(s@, p@, i as int),
{
    if i > s.len() || p.len() > s.len() - i {
        return false;
    }
    let mut k: usize = 0;
    while k < p.len()
        invariant
            i + p.len() <= s.len(),
            k <= p.len(),
            forall|j: int| 0 <= j < k ==> s@[i + j] == p@[j],
        decreases p.len() - k,
    {
        if s[i + k] != p[k] {
            assert(s@.subrange(i as int, i + p.len())[k as int] != p@[k as int]);
            return false;
        }
        k = k + 1;
    }
    assert(s@.subrange(i as int, i + p.len()) =~= p@);
    true
}

/// The first index at or after `i` where `p` occurs in `s` (executable).
pub fn find_from_exec(s: &Vec<char>, p: &Vec<char>, i: usize) -> (r: Option<usize>)
    ensures
        r matches Some(k) ==> find_from(s@, p@, i as int) == Some(k as int),
        r is None ==> find_from(s@, p@, i as int) is None,
{
    if p.len() > s.len() || i > s.len() - p.len() {
        return None;
    }
    let last = s.len() - p.len();
    let mut j: usize = i;
    loop
        invariant
            i <= j <= last,
            last + p.len() == s.len(),
            find_from(s@, p@, j as int) == find_from(s@, p@, i as int),
        decreases last - j,
    {
        if matches_at_exec(s, p, j) {
            return Some(j);
        }
        if j == last {
            assert(find_from(s@, p@, j + 1) is None);
            return None;
        }
        j = j + 1;
    }
}

/// Whether two strings hold the same characters (executable).
pub fn str_eq(a: &str, b: &str) -> (r: bool)
    ensures
        r == (a@ == b@),
{
    let x = chars_of(a);
    let y = chars_of(b);
    if x.len() != y.len() {
        return false;
    }
    let m = matches_at_exec(&x, &y, 0);
    assert(x@.subrange(0, y@.len() as int) =~= x@);
    m
}

/// Lexicographic order of character sequences by code point: the order of
/// `str` and `String` comparisons, since UTF-8 keeps code point order.
pub open spec fn lex_lt(a: Seq<char>, b: Seq<char>) -> bool
    decreases a.len(),
{
    if a.len() == 0 {
        b.len() > 0
    } else if b.len() == 0 {
        false
    } else if a[0] != b[0] {
        (a[0] as u32) < (b[0] as u32)
    } else {
        lex_lt(a.drop_first(), b.drop_first())
    }
}

/// Whether `a` sorts before `b` (executable `a < b` on strings).
pub fn str_lt(a: &str, b: &str) -> (r: bool)
    ensures
        r == lex_lt(a@, b@),
{
    let x = chars_of(a);
    let y = chars_of(b);
    let mut i: usize = 0;
    assert(x@.skip(0) =~= x@ && y@.skip(0) =~= y@);
    while i < x.len() && i < y.len() && x[i] == y[i]
        invariant
            x@ == a@,
            y@ == b@,
            i <= x@.len(),
            i <= y@.len(),
            lex_lt(x@.skip(i as int), y@.skip(i as int)) == lex_lt(a@, b@),
        decreases x@.len() - i,
    {
        assert(x@.skip(i as int).drop_first() =~= x@.skip(i + 1));
        assert(y@.skip(i as int).drop_first() =~= y@.skip(i + 1));
        i = i + 1;
    }
    let ghost xs = x@.skip(i as int);
    let ghost ys = y@.skip(i as int);
    if i == x.len() {
        assert(xs.len() == 0);
        i < y.len()
    } else if i == y.len() {
        false
    } else {
        assert(xs[0] == x@[i as int] && ys[0] == y@[i as int]);
        (x[i] as u32) < (y[i] as u32)
    }
}

/// The first index at or after `k` where `c` occurs in `s`.
pub open spec fn position_of(s: Seq<char>, c: char, k: int) -> Option<int>
    decreases s.len() - k,
{
    if k < 0 || k >= s.len() {
        None
    } else if s[k] == c {
        Some(k)
    } else {
        position_of(s, c, k + 1)
    }
}

/// The first index at or after `k` where `c` occurs (executable).
pub fn position_of_exec(s: &Vec<char>, c: char, k: usize) -> (r: Option<usize>)
    ensures
        match position_of(s@, c, k as int) {
            Some(i) => r == Some(i as usize) && k <= i < s@.len(),
            None => r is None,
        },
{
    let mut i: usize = k;
    while i < s.len()
        invariant
            k <= i,
            position_of(s@, c, i as int) == position_of(s@, c, k as int),
        decreases s@.len() - i,
    {
        if s[i] == c {
            return Some(i);
        }
        i = i + 1;
    }
    None
}

/// Whether `p` is a prefix of `s` (what `str::starts_with` tests).
pub open spec fn starts_with(s: Seq<char>, p: Seq<char>) -> bool {
    p.len() <= s.len() && s.take(p.len() as int) == p
}

/// Whether `p` is a prefix of `s` (executable).
pub fn starts_with_exec(s: &Vec<char>, p: &Vec<char>) -> (b: bool)
    ensures
        b == starts_with(s@, p@),
{
    let b = matches_at_exec(s, p, 0);
    proof {
        if p@.len() <= s@.len() {
            assert(s@.subrange(0, p@.len() as int) =~= s@.take(p@.len() as int));
        }
    }
    b
}

/// ASCII lower-casing of one character (what `char::to_ascii_lowercase` does).
pub open spec fn ascii_lower(c: char) -> char {
    if 'A' <= c && c <= 'Z' {
        (((c as u8) + 32) as u8) as char
    } else {
        c
    }
}

/// Equality up to ASCII case (what `str::eq_ignore_ascii_case` tests).
pub open spec fn eq_ignore_ascii_case(a: Seq<char>, b: Seq<char>) -> bool {
    a.len() == b.len() && forall|i: int| 0 <= i < a.len() ==> ascii_lower(#[trigger] a[i])
        == ascii_lower(b[i])
}

fn ascii_lower_exec(c: char) -> (r: char)
    ensures
        r == ascii_lower(c),
{
    if 'A' <= c && c <= 'Z' {
        ((c as u8) + 32u8) as char
    } else {
        c
    }
}

/// Equality up to ASCII case (executable).
pub fn eq_ignore_ascii_case_exec(a: &Vec<char>, b: &Vec<char>) -> (r: bool)
    ensures
        r == eq_ignore_ascii_case(a@, b@),
{
    if a.len() != b.len() {
        return false;
    }
    let mut i: usize = 0;
    while i < a.len()
        invariant
            a.len() == b.len(),
            i <= a.len(),
            forall|j: int| 0 <= j < i ==> ascii_lower(#[trigger] a@[j]) == ascii_lower(b@[j]),
        decreases a.len() - i,
    {
        if ascii_lower_exec(a[i]) != ascii_lower_exec(b[i]) {
            return false;
        }
        i = i + 1;
    }
    true
}

/// The decimal digit for `d < 10`.
pub open spec fn digit_char(d: nat) -> char {
    if d == 0 {
        '0'
    } else if d == 1 {
        '1'
    } else if d == 2 {
        '2'
    } else if d == 3 {
        '3'
    } else if d == 4 {
        '4'
    } else if d == 5 {
        '5'
    } else if d == 6 {
        '6'
    } else if d == 7 {
        '7'
    } else if d == 8 {
        '8'
    } else {
        '9'
    }
}

/// The decimal spelling of `n` (what `usize::to_string` gives).
pub open spec fn decimal(n: nat) -> Seq<char>
    decreases n,
{
    if n < 10 {
        seq![digit_char(n)]
    } else {
        decimal(n / 10) + seq![digit_char(n % 10)]
    }
}

fn digit_str(d: usize) -> (s: &'static str)
    requires
        d < 10,
    ensures
        s@ == seq![digit_char(d as nat)],
{
    let s = if d == 0 {
        "0"
    } else if d == 1 {
        "1"
    } else if d == 2 {
        "2"
    } else if d == 3 {
        "3"
    } else if d == 4 {
        "4"
    } else if d == 5 {
        "5"
    } else if d == 6 {
        "6"
    } else if d == 7 {
        "7"
    } else if d == 8 {
        "8"
    } else {
        "9"
    };
    proof {
        reveal_strlit("0");
        reveal_strlit("1");
        reveal_strlit("2");
        reveal_strlit("3");
        reveal_strlit("4");
        reveal_strlit("5");
        reveal_strlit("6");
        reveal_strlit("7");
        reveal_strlit("8");
        reveal_strlit("9");
    }
    s
}

/// The decimal spelling of `n` (executable).
pub fn decimal_string(n: usize) -> (s: String)
    ensures
        s@ == decimal(n as nat),
    decreases n,
{
    if n < 10 {
        String::from_str(digit_str(n))
    } else {
        let mut s = decimal_string(n / 10);
        s.append(digit_str(n % 10));
        s
    }
}

/// The decimal spelling of a 64-bit `n` (executable).
pub fn decimal_string_u64(n: u64) -> (s: String)
    ensures
        s@ == decimal(n as nat),
    decreases n,
{
    if n < 10 {
        String::from_str(digit_str(n as usize))
    } else {
        let mut s = decimal_string_u64(n / 10);
        s.append(digit_str((n % 10) as usize));
        s
    }
}

/// The spelling of a boolean (what `bool::to_string` gives).
pub open spec fn bool_text(b: bool) -> Seq<char> {
    if b {
        "true"@
    } else {
        "false"@
    }
}

} // verus!
