//! Sections of a Markdown page: the headings that the Markdown parser
//! reports become numbered sections with a parent, a heading range and a
//! body range, given as byte offsets into the page's UTF-8 text.

use vstd::prelude::*;
use pulldown_cmark::{Event, Parser, Tag, TagEnd};
use crate::errors::{ErrorView, McpError, McpErrorCode, err_view};
use crate::text::{decimal, decimal_string, trim, trim_str};

verus! {

/// One event of the Markdown parser, reduced to what sections need.
/// Offsets are byte offsets into the source.
#[derive(Clone, Debug, PartialEq, Eq)]
pub enum MdEvent {
    /// A heading begins.
    HeadingStart {
        /// Heading level, 1 to 6.
        level: u32,
        /// Byte offset where the heading begins.
        start: usize,
        /// Byte offset where the heading's source ends.
        end: usize,
    },
    /// A heading ends.
    HeadingEnd {
        /// Byte offset where the heading begins.
        start: usize,
        /// Byte offset where the heading ends.
        end: usize,
    },
    /// Text.
    Text(String),
    /// Inline code.
    Code(String),
    /// Anything else.
    Other,
}

/// The events that `pulldown_cmark` reports for a source text, in order.
pub uninterp spec fn markdown_events(source: Seq<char>) -> Seq<MdEvent>;

/// Runs `pulldown_cmark::Parser` over `source` with offsets and reduces each
/// event to an [`MdEvent`] (a heading's level is the number of its
/// `HeadingLevel`). Claimed: the events are a function of the source text
/// alone, named `markdown_events`. Nothing else is claimed of them: not that
/// their offsets lie within the text or on character boundaries, which the
/// callers check.
#[verifier::external_body]
fn parse_markdown_events(source: &str) -> (events: Vec<MdEvent>)
    ensures
        events@ == markdown_events(source@),
{
    Parser::new(source).into_offset_iter().map(|(event, range)| match event {
        Event::Start(Tag::Heading { level, .. }) => MdEvent::HeadingStart {
            level: level as u32, start: range.start, end: range.end,
        },
        Event::End(TagEnd::Heading(_)) => MdEvent::HeadingEnd { start: range.start, end: range.end },
        Event::Text(text) => MdEvent::Text(text.to_string()),
        Event::Code(text) => MdEvent::Code(text.to_string()),
        _ => MdEvent::Other,
    }).collect()
}

/// A heading as the event scan collects it: byte offsets and raw title.
pub ghost struct RawHeading {
    /// Heading level.
    pub level: u32,
    /// Byte offset of the heading's start.
    pub start: int,
    /// Byte offset of the heading's end.
    pub end: int,
    /// Concatenated text of the heading.
    pub title: Seq<char>,
}

/// The state of the event scan.
pub ghost struct ScanState {
    /// The heading being read, if any: level, start, text so far.
    pub current: Option<(u32, int, Seq<char>)>,
    /// Headings read so far.
    pub raw: Seq<RawHeading>,
    /// Whether a heading ended that never began.
    pub failed: bool,
}

/// The state before any event.
pub open spec fn scan_init() -> ScanState {
    ScanState { current: None, raw: Seq::empty(), failed: false }
}

/// One step of the event scan.
pub open spec fn scan_step(st: ScanState, ev: MdEvent) -> ScanState {
    if st.failed {
        st
    } else {
        match ev {
            MdEvent::HeadingStart { level, start, end } => ScanState {
                current: Some((level, start as int, Seq::empty())),
                ..st
            },
            MdEvent::HeadingEnd { start, end } => match st.current {
                None => ScanState { failed: true, ..st },
                Some((l, s, t)) => ScanState {
                    current: None,
                    raw: st.raw.push(RawHeading { level: l, start: s, end: end as int, title: t }),
                    failed: false,
                },
            },
            MdEvent::Text(t) => match st.current {
                Some((l, s, title)) => ScanState { current: Some((l, s, title + t@)), ..st },
                None => st,
            },
            MdEvent::Code(t) => match st.current {
                Some((l, s, title)) => ScanState { current: Some((l, s, title + t@)), ..st },
                None => st,
            },
            MdEvent::Other => st,
        }
    }
}

/// The state after the first `n` events.
pub open spec fn scan(events: Seq<MdEvent>, n: int) -> ScanState
    decreases n,
{
    if n <= 0 || n > events.len() {
        scan_init()
    } else {
        scan_step(scan(events, n - 1), events[n - 1])
    }
}

/// Bytes that UTF-8 uses for a character (what `char::len_utf8` returns).
pub open spec fn utf8_width(c: char) -> nat {
    let u = c as u32;
    if u < 0x80 {
        1
    } else if u < 0x800 {
        2
    } else if u < 0x10000 {
        3
    } else {
        4
    }
}

/// Bytes that UTF-8 uses for a character sequence.
pub open spec fn utf8_len(s: Seq<char>) -> nat
    decreases s.len(),
{
    if s.len() == 0 {
        0
    } else {
        utf8_len(s.drop_last()) + utf8_width(s.last())
    }
}

/// The character index at or after `k` where byte offset `b` falls on a
/// character boundary.
pub open spec fn char_index_from(s: Seq<char>, b: int, k: int) -> Option<int>
    decreases s.len() + 1 - k,
{
    if k < 0 || k > s.len() {
        None
    } else if utf8_len(s.take(k)) == b {
        Some(k)
    } else if utf8_len(s.take(k)) > b {
        None
    } else {
        char_index_from(s, b, k + 1)
    }
}

/// The character index of byte offset `b`, when `b` is a character boundary.
pub open spec fn char_index_of_byte(s: Seq<char>, b: int) -> Option<int> {
    char_index_from(s, b, 0)
}

proof fn lemma_utf8_len_step(s: Seq<char>, k: int)
    requires
        0 <= k < s.len(),
    ensures
        utf8_len(s.take(k + 1)) == utf8_len(s.take(k)) + utf8_width(s[k]),
{
    assert(s.take(k + 1).drop_last() =~= s.take(k));
}

proof fn lemma_char_index_from_bounds(s: Seq<char>, b: int, k: int)
    requires
        0 <= k,
    ensures
        char_index_from(s, b, k) matches Some(i) ==> k <= i <= s.len() && utf8_len(s.take(i))
            == b,
    decreases s.len() + 1 - k,
{
    if k <= s.len() && utf8_len(s.take(k)) < b {
        lemma_char_index_from_bounds(s, b, k + 1);
    }
}

/// Each character takes at least one byte, so a longer prefix takes more
/// bytes.
proof fn lemma_utf8_len_mono(s: Seq<char>, a: int, c: int)
    requires
        0 <= a <= c <= s.len(),
    ensures
        utf8_len(s.take(a)) + (c - a) <= utf8_len(s.take(c)),
    decreases c - a,
{
    if a < c {
        lemma_utf8_len_mono(s, a, c - 1);
        lemma_utf8_len_step(s, c - 1);
    }
}

/// The byte length of a prefix is a character boundary, at the prefix's end.
proof fn lemma_char_index_of_prefix(s: Seq<char>, c: int, k: int)
    requires
        0 <= k <= c <= s.len(),
    ensures
        char_index_from(s, utf8_len(s.take(c)) as int, k) == Some(c),
    decreases c - k,
{
    if k < c {
        lemma_utf8_len_mono(s, k, c);
        lemma_char_index_of_prefix(s, c, k + 1);
    }
}

/// The character index of a byte offset (meaningful on a boundary).
pub open spec fn char_pos(s: Seq<char>, b: int) -> int {
    char_index_of_byte(s, b).unwrap()
}

/// A boundary lies within the text, and the text's byte length is one.
proof fn lemma_boundary_facts(s: Seq<char>, b: int)
    ensures
        char_index_of_byte(s, utf8_len(s) as int) == Some(s.len() as int),
        char_index_of_byte(s, b) is Some ==> 0 <= char_pos(s, b) <= s.len() && b <= utf8_len(s),
{
    assert(s.take(s.len() as int) =~= s);
    lemma_char_index_of_prefix(s, s.len() as int, 0);
    lemma_char_index_from_bounds(s, b, 0);
    if char_index_of_byte(s, b) is Some {
        lemma_utf8_len_mono(s, char_pos(s, b), s.len() as int);
    }
}

/// Boundaries keep their order when counted in characters.
proof fn lemma_char_pos_mono(s: Seq<char>, b1: int, b2: int)
    requires
        char_index_of_byte(s, b1) is Some,
        char_index_of_byte(s, b2) is Some,
        b1 <= b2,
    ensures
        char_pos(s, b1) <= char_pos(s, b2),
{
    lemma_char_index_from_bounds(s, b1, 0);
    lemma_char_index_from_bounds(s, b2, 0);
    if char_pos(s, b1) > char_pos(s, b2) {
        lemma_utf8_len_mono(s, char_pos(s, b2), char_pos(s, b1));
    }
}

fn width_of(c: char) -> (w: usize)
    ensures
        w == utf8_width(c),
{
    let u = c as u32;
    if u < 0x80 {
        1
    } else if u < 0x800 {
        2
    } else if u < 0x10000 {
        3
    } else {
        4
    }
}

/// The character index of byte offset `b` in `s`, when `b` is a character
/// boundary (executable).
pub fn char_index_of_byte_exec(s: &Vec<char>, b: usize) -> (r: Option<usize>)
    ensures
        r matches Some(i) ==> char_index_of_byte(s@, b as int) == Some(i as int),
        r is None ==> char_index_of_byte(s@, b as int) is None,
{
    let mut k: usize = 0;
    let mut bytes: usize = 0;
    assert(s@.take(0) =~= Seq::<char>::empty());
    loop
        invariant
            k <= s@.len(),
            bytes == utf8_len(s@.take(k as int)),
            char_index_from(s@, b as int, k as int) == char_index_of_byte(s@, b as int),
        decreases s@.len() + 1 - k,
    {
        if bytes == b {
            return Some(k);
        }
        if bytes > b || k == s.len() {
            proof {
                if bytes < b {
                    assert(char_index_from(s@, b as int, k + 1) is None);
                }
            }
            return None;
        }
        proof {
            lemma_utf8_len_step(s@, k as int);
        }
        let w = width_of(s[k]);
        if b - bytes < w {
            assert(char_index_from(s@, b as int, k + 1) is None);
            return None;
        }
        bytes = bytes + w;
        k = k + 1;
    }
}

/// The byte length of a character sequence, or `None` when it does not fit
/// in `usize`.
fn utf8_len_exec(s: &Vec<char>) -> (r: Option<usize>)
    ensures
        r matches Some(n) ==> n == utf8_len(s@),
        r is None ==> utf8_len(s@) > usize::MAX,
{
    let mut k: usize = 0;
    let mut bytes: usize = 0;
    assert(s@.take(0) =~= Seq::<char>::empty());
    while k < s.len()
        invariant
            k <= s@.len(),
            bytes == utf8_len(s@.take(k as int)),
        decreases s@.len() - k,
    {
        proof {
            lemma_utf8_len_step(s@, k as int);
        }
        let w = width_of(s[k]);
        if bytes > usize::MAX - w {
            proof {
                lemma_utf8_len_mono(s@, k + 1, s@.len() as int);
                assert(s@.take(s@.len() as int) =~= s@);
            }
            return None;
        }
        bytes = bytes + w;
        k = k + 1;
    }
    assert(s@.take(s@.len() as int) =~= s@);
    Some(bytes)
}

/// A heading collected by the event scan (executable): byte offsets.
#[derive(Clone, Debug)]
pub struct RawHeadingExec {
    /// Heading level.
    pub level: u32,
    /// Byte offset of the heading's start.
    pub start: usize,
    /// Byte offset of the heading's end.
    pub end: usize,
    /// Concatenated text of the heading.
    pub title: String,
}

/// The view of a collected heading.
pub open spec fn raw_view(r: RawHeadingExec) -> RawHeading {
    RawHeading { level: r.level, start: r.start as int, end: r.end as int, title: r.title@ }
}

/// Once the scan has failed it stays failed.
proof fn lemma_scan_failed_sticky(events: Seq<MdEvent>, n: int, m: int)
    requires
        0 <= n <= m <= events.len(),
        scan(events, n).failed,
    ensures
        scan(events, m).failed,
    decreases m - n,
{
    if n < m {
        lemma_scan_failed_sticky(events, n, m - 1);
    }
}

/// The headings of the first `events.len()` events, or `None` when a heading
/// ended that never began.
pub open spec fn scanned_headings(events: Seq<MdEvent>) -> Option<Seq<RawHeading>> {
    let st = scan(events, events.len() as int);
    if st.failed {
        None
    } else {
        Some(st.raw)
    }
}

/// The text that an event adds to a heading's title: text and inline code
/// add theirs, anything else adds nothing.
pub open spec fn piece_text(e: MdEvent) -> Seq<char> {
    match e {
        MdEvent::Text(t) => t@,
        MdEvent::Code(t) => t@,
        _ => Seq::empty(),
    }
}

/// The texts of a run of events, joined in order.
pub open spec fn pieces_text(ps: Seq<MdEvent>) -> Seq<char>
    decreases ps.len(),
{
    if ps.len() == 0 {
        Seq::empty()
    } else {
        pieces_text(ps.drop_last()) + piece_text(ps.last())
    }
}

/// The events of one heading: its start, what lies inside, its end.
pub open spec fn heading_events(
    level: u32,
    start: usize,
    end: usize,
    inner: Seq<MdEvent>,
    close_start: usize,
    close_end: usize,
) -> Seq<MdEvent> {
    seq![MdEvent::HeadingStart { level, start, end }] + inner + seq![
        MdEvent::HeadingEnd { start: close_start, end: close_end },
    ]
}

proof fn lemma_scan_heading_inner(
    level: u32,
    start: usize,
    end: usize,
    inner: Seq<MdEvent>,
    close_start: usize,
    close_end: usize,
    k: int,
)
    requires
        0 <= k <= inner.len(),
        forall|i: int| 0 <= i < inner.len() ==> !(#[trigger] inner[i] is HeadingStart) && !(
        inner[i] is HeadingEnd),
    ensures
        scan(heading_events(level, start, end, inner, close_start, close_end), 1 + k) == (ScanState {
            current: Some((level, start as int, pieces_text(inner.take(k)))),
            raw: Seq::empty(),
            failed: false,
        }),
    decreases k,
{
    let ev = heading_events(level, start, end, inner, close_start, close_end);
    if k == 0 {
        assert(inner.take(0) =~= Seq::<MdEvent>::empty());
        assert(scan(ev, 0) == scan_init());
    } else {
        lemma_scan_heading_inner(level, start, end, inner, close_start, close_end, k - 1);
        assert(ev[k] == inner[k - 1]);
        assert(inner.take(k).drop_last() =~= inner.take(k - 1));
        assert(inner.take(k).last() == inner[k - 1]);
    }
}

/// Law: a heading's title, as the section lists it, is the trimmed join of
/// all the text and inline-code pieces inside the heading, in order.
pub proof fn law_heading_title_joins_text_and_code(
    source: Seq<char>,
    level: u32,
    start: usize,
    end: usize,
    inner: Seq<MdEvent>,
    close_start: usize,
    close_end: usize,
)
    requires
        forall|i: int| 0 <= i < inner.len() ==> !(#[trigger] inner[i] is HeadingStart) && !(
        inner[i] is HeadingEnd),
        markdown_events(source) == heading_events(level, start, end, inner, close_start, close_end),
    ensures
        scanned_headings(markdown_events(source)) == Some(
            seq![RawHeading { level, start: start as int, end: close_end as int, title: pieces_text(inner) }],
        ),
        spec_sections(source) matches Ok(hs) ==> hs.len() == 1 && hs[0].title == trim(
            pieces_text(inner),
        ),
{
    let ev = heading_events(level, start, end, inner, close_start, close_end);
    let n = inner.len() as int;
    lemma_scan_heading_inner(level, start, end, inner, close_start, close_end, n);
    assert(inner.take(n) =~= inner);
    assert(ev.len() == n + 2);
    assert(ev[n + 1] == MdEvent::HeadingEnd { start: close_start, end: close_end });
    assert(scan(ev, n + 2) == scan_step(scan(ev, n + 1), ev[n + 1]));
    assert(Seq::<RawHeading>::empty().push(
        RawHeading { level, start: start as int, end: close_end as int, title: pieces_text(inner) },
    ) =~= seq![RawHeading { level, start: start as int, end: close_end as int, title: pieces_text(inner) }]);
}

/// Collects the headings from the parser's events.
fn collect_headings(events: &Vec<MdEvent>) -> (r: Option<Vec<RawHeadingExec>>)
    ensures
        match scanned_headings(events@) {
            None => r is None,
            Some(raw) => r matches Some(v) && v@.map_values(|h: RawHeadingExec| raw_view(h))
                == raw,
        },
{
    let mut raw: Vec<RawHeadingExec> = Vec::new();
    let mut current: Option<(u32, usize, String)> = None;
    let mut i: usize = 0;
    while i < events.len()
        invariant
            i <= events@.len(),
            !scan(events@, i as int).failed,
            scan(events@, i as int).raw == raw@.map_values(|h: RawHeadingExec| raw_view(h)),
            scan(events@, i as int).current == (match current {
                Some((l, st, t)) => Some((l, st as int, t@)),
                None => None::<(u32, int, Seq<char>)>,
            }),
        decreases events@.len() - i,
    {
        let ghost before = raw@.map_values(|h: RawHeadingExec| raw_view(h));
        match &events[i] {
            MdEvent::HeadingStart { level, start, end } => {
                current = Some((*level, *start, String::new()));
            },
            MdEvent::HeadingEnd { start, end } => {
                match current {
                    None => {
                        proof {
                            assert(scan(events@, i + 1).failed);
                            lemma_scan_failed_sticky(events@, i + 1, events@.len() as int);
                        }
                        return None;
                    },
                    Some((l, st, t)) => {
                        raw.push(RawHeadingExec { level: l, start: st, end: *end, title: t });
                        assert(raw@.map_values(|h: RawHeadingExec| raw_view(h)) =~= before.push(
                            RawHeading { level: l, start: st as int, end: *end as int, title: t@ },
                        ));
                        current = None;
                    },
                }
            },
            MdEvent::Text(text) => {
                match current {
                    Some((l, st, t)) => {
                        let mut t2 = t;
                        t2.append(text.as_str());
                        current = Some((l, st, t2));
                    },
                    None => {},
                }
            },
            MdEvent::Code(text) => {
                match current {
                    Some((l, st, t)) => {
                        let mut t2 = t;
                        t2.append(text.as_str());
                        current = Some((l, st, t2));
                    },
                    None => {},
                }
            },
            MdEvent::Other => {},
        }
        i = i + 1;
    }
    Some(raw)
}

/// Whether every offset of the collected headings falls on a character
/// boundary of `source`.
pub open spec fn offsets_on_boundaries(source: Seq<char>, raw: Seq<RawHeading>) -> bool {
    forall|i: int|
        0 <= i < raw.len() ==> char_index_of_byte(source, #[trigger] raw[i].start) is Some
            && char_index_of_byte(source, raw[i].end) is Some
}

/// Headings do not overlap and come in document order.
pub open spec fn headings_ordered(hs: Seq<RawHeading>) -> bool {
    &&& forall|i: int| 0 <= i < hs.len() ==> (#[trigger] hs[i]).start <= hs[i].end
    &&& forall|i: int, j: int| 0 <= i < j < hs.len() ==> (#[trigger] hs[i]).end <= (#[trigger] hs[j]).start
}

fn check_boundaries(source: &Vec<char>, raw: &Vec<RawHeadingExec>) -> (b: bool)
    ensures
        b == offsets_on_boundaries(source@, raw@.map_values(|h: RawHeadingExec| raw_view(h))),
{
    let ghost rv = raw@.map_values(|h: RawHeadingExec| raw_view(h));
    let mut i: usize = 0;
    while i < raw.len()
        invariant
            i <= raw@.len(),
            rv == raw@.map_values(|h: RawHeadingExec| raw_view(h)),
            forall|j: int|
                0 <= j < i ==> char_index_of_byte(source@, #[trigger] rv[j].start) is Some
                    && char_index_of_byte(source@, rv[j].end) is Some,
        decreases raw@.len() - i,
    {
        let s = char_index_of_byte_exec(source, raw[i].start);
        let e = char_index_of_byte_exec(source, raw[i].end);
        if s.is_none() || e.is_none() {
            assert(!(char_index_of_byte(source@, rv[i as int].start) is Some
                && char_index_of_byte(source@, rv[i as int].end) is Some));
            return false;
        }
        i = i + 1;
    }
    true
}

fn check_ordered(hs: &Vec<RawHeadingExec>) -> (b: bool)
    ensures
        b == headings_ordered(hs@.map_values(|h: RawHeadingExec| raw_view(h))),
{
    let ghost v = hs@.map_values(|h: RawHeadingExec| raw_view(h));
    let n = hs.len();
    let mut i: usize = 0;
    while i < n
        invariant
            n == hs@.len(),
            v == hs@.map_values(|h: RawHeadingExec| raw_view(h)),
            i <= n,
            forall|a: int| 0 <= a < i ==> (#[trigger] v[a]).start <= v[a].end,
            forall|a: int, c: int| 0 <= a < i && a < c < n ==> (#[trigger] v[a]).end <= (#[trigger] v[c]).start,
        decreases n - i,
    {
        if hs[i].start > hs[i].end {
            assert(!(v[i as int].start <= v[i as int].end));
            return false;
        }
        let mut j: usize = i + 1;
        while j < n
            invariant
                n == hs@.len(),
                v == hs@.map_values(|h: RawHeadingExec| raw_view(h)),
                i < n,
                i < j <= n,
                forall|c: int| i < c < j ==> v[i as int].end <= (#[trigger] v[c]).start,
            decreases n - j,
        {
            if hs[i].end > hs[j].start {
                assert(!(v[i as int].end <= v[j as int].start));
                return false;
            }
            j = j + 1;
        }
        i = i + 1;
    }
    true
}

/// Zero-padding of a decimal spelling to three digits (as `{:03}` does).
pub open spec fn pad3(d: Seq<char>) -> Seq<char> {
    if d.len() >= 3 {
        d
    } else if d.len() == 2 {
        seq!['0'] + d
    } else {
        seq!['0', '0'] + d
    }
}

/// The id of the `n`-th section: `s-001`, `s-002`, ...
pub open spec fn section_id(n: nat) -> Seq<char> {
    seq!['s', '-'] + pad3(decimal(n))
}

fn section_id_string(n: usize) -> (s: String)
    ensures
        s@ == section_id(n as nat),
{
    let d = decimal_string(n);
    let len = d.as_str().unicode_len();
    let mut s = String::from_str("s-");
    proof {
        reveal_strlit("s-");
        reveal_strlit("0");
        reveal_strlit("00");
    }
    if len == 1 {
        s.append("00");
    } else if len == 2 {
        s.append("0");
    }
    s.append(d.as_str());
    assert(s@ =~= section_id(n as nat));
    s
}

/// The section that encloses section `i`: the nearest earlier one, before
/// index `j`, of lower level.
pub open spec fn parent_before(hs: Seq<RawHeading>, i: int, j: int) -> Option<int>
    decreases j,
{
    if j <= 0 || j > hs.len() {
        None
    } else if hs[j - 1].level < hs[i].level {
        Some(j - 1)
    } else {
        parent_before(hs, i, j - 1)
    }
}

/// The first section at or after index `k` that ends section `i`: one of
/// the same or a lower level.
pub open spec fn boundary_from(hs: Seq<RawHeading>, i: int, k: int) -> Option<int>
    decreases hs.len() - k,
{
    if k < 0 || k >= hs.len() {
        None
    } else if hs[k].level <= hs[i].level {
        Some(k)
    } else {
        boundary_from(hs, i, k + 1)
    }
}

/// A section of a page: id, heading text, level, position, enclosing
/// section and byte ranges of heading and body.
pub ghost struct HeadingView {
    /// Section id.
    pub id: Seq<char>,
    /// Heading text, trimmed.
    pub title: Seq<char>,
    /// Heading level.
    pub level: u32,
    /// Position in the document, from 1.
    pub ordinal: u32,
    /// Id of the enclosing section.
    pub parent_id: Option<Seq<char>>,
    /// Byte offset where the heading begins.
    pub heading_start: int,
    /// Byte offset where the body begins (the heading's end).
    pub content_start: int,
    /// Byte offset where the body ends: the next heading of the same or a
    /// lower level, or the end of the page.
    pub content_end: int,
}

/// The `i`-th section built from the ordered headings of a page of
/// `source_len` bytes.
pub open spec fn section_at(source_len: int, hs: Seq<RawHeading>, i: int) -> HeadingView {
    HeadingView {
        id: section_id((i + 1) as nat),
        title: trim(hs[i].title),
        level: hs[i].level,
        ordinal: (i + 1) as u32,
        parent_id: match parent_before(hs, i, i) {
            Some(j) => Some(section_id((j + 1) as nat)),
            None => None,
        },
        heading_start: hs[i].start,
        content_start: hs[i].end,
        content_end: match boundary_from(hs, i, i + 1) {
            Some(k) => hs[k].start,
            None => source_len,
        },
    }
}

/// The sections of a Markdown page, in document order, or why they could
/// not be built.
pub open spec fn spec_sections(source: Seq<char>) -> Result<Seq<HeadingView>, ErrorView> {
    match scanned_headings(markdown_events(source)) {
        None => Err((McpErrorCode::InternalError, "heading parser state is inconsistent"@)),
        Some(raw) => if offsets_on_boundaries(source, raw) && headings_ordered(raw) && utf8_len(
            source,
        ) <= usize::MAX {
            Ok(Seq::new(raw.len(), |i: int| section_at(utf8_len(source) as int, raw, i)))
        } else {
            Err((McpErrorCode::InternalError, "heading offsets are inconsistent"@))
        },
    }
}

/// A section of a page (executable).
#[derive(Clone, Debug, PartialEq, Eq)]
pub struct ParsedHeading {
    /// Section id.
    pub id: String,
    /// Heading text, trimmed.
    pub title: String,
    /// Heading level.
    pub level: u32,
    /// Position in the document, from 1.
    pub ordinal: u32,
    /// Id of the enclosing section.
    pub parent_id: Option<String>,
    /// Byte offset where the heading begins.
    pub heading_start: usize,
    /// Byte offset where the body begins.
    pub content_start: usize,
    /// Byte offset where the body ends.
    pub content_end: usize,
}

/// The view of a section.
pub open spec fn heading_view(h: ParsedHeading) -> HeadingView {
    HeadingView {
        id: h.id@,
        title: h.title@,
        level: h.level,
        ordinal: h.ordinal,
        parent_id: match h.parent_id {
            Some(p) => Some(p@),
            None => None,
        },
        heading_start: h.heading_start as int,
        content_start: h.content_start as int,
        content_end: h.content_end as int,
    }
}

/// The views of a list of sections.
pub open spec fn headings_view(v: Seq<ParsedHeading>) -> Seq<HeadingView> {
    v.map_values(|h: ParsedHeading| heading_view(h))
}

/// Whether a section's ranges are ordered and lie within `0..=len`.
pub open spec fn heading_in_bounds(h: HeadingView, len: int) -> bool {
    0 <= h.heading_start <= h.content_start <= h.content_end <= len
}

/// A section with its byte offsets turned into character indices of
/// `source`.
pub open spec fn in_chars(source: Seq<char>, h: HeadingView) -> HeadingView {
    HeadingView {
        heading_start: char_pos(source, h.heading_start),
        content_start: char_pos(source, h.content_start),
        content_end: char_pos(source, h.content_end),
        ..h
    }
}

/// Whether a section's offsets are character boundaries of `source` and
/// its ranges are ordered and lie within it: what slicing `source` by them
/// needs.
pub open spec fn heading_fits(source: Seq<char>, h: HeadingView) -> bool {
    &&& char_index_of_byte(source, h.heading_start) is Some
    &&& char_index_of_byte(source, h.content_start) is Some
    &&& char_index_of_byte(source, h.content_end) is Some
    &&& heading_in_bounds(in_chars(source, h), source.len() as int)
}

/// The character index of a boundary of `source`.
pub fn char_pos_exec(source: &Vec<char>, b: usize) -> (c: usize)
    requires
        char_index_of_byte(source@, b as int) is Some,
    ensures
        c == char_pos(source@, b as int),
{
    match char_index_of_byte_exec(source, b) {
        Some(c) => c,
        None => {
            assert(false);
            0
        },
    }
}

/// The character indices of a section's heading start, body start and body
/// end in `source`.
pub fn section_char_range(source: &Vec<char>, h: &ParsedHeading) -> (r: (usize, usize, usize))
    requires
        heading_fits(source@, heading_view(*h)),
    ensures
        r.0 == in_chars(source@, heading_view(*h)).heading_start,
        r.1 == in_chars(source@, heading_view(*h)).content_start,
        r.2 == in_chars(source@, heading_view(*h)).content_end,
{
    (
        char_pos_exec(source, h.heading_start),
        char_pos_exec(source, h.content_start),
        char_pos_exec(source, h.content_end),
    )
}

/// Law: every section built from a page lies within the page, its
/// enclosing section comes earlier with a lower level, and its body ends
/// at the end of the page or where a later section of the same or a lower
/// level begins.
pub proof fn law_sections_well_formed(len: int, hs: Seq<RawHeading>, i: int)
    requires
        headings_ordered(hs),
        0 <= i < hs.len(),
        forall|k: int| 0 <= k < hs.len() ==> 0 <= (#[trigger] hs[k]).start && hs[k].end <= len,
    ensures
        heading_in_bounds(section_at(len, hs, i), len),
        parent_before(hs, i, i) matches Some(j) ==> 0 <= j < i && hs[j].level < hs[i].level,
        boundary_from(hs, i, i + 1) matches Some(k) ==> i < k < hs.len() && hs[k].level
            <= hs[i].level,
{
    lemma_parent_before(hs, i, i);
    lemma_boundary_from(hs, i, i + 1);
    assert(hs[i].start <= hs[i].end);
}

/// Law: every section of a page lies within the page, in bytes, and its
/// offsets are character boundaries of the page that slice it in order.
pub proof fn law_sections_in_bounds(source: Seq<char>)
    ensures
        spec_sections(source) matches Ok(hs) ==> forall|i: int|
            0 <= i < hs.len() ==> heading_in_bounds(#[trigger] hs[i], utf8_len(source) as int)
                && heading_fits(source, hs[i]),
{
    if let Some(raw) = scanned_headings(markdown_events(source)) {
        if offsets_on_boundaries(source, raw) && headings_ordered(raw) && utf8_len(source)
            <= usize::MAX {
            let len = utf8_len(source) as int;
            lemma_boundary_facts(source, 0);
            assert forall|k: int| 0 <= k < raw.len() implies 0 <= (#[trigger] raw[k]).start
                && raw[k].end <= len by {
                assert(char_index_of_byte(source, raw[k].start) is Some);
                lemma_boundary_facts(source, raw[k].start);
                lemma_boundary_facts(source, raw[k].end);
            }
            let secs = Seq::new(raw.len(), |i: int| section_at(len, raw, i));
            assert forall|i: int| 0 <= i < secs.len() implies heading_in_bounds(
                #[trigger] secs[i],
                len,
            ) && heading_fits(source, secs[i]) by {
                law_sections_well_formed(len, raw, i);
                let h = secs[i];
                assert(char_index_of_byte(source, raw[i].start) is Some);
                if let Some(k) = boundary_from(raw, i, i + 1) {
                    assert(char_index_of_byte(source, raw[k].start) is Some);
                }
                lemma_boundary_facts(source, h.heading_start);
                lemma_boundary_facts(source, h.content_end);
                lemma_char_pos_mono(source, h.heading_start, h.content_start);
                lemma_char_pos_mono(source, h.content_start, h.content_end);
            }
        }
    }
}

proof fn lemma_parent_before(hs: Seq<RawHeading>, i: int, j: int)
    requires
        0 <= i < hs.len(),
        0 <= j <= i,
    ensures
        parent_before(hs, i, j) matches Some(p) ==> 0 <= p < j && hs[p].level < hs[i].level,
        parent_before(hs, i, j) is None ==> forall|p: int| 0 <= p < j ==> hs[p].level
            >= hs[i].level,
    decreases j,
{
    if j > 0 && !(hs[j - 1].level < hs[i].level) {
        lemma_parent_before(hs, i, j - 1);
    }
}

proof fn lemma_boundary_from(hs: Seq<RawHeading>, i: int, k: int)
    requires
        0 <= i < hs.len(),
        i < k,
    ensures
        boundary_from(hs, i, k) matches Some(b) ==> k <= b < hs.len() && hs[b].level
            <= hs[i].level && forall|m: int| k <= m < b ==> hs[m].level > hs[i].level,
        boundary_from(hs, i, k) is None ==> forall|m: int| k <= m < hs.len() ==> hs[m].level
            > hs[i].level,
    decreases hs.len() - k,
{
    if k < hs.len() && !(hs[k].level <= hs[i].level) {
        lemma_boundary_from(hs, i, k + 1);
    }
}

fn build_section(source_len: usize, hs: &Vec<RawHeadingExec>, i: usize) -> (h: ParsedHeading)
    requires
        i < hs@.len(),
    ensures
        heading_view(h) == section_at(
            source_len as int,
            hs@.map_values(|c: RawHeadingExec| raw_view(c)),
            i as int,
        ),
{
    let ghost v = hs@.map_values(|c: RawHeadingExec| raw_view(c));
    let n = hs.len();
    let mut j: usize = i;
    while j > 0 && !(hs[j - 1].level < hs[i].level)
        invariant
            v == hs@.map_values(|c: RawHeadingExec| raw_view(c)),
            i < hs@.len(),
            j <= i,
            parent_before(v, i as int, j as int) == parent_before(v, i as int, i as int),
        decreases j,
    {
        j = j - 1;
    }
    let parent_id = if j > 0 {
        Some(section_id_string(j))
    } else {
        None
    };
    let mut k: usize = i + 1;
    while k < n && !(hs[k].level <= hs[i].level)
        invariant
            v == hs@.map_values(|c: RawHeadingExec| raw_view(c)),
            i < hs@.len(),
            n == hs@.len(),
            i < k <= hs@.len(),
            boundary_from(v, i as int, k as int) == boundary_from(v, i as int, i + 1),
        decreases hs@.len() - k,
    {
        k = k + 1;
    }
    let content_end = if k < n {
        hs[k].start
    } else {
        source_len
    };
    let title = String::from_str(trim_str(hs[i].title.as_str()));
    ParsedHeading {
        id: section_id_string(i + 1),
        title,
        level: hs[i].level,
        ordinal: (i + 1) as u32,
        parent_id,
        heading_start: hs[i].start,
        content_start: hs[i].end,
        content_end,
    }
}

/// The sections of a Markdown page, in document order.
pub fn parse_sections(source: &str) -> (r: Result<Vec<ParsedHeading>, McpError>)
    ensures
        match spec_sections(source@) {
            Ok(hs) => r matches Ok(v) && headings_view(v@) == hs,
            Err(ev) => r matches Err(e) && err_view(e) == ev,
        },
{
    let events = parse_markdown_events(source);
    let raw = match collect_headings(&events) {
        Some(raw) => raw,
        None => {
            return Err(
                McpError::new(
                    McpErrorCode::InternalError,
                    String::from_str("heading parser state is inconsistent"),
                ),
            );
        },
    };
    let chars = crate::text::chars_of(source);
    let len = utf8_len_exec(&chars);
    if !check_boundaries(&chars, &raw) || !check_ordered(&raw) || len.is_none() {
        return Err(
            McpError::new(
                McpErrorCode::InternalError,
                String::from_str("heading offsets are inconsistent"),
            ),
        );
    }
    let source_len = len.unwrap();
    let ghost v = raw@.map_values(|c: RawHeadingExec| raw_view(c));
    let n = raw.len();
    let mut out: Vec<ParsedHeading> = Vec::new();
    let mut i: usize = 0;
    while i < n
        invariant
            n == raw@.len(),
            v == raw@.map_values(|c: RawHeadingExec| raw_view(c)),
            source_len == utf8_len(source@),
            i <= n,
            out@.len() == i,
            forall|j: int| 0 <= j < i ==> heading_view(#[trigger] out@[j]) == section_at(source_len as int, v, j),
        decreases n - i,
    {
        let h = build_section(source_len, &raw, i);
        out.push(h);
        i = i + 1;
    }
    assert(headings_view(out@) =~= Seq::new(v.len(), |i: int| section_at(utf8_len(source@) as int, v, i)));
    Ok(out)
}

} // verus!
