//! Page editing: the edit operations of `edit_page` and how each one
//! rewrites the page text.

use vstd::prelude::*;
use crate::errors::{ErrorView, McpError, McpErrorCode, is_err_view};
use crate::markdown::{
    HeadingView, ParsedHeading, char_pos, heading_fits, heading_view, headings_view, in_chars,
    parse_sections, section_char_range, spec_sections,
};
use crate::service::McpService;
use crate::markdown::law_sections_in_bounds;
use crate::text::{
    lemma_find_from_skip, chars_of, find_from, find_from_exec, first_match, lemma_find_from, matches_at, str_eq, trim, trim_str,
};

verus! {

/// How a section is named.
#[derive(Clone, Debug, PartialEq, Eq)]
pub enum SectionSelector {
    /// By section id (`s-001`, ...).
    ById(String),
    /// By heading text.
    ByTitle(String),
}

/// Where `insert_section` inserts relative to its anchor.
#[derive(Clone, Copy, Debug, PartialEq, Eq, Structural)]
pub enum EditPageInsertSectionPlacement {
    /// Right before the anchor's heading.
    Before,
    /// Right after the anchor's section, children included.
    After,
}

/// Which matches `replace_text` replaces.
#[derive(Clone, Copy, Debug, PartialEq, Eq, Structural)]
pub enum EditPageReplaceTextOccurrence {
    /// The first match only.
    First,
    /// Every match.
    All,
}

/// One edit of a page.
#[derive(Clone, Debug, PartialEq, Eq)]
pub enum EditPageOperation {
    /// Replace the body of a section, children included, keeping its heading.
    ReplaceSection {
        /// The section.
        section: SectionSelector,
        /// The new body.
        content: String,
    },
    /// Insert a complete section before or after another.
    InsertSection {
        /// The section the new one is placed against.
        anchor: SectionSelector,
        /// Before or after.
        placement: EditPageInsertSectionPlacement,
        /// The new section, heading included.
        content: String,
    },
    /// Delete a section, heading and children included.
    DeleteSection {
        /// The section.
        section: SectionSelector,
    },
    /// Replace text.
    ReplaceText {
        /// The text to look for.
        old_text: String,
        /// The replacement.
        new_text: String,
        /// Which matches to replace (the first when absent).
        occurrence: Option<EditPageReplaceTextOccurrence>,
    },
}

/// An edit of a page, checked against the latest revision and instance id.
#[derive(Clone, Debug, PartialEq, Eq)]
pub struct EditPageRequest {
    /// Page path.
    pub path: String,
    /// The revision the edit is based on.
    pub revision: u64,
    /// The instance id the edit is based on.
    pub instance_id: String,
    /// The edit.
    pub operation: EditPageOperation,
}

impl EditPageRequest {
    /// Builds the value from its fields.
    pub fn new(path: String, revision: u64, instance_id: String, operation: EditPageOperation) -> (r: EditPageRequest)
        ensures
            r.path == path,
            r.revision == revision,
            r.instance_id == instance_id,
            r.operation == operation,
    {
        EditPageRequest { path, revision, instance_id, operation }
    }

    /// The `path` field.
    pub fn path(&self) -> (r: &str)
        ensures
            r@ == self.path@,
    {
        self.path.as_str()
    }

    /// The `revision` field.
    pub fn revision(&self) -> (r: u64)
        ensures
            r == self.revision,
    {
        self.revision
    }

    /// The `instance_id` field.
    pub fn instance_id(&self) -> (r: &str)
        ensures
            r@ == self.instance_id@,
    {
        self.instance_id.as_str()
    }

    /// The `operation` field.
    pub fn operation(&self) -> (r: &EditPageOperation)
        ensures
            *r == self.operation,
    {
        &self.operation
    }
}

/// Whether a character is a line break (`\r` or `\n`).
pub open spec fn is_break(c: char) -> bool {
    c == '\r' || c == '\n'
}

/// Index of the first character at or after `i` that is not a line break,
/// or `s.len()` when there is none.
pub open spec fn first_non_break_from(s: Seq<char>, i: int) -> int
    decreases s.len() - i,
{
    if i < 0 || i >= s.len() {
        s.len() as int
    } else if !is_break(s[i]) {
        i
    } else {
        first_non_break_from(s, i + 1)
    }
}

/// One past the last character before `j` that is not a line break, or `0`.
pub open spec fn end_non_break_before(s: Seq<char>, j: int) -> int
    decreases j,
{
    if j <= 0 || j > s.len() {
        0
    } else if !is_break(s[j - 1]) {
        j
    } else {
        end_non_break_before(s, j - 1)
    }
}

proof fn lemma_first_non_break(s: Seq<char>, i: int)
    requires
        0 <= i <= s.len(),
    ensures
        i <= first_non_break_from(s, i) <= s.len(),
    decreases s.len() - i,
{
    if i < s.len() && is_break(s[i]) {
        lemma_first_non_break(s, i + 1);
    }
}

proof fn lemma_end_non_break(s: Seq<char>, j: int)
    requires
        0 <= j <= s.len(),
    ensures
        0 <= end_non_break_before(s, j) <= j,
    decreases j,
{
    if j > 0 && is_break(s[j - 1]) {
        lemma_end_non_break(s, j - 1);
    }
}

/// The body of a section without its leading line breaks.
pub open spec fn spec_extract(source: Seq<char>, h: HeadingView) -> Seq<char> {
    let c = in_chars(source, h);
    let body = source.subrange(c.content_start, c.content_end);
    body.skip(first_non_break_from(body, 0))
}

/// The page with the body of a section replaced; the heading and the line
/// breaks around the old body stay.
pub open spec fn spec_replace_section(source: Seq<char>, h: HeadingView, new_content: Seq<char>) -> Seq<
    char,
> {
    let c = in_chars(source, h);
    let body = source.subrange(c.content_start, c.content_end);
    let lead = first_non_break_from(body, 0);
    let trail = end_non_break_before(body, body.len() as int);
    source.take(c.content_start) + body.take(lead) + new_content + (if trail < lead {
        Seq::empty()
    } else {
        body.skip(trail)
    }) + source.skip(c.content_end)
}

/// Where, as a character index of `source`, a section is inserted relative
/// to its anchor.
pub open spec fn insert_point(
    source: Seq<char>,
    h: HeadingView,
    placement: EditPageInsertSectionPlacement,
) -> int {
    match placement {
        EditPageInsertSectionPlacement::Before => char_pos(source, h.heading_start),
        EditPageInsertSectionPlacement::After => char_pos(source, h.content_end),
    }
}

/// The page with a section inserted; a line break is added between the new
/// section and what follows when neither provides one.
pub open spec fn spec_insert_section(
    source: Seq<char>,
    h: HeadingView,
    placement: EditPageInsertSectionPlacement,
    new_section: Seq<char>,
) -> Seq<char> {
    let at = insert_point(source, h, placement);
    let after = source.skip(at);
    let glue = if !(new_section.len() > 0 && new_section.last() == '\n') && !(after.len() > 0
        && after[0] == '\n') {
        seq!['\n']
    } else {
        Seq::empty()
    };
    source.take(at) + new_section + glue + after
}

/// The page without a section (heading, body and children).
pub open spec fn spec_delete_section(source: Seq<char>, h: HeadingView) -> Seq<char> {
    source.take(char_pos(source, h.heading_start)) + source.skip(char_pos(source, h.content_end))
}

/// `s` with the first match of `p` replaced by `n` (what `str::replacen`
/// with a count of one returns).
pub open spec fn replace_first(s: Seq<char>, p: Seq<char>, n: Seq<char>) -> Seq<char> {
    match first_match(s, p) {
        Some(i) => s.take(i) + n + s.skip(i + p.len()),
        None => s,
    }
}

/// `s` with every match of `p`, left to right and without overlap, replaced
/// by `n` (what `str::replace` returns); an empty pattern matches between
/// every two characters and at both ends.
pub open spec fn replace_all(s: Seq<char>, p: Seq<char>, n: Seq<char>) -> Seq<char>
    decreases s.len(),
{
    if p.len() == 0 {
        if s.len() == 0 {
            n
        } else {
            n + seq![s[0]] + replace_all(s.drop_first(), p, n)
        }
    } else {
        match first_match(s, p) {
            Some(i) => if 0 <= i && i + p.len() <= s.len() {
                s.take(i) + n + replace_all(s.skip(i + p.len()), p, n)
            } else {
                s
            },
            None => s,
        }
    }
}

/// Replacing a section's body leaves everything before the body and after
/// it as it was, and puts the new text right after the body's leading line
/// breaks.
pub proof fn law_replace_section_keeps_the_rest(source: Seq<char>, h: HeadingView, new_content: Seq<char>)
    requires
        heading_fits(source, h),
    ensures
        ({
            let c = in_chars(source, h);
            let r = spec_replace_section(source, h, new_content);
            let lead = first_non_break_from(source.subrange(c.content_start, c.content_end), 0);
            &&& r.take(c.content_start) == source.take(c.content_start)
            &&& r.subrange(c.content_start + lead, c.content_start + lead + new_content.len())
                == new_content
            &&& r.skip(r.len() - (source.len() - c.content_end)) == source.skip(c.content_end)
        }),
{
    let c = in_chars(source, h);
    let body = source.subrange(c.content_start, c.content_end);
    lemma_first_non_break(body, 0);
    lemma_end_non_break(body, body.len() as int);
    let lead = first_non_break_from(body, 0);
    let r = spec_replace_section(source, h, new_content);
    let mid = if end_non_break_before(body, body.len() as int) < lead {
        Seq::<char>::empty()
    } else {
        body.skip(end_non_break_before(body, body.len() as int))
    };
    assert(r == source.take(c.content_start) + body.take(lead) + new_content + mid + source.skip(c.content_end));
    assert(r.take(c.content_start) =~= source.take(c.content_start));
    assert(r.subrange(c.content_start + lead, c.content_start + lead + new_content.len()) =~= new_content);
    assert(r.skip(r.len() - (source.len() - c.content_end)) =~= source.skip(c.content_end));
}

/// An inserted section appears whole at its insertion point, with the text
/// before that point and after it kept.
pub proof fn law_inserted_section_appears(
    source: Seq<char>,
    h: HeadingView,
    placement: EditPageInsertSectionPlacement,
    new_section: Seq<char>,
)
    requires
        0 <= insert_point(source, h, placement) <= source.len(),
    ensures
        ({
            let r = spec_insert_section(source, h, placement, new_section);
            let at = insert_point(source, h, placement);
            &&& r.take(at) == source.take(at)
            &&& r.subrange(at, at + new_section.len()) == new_section
            &&& r.skip(r.len() - (source.len() - at)) == source.skip(at)
        }),
{
    let r = spec_insert_section(source, h, placement, new_section);
    let at = insert_point(source, h, placement);
    assert(r.take(at) =~= source.take(at));
    assert(r.subrange(at, at + new_section.len()) =~= new_section);
    assert(r.skip(r.len() - (source.len() - at)) =~= source.skip(at));
}

/// Replacing a pattern by itself leaves the text as it was, whether the
/// first match or every match is replaced.
pub proof fn law_replace_by_itself_is_identity(s: Seq<char>, p: Seq<char>)
    ensures
        replace_all(s, p, p) == s,
        replace_first(s, p, p) == s,
    decreases s.len(),
{
    lemma_find_from(s, p, 0);
    if p.len() == 0 {
        if s.len() > 0 {
            law_replace_by_itself_is_identity(s.drop_first(), p);
            assert(p + seq![s[0]] + s.drop_first() =~= s);
        }
        assert(s.subrange(0, 0) =~= p);
        assert(first_match(s, p) == Some(0int));
        assert(s.take(0) + p + s.skip(0) =~= s);
    } else {
        match first_match(s, p) {
            Some(i) => {
                law_replace_by_itself_is_identity(s.skip(i + p.len()), p);
                assert(s.take(i) + p + s.skip(i + p.len()) =~= s);
            },
            None => {},
        }
    }
}

/// A pattern that does not occur changes nothing.
pub proof fn law_absent_pattern_changes_nothing(s: Seq<char>, p: Seq<char>, n: Seq<char>)
    requires
        p.len() > 0,
        forall|i: int| !matches_at(s, p, i),
    ensures
        replace_all(s, p, n) == s,
        replace_first(s, p, n) == s,
{
    lemma_find_from(s, p, 0);
}

proof fn lemma_find_from_some(s: Seq<char>, p: Seq<char>, i: int)
    requires
        0 <= i,
    ensures
        find_from(s, p, i) matches Some(k) ==> i <= k && k + p.len() <= s.len(),
    decreases s.len() + 1 - i,
{
    if i + p.len() <= s.len() && !matches_at(s, p, i) {
        lemma_find_from_some(s, p, i + 1);
    }
}

/// How an operation's section is named, for contracts.
pub open spec fn selector_result(sections: Seq<HeadingView>, selector: SectionSelector) -> Result<
    HeadingView,
    ErrorView,
> {
    match selector {
        SectionSelector::ById(id) => match first_with_id(sections, id@, 0) {
            Some(k) => Ok(sections[k]),
            None => Err((McpErrorCode::NotFound, "section not found: "@ + id@)),
        },
        SectionSelector::ByTitle(title) => {
            let t = trim(title@);
            if t.len() == 0 {
                Err((McpErrorCode::InvalidInput, "section title must not be empty"@))
            } else {
                let count = title_count(sections, t, sections.len() as int);
                if count == 0 {
                    Err((McpErrorCode::NotFound, "section not found: "@ + t))
                } else if count == 1 {
                    Ok(sections[first_title_before(sections, t, sections.len() as int).unwrap()])
                } else {
                    Err((McpErrorCode::InvalidInput, "section title is ambiguous: "@ + t))
                }
            }
        },
    }
}

/// How many of the first `k` sections have the heading text `t`.
pub open spec fn title_count(sections: Seq<HeadingView>, t: Seq<char>, k: int) -> nat
    decreases k,
{
    if k <= 0 || k > sections.len() {
        0
    } else {
        title_count(sections, t, k - 1) + (if sections[k - 1].title == t {
            1nat
        } else {
            0nat
        })
    }
}

/// The first of the first `k` sections with the heading text `t`.
pub open spec fn first_title_before(sections: Seq<HeadingView>, t: Seq<char>, k: int) -> Option<
    int,
>
    decreases k,
{
    if k <= 0 || k > sections.len() {
        None
    } else {
        match first_title_before(sections, t, k - 1) {
            Some(j) => Some(j),
            None => if sections[k - 1].title == t {
                Some(k - 1)
            } else {
                None
            },
        }
    }
}

proof fn lemma_first_title_before(sections: Seq<HeadingView>, t: Seq<char>, k: int)
    requires
        0 <= k <= sections.len(),
    ensures
        first_title_before(sections, t, k) matches Some(j) ==> 0 <= j < k,
        title_count(sections, t, k) > 0 <==> first_title_before(sections, t, k) is Some,
    decreases k,
{
    if k > 0 {
        lemma_first_title_before(sections, t, k - 1);
    }
}

/// Law: a section that a selector names is one of the page's sections.
pub proof fn law_selected_section_is_listed(sections: Seq<HeadingView>, selector: SectionSelector)
    ensures
        selector_result(sections, selector) matches Ok(h) ==> exists|k: int|
            0 <= k < sections.len() && sections[k] == h,
{
    match selector {
        SectionSelector::ById(id) => {
            lemma_first_with_id(sections, id@, 0);
            if let Some(k) = first_with_id(sections, id@, 0) {
                assert(sections[k] == sections[k]);
            }
        },
        SectionSelector::ByTitle(title) => {
            let t = trim(title@);
            lemma_first_title_before(sections, t, sections.len() as int);
            if let Some(k) = first_title_before(sections, t, sections.len() as int) {
                assert(sections[k] == sections[k]);
            }
        },
    }
}

/// The first section at or after index `k` with id `id`.
pub open spec fn first_with_id(sections: Seq<HeadingView>, id: Seq<char>, k: int) -> Option<int>
    decreases sections.len() - k,
{
    if k < 0 || k >= sections.len() {
        None
    } else if sections[k].id == id {
        Some(k)
    } else {
        first_with_id(sections, id, k + 1)
    }
}

proof fn lemma_first_with_id(sections: Seq<HeadingView>, id: Seq<char>, k: int)
    requires
        0 <= k,
    ensures
        first_with_id(sections, id, k) matches Some(j) ==> k <= j < sections.len()
            && sections[j].id == id && forall|m: int| k <= m < j ==> sections[m].id != id,
        first_with_id(sections, id, k) is None ==> forall|m: int|
            k <= m < sections.len() ==> sections[m].id != id,
    decreases sections.len() - k,
{
    if k < sections.len() && sections[k].id != id {
        lemma_first_with_id(sections, id, k + 1);
    }
}

proof fn lemma_title_count_zero(sections: Seq<HeadingView>, t: Seq<char>, k: int)
    requires
        0 <= k <= sections.len(),
    ensures
        title_count(sections, t, k) == 0 <==> forall|j: int| 0 <= j < k ==> sections[j].title != t,
    decreases k,
{
    if k > 0 {
        lemma_title_count_zero(sections, t, k - 1);
    }
}

proof fn lemma_title_count_two(sections: Seq<HeadingView>, t: Seq<char>, k: int, a: int, b: int)
    requires
        0 <= a < b < k <= sections.len(),
        sections[a].title == t,
        sections[b].title == t,
    ensures
        title_count(sections, t, k) >= 2,
    decreases k,
{
    if k - 1 == b {
        lemma_title_count_zero(sections, t, b);
    } else {
        lemma_title_count_two(sections, t, k - 1, a, b);
    }
}

proof fn lemma_title_unique(sections: Seq<HeadingView>, t: Seq<char>, k: int, a: int)
    requires
        0 <= a < k <= sections.len(),
        sections[a].title == t,
        forall|j: int| 0 <= j < k && j != a ==> sections[j].title != t,
    ensures
        title_count(sections, t, k) == 1,
        first_title_before(sections, t, k) == Some(a),
    decreases k,
{
    if k - 1 == a {
        lemma_title_count_zero(sections, t, a);
        lemma_first_title_before(sections, t, a);
    } else {
        lemma_title_unique(sections, t, k - 1, a);
    }
}

/// Law: a section named by id is the first section with that id, and there
/// is none exactly when no section has it; a section named by title is
/// looked up by the trimmed title, which must not be empty, and is found
/// only when exactly one section has that title: none is "not found", two
/// or more are refused as ambiguous.
pub proof fn law_section_selector_picks(sections: Seq<HeadingView>, selector: SectionSelector)
    ensures
        selector matches SectionSelector::ById(id) ==> {
            &&& (selector_result(sections, selector) is Ok <==> exists|k: int|
                0 <= k < sections.len() && #[trigger] sections[k].id == id@)
            &&& selector_result(sections, selector) matches Ok(h) ==> exists|k: int|
                0 <= k < sections.len() && h == sections[k] && sections[k].id == id@ && forall|
                    j: int,
                | 0 <= j < k ==> #[trigger] sections[j].id != id@
            &&& selector_result(sections, selector) matches Err(e) ==> e.0
                == McpErrorCode::NotFound
        },
        selector matches SectionSelector::ByTitle(title) ==> {
            let t = trim(title@);
            &&& t.len() == 0 ==> selector_result(sections, selector) == Err::<HeadingView, ErrorView>(
                (McpErrorCode::InvalidInput, "section title must not be empty"@),
            )
            &&& t.len() > 0 && (forall|j: int| 0 <= j < sections.len() ==> #[trigger] sections[j].title
                != t) ==> selector_result(sections, selector) == Err::<HeadingView, ErrorView>(
                (McpErrorCode::NotFound, "section not found: "@ + t),
            )
            &&& forall|a: int|
                t.len() > 0 && 0 <= a < sections.len() && #[trigger] sections[a].title == t && (forall|
                    j: int,
                | 0 <= j < sections.len() && j != a ==> sections[j].title != t) ==> selector_result(
                    sections,
                    selector,
                ) == Ok::<HeadingView, ErrorView>(sections[a])
            &&& forall|a: int, b: int|
                t.len() > 0 && 0 <= a < b < sections.len() && #[trigger] sections[a].title == t
                    && #[trigger] sections[b].title == t ==> selector_result(sections, selector)
                    == Err::<HeadingView, ErrorView>(
                    (McpErrorCode::InvalidInput, "section title is ambiguous: "@ + t),
                )
        },
{
    let n = sections.len() as int;
    match selector {
        SectionSelector::ById(id) => {
            lemma_first_with_id(sections, id@, 0);
        },
        SectionSelector::ByTitle(title) => {
            let t = trim(title@);
            lemma_title_count_zero(sections, t, n);
            assert forall|a: int|
                t.len() > 0 && 0 <= a < n && #[trigger] sections[a].title == t && (forall|j: int|
                    0 <= j < n && j != a ==> sections[j].title != t) implies selector_result(
                sections,
                selector,
            ) == Ok::<HeadingView, ErrorView>(sections[a]) by {
                lemma_title_unique(sections, t, n, a);
            }
            assert forall|a: int, b: int|
                t.len() > 0 && 0 <= a < b < n && #[trigger] sections[a].title == t
                    && #[trigger] sections[b].title == t implies selector_result(sections, selector)
                == Err::<HeadingView, ErrorView>(
                (McpErrorCode::InvalidInput, "section title is ambiguous: "@ + t),
            ) by {
                lemma_title_count_two(sections, t, n, a, b);
            }
        },
    }
}

/// What applying an edit to a page gives.
pub open spec fn spec_apply_edit(source: Seq<char>, op: EditPageOperation) -> Result<Seq<char>, ErrorView> {
    match op {
        EditPageOperation::ReplaceText { old_text, new_text, occurrence } => if old_text@.len()
            == 0 {
            Err((McpErrorCode::InvalidInput, "old_text must not be empty"@))
        } else if first_match(source, old_text@) is None {
            Err((McpErrorCode::NotFound, "text not found: "@ + old_text@))
        } else {
            Ok(spec_replace_text(source, old_text@, new_text@, occurrence))
        },
        EditPageOperation::ReplaceSection { section, content } => match spec_sections(source) {
            Err(e) => Err(e),
            Ok(hs) => match selector_result(hs, section) {
                Err(e) => Err(e),
                Ok(h) => Ok(spec_replace_section(source, h, content@)),
            },
        },
        EditPageOperation::InsertSection { anchor, placement, content } => match spec_sections(
            source,
        ) {
            Err(e) => Err(e),
            Ok(hs) => match selector_result(hs, anchor) {
                Err(e) => Err(e),
                Ok(h) => Ok(spec_insert_section(source, h, placement, content@)),
            },
        },
        EditPageOperation::DeleteSection { section } => match spec_sections(source) {
            Err(e) => Err(e),
            Ok(hs) => match selector_result(hs, section) {
                Err(e) => Err(e),
                Ok(h) => Ok(spec_delete_section(source, h)),
            },
        },
    }
}

/// What a text replacement gives: the first match unless every match is
/// asked for.
pub open spec fn spec_replace_text(
    source: Seq<char>,
    old_text: Seq<char>,
    new_text: Seq<char>,
    occurrence: Option<EditPageReplaceTextOccurrence>,
) -> Seq<char> {
    match occurrence {
        Some(EditPageReplaceTextOccurrence::All) => replace_all(source, old_text, new_text),
        _ => replace_first(source, old_text, new_text),
    }
}

fn copy_string(s: &String) -> (r: String)
    ensures
        r@ == s@,
{
    String::from_str(s.as_str())
}

fn copy_selector(s: &SectionSelector) -> (r: SectionSelector)
    ensures
        r == *s,
{
    match s {
        SectionSelector::ById(id) => SectionSelector::ById(id.clone()),
        SectionSelector::ByTitle(t) => SectionSelector::ByTitle(t.clone()),
    }
}

fn copy_heading(h: &ParsedHeading) -> (r: ParsedHeading)
    ensures
        heading_view(r) == heading_view(*h),
{
    ParsedHeading {
        id: copy_string(&h.id),
        title: copy_string(&h.title),
        level: h.level,
        ordinal: h.ordinal,
        parent_id: match &h.parent_id {
            Some(p) => Some(copy_string(p)),
            None => None,
        },
        heading_start: h.heading_start,
        content_start: h.content_start,
        content_end: h.content_end,
    }
}

/// `source` with its first match of `old_text` replaced.
fn replace_once(source: &str, old_text: &str, new_text: &str) -> (r: String)
    ensures
        r@ == replace_first(source@, old_text@, new_text@),
{
    let s = chars_of(source);
    let p = chars_of(old_text);
    let n = s.len();
    match find_from_exec(&s, &p, 0) {
        Some(i) => {
            proof {
                lemma_find_from(s@, p@, 0);
                assert(matches_at(s@, p@, i as int));
            }
            let mut out = String::from_str(source.substring_char(0, i));
            out.append(new_text);
            out.append(source.substring_char(i + p.len(), n));
            proof {
                assert(source@.subrange(0, i as int) =~= source@.take(i as int));
                assert(source@.subrange(i + p@.len(), s@.len() as int) =~= source@.skip(
                    i + p@.len(),
                ));
            }
            out
        },
        None => String::from_str(source),
    }
}

/// `source` with every match of `old_text` replaced, left to right.
fn replace_every(source: &str, old_text: &str, new_text: &str) -> (r: String)
    ensures
        r@ == replace_all(source@, old_text@, new_text@),
{
    let s = chars_of(source);
    let p = chars_of(old_text);
    let n = s.len();
    let mut out = String::new();
    let mut pos: usize = 0;
    assert(s@.skip(0) =~= s@);
    assert(out@ + replace_all(s@, p@, new_text@) =~= replace_all(s@, p@, new_text@));
    if p.len() == 0 {
        while pos < n
            invariant
                s@ == source@,
                p@ == old_text@,
                n == s@.len(),
                p@.len() == 0,
                pos <= n,
                out@ + replace_all(s@.skip(pos as int), p@, new_text@) == replace_all(
                    s@,
                    p@,
                    new_text@,
                ),
            decreases n - pos,
        {
            let ghost t = s@.skip(pos as int);
            let ghost before = out@;
            assert(t.drop_first() =~= s@.skip(pos + 1));
            assert(t[0] == s@[pos as int]);
            out.append(new_text);
            let one = source.substring_char(pos, pos + 1);
            assert(one@ =~= seq![t[0]]);
            out.append(one);
            pos = pos + 1;
            assert((out@ + replace_all(s@.skip(pos as int), p@, new_text@)) =~= (
            before + replace_all(t, p@, new_text@)));
        }
        out.append(new_text);
        assert(s@.skip(n as int) =~= Seq::<char>::empty());
        return out;
    }
    loop
        invariant
            s@ == source@,
            p@ == old_text@,
            n == s@.len(),
            p@.len() > 0,
            pos <= n,
            out@ + replace_all(s@.skip(pos as int), p@, new_text@) == replace_all(
                s@,
                p@,
                new_text@,
            ),
        decreases n - pos,
    {
        let ghost t = s@.skip(pos as int);
        proof {
            lemma_find_from_skip(s@, p@, pos as int, 0);
        }
        match find_from_exec(&s, &p, pos) {
            Some(i) => {
                proof {
                    lemma_find_from_some(s@, p@, pos as int);
                    assert(first_match(t, p@) == Some(i - pos));
                    assert(t.take(i - pos) =~= s@.subrange(pos as int, i as int));
                    assert(t.skip(i - pos + p@.len()) =~= s@.skip(i + p@.len()));
                }
                let ghost before = out@;
                out.append(source.substring_char(pos, i));
                out.append(new_text);
                pos = i + p.len();
                assert((out@ + replace_all(s@.skip(pos as int), p@, new_text@)) =~= (before
                    + replace_all(t, p@, new_text@)));
            },
            None => {
                proof {
                    assert(first_match(t, p@) is None);
                    assert(replace_all(t, p@, new_text@) == t);
                    assert(t =~= s@.subrange(pos as int, n as int));
                }
                out.append(source.substring_char(pos, n));
                return out;
            },
        }
    }
}

impl McpService {
    /// The sections of a Markdown page, in document order.
    pub fn parse_markdown_toc_sections(&self, source: &str) -> (r: Result<
        Vec<ParsedHeading>,
        McpError,
    >)
        ensures
            match spec_sections(source@) {
                Ok(hs) => r matches Ok(v) && headings_view(v@) == hs,
                Err(ev) => is_err_view(r, ev),
            },
    {
        parse_sections(source)
    }

    /// The body of a section, without its leading line breaks.
    pub fn extract_section_content(&self, source: &str, section: &ParsedHeading) -> (r: String)
        requires
            heading_fits(source@, heading_view(*section)),
        ensures
            r@ == spec_extract(source@, heading_view(*section)),
    {
        let (_, cs, ce) = section_char_range(&chars_of(source), section);
        let body = source.substring_char(cs, ce);
        let chars = chars_of(body);
        let mut i: usize = 0;
        while i < chars.len() && (chars[i] == '\r' || chars[i] == '\n')
            invariant
                chars@ == body@,
                i <= chars@.len(),
                first_non_break_from(body@, i as int) == first_non_break_from(body@, 0),
            decreases chars@.len() - i,
        {
            i = i + 1;
        }
        let rest = body.substring_char(i, chars.len());
        assert(rest@ =~= body@.skip(i as int));
        String::from_str(rest)
    }

    /// The page with the body of a section replaced, heading kept.
    pub fn replace_section_content(
        &self,
        source: &str,
        section: &ParsedHeading,
        new_content: &str,
    ) -> (r: String)
        requires
            heading_fits(source@, heading_view(*section)),
        ensures
            r@ == spec_replace_section(source@, heading_view(*section), new_content@),
    {
        let n = source.unicode_len();
        let (_, cs, ce) = section_char_range(&chars_of(source), section);
        let body = source.substring_char(cs, ce);
        let chars = chars_of(body);
        let m = chars.len();
        let mut lead: usize = 0;
        while lead < m && (chars[lead] == '\r' || chars[lead] == '\n')
            invariant
                chars@ == body@,
                m == body@.len(),
                lead <= m,
                first_non_break_from(body@, lead as int) == first_non_break_from(body@, 0),
            decreases m - lead,
        {
            lead = lead + 1;
        }
        let mut trail: usize = m;
        while trail > 0 && (chars[trail - 1] == '\r' || chars[trail - 1] == '\n')
            invariant
                chars@ == body@,
                m == body@.len(),
                trail <= m,
                end_non_break_before(body@, trail as int) == end_non_break_before(body@, m as int),
            decreases trail,
        {
            trail = trail - 1;
        }
        let mut out = String::from_str(source.substring_char(0, cs));
        out.append(body.substring_char(0, lead));
        out.append(new_content);
        if trail >= lead {
            out.append(body.substring_char(trail, m));
        }
        out.append(source.substring_char(ce, n));
        proof {
            let b = body@;
            assert(b =~= source@.subrange(cs as int, ce as int));
            assert(first_non_break_from(b, lead as int) == lead);
            assert(end_non_break_before(b, trail as int) == trail);
            assert(source@.subrange(0, cs as int) =~= source@.take(cs as int));
            assert(b.subrange(0, lead as int) =~= b.take(lead as int));
            assert(b.subrange(trail as int, m as int) =~= b.skip(trail as int));
            assert(source@.subrange(ce as int, n as int) =~= source@.skip(ce as int));
        }
        assert(out@ =~= spec_replace_section(source@, heading_view(*section), new_content@));
        out
    }

    /// The page with a complete section inserted before or after an anchor
    /// section; a line break is added between the new section and what
    /// follows when neither provides one.
    pub fn insert_section_content(
        &self,
        source: &str,
        anchor: &ParsedHeading,
        placement: EditPageInsertSectionPlacement,
        new_section: &str,
    ) -> (r: String)
        requires
            heading_fits(source@, heading_view(*anchor)),
        ensures
            r@ == spec_insert_section(source@, heading_view(*anchor), placement, new_section@),
    {
        let n = source.unicode_len();
        let (hs, _, ce) = section_char_range(&chars_of(source), anchor);
        let at = match placement {
            EditPageInsertSectionPlacement::Before => hs,
            EditPageInsertSectionPlacement::After => ce,
        };
        let before = source.substring_char(0, at);
        let after = source.substring_char(at, n);
        let mut out = String::from_str(before);
        out.append(new_section);
        let ns = new_section.unicode_len();
        let ends_with_break = ns > 0 && new_section.get_char(ns - 1) == '\n';
        let starts_with_break = at < n && source.get_char(at) == '\n';
        let ghost glue: Seq<char> = Seq::empty();
        if !ends_with_break && !starts_with_break {
            let line_break = "\n";
            proof {
                reveal_strlit("\n");
                glue = seq!['\n'];
                assert(line_break@ =~= glue);
            }
            out.append(line_break);
        }
        out.append(after);
        proof {
            assert(before@ =~= source@.take(at as int));
            assert(after@ =~= source@.skip(at as int));
            if ns > 0 {
                assert(new_section@.last() == new_section@[ns - 1]);
            }
        }
        assert(out@ =~= spec_insert_section(source@, heading_view(*anchor), placement, new_section@));
        out
    }

    /// The page without a section: heading, body and children.
    pub fn delete_section_content(&self, source: &str, section: &ParsedHeading) -> (r: String)
        requires
            heading_fits(source@, heading_view(*section)),
        ensures
            r@ == spec_delete_section(source@, heading_view(*section)),
    {
        let n = source.unicode_len();
        let (hs, _, ce) = section_char_range(&chars_of(source), section);
        let before = source.substring_char(0, hs);
        let after = source.substring_char(ce, n);
        let mut out = String::from_str(before);
        out.append(after);
        proof {
            assert(before@ =~= source@.take(hs as int));
            assert(after@ =~= source@.skip(ce as int));
        }
        out
    }

    /// The page with `old_text` replaced by `new_text`: the first match, or
    /// every match when `occurrence` asks for all of them.
    pub fn replace_text_content(
        &self,
        source: &str,
        old_text: &str,
        new_text: &str,
        occurrence: Option<EditPageReplaceTextOccurrence>,
    ) -> (r: String)
        ensures
            r@ == spec_replace_text(source@, old_text@, new_text@, occurrence),
    {
        match occurrence {
            Some(EditPageReplaceTextOccurrence::All) => replace_every(source, old_text, new_text),
            _ => replace_once(source, old_text, new_text),
        }
    }

    /// The section that a selector names: by id the first section with that
    /// id; by title (trimmed) the only section with that heading text.
    pub fn resolve_section_selector(
        &self,
        sections: &[ParsedHeading],
        selector: SectionSelector,
    ) -> (r: Result<ParsedHeading, McpError>)
        ensures
            match selector_result(headings_view(sections@), selector) {
                Ok(h) => r matches Ok(p) && heading_view(p) == h,
                Err(ev) => is_err_view(r, ev),
            },
    {
        let ghost hs = headings_view(sections@);
        match &selector {
            SectionSelector::ById(id) => {
                let mut i: usize = 0;
                while i < sections.len()
                    invariant
                        hs == headings_view(sections@),
                        hs.len() == sections@.len(),
                        selector == SectionSelector::ById(*id),
                        i <= sections@.len(),
                        first_with_id(hs, id@, i as int) == first_with_id(hs, id@, 0),
                    decreases sections@.len() - i,
                {
                    if str_eq(sections[i].id.as_str(), id.as_str()) {
                        assert(hs[i as int] == heading_view(sections@[i as int]));
                        return Ok(copy_heading(&sections[i]));
                    }
                    i = i + 1;
                }
                let mut m = String::from_str("section not found: ");
                m.append(id.as_str());
                Err(McpError::new(McpErrorCode::NotFound, m))
            },
            SectionSelector::ByTitle(title) => {
                let t = trim_str(title.as_str());
                if t.unicode_len() == 0 {
                    return Err(
                        McpError::new(
                            McpErrorCode::InvalidInput,
                            String::from_str("section title must not be empty"),
                        ),
                    );
                }
                let mut count: usize = 0;
                let mut first: Option<usize> = None;
                let mut i: usize = 0;
                while i < sections.len()
                    invariant
                        hs == headings_view(sections@),
                        hs.len() == sections@.len(),
                        selector == SectionSelector::ByTitle(*title),
                        t@ == trim(title@),
                        i <= sections@.len(),
                        count == title_count(hs, t@, i as int),
                        count <= i,
                        first == (match first_title_before(hs, t@, i as int) {
                            Some(j) => Some(j as usize),
                            None => None::<usize>,
                        }),
                        first_title_before(hs, t@, i as int) matches Some(j) ==> 0 <= j < i,
                    decreases sections@.len() - i,
                {
                    proof {
                        lemma_first_title_before(hs, t@, i as int);
                    }
                    assert(hs[i as int] == heading_view(sections@[i as int]));
                    if str_eq(sections[i].title.as_str(), t) {
                        count = count + 1;
                        if first.is_none() {
                            first = Some(i);
                        }
                    }
                    i = i + 1;
                }
                proof {
                    lemma_first_title_before(hs, t@, hs.len() as int);
                }
                if count == 0 {
                    let mut m = String::from_str("section not found: ");
                    m.append(t);
                    Err(McpError::new(McpErrorCode::NotFound, m))
                } else if count == 1 {
                    let k = first.unwrap();
                    assert(hs[k as int] == heading_view(sections@[k as int]));
                    Ok(copy_heading(&sections[k]))
                } else {
                    let mut m = String::from_str("section title is ambiguous: ");
                    m.append(t);
                    Err(McpError::new(McpErrorCode::InvalidInput, m))
                }
            },
        }
    }

    /// Applies one edit operation to the text of a page.
    pub fn apply_edit_page_operation(&self, source: &str, operation: &EditPageOperation) -> (r:
        Result<String, McpError>)
        ensures
            match spec_apply_edit(source@, *operation) {
                Ok(t) => r matches Ok(s) && s@ == t,
                Err(ev) => is_err_view(r, ev),
            },
    {
        proof {
            law_sections_in_bounds(source@);
        }
        match operation {
            EditPageOperation::ReplaceSection { section, content } => {
                let sections = match self.parse_markdown_toc_sections(source) {
                    Ok(v) => v,
                    Err(e) => return Err(e),
                };
                let target = match self.resolve_section_selector(
                    sections.as_slice(),
                    copy_selector(section),
                ) {
                    Ok(h) => h,
                    Err(e) => return Err(e),
                };
                proof {
                    law_selected_section_is_listed(headings_view(sections@), *section);
                }
                Ok(self.replace_section_content(source, &target, content.as_str()))
            },
            EditPageOperation::InsertSection { anchor, placement, content } => {
                let sections = match self.parse_markdown_toc_sections(source) {
                    Ok(v) => v,
                    Err(e) => return Err(e),
                };
                let target = match self.resolve_section_selector(
                    sections.as_slice(),
                    copy_selector(anchor),
                ) {
                    Ok(h) => h,
                    Err(e) => return Err(e),
                };
                proof {
                    law_selected_section_is_listed(headings_view(sections@), *anchor);
                }
                Ok(self.insert_section_content(source, &target, *placement, content.as_str()))
            },
            EditPageOperation::DeleteSection { section } => {
                let sections = match self.parse_markdown_toc_sections(source) {
                    Ok(v) => v,
                    Err(e) => return Err(e),
                };
                let target = match self.resolve_section_selector(
                    sections.as_slice(),
                    copy_selector(section),
                ) {
                    Ok(h) => h,
                    Err(e) => return Err(e),
                };
                proof {
                    law_selected_section_is_listed(headings_view(sections@), *section);
                }
                Ok(self.delete_section_content(source, &target))
            },
            EditPageOperation::ReplaceText { old_text, new_text, occurrence } => {
                if old_text.unicode_len() == 0 {
                    return Err(
                        McpError::new(
                            McpErrorCode::InvalidInput,
                            String::from_str("old_text must not be empty"),
                        ),
                    );
                }
                let s = chars_of(source);
                let p = chars_of(old_text.as_str());
                if find_from_exec(&s, &p, 0).is_none() {
                    let mut m = String::from_str("text not found: ");
                    m.append(old_text.as_str());
                    return Err(McpError::new(McpErrorCode::NotFound, m));
                }
                Ok(self.replace_text_content(source, old_text.as_str(), new_text.as_str(), *occurrence))
            },
        }
    }

} // impl McpService

} // verus!
