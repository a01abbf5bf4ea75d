//! Reading pages through the store: finding a page by its path, choosing a
//! revision, and the read tools built on them.

use vstd::prelude::*;
use crate::access::{AuthContext, McpOperation, opt_view, prefixes_allow};
use crate::editing::{
    SectionSelector, first_non_break_from, is_break, law_selected_section_is_listed,
    selector_result, spec_extract,
};
use crate::errors::{ErrorView, McpError, McpErrorCode, err_view};
use crate::markdown::{
    HeadingView, ParsedHeading, char_pos, heading_fits, heading_view, headings_view,
    law_sections_in_bounds, spec_sections,
};
use crate::pages::{
    GetPageResult, GetPageSectionResult, GetPageTocResult, ListPageItem, ListPagesResult,
    PageIndex, ResolvedPage, TocSection,
};
use crate::paths::{path_matches_prefix, path_matches_prefix_exec, spec_validate_and_normalize};
use crate::seqs::{lemma_filter_take_step, lemma_take_full};
use crate::service::{
    DEFAULT_LIST_LIMIT, MAX_PAGE_RESULT_LIMIT, McpService, spec_authorized_path,
    spec_resolve_prefix, spec_scope_check,
};
use crate::store::{
    OpStep, PageListEntry, PageSource, Progress, RequestView, Stage, StoreReply, StoreRequest,
    stage_is, step_is, then, unexpected_reply, unexpected_reply_error,
};
use crate::sorting::{Keyed, pick, sorted_by_key, stable_sort_order};
use crate::text::{decimal, decimal_string_u64, lex_lt, str_eq, str_lt};

verus! {

/// A page found by its path: normalized path, id, what the store keeps of
/// it, and its latest revision.
pub ghost struct FoundPage {
    pub path: Seq<char>,
    pub page_id: Seq<char>,
    pub current_path: Option<Seq<char>>,
    pub draft: bool,
    pub latest: u64,
    pub latest_revision: Option<u64>,
}

/// The view of a resolved page.
pub open spec fn resolved_view(rp: ResolvedPage) -> FoundPage {
    FoundPage {
        path: rp.normalized_path@,
        page_id: rp.page_id@,
        current_path: match rp.page_index.current_path {
            Some(c) => Some(c@),
            None => None,
        },
        draft: rp.page_index.draft,
        latest: rp.page_index.latest,
        latest_revision: rp.latest_revision,
    }
}

/// The checks on a page's index record once it is found: it is not
/// deleted, it is at the path asked for, and it is not a draft.
pub open spec fn spec_check_index(path: Seq<char>, page_id: Seq<char>, index: PageIndex, next: int) -> Progress<
    FoundPage,
> {
    match index.current_path {
        None => Progress::Fail((McpErrorCode::NotFound, "deleted page is not available: "@ + path)),
        Some(c) => if c@ != path {
            Progress::Fail(
                (McpErrorCode::InternalError, "current path mismatch: "@ + c@ + " != "@ + path),
            )
        } else if index.draft {
            Progress::Fail((McpErrorCode::Conflict, "draft page is not supported: "@ + path))
        } else {
            Progress::Got(
                FoundPage {
                    path,
                    page_id,
                    current_path: Some(c@),
                    draft: index.draft,
                    latest: index.latest,
                    latest_revision: Some(index.latest),
                },
                next,
            )
        },
    }
}

/// Finding the page at `raw`, reading the replies from index `at` on: its
/// id, then its index record.
pub open spec fn spec_resolve_page(raw: Seq<char>, replies: Seq<StoreReply>, at: int) -> Progress<
    FoundPage,
> {
    match spec_validate_and_normalize(raw) {
        Err(m) => Progress::Fail((McpErrorCode::InvalidInput, m)),
        Ok(p) => if at >= replies.len() {
            Progress::Ask(RequestView::PageId(p))
        } else {
            match replies[at] {
                StoreReply::PageId(Err(e)) => Progress::Fail(
                    (McpErrorCode::InternalError, "page id resolution failed: "@ + e.message@),
                ),
                StoreReply::PageId(Ok(None)) => Progress::Fail(
                    (McpErrorCode::NotFound, "page not found: "@ + p),
                ),
                StoreReply::PageId(Ok(Some(id))) => if at + 1 >= replies.len() {
                    Progress::Ask(RequestView::PageIndex(id@))
                } else {
                    match replies[at + 1] {
                        StoreReply::PageIndex(Err(e)) => Progress::Fail(
                            (
                                McpErrorCode::InternalError,
                                "page index resolution failed: "@ + e.message@,
                            ),
                        ),
                        StoreReply::PageIndex(Ok(None)) => Progress::Fail(
                            (McpErrorCode::InternalError, "page index not found: "@ + id@),
                        ),
                        StoreReply::PageIndex(Ok(Some(index))) => spec_check_index(
                            p,
                            id@,
                            index,
                            at + 2,
                        ),
                        _ => Progress::Fail(unexpected_reply()),
                    }
                },
                _ => Progress::Fail(unexpected_reply()),
            }
        },
    }
}

/// Which revision a read uses: the one asked for, which must not be zero, or
/// the latest.
pub open spec fn spec_select_revision(latest: Option<u64>, revision: Option<u64>) -> Result<
    u64,
    ErrorView,
> {
    match revision {
        Some(r) => if r == 0 {
            Err((McpErrorCode::InvalidInput, "revision must be greater than zero"@))
        } else {
            Ok(r)
        },
        None => match latest {
            Some(l) => Ok(l),
            None => Err((McpErrorCode::Conflict, "draft page does not have latest revision"@)),
        },
    }
}

/// Reading the chosen revision of a page: the revision, its instance id and
/// its text.
pub open spec fn spec_revision_source(
    path: Seq<char>,
    page_id: Seq<char>,
    latest: Option<u64>,
    revision: Option<u64>,
    replies: Seq<StoreReply>,
    at: int,
) -> Progress<(u64, Seq<char>, Seq<char>)> {
    match spec_select_revision(latest, revision) {
        Err(e) => Progress::Fail(e),
        Ok(rev) => if at >= replies.len() {
            Progress::Ask(RequestView::PageSource(page_id, rev))
        } else {
            match replies[at] {
                StoreReply::PageSource(Err(e)) => Progress::Fail(
                    (McpErrorCode::InternalError, "page source lookup failed: "@ + e.message@),
                ),
                StoreReply::PageSource(Ok(None)) => Progress::Fail(
                    (
                        McpErrorCode::NotFound,
                        "revision not found: "@ + path + "/"@ + decimal(rev as nat),
                    ),
                ),
                StoreReply::PageSource(Ok(Some(ps))) => match ps.instance_id {
                    None => Progress::Fail(
                        (McpErrorCode::InternalError, "page source instance_id is missing"@),
                    ),
                    Some(i) => Progress::Got((rev, i@, ps.source@), at + 1),
                },
                _ => Progress::Fail(unexpected_reply()),
            }
        },
    }
}

/// A read of one revision of the page at `raw`: the page, then the
/// revision.
pub open spec fn spec_read_page(
    auth: AuthContext,
    op: McpOperation,
    raw: Seq<char>,
    revision: Option<u64>,
    replies: Seq<StoreReply>,
) -> Progress<(Seq<char>, u64, Seq<char>, Seq<char>)> {
    match spec_authorized_path(auth, op, raw) {
        Err(e) => Progress::Fail(e),
        Ok(p) => then(
            spec_resolve_page(p, replies, 0),
            |f: FoundPage, n: int|
                then(
                    spec_revision_source(f.path, f.page_id, f.latest_revision, revision, replies, n),
                    |t: (u64, Seq<char>, Seq<char>), m: int| Progress::Got((f.path, t.0, t.1, t.2), m),
                ),
        ),
    }
}

/// Law: a read that asks for a positive revision `r` asks the store for
/// revision `r` of the page and answers with revision `r`, whatever the
/// page's latest revision is; a read that names no revision uses the
/// latest.
pub proof fn law_requested_revision_is_read(
    auth: AuthContext,
    op: McpOperation,
    raw: Seq<char>,
    r: u64,
    replies: Seq<StoreReply>,
)
    requires
        r > 0,
    ensures
        spec_read_page(auth, op, raw, Some(r), replies) matches Progress::Ask(
            RequestView::PageSource(_, rev),
        ) ==> rev == r,
        spec_read_page(auth, op, raw, Some(r), replies) matches Progress::Got(t, _) ==> t.1 == r,
        spec_read_page(auth, op, raw, None, replies) matches Progress::Got(t, _) ==> (
        spec_authorized_path(auth, op, raw) matches Ok(p) && spec_resolve_page(p, replies, 0) matches Progress::Got(f, _)
            && f.latest_revision == Some(t.1)),
{
    if let Ok(p) = spec_authorized_path(auth, op, raw) {
        lemma_resolve_never_asks_source(p, replies);
    }
}

/// Finding a page asks only for its id and its index.
proof fn lemma_resolve_never_asks_source(raw: Seq<char>, replies: Seq<StoreReply>)
    ensures
        !(spec_resolve_page(raw, replies, 0) matches Progress::Ask(RequestView::PageSource(_, _))),
{
    if let Ok(p) = spec_validate_and_normalize(raw) {
        if 0 < replies.len() {
            if let StoreReply::PageId(Ok(Some(id))) = replies[0] {
                if 1 < replies.len() {
                    if let StoreReply::PageIndex(Ok(Some(index))) = replies[1] {
                        assert(!(spec_check_index(p, id@, index, 2) is Ask));
                    }
                }
            }
        }
    }
}

/// A section as the table of contents shows it.
pub ghost struct TocView {
    pub id: Seq<char>,
    pub title: Seq<char>,
    pub level: u32,
    pub ordinal: u32,
    pub parent_id: Option<Seq<char>>,
    pub section_chars: nat,
}

/// The table-of-contents entry of a section of `source`: its body length is
/// counted in characters, leading line breaks left out.
pub open spec fn section_toc(source: Seq<char>, h: HeadingView) -> TocView {
    TocView {
        id: h.id,
        title: h.title,
        level: h.level,
        ordinal: h.ordinal,
        parent_id: h.parent_id,
        section_chars: spec_extract(source, h).len(),
    }
}

/// The view of a table-of-contents entry.
pub open spec fn toc_view(t: TocSection) -> TocView {
    TocView {
        id: t.id@,
        title: t.title@,
        level: t.level,
        ordinal: t.ordinal,
        parent_id: match t.parent_id {
            Some(p) => Some(p@),
            None => None,
        },
        section_chars: t.section_chars as nat,
    }
}

/// What `get_page_toc` gives: path, revision, instance id and the table of
/// contents.
pub open spec fn spec_get_page_toc(
    auth: AuthContext,
    raw: Seq<char>,
    revision: Option<u64>,
    replies: Seq<StoreReply>,
) -> Progress<(Seq<char>, u64, Seq<char>, Seq<TocView>)> {
    then(
        spec_read_page(auth, McpOperation::GetPageToc, raw, revision, replies),
        |r: (Seq<char>, u64, Seq<char>, Seq<char>), n: int|
            match spec_sections(r.3) {
                Err(e) => Progress::Fail(e),
                Ok(hs) => Progress::Got(
                    (r.0, r.1, r.2, hs.map_values(|h: HeadingView| section_toc(r.3, h))),
                    n,
                ),
            },
    )
}

/// What `get_page_section` gives: path, revision, the section's entry and
/// its body.
pub open spec fn spec_get_page_section(
    auth: AuthContext,
    raw: Seq<char>,
    selector: SectionSelector,
    revision: Option<u64>,
    replies: Seq<StoreReply>,
) -> Progress<(Seq<char>, u64, TocView, Seq<char>)> {
    then(
        spec_read_page(auth, McpOperation::GetPageSection, raw, revision, replies),
        |r: (Seq<char>, u64, Seq<char>, Seq<char>), n: int|
            match spec_sections(r.3) {
                Err(e) => Progress::Fail(e),
                Ok(hs) => match selector_result(hs, selector) {
                    Err(e) => Progress::Fail(e),
                    Ok(h) => Progress::Got((r.0, r.1, section_toc(r.3, h), spec_extract(r.3, h)), n),
                },
            },
    )
}


/// Whether `content` is the body of section `h` of `source`: the text from
/// the end of its leading line breaks up to where the section ends.
pub open spec fn is_section_body(source: Seq<char>, h: HeadingView, content: Seq<char>) -> bool {
    let cs = char_pos(source, h.content_start);
    let ce = char_pos(source, h.content_end);
    exists|a: int|
        cs <= a <= ce && content == #[trigger] source.subrange(a, ce) && (forall|i: int|
            cs <= i < a ==> is_break(source[i])) && (a < ce ==> !is_break(source[a]))
}

proof fn lemma_first_non_break_from(s: Seq<char>, i: int)
    requires
        0 <= i <= s.len(),
    ensures
        i <= first_non_break_from(s, i) <= s.len(),
        forall|k: int| i <= k < first_non_break_from(s, i) ==> is_break(s[k]),
        first_non_break_from(s, i) < s.len() ==> !is_break(s[first_non_break_from(s, i)]),
    decreases s.len() - i,
{
    if i < s.len() && is_break(s[i]) {
        lemma_first_non_break_from(s, i + 1);
    }
}

/// Law: the content that `get_page_section` answers with is the body of one
/// of the page's sections, the one whose entry it answers with: the page
/// text from the end of the body's leading line breaks to the end of the
/// section, as long as the entry's character count says.
pub proof fn law_section_content_is_its_body(
    auth: AuthContext,
    raw: Seq<char>,
    selector: SectionSelector,
    revision: Option<u64>,
    replies: Seq<StoreReply>,
)
    ensures
        spec_get_page_section(auth, raw, selector, revision, replies) matches Progress::Got(t, _) ==> {
            &&& t.3.len() == t.2.section_chars
            &&& spec_read_page(auth, McpOperation::GetPageSection, raw, revision, replies) matches Progress::Got(r, _)
                && spec_sections(r.3) matches Ok(hs) && exists|k: int|
                0 <= k < hs.len() && hs[k].id == t.2.id && is_section_body(r.3, #[trigger] hs[k], t.3)
        },
{
    if let Progress::Got(r, n) = spec_read_page(auth, McpOperation::GetPageSection, raw, revision, replies) {
        if let Ok(hs) = spec_sections(r.3) {
            if let Ok(h) = selector_result(hs, selector) {
                law_selected_section_is_listed(hs, selector);
                law_sections_in_bounds(r.3);
                let k = choose|k: int| 0 <= k < hs.len() && hs[k] == h;
                assert(heading_fits(r.3, hs[k]));
                let src = r.3;
                let cs = char_pos(src, h.content_start);
                let ce = char_pos(src, h.content_end);
                let body = src.subrange(cs, ce);
                lemma_first_non_break_from(body, 0);
                let a = cs + first_non_break_from(body, 0);
                assert(spec_extract(src, h) =~= src.subrange(a, ce));
                assert forall|i: int| cs <= i < a implies is_break(src[i]) by {
                    assert(body[i - cs] == src[i]);
                }
                if a < ce {
                    assert(body[a - cs] == src[a]);
                }
                assert(is_section_body(src, hs[k], spec_extract(src, h)));
            }
        }
    }
}

/// Whether `list_pages` shows an entry: neither deleted nor a draft, within
/// the caller's prefixes, and after the cursor.
pub open spec fn listed(auth: AuthContext, cursor: Option<Seq<char>>, e: PageListEntry) -> bool {
    &&& !e.deleted
    &&& !e.draft
    &&& prefixes_allow(auth.spec_prefixes(), e.path@)
    &&& match cursor {
        Some(c) => lex_lt(c, e.path@),
        None => true,
    }
}

/// A listed page as the tool shows it: path, revision, update time, author.
pub open spec fn entry_item(e: PageListEntry) -> (Seq<char>, u64, Seq<char>, Seq<char>) {
    (e.path@, e.latest_revision, e.updated_at@, e.user_name@)
}

/// The view of a listed page.
pub open spec fn item_view(i: ListPageItem) -> (Seq<char>, u64, Seq<char>, Seq<char>) {
    (i.path@, i.revision, i.updated_at@, i.updated_by@)
}

/// One page of a listing of `visible` entries with at most `limit` items:
/// the items, whether more follow, and the cursor for the next page.
pub open spec fn list_page_of(visible: Seq<PageListEntry>, limit: int) -> (
    Seq<(Seq<char>, u64, Seq<char>, Seq<char>)>,
    bool,
    Option<Seq<char>>,
) {
    let has_more = visible.len() > limit;
    let selected = if has_more {
        visible.take(limit)
    } else {
        visible
    };
    (
        selected.map_values(|e: PageListEntry| entry_item(e)),
        has_more,
        if has_more {
            Some(selected.last().path@)
        } else {
            None
        },
    )
}

/// A page of a listing holds at most `limit` items, taken in order from the
/// start; more follow exactly when the listing is longer, and then the next
/// cursor is the last item's path, otherwise there is none.
pub proof fn law_list_page_shape(visible: Seq<PageListEntry>, limit: int)
    requires
        limit >= 1,
    ensures
        ({
            let (items, has_more, next) = list_page_of(visible, limit);
            &&& items.len() <= limit
            &&& has_more == (visible.len() > limit)
            &&& items == visible.take(items.len() as int).map_values(|e: PageListEntry| entry_item(e))
            &&& has_more ==> items.len() == limit && next == Some(items.last().0)
            &&& !has_more ==> items.len() == visible.len() && next is None
        }),
{
    let (items, has_more, next) = list_page_of(visible, limit);
    if has_more {
        assert(items =~= visible.take(limit).map_values(|e: PageListEntry| entry_item(e)));
    } else {
        assert(visible.take(visible.len() as int) =~= visible);
    }
}

/// The limit of a listing: the default when absent; it must lie in `1..=100`.
pub open spec fn spec_limit(limit: Option<usize>, default_limit: usize) -> Result<usize, ErrorView> {
    let l = match limit {
        Some(v) => v,
        None => default_limit,
    };
    if 1 <= l <= MAX_PAGE_RESULT_LIMIT {
        Ok(l)
    } else {
        Err((McpErrorCode::InvalidInput, "limit must be between 1 and 100"@))
    }
}

/// A listing cursor, normalized; it must lie at or under the prefix.
pub open spec fn spec_list_cursor(cursor: Option<Seq<char>>, prefix: Seq<char>) -> Result<
    Option<Seq<char>>,
    ErrorView,
> {
    match cursor {
        None => Ok(None),
        Some(c) => match spec_validate_and_normalize(c) {
            Err(m) => Err((McpErrorCode::InvalidInput, m)),
            Ok(n) => if path_matches_prefix(n, prefix) {
                Ok(Some(n))
            } else {
                Err((McpErrorCode::InvalidInput, "cursor must be under requested prefix"@))
            },
        },
    }
}

/// What `list_pages` gives: the visible pages at or under the prefix,
/// sorted by path, after the cursor, at most `limit` of them.
pub open spec fn spec_list_pages(
    auth: AuthContext,
    raw_prefix: Seq<char>,
    limit: Option<usize>,
    cursor: Option<Seq<char>>,
    replies: Seq<StoreReply>,
) -> Progress<(Seq<(Seq<char>, u64, Seq<char>, Seq<char>)>, bool, Option<Seq<char>>)> {
    match spec_scope_check(auth, McpOperation::ListPages) {
        Some(e) => Progress::Fail(e),
        None => match spec_resolve_prefix(auth, McpOperation::ListPages, Some(raw_prefix)) {
            Err(e) => Progress::Fail(e),
            Ok(rp) => match spec_limit(limit, DEFAULT_LIST_LIMIT) {
                Err(e) => Progress::Fail(e),
                Ok(l) => {
                    let prefix = match rp {
                        Some(q) => q,
                        None => "/"@,
                    };
                    match spec_list_cursor(cursor, prefix) {
                        Err(e) => Progress::Fail(e),
                        Ok(c) => if replies.len() == 0 {
                            Progress::Ask(RequestView::ListEntries(prefix))
                        } else {
                            match replies[0] {
                                StoreReply::Entries(Err(e)) => Progress::Fail(
                                    (McpErrorCode::InternalError, "list pages failed: "@ + e.message@),
                                ),
                                StoreReply::Entries(Ok(v)) => Progress::Got(
                                    list_page_of(
                                        sorted_by_key(v@).filter(
                                            |e: PageListEntry| listed(auth, c, e),
                                        ),
                                        l as int,
                                    ),
                                    1,
                                ),
                                _ => Progress::Fail(unexpected_reply()),
                            }
                        },
                    }
                },
            },
        },
    }
}

impl Keyed for PageListEntry {
    open spec fn sort_key(&self) -> Seq<char> {
        self.path@
    }

    fn key_str(&self) -> (k: &str) {
        self.path.as_str()
    }
}

fn copy_entry(e: &PageListEntry) -> (r: PageListEntry)
    ensures
        r == *e,
{
    PageListEntry {
        path: e.path.clone(),
        deleted: e.deleted,
        draft: e.draft,
        latest_revision: e.latest_revision,
        updated_at: e.updated_at.clone(),
        user_name: e.user_name.clone(),
    }
}

fn copy_index(ix: &PageIndex) -> (r: PageIndex)
    ensures
        r == *ix,
{
    PageIndex {
        current_path: match &ix.current_path {
            Some(c) => Some(c.clone()),
            None => None,
        },
        draft: ix.draft,
        latest: ix.latest,
    }
}

impl McpService {
    /// Finds the page at `raw_path` from the replies at index `at` on: the
    /// path is normalized, its page id looked up, then its index record, which
    /// must show the page at that path, not deleted and not a draft.
    pub fn resolve_page_by_path(&self, raw_path: &str, replies: &[StoreReply], at: usize) -> (r:
        Stage<ResolvedPage>)
        ensures
            stage_is(
                r,
                spec_resolve_page(raw_path@, replies@, at as int),
                |rp: ResolvedPage| resolved_view(rp),
            ),
    {
        let p = match self.validate_and_normalize_path(raw_path) {
            Ok(p) => p,
            Err(e) => return Stage::Fail(e),
        };
        if at >= replies.len() {
            return Stage::Ask(StoreRequest::PageId { path: p });
        }
        let id = match &replies[at] {
            StoreReply::PageId(Err(e)) => {
                let mut m = String::from_str("page id resolution failed: ");
                m.append(e.message.as_str());
                return Stage::Fail(McpError::new(McpErrorCode::InternalError, m));
            },
            StoreReply::PageId(Ok(None)) => {
                let mut m = String::from_str("page not found: ");
                m.append(p.as_str());
                return Stage::Fail(McpError::new(McpErrorCode::NotFound, m));
            },
            StoreReply::PageId(Ok(Some(id))) => id.clone(),
            _ => return Stage::Fail(unexpected_reply_error()),
        };
        if at + 1 >= replies.len() {
            return Stage::Ask(StoreRequest::PageIndex { page_id: id });
        }
        let index = match &replies[at + 1] {
            StoreReply::PageIndex(Err(e)) => {
                let mut m = String::from_str("page index resolution failed: ");
                m.append(e.message.as_str());
                return Stage::Fail(McpError::new(McpErrorCode::InternalError, m));
            },
            StoreReply::PageIndex(Ok(None)) => {
                let mut m = String::from_str("page index not found: ");
                m.append(id.as_str());
                return Stage::Fail(McpError::new(McpErrorCode::InternalError, m));
            },
            StoreReply::PageIndex(Ok(Some(index))) => copy_index(index),
            _ => return Stage::Fail(unexpected_reply_error()),
        };
        let current = match index.current_path() {
            Some(c) => c,
            None => {
                let mut m = String::from_str("deleted page is not available: ");
                m.append(p.as_str());
                return Stage::Fail(McpError::new(McpErrorCode::NotFound, m));
            },
        };
        if !str_eq(current, p.as_str()) {
            let mut m = String::from_str("current path mismatch: ");
            m.append(current);
            m.append(" != ");
            m.append(p.as_str());
            return Stage::Fail(McpError::new(McpErrorCode::InternalError, m));
        }
        if index.is_draft() {
            let mut m = String::from_str("draft page is not supported: ");
            m.append(p.as_str());
            return Stage::Fail(McpError::new(McpErrorCode::Conflict, m));
        }
        let latest = index.latest();
        Stage::Got(ResolvedPage::new(p, id, index, Some(latest)), at + 2)
    }

    /// The revision a read uses: the one asked for, which must not be zero,
    /// or the page's latest.
    pub fn select_revision(&self, resolved: &ResolvedPage, revision: Option<u64>) -> (r: Result<
        u64,
        McpError,
    >)
        ensures
            match spec_select_revision(resolved.latest_revision, revision) {
                Ok(v) => r == Ok::<u64, McpError>(v),
                Err(ev) => r matches Err(e) && err_view(e) == ev,
            },
    {
        match revision {
            Some(v) => if v == 0 {
                Err(
                    McpError::new(
                        McpErrorCode::InvalidInput,
                        String::from_str("revision must be greater than zero"),
                    ),
                )
            } else {
                Ok(v)
            },
            None => match resolved.latest_revision() {
                Some(l) => Ok(l),
                None => Err(
                    McpError::new(
                        McpErrorCode::Conflict,
                        String::from_str("draft page does not have latest revision"),
                    ),
                ),
            },
        }
    }

    /// Reads the chosen revision of a resolved page from the reply at index
    /// `at`: the revision, its instance id and its text.
    pub fn resolve_revision_source(
        &self,
        resolved: &ResolvedPage,
        revision: Option<u64>,
        replies: &[StoreReply],
        at: usize,
    ) -> (r: Stage<(u64, String, String)>)
        ensures
            stage_is(
                r,
                spec_revision_source(
                    resolved.normalized_path@,
                    resolved.page_id@,
                    resolved.latest_revision,
                    revision,
                    replies@,
                    at as int,
                ),
                |t: (u64, String, String)| (t.0, t.1@, t.2@),
            ),
    {
        let rev = match self.select_revision(resolved, revision) {
            Ok(v) => v,
            Err(e) => return Stage::Fail(e),
        };
        if at >= replies.len() {
            return Stage::Ask(
                StoreRequest::PageSource { page_id: resolved.page_id.clone(), revision: rev },
            );
        }
        match &replies[at] {
            StoreReply::PageSource(Err(e)) => {
                let mut m = String::from_str("page source lookup failed: ");
                m.append(e.message.as_str());
                Stage::Fail(McpError::new(McpErrorCode::InternalError, m))
            },
            StoreReply::PageSource(Ok(None)) => {
                let mut m = String::from_str("revision not found: ");
                m.append(resolved.normalized_path());
                m.append("/");
                let d = decimal_string_u64(rev);
                m.append(d.as_str());
                Stage::Fail(McpError::new(McpErrorCode::NotFound, m))
            },
            StoreReply::PageSource(Ok(Some(ps))) => match &ps.instance_id {
                None => Stage::Fail(
                    McpError::new(
                        McpErrorCode::InternalError,
                        String::from_str("page source instance_id is missing"),
                    ),
                ),
                Some(i) => Stage::Got((rev, i.clone(), ps.source.clone()), at + 1),
            },
            _ => Stage::Fail(unexpected_reply_error()),
        }
    }

    /// Authorizes a read of `raw_path` for `operation`, finds the page and
    /// reads the chosen revision.
    fn read_page(
        &self,
        auth: &AuthContext,
        operation: McpOperation,
        raw_path: &str,
        revision: Option<u64>,
        replies: &[StoreReply],
    ) -> (r: Stage<(String, u64, String, String)>)
        ensures
            stage_is(
                r,
                spec_read_page(*auth, operation, raw_path@, revision, replies@),
                |t: (String, u64, String, String)| (t.0@, t.1, t.2@, t.3@),
            ),
    {
        let p = match self.ensure_authorized_path(auth, operation, raw_path) {
            Ok(p) => p,
            Err(e) => return Stage::Fail(e),
        };
        let (resolved, n) = match self.resolve_page_by_path(p.as_str(), replies, 0) {
            Stage::Ask(q) => return Stage::Ask(q),
            Stage::Fail(e) => return Stage::Fail(e),
            Stage::Got(rp, n) => (rp, n),
        };
        match self.resolve_revision_source(&resolved, revision, replies, n) {
            Stage::Ask(q) => Stage::Ask(q),
            Stage::Fail(e) => Stage::Fail(e),
            Stage::Got((rev, inst, src), m) => Stage::Got(
                (resolved.normalized_path.clone(), rev, inst, src),
                m,
            ),
        }
    }

    /// [`McpService::get_page`], also giving the index of the first reply it did
    /// not read, for callers that continue the conversation.
    pub(crate) fn get_page_stage(
        &self,
        auth: &AuthContext,
        raw_path: &str,
        revision: Option<u64>,
        replies: &[StoreReply],
    ) -> (r: Stage<GetPageResult>)
        ensures
            stage_is(
                r,
                spec_read_page(*auth, McpOperation::GetPage, raw_path@, revision, replies@),
                |g: GetPageResult| (g.path@, g.revision, g.instance_id@, g.content@),
            ),
    {
        match self.read_page(auth, McpOperation::GetPage, raw_path, revision, replies) {
            Stage::Ask(q) => Stage::Ask(q),
            Stage::Fail(e) => Stage::Fail(e),
            Stage::Got((p, rev, inst, src), m) => Stage::Got(GetPageResult::new(p, rev, inst, src), m),
        }
    }

    /// `get_page`: the text of a revision of the page at `raw_path`, with its
    /// revision and instance id.
    pub fn get_page(
        &self,
        auth: &AuthContext,
        raw_path: &str,
        revision: Option<u64>,
        replies: &[StoreReply],
    ) -> (r: OpStep<GetPageResult>)
        ensures
            step_is(
                r,
                spec_read_page(*auth, McpOperation::GetPage, raw_path@, revision, replies@),
                |g: GetPageResult| (g.path@, g.revision, g.instance_id@, g.content@),
            ),
    {
        match self.get_page_stage(auth, raw_path, revision, replies) {
            Stage::Ask(q) => OpStep::Ask(q),
            Stage::Fail(e) => OpStep::Done(Err(e)),
            Stage::Got(v, _) => OpStep::Done(Ok(v)),
        }
    }


    /// The table-of-contents entry of a section of `source`.
    fn toc_section(&self, source: &str, h: &ParsedHeading) -> (t: TocSection)
        requires
            heading_fits(source@, heading_view(*h)),
        ensures
            toc_view(t) == section_toc(source@, heading_view(*h)),
    {
        let content = self.extract_section_content(source, h);
        TocSection::new(
            h.id.clone(),
            h.title.clone(),
            h.level,
            h.ordinal,
            match &h.parent_id {
                Some(p) => Some(p.clone()),
                None => None,
            },
            content.as_str().unicode_len(),
        )
    }

    /// [`McpService::get_page_toc`], also giving the index of the first reply it did
    /// not read, for callers that continue the conversation.
    pub(crate) fn get_page_toc_stage(
        &self,
        auth: &AuthContext,
        raw_path: &str,
        revision: Option<u64>,
        replies: &[StoreReply],
    ) -> (r: Stage<GetPageTocResult>)
        ensures
            stage_is(
                r,
                spec_get_page_toc(*auth, raw_path@, revision, replies@),
                |g: GetPageTocResult|
                    (
                        g.path@,
                        g.revision,
                        g.instance_id@,
                        g.sections@.map_values(|t: TocSection| toc_view(t)),
                    ),
            ),
    {
        let ((p, rev, inst, src), next) = match self.read_page(
            auth,
            McpOperation::GetPageToc,
            raw_path,
            revision,
            replies,
        ) {
            Stage::Ask(q) => return Stage::Ask(q),
            Stage::Fail(e) => return Stage::Fail(e),
            Stage::Got(t, m) => (t, m),
        };
        let parsed = match self.parse_markdown_toc_sections(src.as_str()) {
            Ok(v) => v,
            Err(e) => return Stage::Fail(e),
        };
        proof {
            law_sections_in_bounds(src@);
        }
        let ghost hs = headings_view(parsed@);
        let mut sections: Vec<TocSection> = Vec::new();
        let mut i: usize = 0;
        while i < parsed.len()
            invariant
                hs == headings_view(parsed@),
                hs.len() == parsed@.len(),
                spec_sections(src@) == Ok::<Seq<HeadingView>, ErrorView>(hs),
                forall|k: int|
                    0 <= k < hs.len() ==> heading_fits(src@, #[trigger] hs[k]),
                i <= parsed@.len(),
                sections@.len() == i,
                forall|k: int|
                    0 <= k < i ==> toc_view(#[trigger] sections@[k]) == section_toc(src@, hs[k]),
            decreases parsed@.len() - i,
        {
            assert(hs[i as int] == heading_view(parsed@[i as int]));
            let t = self.toc_section(src.as_str(), &parsed[i]);
            sections.push(t);
            i = i + 1;
        }
        assert(sections@.map_values(|t: TocSection| toc_view(t)) =~= hs.map_values(
            |h: HeadingView| section_toc(src@, h),
        ));
        Stage::Got(GetPageTocResult::new(p, rev, inst, sections), next)
    }

    /// `get_page_toc`: the sections of a revision of the page at `raw_path`,
    /// each with the length of its body in characters.
    pub fn get_page_toc(
        &self,
        auth: &AuthContext,
        raw_path: &str,
        revision: Option<u64>,
        replies: &[StoreReply],
    ) -> (r: OpStep<GetPageTocResult>)
        ensures
            step_is(
                r,
                spec_get_page_toc(*auth, raw_path@, revision, replies@),
                |g: GetPageTocResult|
                    (
                        g.path@,
                        g.revision,
                        g.instance_id@,
                        g.sections@.map_values(|t: TocSection| toc_view(t)),
                    ),
            ),
    {
        match self.get_page_toc_stage(auth, raw_path, revision, replies) {
            Stage::Ask(q) => OpStep::Ask(q),
            Stage::Fail(e) => OpStep::Done(Err(e)),
            Stage::Got(v, _) => OpStep::Done(Ok(v)),
        }
    }


    /// [`McpService::get_page_section`], also giving the index of the first reply it did
    /// not read, for callers that continue the conversation.
    pub(crate) fn get_page_section_stage(
        &self,
        auth: &AuthContext,
        raw_path: &str,
        section_selector: SectionSelector,
        revision: Option<u64>,
        replies: &[StoreReply],
    ) -> (r: Stage<GetPageSectionResult>)
        ensures
            stage_is(
                r,
                spec_get_page_section(*auth, raw_path@, section_selector, revision, replies@),
                |g: GetPageSectionResult| (g.path@, g.revision, toc_view(g.section), g.content@),
            ),
    {
        let ((p, rev, _, src), next) = match self.read_page(
            auth,
            McpOperation::GetPageSection,
            raw_path,
            revision,
            replies,
        ) {
            Stage::Ask(q) => return Stage::Ask(q),
            Stage::Fail(e) => return Stage::Fail(e),
            Stage::Got(t, m) => (t, m),
        };
        let parsed = match self.parse_markdown_toc_sections(src.as_str()) {
            Ok(v) => v,
            Err(e) => return Stage::Fail(e),
        };
        let ghost sel = section_selector;
        let target = match self.resolve_section_selector(parsed.as_slice(), section_selector) {
            Ok(h) => h,
            Err(e) => return Stage::Fail(e),
        };
        proof {
            law_sections_in_bounds(src@);
            law_selected_section_is_listed(headings_view(parsed@), sel);
        }
        let content = self.extract_section_content(src.as_str(), &target);
        let section = self.toc_section(src.as_str(), &target);
        Stage::Got(GetPageSectionResult::new(p, rev, section, content), next)
    }

    /// `get_page_section`: one section of a revision of the page at
    /// `raw_path`, with its body.
    pub fn get_page_section(
        &self,
        auth: &AuthContext,
        raw_path: &str,
        section_selector: SectionSelector,
        revision: Option<u64>,
        replies: &[StoreReply],
    ) -> (r: OpStep<GetPageSectionResult>)
        ensures
            step_is(
                r,
                spec_get_page_section(*auth, raw_path@, section_selector, revision, replies@),
                |g: GetPageSectionResult| (g.path@, g.revision, toc_view(g.section), g.content@),
            ),
    {
        match self.get_page_section_stage(auth, raw_path, section_selector, revision, replies) {
            Stage::Ask(q) => OpStep::Ask(q),
            Stage::Fail(e) => OpStep::Done(Err(e)),
            Stage::Got(v, _) => OpStep::Done(Ok(v)),
        }
    }


    /// Whether `list_pages` may show an entry: it is neither deleted nor a
    /// draft and lies within the caller's prefixes.
    pub fn entry_visible_for_list(&self, auth: &AuthContext, entry: &PageListEntry) -> (b: bool)
        ensures
            b == (!entry.deleted && !entry.draft && prefixes_allow(
                auth.spec_prefixes(),
                entry.path@,
            )),
    {
        !entry.deleted && !entry.draft && self.is_path_prefix_allowed(auth, entry.path.as_str())
    }

    /// [`McpService::list_pages`], also giving the index of the first reply it did
    /// not read, for callers that continue the conversation.
    pub(crate) fn list_pages_stage(
        &self,
        auth: &AuthContext,
        raw_prefix: &str,
        limit: Option<usize>,
        cursor: Option<&str>,
        replies: &[StoreReply],
    ) -> (r: Stage<ListPagesResult>)
        ensures
            stage_is(
                r,
                spec_list_pages(
                    *auth,
                    raw_prefix@,
                    limit,
                    match cursor {
                        Some(c) => Some(c@),
                        None => None,
                    },
                    replies@,
                ),
                |g: ListPagesResult|
                    (
                        g.items@.map_values(|i: ListPageItem| item_view(i)),
                        g.has_more,
                        match g.next_cursor {
                            Some(c) => Some(c@),
                            None => None,
                        },
                    ),
            ),
    {
        if let Err(e) = self.ensure_operation_scope(auth, McpOperation::ListPages) {
            return Stage::Fail(e);
        }
        let resolved = match self.resolve_list_prefix_request(auth, Some(raw_prefix)) {
            Ok(rp) => rp,
            Err(e) => return Stage::Fail(e),
        };
        let limit = match self.resolve_limit(limit, DEFAULT_LIST_LIMIT) {
            Ok(l) => l,
            Err(e) => return Stage::Fail(e),
        };
        let prefix = match resolved.requested_prefix() {
            Some(q) => String::from_str(q),
            None => String::from_str("/"),
        };
        let normalized_cursor: Option<String> = match cursor {
            Some(c) => {
                let n = match self.validate_and_normalize_path(c) {
                    Ok(n) => n,
                    Err(e) => return Stage::Fail(e),
                };
                if !path_matches_prefix_exec(n.as_str(), prefix.as_str()) {
                    return Stage::Fail(
                            McpError::new(
                                McpErrorCode::InvalidInput,
                                String::from_str("cursor must be under requested prefix"),
                            ),
                        );
                }
                Some(n)
            },
            None => None,
        };
        let ghost c: Option<Seq<char>> = opt_view(normalized_cursor);
        if replies.len() == 0 {
            return Stage::Ask(StoreRequest::ListEntries { prefix });
        }
        let entries = match &replies[0] {
            StoreReply::Entries(Err(e)) => {
                let mut m = String::from_str("list pages failed: ");
                m.append(e.message.as_str());
                return Stage::Fail(McpError::new(McpErrorCode::InternalError, m));
            },
            StoreReply::Entries(Ok(v)) => v,
            _ => return Stage::Fail(unexpected_reply_error()),
        };
        let order = stable_sort_order(entries);
        let ghost sorted = pick(entries@, order@);
        let ghost pred = |e: PageListEntry| listed(*auth, c, e);
        let mut visible: Vec<PageListEntry> = Vec::new();
        let mut i: usize = 0;
        while i < order.len()
            invariant
                i <= order@.len(),
                sorted == pick(entries@, order@),
                forall|j: int| 0 <= j < order@.len() ==> order@[j] < entries@.len(),
                pred == (|e: PageListEntry| listed(*auth, c, e)),
                c == opt_view(normalized_cursor),
                visible@ == sorted.take(i as int).filter(pred),
            decreases order@.len() - i,
        {
            proof {
                lemma_filter_take_step(sorted, pred, i as int);
            }
            let e = &entries[order[i]];
            assert(sorted[i as int] == *e);
            let after_cursor = match &normalized_cursor {
                Some(n) => str_lt(n.as_str(), e.path.as_str()),
                None => true,
            };
            if self.entry_visible_for_list(auth, e) && after_cursor {
                visible.push(copy_entry(e));
            }
            i = i + 1;
        }
        proof {
            lemma_take_full(sorted);
        }
        let has_more = visible.len() > limit;
        let count = if has_more {
            limit
        } else {
            visible.len()
        };
        let mut items: Vec<ListPageItem> = Vec::new();
        let mut j: usize = 0;
        while j < count
            invariant
                count <= visible@.len(),
                j <= count,
                items@.len() == j,
                forall|k: int|
                    0 <= k < j ==> item_view(#[trigger] items@[k]) == entry_item(visible@[k]),
            decreases count - j,
        {
            let e = &visible[j];
            items.push(
                ListPageItem::new(
                    e.path.clone(),
                    e.latest_revision,
                    e.updated_at.clone(),
                    e.user_name.clone(),
                ),
            );
            j = j + 1;
        }
        let next_cursor = if has_more {
            Some(visible[count - 1].path.clone())
        } else {
            None
        };
        proof {
            let sel = if has_more {
                visible@.take(limit as int)
            } else {
                visible@
            };
            assert(sel.len() == count);
            assert(items@.map_values(|i: ListPageItem| item_view(i)) =~= sel.map_values(
                |e: PageListEntry| entry_item(e),
            ));
            if has_more {
                assert(sel.last() == visible@[count - 1]);
            }
        }
        Stage::Got(ListPagesResult::new(items, has_more, next_cursor), 1)
    }

    /// `list_pages`: the visible pages at or under `raw_prefix`, sorted by
    /// path, after the cursor, at most `limit` (by default 50) of them, with
    /// whether more follow and where the next page starts.
    pub fn list_pages(
        &self,
        auth: &AuthContext,
        raw_prefix: &str,
        limit: Option<usize>,
        cursor: Option<&str>,
        replies: &[StoreReply],
    ) -> (r: OpStep<ListPagesResult>)
        ensures
            step_is(
                r,
                spec_list_pages(
                    *auth,
                    raw_prefix@,
                    limit,
                    match cursor {
                        Some(c) => Some(c@),
                        None => None,
                    },
                    replies@,
                ),
                |g: ListPagesResult|
                    (
                        g.items@.map_values(|i: ListPageItem| item_view(i)),
                        g.has_more,
                        match g.next_cursor {
                            Some(c) => Some(c@),
                            None => None,
                        },
                    ),
            ),
    {
        match self.list_pages_stage(auth, raw_prefix, limit, cursor, replies) {
            Stage::Ask(q) => OpStep::Ask(q),
            Stage::Fail(e) => OpStep::Done(Err(e)),
            Stage::Got(v, _) => OpStep::Done(Ok(v)),
        }
    }

}

} // verus!
