//! Page operations of the service layer: the results that tools hand
//! back, and the decisions between the page store's answers.

use vstd::prelude::*;

verus! {

/// What the page store keeps about a page: where it currently is, whether it is a draft, and its latest revision.
#[derive(Clone, Debug, PartialEq, Eq)]
pub struct PageIndex {
    /// Current path; absent for a deleted page.
    pub current_path: Option<String>,
    /// Whether the page is a draft.
    pub draft: bool,
    /// Latest revision.
    pub latest: u64,
}

impl PageIndex {
    /// Builds the value from its fields.
    pub fn new(current_path: Option<String>, draft: bool, latest: u64) -> (r: PageIndex)
        ensures
            r.current_path == current_path,
            r.draft == draft,
            r.latest == latest,
    {
        PageIndex { current_path, draft, latest }
    }

    /// The `current_path` field.
    pub fn current_path(&self) -> (r: Option<&str>)
        ensures
            r matches Some(s) ==> (self.current_path matches Some(t) && s@ == t@),
            r is None <==> self.current_path is None,
    {
        match &self.current_path {
            Some(s) => Some(s.as_str()),
            None => None,
        }
    }

    /// Whether the page is a draft.
    pub fn is_draft(&self) -> (r: bool)
        ensures
            r == self.draft,
    {
        self.draft
    }

    /// The `latest` field.
    pub fn latest(&self) -> (r: u64)
        ensures
            r == self.latest,
    {
        self.latest
    }
}

/// A page found by its current path.
#[derive(Clone, Debug, PartialEq, Eq)]
pub struct ResolvedPage {
    /// Normalized current path.
    pub normalized_path: String,
    /// Page id.
    pub page_id: String,
    /// What the store keeps about the page.
    pub page_index: PageIndex,
    /// Latest revision (absent for drafts).
    pub latest_revision: Option<u64>,
}

impl ResolvedPage {
    /// Builds the value from its fields.
    pub fn new(normalized_path: String, page_id: String, page_index: PageIndex, latest_revision: Option<u64>) -> (r: ResolvedPage)
        ensures
            r.normalized_path == normalized_path,
            r.page_id == page_id,
            r.page_index == page_index,
            r.latest_revision == latest_revision,
    {
        ResolvedPage { normalized_path, page_id, page_index, latest_revision }
    }

    /// The `normalized_path` field.
    pub fn normalized_path(&self) -> (r: &str)
        ensures
            r@ == self.normalized_path@,
    {
        self.normalized_path.as_str()
    }

    /// The `page_id` field.
    pub fn page_id(&self) -> (r: &str)
        ensures
            r@ == self.page_id@,
    {
        self.page_id.as_str()
    }

    /// The `page_index` field.
    pub fn page_index(&self) -> (r: &PageIndex)
        ensures
            *r == self.page_index,
    {
        &self.page_index
    }

    /// The `latest_revision` field.
    pub fn latest_revision(&self) -> (r: Option<u64>)
        ensures
            r == self.latest_revision,
    {
        self.latest_revision
    }
}

/// The result of `get_page`.
#[derive(Clone, Debug, PartialEq, Eq)]
pub struct GetPageResult {
    /// Current path.
    pub path: String,
    /// Revision read.
    pub revision: u64,
    /// Instance id of that revision.
    pub instance_id: String,
    /// Page text.
    pub content: String,
}

impl GetPageResult {
    /// Builds the value from its fields.
    pub fn new(path: String, revision: u64, instance_id: String, content: String) -> (r: GetPageResult)
        ensures
            r.path == path,
            r.revision == revision,
            r.instance_id == instance_id,
            r.content == content,
    {
        GetPageResult { path, revision, instance_id, content }
    }

    /// The `path` field.
    pub fn path(&self) -> (r: &str)
        ensures
            r@ == self.path@,
    {
        self.path.as_str()
    }

    /// The `revision` field.
    pub fn revision(&self) -> (r: u64)
        ensures
            r == self.revision,
    {
        self.revision
    }

    /// The `instance_id` field.
    pub fn instance_id(&self) -> (r: &str)
        ensures
            r@ == self.instance_id@,
    {
        self.instance_id.as_str()
    }

    /// The `content` field.
    pub fn content(&self) -> (r: &str)
        ensures
            r@ == self.content@,
    {
        self.content.as_str()
    }
}

/// One section of a table of contents.
#[derive(Clone, Debug, PartialEq, Eq)]
pub struct TocSection {
    /// Section id.
    pub id: String,
    /// Heading text.
    pub title: String,
    /// Heading level.
    pub level: u32,
    /// Position in the document, from 1.
    pub ordinal: u32,
    /// Enclosing section.
    pub parent_id: Option<String>,
    /// Characters in the section body.
    pub section_chars: usize,
}

impl TocSection {
    /// Builds the value from its fields.
    pub fn new(id: String, title: String, level: u32, ordinal: u32, parent_id: Option<String>, section_chars: usize) -> (r: TocSection)
        ensures
            r.id == id,
            r.title == title,
            r.level == level,
            r.ordinal == ordinal,
            r.parent_id == parent_id,
            r.section_chars == section_chars,
    {
        TocSection { id, title, level, ordinal, parent_id, section_chars }
    }

    /// The `id` field.
    pub fn id(&self) -> (r: &str)
        ensures
            r@ == self.id@,
    {
        self.id.as_str()
    }

    /// The `title` field.
    pub fn title(&self) -> (r: &str)
        ensures
            r@ == self.title@,
    {
        self.title.as_str()
    }

    /// The `level` field.
    pub fn level(&self) -> (r: u32)
        ensures
            r == self.level,
    {
        self.level
    }

    /// The `ordinal` field.
    pub fn ordinal(&self) -> (r: u32)
        ensures
            r == self.ordinal,
    {
        self.ordinal
    }

    /// The `parent_id` field.
    pub fn parent_id(&self) -> (r: Option<&str>)
        ensures
            r matches Some(s) ==> (self.parent_id matches Some(t) && s@ == t@),
            r is None <==> self.parent_id is None,
    {
        match &self.parent_id {
            Some(s) => Some(s.as_str()),
            None => None,
        }
    }

    /// The `section_chars` field.
    pub fn section_chars(&self) -> (r: usize)
        ensures
            r == self.section_chars,
    {
        self.section_chars
    }
}

/// The result of `get_page_toc`.
#[derive(Clone, Debug, PartialEq, Eq)]
pub struct GetPageTocResult {
    /// Current path.
    pub path: String,
    /// Revision read.
    pub revision: u64,
    /// Instance id of that revision.
    pub instance_id: String,
    /// Sections in document order.
    pub sections: Vec<TocSection>,
}

impl GetPageTocResult {
    /// Builds the value from its fields.
    pub fn new(path: String, revision: u64, instance_id: String, sections: Vec<TocSection>) -> (r: GetPageTocResult)
        ensures
            r.path == path,
            r.revision == revision,
            r.instance_id == instance_id,
            r.sections == sections,
    {
        GetPageTocResult { path, revision, instance_id, sections }
    }

    /// The `path` field.
    pub fn path(&self) -> (r: &str)
        ensures
            r@ == self.path@,
    {
        self.path.as_str()
    }

    /// The `revision` field.
    pub fn revision(&self) -> (r: u64)
        ensures
            r == self.revision,
    {
        self.revision
    }

    /// The `instance_id` field.
    pub fn instance_id(&self) -> (r: &str)
        ensures
            r@ == self.instance_id@,
    {
        self.instance_id.as_str()
    }

    /// The `sections` field.
    pub fn sections(&self) -> (r: &[TocSection])
        ensures
            r@ == self.sections@,
    {
        self.sections.as_slice()
    }
}

/// One page of a listing.
#[derive(Clone, Debug, PartialEq, Eq)]
pub struct ListPageItem {
    /// Current path.
    pub path: String,
    /// Latest revision.
    pub revision: u64,
    /// Time of the latest revision.
    pub updated_at: String,
    /// Author of the latest revision.
    pub updated_by: String,
}

impl ListPageItem {
    /// Builds the value from its fields.
    pub fn new(path: String, revision: u64, updated_at: String, updated_by: String) -> (r: ListPageItem)
        ensures
            r.path == path,
            r.revision == revision,
            r.updated_at == updated_at,
            r.updated_by == updated_by,
    {
        ListPageItem { path, revision, updated_at, updated_by }
    }

    /// The `path` field.
    pub fn path(&self) -> (r: &str)
        ensures
            r@ == self.path@,
    {
        self.path.as_str()
    }

    /// The `revision` field.
    pub fn revision(&self) -> (r: u64)
        ensures
            r == self.revision,
    {
        self.revision
    }

    /// The `updated_at` field.
    pub fn updated_at(&self) -> (r: &str)
        ensures
            r@ == self.updated_at@,
    {
        self.updated_at.as_str()
    }

    /// The `updated_by` field.
    pub fn updated_by(&self) -> (r: &str)
        ensures
            r@ == self.updated_by@,
    {
        self.updated_by.as_str()
    }
}

/// The result of `list_pages`.
#[derive(Clone, Debug, PartialEq, Eq)]
pub struct ListPagesResult {
    /// Pages of this answer.
    pub items: Vec<ListPageItem>,
    /// Whether more pages follow.
    pub has_more: bool,
    /// Where the next answer starts.
    pub next_cursor: Option<String>,
}

impl ListPagesResult {
    /// Builds the value from its fields.
    pub fn new(items: Vec<ListPageItem>, has_more: bool, next_cursor: Option<String>) -> (r: ListPagesResult)
        ensures
            r.items == items,
            r.has_more == has_more,
            r.next_cursor == next_cursor,
    {
        ListPagesResult { items, has_more, next_cursor }
    }

    /// The `items` field.
    pub fn items(&self) -> (r: &[ListPageItem])
        ensures
            r@ == self.items@,
    {
        self.items.as_slice()
    }

    /// The `has_more` field.
    pub fn has_more(&self) -> (r: bool)
        ensures
            r == self.has_more,
    {
        self.has_more
    }

    /// The `next_cursor` field.
    pub fn next_cursor(&self) -> (r: Option<&str>)
        ensures
            r matches Some(s) ==> (self.next_cursor matches Some(t) && s@ == t@),
            r is None <==> self.next_cursor is None,
    {
        match &self.next_cursor {
            Some(s) => Some(s.as_str()),
            None => None,
        }
    }
}

/// The result of `get_page_section`.
#[derive(Clone, Debug, PartialEq, Eq)]
pub struct GetPageSectionResult {
    /// Current path.
    pub path: String,
    /// Revision read.
    pub revision: u64,
    /// The section.
    pub section: TocSection,
    /// Section body.
    pub content: String,
}

impl GetPageSectionResult {
    /// Builds the value from its fields.
    pub fn new(path: String, revision: u64, section: TocSection, content: String) -> (r: GetPageSectionResult)
        ensures
            r.path == path,
            r.revision == revision,
            r.section == section,
            r.content == content,
    {
        GetPageSectionResult { path, revision, section, content }
    }

    /// The `path` field.
    pub fn path(&self) -> (r: &str)
        ensures
            r@ == self.path@,
    {
        self.path.as_str()
    }

    /// The `revision` field.
    pub fn revision(&self) -> (r: u64)
        ensures
            r == self.revision,
    {
        self.revision
    }

    /// The `section` field.
    pub fn section(&self) -> (r: &TocSection)
        ensures
            *r == self.section,
    {
        &self.section
    }

    /// The `content` field.
    pub fn content(&self) -> (r: &str)
        ensures
            r@ == self.content@,
    {
        self.content.as_str()
    }
}

/// The result of `create_page`, `update_page` or `rename_page`.
#[derive(Clone, Debug, PartialEq, Eq)]
pub struct WritePageResult {
    /// Current path.
    pub path: String,
    /// New revision.
    pub revision: u64,
    /// New instance id.
    pub instance_id: String,
    /// What was done.
    pub summary: String,
}

impl WritePageResult {
    /// Builds the value from its fields.
    pub fn new(path: String, revision: u64, instance_id: String, summary: String) -> (r: WritePageResult)
        ensures
            r.path == path,
            r.revision == revision,
            r.instance_id == instance_id,
            r.summary == summary,
    {
        WritePageResult { path, revision, instance_id, summary }
    }

    /// The `path` field.
    pub fn path(&self) -> (r: &str)
        ensures
            r@ == self.path@,
    {
        self.path.as_str()
    }

    /// The `revision` field.
    pub fn revision(&self) -> (r: u64)
        ensures
            r == self.revision,
    {
        self.revision
    }

    /// The `instance_id` field.
    pub fn instance_id(&self) -> (r: &str)
        ensures
            r@ == self.instance_id@,
    {
        self.instance_id.as_str()
    }

    /// The `summary` field.
    pub fn summary(&self) -> (r: &str)
        ensures
            r@ == self.summary@,
    {
        self.summary.as_str()
    }
}

/// The result of `edit_page`.
#[derive(Clone, Debug, PartialEq, Eq)]
pub struct EditPageResult {
    /// Current path.
    pub path: String,
    /// New revision.
    pub revision: u64,
    /// New instance id.
    pub instance_id: String,
    /// What was done.
    pub summary: String,
}

impl EditPageResult {
    /// Builds the value from its fields.
    pub fn new(path: String, revision: u64, instance_id: String, summary: String) -> (r: EditPageResult)
        ensures
            r.path == path,
            r.revision == revision,
            r.instance_id == instance_id,
            r.summary == summary,
    {
        EditPageResult { path, revision, instance_id, summary }
    }

    /// The `path` field.
    pub fn path(&self) -> (r: &str)
        ensures
            r@ == self.path@,
    {
        self.path.as_str()
    }

    /// The `revision` field.
    pub fn revision(&self) -> (r: u64)
        ensures
            r == self.revision,
    {
        self.revision
    }

    /// The `instance_id` field.
    pub fn instance_id(&self) -> (r: &str)
        ensures
            r@ == self.instance_id@,
    {
        self.instance_id.as_str()
    }

    /// The `summary` field.
    pub fn summary(&self) -> (r: &str)
        ensures
            r@ == self.summary@,
    {
        self.summary.as_str()
    }
}

/// The result of `append_page`.
#[derive(Clone, Debug, PartialEq, Eq)]
pub struct AppendServiceResult {
    /// Current path.
    pub path: String,
    /// New revision.
    pub revision: u64,
    /// New instance id.
    pub instance_id: String,
    /// What was done.
    pub summary: String,
    /// Whether the latest revision was amended.
    pub amended: bool,
}

impl AppendServiceResult {
    /// Builds the value from its fields.
    pub fn new(path: String, revision: u64, instance_id: String, summary: String, amended: bool) -> (r: AppendServiceResult)
        ensures
            r.path == path,
            r.revision == revision,
            r.instance_id == instance_id,
            r.summary == summary,
            r.amended == amended,
    {
        AppendServiceResult { path, revision, instance_id, summary, amended }
    }

    /// The `path` field.
    pub fn path(&self) -> (r: &str)
        ensures
            r@ == self.path@,
    {
        self.path.as_str()
    }

    /// The `revision` field.
    pub fn revision(&self) -> (r: u64)
        ensures
            r == self.revision,
    {
        self.revision
    }

    /// The `instance_id` field.
    pub fn instance_id(&self) -> (r: &str)
        ensures
            r@ == self.instance_id@,
    {
        self.instance_id.as_str()
    }

    /// The `summary` field.
    pub fn summary(&self) -> (r: &str)
        ensures
            r@ == self.summary@,
    {
        self.summary.as_str()
    }

    /// The `amended` field.
    pub fn amended(&self) -> (r: bool)
        ensures
            r == self.amended,
    {
        self.amended
    }
}

} // verus!
