//! Request and response models of the MCP surface: what a tool call
//! carries in, and what it hands back to the client.

use vstd::prelude::*;

verus! {

/// The tools that the MCP surface publishes.
#[derive(Clone, Copy, Debug, PartialEq, Eq, Structural)]
pub enum McpToolName {
    /// `get_page`
    GetPage,
    /// `get_page_toc`
    GetPageToc,
    /// `list_pages`
    ListPages,
    /// `search_pages`
    SearchPages,
    /// `create_page`
    CreatePage,
    /// `update_page`
    UpdatePage,
    /// `edit_page`
    EditPage,
    /// `append_page`
    AppendPage,
    /// `rename_page`
    RenamePage,
    /// `get_page_section`
    GetPageSection,
}

/// The published name of each tool.
pub open spec fn tool_name_text(t: McpToolName) -> Seq<char> {
    match t {
        McpToolName::GetPage => "get_page"@,
        McpToolName::GetPageToc => "get_page_toc"@,
        McpToolName::ListPages => "list_pages"@,
        McpToolName::SearchPages => "search_pages"@,
        McpToolName::CreatePage => "create_page"@,
        McpToolName::UpdatePage => "update_page"@,
        McpToolName::EditPage => "edit_page"@,
        McpToolName::AppendPage => "append_page"@,
        McpToolName::RenamePage => "rename_page"@,
        McpToolName::GetPageSection => "get_page_section"@,
    }
}

impl McpToolName {
    /// The published name of the tool.
    pub fn as_str(self) -> (s: &'static str)
        ensures
            s@ == tool_name_text(self),
    {
        match self {
            McpToolName::GetPage => "get_page",
            McpToolName::GetPageToc => "get_page_toc",
            McpToolName::ListPages => "list_pages",
            McpToolName::SearchPages => "search_pages",
            McpToolName::CreatePage => "create_page",
            McpToolName::UpdatePage => "update_page",
            McpToolName::EditPage => "edit_page",
            McpToolName::AppendPage => "append_page",
            McpToolName::RenamePage => "rename_page",
            McpToolName::GetPageSection => "get_page_section",
        }
    }
}

/// The parts of a page that full-text search looks at.
#[derive(Clone, Copy, Debug, PartialEq, Eq, Structural)]
pub enum SearchTarget {
    /// Headings.
    Headings,
    /// Body text.
    Body,
    /// Code blocks.
    Code,
    /// Front matter.
    FrontMatter,
}

/// How `get_page_section` names a section.
#[derive(Clone, Debug, PartialEq, Eq)]
pub enum McpSectionSelector {
    /// By section id.
    ById(String),
    /// By heading text.
    ByTitle(String),
}

/// How `edit_page` names a section.
#[derive(Clone, Debug, PartialEq, Eq)]
pub enum McpEditPageSectionSelector {
    /// A bare heading text.
    Text(String),
    /// By section id.
    ById(String),
    /// By heading text.
    ByTitle(String),
}

/// Where `insert_section` inserts relative to its anchor.
#[derive(Clone, Copy, Debug, PartialEq, Eq, Structural)]
pub enum McpEditPageInsertSectionPlacement {
    /// Before the anchor section.
    Before,
    /// After the anchor section.
    After,
}

/// Which matches `replace_text` replaces.
#[derive(Clone, Copy, Debug, PartialEq, Eq, Structural)]
pub enum McpEditPageReplaceTextOccurrence {
    /// The first match only.
    First,
    /// Every match.
    All,
}

/// One `edit_page` operation as the client sent it.
#[derive(Clone, Debug, PartialEq, Eq)]
pub enum McpEditPageOperation {
    /// Replace the body of a section.
    ReplaceSection {
        /// The section.
        section: McpEditPageSectionSelector,
        /// The new body.
        content: String,
    },
    /// Insert a complete section.
    InsertSection {
        /// The section the new one is placed against.
        anchor: McpEditPageSectionSelector,
        /// Before or after the anchor.
        placement: McpEditPageInsertSectionPlacement,
        /// The new section, heading included.
        content: String,
    },
    /// Delete a section with everything under it.
    DeleteSection {
        /// The section.
        section: McpEditPageSectionSelector,
    },
    /// Replace text.
    ReplaceText {
        /// The text to look for.
        old_text: String,
        /// The replacement.
        new_text: String,
        /// Which matches to replace (the first when absent).
        occurrence: Option<McpEditPageReplaceTextOccurrence>,
    },
}

/// One declared argument of a published prompt.
#[derive(Clone, Debug, PartialEq, Eq)]
pub struct PromptListArgument {
    /// Argument name.
    pub name: String,
    /// Argument description.
    pub description: String,
    /// Whether the argument is required, when declared.
    pub required: Option<bool>,
}

impl PromptListArgument {
    /// Builds the value from its fields.
    pub fn new(name: String, description: String, required: Option<bool>) -> (r: PromptListArgument)
        ensures
            r.name == name,
            r.description == description,
            r.required == required,
    {
        PromptListArgument { name, description, required }
    }

    /// The `name` field.
    pub fn name(&self) -> (r: &str)
        ensures
            r@ == self.name@,
    {
        self.name.as_str()
    }

    /// The `description` field.
    pub fn description(&self) -> (r: &str)
        ensures
            r@ == self.description@,
    {
        self.description.as_str()
    }

    /// The `required` field.
    pub fn required(&self) -> (r: Option<bool>)
        ensures
            r == self.required,
    {
        self.required
    }
}

/// One published prompt.
#[derive(Clone, Debug, PartialEq, Eq)]
pub struct PromptListItem {
    /// Prompt name.
    pub name: String,
    /// Prompt description.
    pub description: String,
    /// Declared arguments.
    pub arguments: Vec<PromptListArgument>,
}

impl PromptListItem {
    /// Builds the value from its fields.
    pub fn new(name: String, description: String, arguments: Vec<PromptListArgument>) -> (r: PromptListItem)
        ensures
            r.name == name,
            r.description == description,
            r.arguments == arguments,
    {
        PromptListItem { name, description, arguments }
    }

    /// The `name` field.
    pub fn name(&self) -> (r: &str)
        ensures
            r@ == self.name@,
    {
        self.name.as_str()
    }

    /// The `description` field.
    pub fn description(&self) -> (r: &str)
        ensures
            r@ == self.description@,
    {
        self.description.as_str()
    }

    /// The `arguments` field.
    pub fn arguments(&self) -> (r: &[PromptListArgument])
        ensures
            r@ == self.arguments@,
    {
        self.arguments.as_slice()
    }
}

/// One page of published prompts.
#[derive(Clone, Debug, PartialEq, Eq)]
pub struct ListPromptsServiceResult {
    /// The prompts of this page.
    pub items: Vec<PromptListItem>,
    /// Where the next page starts, when there is one.
    pub next_cursor: Option<String>,
}

impl ListPromptsServiceResult {
    /// Builds the value from its fields.
    pub fn new(items: Vec<PromptListItem>, next_cursor: Option<String>) -> (r: ListPromptsServiceResult)
        ensures
            r.items == items,
            r.next_cursor == next_cursor,
    {
        ListPromptsServiceResult { items, next_cursor }
    }

    /// The `items` field.
    pub fn items(&self) -> (r: &[PromptListItem])
        ensures
            r@ == self.items@,
    {
        self.items.as_slice()
    }

    /// The `next_cursor` field.
    pub fn next_cursor(&self) -> (r: Option<&str>)
        ensures
            r matches Some(s) ==> (self.next_cursor matches Some(t) && s@ == t@),
            r is None <==> self.next_cursor is None,
    {
        match &self.next_cursor {
            Some(s) => Some(s.as_str()),
            None => None,
        }
    }
}

/// One published resource.
#[derive(Clone, Debug, PartialEq, Eq)]
pub struct ResourceListItem {
    /// Resource URI.
    pub uri: String,
    /// Resource name.
    pub name: String,
    /// Resource description.
    pub description: String,
    /// MIME type.
    pub mime_type: String,
}

impl ResourceListItem {
    /// Builds the value from its fields.
    pub fn new(uri: String, name: String, description: String, mime_type: String) -> (r: ResourceListItem)
        ensures
            r.uri == uri,
            r.name == name,
            r.description == description,
            r.mime_type == mime_type,
    {
        ResourceListItem { uri, name, description, mime_type }
    }

    /// The `uri` field.
    pub fn uri(&self) -> (r: &str)
        ensures
            r@ == self.uri@,
    {
        self.uri.as_str()
    }

    /// The `name` field.
    pub fn name(&self) -> (r: &str)
        ensures
            r@ == self.name@,
    {
        self.name.as_str()
    }

    /// The `description` field.
    pub fn description(&self) -> (r: &str)
        ensures
            r@ == self.description@,
    {
        self.description.as_str()
    }

    /// The `mime_type` field.
    pub fn mime_type(&self) -> (r: &str)
        ensures
            r@ == self.mime_type@,
    {
        self.mime_type.as_str()
    }
}

/// One page of published resources.
#[derive(Clone, Debug, PartialEq, Eq)]
pub struct ListResourcesServiceResult {
    /// The resources of this page.
    pub items: Vec<ResourceListItem>,
    /// Where the next page starts, when there is one.
    pub next_cursor: Option<String>,
}

impl ListResourcesServiceResult {
    /// Builds the value from its fields.
    pub fn new(items: Vec<ResourceListItem>, next_cursor: Option<String>) -> (r: ListResourcesServiceResult)
        ensures
            r.items == items,
            r.next_cursor == next_cursor,
    {
        ListResourcesServiceResult { items, next_cursor }
    }

    /// The `items` field.
    pub fn items(&self) -> (r: &[ResourceListItem])
        ensures
            r@ == self.items@,
    {
        self.items.as_slice()
    }

    /// The `next_cursor` field.
    pub fn next_cursor(&self) -> (r: Option<&str>)
        ensures
            r matches Some(s) ==> (self.next_cursor matches Some(t) && s@ == t@),
            r is None <==> self.next_cursor is None,
    {
        match &self.next_cursor {
            Some(s) => Some(s.as_str()),
            None => None,
        }
    }
}

/// The contents of one resource.
#[derive(Clone, Debug, PartialEq, Eq)]
pub struct ReadResourceServiceResult {
    /// Resource URI.
    pub uri: String,
    /// MIME type.
    pub mime_type: String,
    /// Resource text.
    pub text: String,
    /// Page revision the text comes from, for page resources.
    pub revision: Option<u64>,
}

impl ReadResourceServiceResult {
    /// Builds the value from its fields.
    pub fn new(uri: String, mime_type: String, text: String, revision: Option<u64>) -> (r: ReadResourceServiceResult)
        ensures
            r.uri == uri,
            r.mime_type == mime_type,
            r.text == text,
            r.revision == revision,
    {
        ReadResourceServiceResult { uri, mime_type, text, revision }
    }

    /// The `uri` field.
    pub fn uri(&self) -> (r: &str)
        ensures
            r@ == self.uri@,
    {
        self.uri.as_str()
    }

    /// The `mime_type` field.
    pub fn mime_type(&self) -> (r: &str)
        ensures
            r@ == self.mime_type@,
    {
        self.mime_type.as_str()
    }

    /// The `text` field.
    pub fn text(&self) -> (r: &str)
        ensures
            r@ == self.text@,
    {
        self.text.as_str()
    }

    /// The `revision` field.
    pub fn revision(&self) -> (r: Option<u64>)
        ensures
            r == self.revision,
    {
        self.revision
    }
}

/// One prompt, expanded.
#[derive(Clone, Debug, PartialEq, Eq)]
pub struct GetPromptServiceResult {
    /// Prompt description.
    pub description: String,
    /// The expanded message.
    pub message: String,
    /// Page revision the prompt comes from.
    pub revision: u64,
}

impl GetPromptServiceResult {
    /// Builds the value from its fields.
    pub fn new(description: String, message: String, revision: u64) -> (r: GetPromptServiceResult)
        ensures
            r.description == description,
            r.message == message,
            r.revision == revision,
    {
        GetPromptServiceResult { description, message, revision }
    }

    /// The `description` field.
    pub fn description(&self) -> (r: &str)
        ensures
            r@ == self.description@,
    {
        self.description.as_str()
    }

    /// The `message` field.
    pub fn message(&self) -> (r: &str)
        ensures
            r@ == self.message@,
    {
        self.message.as_str()
    }

    /// The `revision` field.
    pub fn revision(&self) -> (r: u64)
        ensures
            r == self.revision,
    {
        self.revision
    }
}

/// A `get_page` call.
#[derive(Clone, Debug, PartialEq, Eq)]
pub struct GetPageRequest {
    /// Page path.
    pub path: String,
    /// Requested revision (the latest when absent).
    pub revision: Option<u64>,
}

impl GetPageRequest {
    /// Builds the value from its fields.
    pub fn new(path: String, revision: Option<u64>) -> (r: GetPageRequest)
        ensures
            r.path == path,
            r.revision == revision,
    {
        GetPageRequest { path, revision }
    }

    /// The `path` field.
    pub fn path(&self) -> (r: &str)
        ensures
            r@ == self.path@,
    {
        self.path.as_str()
    }

    /// The `revision` field.
    pub fn revision(&self) -> (r: Option<u64>)
        ensures
            r == self.revision,
    {
        self.revision
    }
}

/// A `get_page_toc` call.
#[derive(Clone, Debug, PartialEq, Eq)]
pub struct GetPageTocRequest {
    /// Page path.
    pub path: String,
    /// Requested revision (the latest when absent).
    pub revision: Option<u64>,
}

impl GetPageTocRequest {
    /// Builds the value from its fields.
    pub fn new(path: String, revision: Option<u64>) -> (r: GetPageTocRequest)
        ensures
            r.path == path,
            r.revision == revision,
    {
        GetPageTocRequest { path, revision }
    }

    /// The `path` field.
    pub fn path(&self) -> (r: &str)
        ensures
            r@ == self.path@,
    {
        self.path.as_str()
    }

    /// The `revision` field.
    pub fn revision(&self) -> (r: Option<u64>)
        ensures
            r == self.revision,
    {
        self.revision
    }
}

/// A `list_pages` call.
#[derive(Clone, Debug, PartialEq, Eq)]
pub struct ListPagesRequest {
    /// Listed prefix.
    pub prefix: String,
    /// Largest number of pages.
    pub limit: Option<usize>,
    /// Where to continue.
    pub cursor: Option<String>,
}

impl ListPagesRequest {
    /// Builds the value from its fields.
    pub fn new(prefix: String, limit: Option<usize>, cursor: Option<String>) -> (r: ListPagesRequest)
        ensures
            r.prefix == prefix,
            r.limit == limit,
            r.cursor == cursor,
    {
        ListPagesRequest { prefix, limit, cursor }
    }

    /// The `prefix` field.
    pub fn prefix(&self) -> (r: &str)
        ensures
            r@ == self.prefix@,
    {
        self.prefix.as_str()
    }

    /// The `limit` field.
    pub fn limit(&self) -> (r: Option<usize>)
        ensures
            r == self.limit,
    {
        self.limit
    }

    /// The `cursor` field.
    pub fn cursor(&self) -> (r: Option<&str>)
        ensures
            r matches Some(s) ==> (self.cursor matches Some(t) && s@ == t@),
            r is None <==> self.cursor is None,
    {
        match &self.cursor {
            Some(s) => Some(s.as_str()),
            None => None,
        }
    }
}

/// A `search_pages` call.
#[derive(Clone, Debug, PartialEq, Eq)]
pub struct SearchPagesRequest {
    /// Search expression.
    pub query: String,
    /// Where to search.
    pub targets: Vec<SearchTarget>,
    /// Searched prefix.
    pub prefix: Option<String>,
    /// Largest number of pages.
    pub limit: Option<usize>,
}

impl SearchPagesRequest {
    /// Builds the value from its fields.
    pub fn new(query: String, targets: Vec<SearchTarget>, prefix: Option<String>, limit: Option<usize>) -> (r: SearchPagesRequest)
        ensures
            r.query == query,
            r.targets == targets,
            r.prefix == prefix,
            r.limit == limit,
    {
        SearchPagesRequest { query, targets, prefix, limit }
    }

    /// The `query` field.
    pub fn query(&self) -> (r: &str)
        ensures
            r@ == self.query@,
    {
        self.query.as_str()
    }

    /// The `targets` field.
    pub fn targets(&self) -> (r: &[SearchTarget])
        ensures
            r@ == self.targets@,
    {
        self.targets.as_slice()
    }

    /// The `prefix` field.
    pub fn prefix(&self) -> (r: Option<&str>)
        ensures
            r matches Some(s) ==> (self.prefix matches Some(t) && s@ == t@),
            r is None <==> self.prefix is None,
    {
        match &self.prefix {
            Some(s) => Some(s.as_str()),
            None => None,
        }
    }

    /// The `limit` field.
    pub fn limit(&self) -> (r: Option<usize>)
        ensures
            r == self.limit,
    {
        self.limit
    }
}

/// A `create_page`, `update_page` or `append_page` call.
#[derive(Clone, Debug, PartialEq, Eq)]
pub struct WritePageRequest {
    /// Page path.
    pub path: String,
    /// Page text or appended text.
    pub content: String,
}

impl WritePageRequest {
    /// Builds the value from its fields.
    pub fn new(path: String, content: String) -> (r: WritePageRequest)
        ensures
            r.path == path,
            r.content == content,
    {
        WritePageRequest { path, content }
    }

    /// The `path` field.
    pub fn path(&self) -> (r: &str)
        ensures
            r@ == self.path@,
    {
        self.path.as_str()
    }

    /// The `content` field.
    pub fn content(&self) -> (r: &str)
        ensures
            r@ == self.content@,
    {
        self.content.as_str()
    }
}

/// A `rename_page` call.
#[derive(Clone, Debug, PartialEq, Eq)]
pub struct RenamePageRequest {
    /// Current path.
    pub path: String,
    /// New path.
    pub rename_to: String,
}

impl RenamePageRequest {
    /// Builds the value from its fields.
    pub fn new(path: String, rename_to: String) -> (r: RenamePageRequest)
        ensures
            r.path == path,
            r.rename_to == rename_to,
    {
        RenamePageRequest { path, rename_to }
    }

    /// The `path` field.
    pub fn path(&self) -> (r: &str)
        ensures
            r@ == self.path@,
    {
        self.path.as_str()
    }

    /// The `rename_to` field.
    pub fn rename_to(&self) -> (r: &str)
        ensures
            r@ == self.rename_to@,
    {
        self.rename_to.as_str()
    }
}

/// An `edit_page` call.
#[derive(Clone, Debug, PartialEq, Eq)]
pub struct EditPageRequest {
    /// Page path.
    pub path: String,
    /// The revision the edit is based on.
    pub revision: u64,
    /// The instance id the edit is based on.
    pub instance_id: String,
    /// The operation.
    pub operation: McpEditPageOperation,
}

impl EditPageRequest {
    /// Builds the value from its fields.
    pub fn new(path: String, revision: u64, instance_id: String, operation: McpEditPageOperation) -> (r: EditPageRequest)
        ensures
            r.path == path,
            r.revision == revision,
            r.instance_id == instance_id,
            r.operation == operation,
    {
        EditPageRequest { path, revision, instance_id, operation }
    }

    /// The `path` field.
    pub fn path(&self) -> (r: &str)
        ensures
            r@ == self.path@,
    {
        self.path.as_str()
    }

    /// The `revision` field.
    pub fn revision(&self) -> (r: u64)
        ensures
            r == self.revision,
    {
        self.revision
    }

    /// The `instance_id` field.
    pub fn instance_id(&self) -> (r: &str)
        ensures
            r@ == self.instance_id@,
    {
        self.instance_id.as_str()
    }

    /// The `operation` field.
    pub fn operation(&self) -> (r: &McpEditPageOperation)
        ensures
            *r == self.operation,
    {
        &self.operation
    }
}

/// A `get_page_section` call.
#[derive(Clone, Debug, PartialEq, Eq)]
pub struct GetPageSectionRequest {
    /// Page path.
    pub path: String,
    /// The section.
    pub section: McpSectionSelector,
    /// Requested revision (the latest when absent).
    pub revision: Option<u64>,
}

impl GetPageSectionRequest {
    /// Builds the value from its fields.
    pub fn new(path: String, section: McpSectionSelector, revision: Option<u64>) -> (r: GetPageSectionRequest)
        ensures
            r.path == path,
            r.section == section,
            r.revision == revision,
    {
        GetPageSectionRequest { path, section, revision }
    }

    /// The `path` field.
    pub fn path(&self) -> (r: &str)
        ensures
            r@ == self.path@,
    {
        self.path.as_str()
    }

    /// The `section` field.
    pub fn section(&self) -> (r: &McpSectionSelector)
        ensures
            *r == self.section,
    {
        &self.section
    }

    /// The `revision` field.
    pub fn revision(&self) -> (r: Option<u64>)
        ensures
            r == self.revision,
    {
        self.revision
    }
}

/// The answer to `get_page`.
#[derive(Clone, Debug, PartialEq, Eq)]
pub struct GetPageResponse {
    /// Current path.
    pub path: String,
    /// Revision.
    pub revision: u64,
    /// Instance id.
    pub instance_id: String,
    /// Page text.
    pub content: String,
}

impl GetPageResponse {
    /// Builds the value from its fields.
    pub fn new(path: String, revision: u64, instance_id: String, content: String) -> (r: GetPageResponse)
        ensures
            r.path == path,
            r.revision == revision,
            r.instance_id == instance_id,
            r.content == content,
    {
        GetPageResponse { path, revision, instance_id, content }
    }

    /// The `path` field.
    pub fn path(&self) -> (r: &str)
        ensures
            r@ == self.path@,
    {
        self.path.as_str()
    }

    /// The `revision` field.
    pub fn revision(&self) -> (r: u64)
        ensures
            r == self.revision,
    {
        self.revision
    }

    /// The `instance_id` field.
    pub fn instance_id(&self) -> (r: &str)
        ensures
            r@ == self.instance_id@,
    {
        self.instance_id.as_str()
    }

    /// The `content` field.
    pub fn content(&self) -> (r: &str)
        ensures
            r@ == self.content@,
    {
        self.content.as_str()
    }
}

/// One section in a table of contents.
#[derive(Clone, Debug, PartialEq, Eq)]
pub struct McpSectionInfo {
    /// Section id.
    pub id: String,
    /// Heading text.
    pub title: String,
    /// Heading level.
    pub level: u32,
    /// Position in the document, from 1.
    pub ordinal: u32,
    /// Enclosing section.
    pub parent_id: Option<String>,
    /// Characters in the section body.
    pub section_chars: usize,
}

impl McpSectionInfo {
    /// Builds the value from its fields.
    pub fn new(id: String, title: String, level: u32, ordinal: u32, parent_id: Option<String>, section_chars: usize) -> (r: McpSectionInfo)
        ensures
            r.id == id,
            r.title == title,
            r.level == level,
            r.ordinal == ordinal,
            r.parent_id == parent_id,
            r.section_chars == section_chars,
    {
        McpSectionInfo { id, title, level, ordinal, parent_id, section_chars }
    }

    /// The `id` field.
    pub fn id(&self) -> (r: &str)
        ensures
            r@ == self.id@,
    {
        self.id.as_str()
    }

    /// The `title` field.
    pub fn title(&self) -> (r: &str)
        ensures
            r@ == self.title@,
    {
        self.title.as_str()
    }

    /// The `level` field.
    pub fn level(&self) -> (r: u32)
        ensures
            r == self.level,
    {
        self.level
    }

    /// The `ordinal` field.
    pub fn ordinal(&self) -> (r: u32)
        ensures
            r == self.ordinal,
    {
        self.ordinal
    }

    /// The `parent_id` field.
    pub fn parent_id(&self) -> (r: Option<&str>)
        ensures
            r matches Some(s) ==> (self.parent_id matches Some(t) && s@ == t@),
            r is None <==> self.parent_id is None,
    {
        match &self.parent_id {
            Some(s) => Some(s.as_str()),
            None => None,
        }
    }

    /// The `section_chars` field.
    pub fn section_chars(&self) -> (r: usize)
        ensures
            r == self.section_chars,
    {
        self.section_chars
    }
}

/// The answer to `get_page_toc`.
#[derive(Clone, Debug, PartialEq, Eq)]
pub struct GetPageTocResponse {
    /// Current path.
    pub path: String,
    /// Revision.
    pub revision: u64,
    /// Instance id.
    pub instance_id: String,
    /// Sections in document order.
    pub sections: Vec<McpSectionInfo>,
}

impl GetPageTocResponse {
    /// Builds the value from its fields.
    pub fn new(path: String, revision: u64, instance_id: String, sections: Vec<McpSectionInfo>) -> (r: GetPageTocResponse)
        ensures
            r.path == path,
            r.revision == revision,
            r.instance_id == instance_id,
            r.sections == sections,
    {
        GetPageTocResponse { path, revision, instance_id, sections }
    }

    /// The `path` field.
    pub fn path(&self) -> (r: &str)
        ensures
            r@ == self.path@,
    {
        self.path.as_str()
    }

    /// The `revision` field.
    pub fn revision(&self) -> (r: u64)
        ensures
            r == self.revision,
    {
        self.revision
    }

    /// The `instance_id` field.
    pub fn instance_id(&self) -> (r: &str)
        ensures
            r@ == self.instance_id@,
    {
        self.instance_id.as_str()
    }

    /// The `sections` field.
    pub fn sections(&self) -> (r: &[McpSectionInfo])
        ensures
            r@ == self.sections@,
    {
        self.sections.as_slice()
    }
}

/// One page in the answer to `list_pages`.
#[derive(Clone, Debug, PartialEq, Eq)]
pub struct McpPageListItem {
    /// Current path.
    pub path: String,
    /// Latest revision.
    pub revision: u64,
    /// Time of the latest revision.
    pub updated_at: String,
    /// Author of the latest revision.
    pub updated_by: String,
}

impl McpPageListItem {
    /// Builds the value from its fields.
    pub fn new(path: String, revision: u64, updated_at: String, updated_by: String) -> (r: McpPageListItem)
        ensures
            r.path == path,
            r.revision == revision,
            r.updated_at == updated_at,
            r.updated_by == updated_by,
    {
        McpPageListItem { path, revision, updated_at, updated_by }
    }

    /// The `path` field.
    pub fn path(&self) -> (r: &str)
        ensures
            r@ == self.path@,
    {
        self.path.as_str()
    }

    /// The `revision` field.
    pub fn revision(&self) -> (r: u64)
        ensures
            r == self.revision,
    {
        self.revision
    }

    /// The `updated_at` field.
    pub fn updated_at(&self) -> (r: &str)
        ensures
            r@ == self.updated_at@,
    {
        self.updated_at.as_str()
    }

    /// The `updated_by` field.
    pub fn updated_by(&self) -> (r: &str)
        ensures
            r@ == self.updated_by@,
    {
        self.updated_by.as_str()
    }
}

/// The answer to `list_pages`.
#[derive(Clone, Debug, PartialEq, Eq)]
pub struct ListPagesResponse {
    /// Pages of this answer.
    pub items: Vec<McpPageListItem>,
    /// Whether more pages follow.
    pub has_more: bool,
    /// Where the next answer starts.
    pub next_cursor: Option<String>,
}

impl ListPagesResponse {
    /// Builds the value from its fields.
    pub fn new(items: Vec<McpPageListItem>, has_more: bool, next_cursor: Option<String>) -> (r: ListPagesResponse)
        ensures
            r.items == items,
            r.has_more == has_more,
            r.next_cursor == next_cursor,
    {
        ListPagesResponse { items, has_more, next_cursor }
    }

    /// The `items` field.
    pub fn items(&self) -> (r: &[McpPageListItem])
        ensures
            r@ == self.items@,
    {
        self.items.as_slice()
    }

    /// The `has_more` field.
    pub fn has_more(&self) -> (r: bool)
        ensures
            r == self.has_more,
    {
        self.has_more
    }

    /// The `next_cursor` field.
    pub fn next_cursor(&self) -> (r: Option<&str>)
        ensures
            r matches Some(s) ==> (self.next_cursor matches Some(t) && s@ == t@),
            r is None <==> self.next_cursor is None,
    {
        match &self.next_cursor {
            Some(s) => Some(s.as_str()),
            None => None,
        }
    }
}

/// The answer to `create_page`, `update_page` or `rename_page`.
#[derive(Clone, Debug, PartialEq, Eq)]
pub struct WritePageResponse {
    /// Current path.
    pub path: String,
    /// New revision.
    pub revision: u64,
    /// New instance id.
    pub instance_id: String,
    /// What was done.
    pub summary: String,
}

impl WritePageResponse {
    /// Builds the value from its fields.
    pub fn new(path: String, revision: u64, instance_id: String, summary: String) -> (r: WritePageResponse)
        ensures
            r.path == path,
            r.revision == revision,
            r.instance_id == instance_id,
            r.summary == summary,
    {
        WritePageResponse { path, revision, instance_id, summary }
    }

    /// The `path` field.
    pub fn path(&self) -> (r: &str)
        ensures
            r@ == self.path@,
    {
        self.path.as_str()
    }

    /// The `revision` field.
    pub fn revision(&self) -> (r: u64)
        ensures
            r == self.revision,
    {
        self.revision
    }

    /// The `instance_id` field.
    pub fn instance_id(&self) -> (r: &str)
        ensures
            r@ == self.instance_id@,
    {
        self.instance_id.as_str()
    }

    /// The `summary` field.
    pub fn summary(&self) -> (r: &str)
        ensures
            r@ == self.summary@,
    {
        self.summary.as_str()
    }
}

/// The answer to `edit_page`.
#[derive(Clone, Debug, PartialEq, Eq)]
pub struct EditPageResponse {
    /// Current path.
    pub path: String,
    /// New revision.
    pub revision: u64,
    /// New instance id.
    pub instance_id: String,
    /// What was done.
    pub summary: String,
}

impl EditPageResponse {
    /// Builds the value from its fields.
    pub fn new(path: String, revision: u64, instance_id: String, summary: String) -> (r: EditPageResponse)
        ensures
            r.path == path,
            r.revision == revision,
            r.instance_id == instance_id,
            r.summary == summary,
    {
        EditPageResponse { path, revision, instance_id, summary }
    }

    /// The `path` field.
    pub fn path(&self) -> (r: &str)
        ensures
            r@ == self.path@,
    {
        self.path.as_str()
    }

    /// The `revision` field.
    pub fn revision(&self) -> (r: u64)
        ensures
            r == self.revision,
    {
        self.revision
    }

    /// The `instance_id` field.
    pub fn instance_id(&self) -> (r: &str)
        ensures
            r@ == self.instance_id@,
    {
        self.instance_id.as_str()
    }

    /// The `summary` field.
    pub fn summary(&self) -> (r: &str)
        ensures
            r@ == self.summary@,
    {
        self.summary.as_str()
    }
}

/// The answer to `append_page`.
#[derive(Clone, Debug, PartialEq, Eq)]
pub struct AppendPageResponse {
    /// Current path.
    pub path: String,
    /// New revision.
    pub revision: u64,
    /// New instance id.
    pub instance_id: String,
    /// What was done.
    pub summary: String,
    /// Whether the latest revision was amended.
    pub amended: bool,
}

impl AppendPageResponse {
    /// Builds the value from its fields.
    pub fn new(path: String, revision: u64, instance_id: String, summary: String, amended: bool) -> (r: AppendPageResponse)
        ensures
            r.path == path,
            r.revision == revision,
            r.instance_id == instance_id,
            r.summary == summary,
            r.amended == amended,
    {
        AppendPageResponse { path, revision, instance_id, summary, amended }
    }

    /// The `path` field.
    pub fn path(&self) -> (r: &str)
        ensures
            r@ == self.path@,
    {
        self.path.as_str()
    }

    /// The `revision` field.
    pub fn revision(&self) -> (r: u64)
        ensures
            r == self.revision,
    {
        self.revision
    }

    /// The `instance_id` field.
    pub fn instance_id(&self) -> (r: &str)
        ensures
            r@ == self.instance_id@,
    {
        self.instance_id.as_str()
    }

    /// The `summary` field.
    pub fn summary(&self) -> (r: &str)
        ensures
            r@ == self.summary@,
    {
        self.summary.as_str()
    }

    /// The `amended` field.
    pub fn amended(&self) -> (r: bool)
        ensures
            r == self.amended,
    {
        self.amended
    }
}

/// The answer to `get_page_section`.
#[derive(Clone, Debug, PartialEq, Eq)]
pub struct GetPageSectionResponse {
    /// Current path.
    pub path: String,
    /// Revision.
    pub revision: u64,
    /// The section.
    pub section: McpSectionInfo,
    /// Section body.
    pub content: String,
}

impl GetPageSectionResponse {
    /// Builds the value from its fields.
    pub fn new(path: String, revision: u64, section: McpSectionInfo, content: String) -> (r: GetPageSectionResponse)
        ensures
            r.path == path,
            r.revision == revision,
            r.section == section,
            r.content == content,
    {
        GetPageSectionResponse { path, revision, section, content }
    }

    /// The `path` field.
    pub fn path(&self) -> (r: &str)
        ensures
            r@ == self.path@,
    {
        self.path.as_str()
    }

    /// The `revision` field.
    pub fn revision(&self) -> (r: u64)
        ensures
            r == self.revision,
    {
        self.revision
    }

    /// The `section` field.
    pub fn section(&self) -> (r: &McpSectionInfo)
        ensures
            *r == self.section,
    {
        &self.section
    }

    /// The `content` field.
    pub fn content(&self) -> (r: &str)
        ensures
            r@ == self.content@,
    {
        self.content.as_str()
    }
}

/// A tool call, by tool.
#[derive(Clone, Debug, PartialEq, Eq)]
pub enum McpToolRequest {
    /// `get_page`
    GetPage(GetPageRequest),
    /// `get_page_toc`
    GetPageToc(GetPageTocRequest),
    /// `list_pages`
    ListPages(ListPagesRequest),
    /// `search_pages`
    SearchPages(SearchPagesRequest),
    /// `create_page`
    CreatePage(WritePageRequest),
    /// `update_page`
    UpdatePage(WritePageRequest),
    /// `edit_page`
    EditPage(EditPageRequest),
    /// `append_page`
    AppendPage(WritePageRequest),
    /// `rename_page`
    RenamePage(RenamePageRequest),
    /// `get_page_section`
    GetPageSection(GetPageSectionRequest),
}

/// A tool call together with the name it was published under.
#[derive(Clone, Debug, PartialEq, Eq)]
pub struct McpRequestEnvelope {
    /// The tool name.
    pub tool_name: McpToolName,
    /// The call.
    pub request: McpToolRequest,
}

impl McpRequestEnvelope {
    /// Builds the envelope.
    pub fn new(tool_name: McpToolName, request: McpToolRequest) -> (r: McpRequestEnvelope)
        ensures
            r.tool_name == tool_name,
            r.request == request,
    {
        McpRequestEnvelope { tool_name, request }
    }

    /// The tool name.
    pub fn tool_name(&self) -> (t: McpToolName)
        ensures
            t == self.tool_name,
    {
        self.tool_name
    }

    /// The call.
    pub fn request(&self) -> (r: &McpToolRequest)
        ensures
            *r == self.request,
    {
        &self.request
    }
}

/// What a tool call hands back, by tool (`search_pages` answers with scores
/// and is built where its ranking is done).
#[derive(Clone, Debug, PartialEq, Eq)]
pub enum McpToolResponse {
    /// `get_page`
    GetPage(GetPageResponse),
    /// `get_page_toc`
    GetPageToc(GetPageTocResponse),
    /// `list_pages`
    ListPages(ListPagesResponse),
    /// `create_page`
    CreatePage(WritePageResponse),
    /// `update_page`
    UpdatePage(WritePageResponse),
    /// `edit_page`
    EditPage(EditPageResponse),
    /// `append_page`
    AppendPage(AppendPageResponse),
    /// `rename_page`
    RenamePage(WritePageResponse),
    /// `get_page_section`
    GetPageSection(GetPageSectionResponse),
}

/// A tool's answer together with the tool's name.
#[derive(Clone, Debug, PartialEq, Eq)]
pub struct McpResponseEnvelope {
    /// The tool name.
    pub tool_name: McpToolName,
    /// The answer.
    pub response: McpToolResponse,
}

impl McpResponseEnvelope {
    /// Builds the envelope.
    pub fn new(tool_name: McpToolName, response: McpToolResponse) -> (r: McpResponseEnvelope)
        ensures
            r.tool_name == tool_name,
            r.response == response,
    {
        McpResponseEnvelope { tool_name, response }
    }

    /// The tool name.
    pub fn tool_name(&self) -> (t: McpToolName)
        ensures
            t == self.tool_name,
    {
        self.tool_name
    }

    /// The answer.
    pub fn response(&self) -> (r: &McpToolResponse)
        ensures
            *r == self.response,
    {
        &self.response
    }
}

} // verus!
