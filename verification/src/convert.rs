//! Conversions between what a client sends or receives and what the
//! service layer works with.

use vstd::prelude::*;
use crate::editing::{
    EditPageInsertSectionPlacement, EditPageOperation, EditPageReplaceTextOccurrence,
    SectionSelector,
};
use crate::model::{
    AppendPageResponse, EditPageResponse, GetPageResponse, GetPageSectionResponse,
    GetPageTocResponse, ListPagesResponse, McpEditPageInsertSectionPlacement, McpEditPageOperation,
    McpEditPageReplaceTextOccurrence, McpEditPageSectionSelector, McpPageListItem,
    McpSectionInfo, McpSectionSelector, WritePageResponse,
};
use crate::pages::{
    AppendServiceResult, EditPageResult, GetPageResult, GetPageSectionResult, GetPageTocResult,
    ListPageItem, ListPagesResult, TocSection, WritePageResult,
};

verus! {

impl From<SectionSelector> for McpSectionSelector {
    fn from(selector: SectionSelector) -> (r: McpSectionSelector) {
        match selector {
            SectionSelector::ById(id) => McpSectionSelector::ById(id),
            SectionSelector::ByTitle(title) => McpSectionSelector::ByTitle(title),
        }
    }
}

impl vstd::std_specs::convert::FromSpecImpl<SectionSelector> for McpSectionSelector {
    open spec fn obeys_from_spec() -> bool {
        true
    }

    open spec fn from_spec(selector: SectionSelector) -> McpSectionSelector {
        match selector {
            SectionSelector::ById(id) => McpSectionSelector::ById(id),
            SectionSelector::ByTitle(title) => McpSectionSelector::ByTitle(title),
        }
    }
}

impl From<McpSectionSelector> for SectionSelector {
    fn from(selector: McpSectionSelector) -> (r: SectionSelector) {
        match selector {
            McpSectionSelector::ById(id) => SectionSelector::ById(id),
            McpSectionSelector::ByTitle(title) => SectionSelector::ByTitle(title),
        }
    }
}

impl vstd::std_specs::convert::FromSpecImpl<McpSectionSelector> for SectionSelector {
    open spec fn obeys_from_spec() -> bool {
        true
    }

    open spec fn from_spec(selector: McpSectionSelector) -> SectionSelector {
        match selector {
            McpSectionSelector::ById(id) => SectionSelector::ById(id),
            McpSectionSelector::ByTitle(title) => SectionSelector::ByTitle(title),
        }
    }
}

impl From<McpEditPageSectionSelector> for SectionSelector {
    fn from(selector: McpEditPageSectionSelector) -> (r: SectionSelector) {
        match selector {
            McpEditPageSectionSelector::Text(value) => SectionSelector::ByTitle(value),
            McpEditPageSectionSelector::ById(value) => SectionSelector::ById(value),
            McpEditPageSectionSelector::ByTitle(value) => SectionSelector::ByTitle(value),
        }
    }
}

impl vstd::std_specs::convert::FromSpecImpl<McpEditPageSectionSelector> for SectionSelector {
    open spec fn obeys_from_spec() -> bool {
        true
    }

    open spec fn from_spec(selector: McpEditPageSectionSelector) -> SectionSelector {
        match selector {
            McpEditPageSectionSelector::Text(value) => SectionSelector::ByTitle(value),
            McpEditPageSectionSelector::ById(value) => SectionSelector::ById(value),
            McpEditPageSectionSelector::ByTitle(value) => SectionSelector::ByTitle(value),
        }
    }
}

impl From<EditPageInsertSectionPlacement> for McpEditPageInsertSectionPlacement {
    fn from(placement: EditPageInsertSectionPlacement) -> (r: McpEditPageInsertSectionPlacement) {
        match placement {
            EditPageInsertSectionPlacement::Before => McpEditPageInsertSectionPlacement::Before,
            EditPageInsertSectionPlacement::After => McpEditPageInsertSectionPlacement::After,
        }
    }
}

impl vstd::std_specs::convert::FromSpecImpl<EditPageInsertSectionPlacement> for
    McpEditPageInsertSectionPlacement {
    open spec fn obeys_from_spec() -> bool {
        true
    }

    open spec fn from_spec(placement: EditPageInsertSectionPlacement) -> McpEditPageInsertSectionPlacement {
        match placement {
            EditPageInsertSectionPlacement::Before => McpEditPageInsertSectionPlacement::Before,
            EditPageInsertSectionPlacement::After => McpEditPageInsertSectionPlacement::After,
        }
    }
}

impl From<McpEditPageInsertSectionPlacement> for EditPageInsertSectionPlacement {
    fn from(placement: McpEditPageInsertSectionPlacement) -> (r: EditPageInsertSectionPlacement) {
        match placement {
            McpEditPageInsertSectionPlacement::Before => EditPageInsertSectionPlacement::Before,
            McpEditPageInsertSectionPlacement::After => EditPageInsertSectionPlacement::After,
        }
    }
}

impl vstd::std_specs::convert::FromSpecImpl<McpEditPageInsertSectionPlacement> for
    EditPageInsertSectionPlacement {
    open spec fn obeys_from_spec() -> bool {
        true
    }

    open spec fn from_spec(placement: McpEditPageInsertSectionPlacement) -> EditPageInsertSectionPlacement {
        match placement {
            McpEditPageInsertSectionPlacement::Before => EditPageInsertSectionPlacement::Before,
            McpEditPageInsertSectionPlacement::After => EditPageInsertSectionPlacement::After,
        }
    }
}

impl From<EditPageReplaceTextOccurrence> for McpEditPageReplaceTextOccurrence {
    fn from(occurrence: EditPageReplaceTextOccurrence) -> (r: McpEditPageReplaceTextOccurrence) {
        match occurrence {
            EditPageReplaceTextOccurrence::First => McpEditPageReplaceTextOccurrence::First,
            EditPageReplaceTextOccurrence::All => McpEditPageReplaceTextOccurrence::All,
        }
    }
}

impl vstd::std_specs::convert::FromSpecImpl<EditPageReplaceTextOccurrence> for
    McpEditPageReplaceTextOccurrence {
    open spec fn obeys_from_spec() -> bool {
        true
    }

    open spec fn from_spec(occurrence: EditPageReplaceTextOccurrence) -> McpEditPageReplaceTextOccurrence {
        match occurrence {
            EditPageReplaceTextOccurrence::First => McpEditPageReplaceTextOccurrence::First,
            EditPageReplaceTextOccurrence::All => McpEditPageReplaceTextOccurrence::All,
        }
    }
}

impl From<McpEditPageReplaceTextOccurrence> for EditPageReplaceTextOccurrence {
    fn from(occurrence: McpEditPageReplaceTextOccurrence) -> (r: EditPageReplaceTextOccurrence) {
        match occurrence {
            McpEditPageReplaceTextOccurrence::First => EditPageReplaceTextOccurrence::First,
            McpEditPageReplaceTextOccurrence::All => EditPageReplaceTextOccurrence::All,
        }
    }
}

impl vstd::std_specs::convert::FromSpecImpl<McpEditPageReplaceTextOccurrence> for
    EditPageReplaceTextOccurrence {
    open spec fn obeys_from_spec() -> bool {
        true
    }

    open spec fn from_spec(occurrence: McpEditPageReplaceTextOccurrence) -> EditPageReplaceTextOccurrence {
        match occurrence {
            McpEditPageReplaceTextOccurrence::First => EditPageReplaceTextOccurrence::First,
            McpEditPageReplaceTextOccurrence::All => EditPageReplaceTextOccurrence::All,
        }
    }
}

/// The service form of a client's section selector: a bare text names a
/// heading.
pub open spec fn edit_selector(selector: McpEditPageSectionSelector) -> SectionSelector {
    match selector {
        McpEditPageSectionSelector::Text(value) => SectionSelector::ByTitle(value),
        McpEditPageSectionSelector::ById(value) => SectionSelector::ById(value),
        McpEditPageSectionSelector::ByTitle(value) => SectionSelector::ByTitle(value),
    }
}

/// The service form of a client's placement.
pub open spec fn edit_placement(p: McpEditPageInsertSectionPlacement) -> EditPageInsertSectionPlacement {
    match p {
        McpEditPageInsertSectionPlacement::Before => EditPageInsertSectionPlacement::Before,
        McpEditPageInsertSectionPlacement::After => EditPageInsertSectionPlacement::After,
    }
}

/// The service form of a client's occurrence.
pub open spec fn edit_occurrence(o: Option<McpEditPageReplaceTextOccurrence>) -> Option<
    EditPageReplaceTextOccurrence,
> {
    match o {
        Some(McpEditPageReplaceTextOccurrence::First) => Some(EditPageReplaceTextOccurrence::First),
        Some(McpEditPageReplaceTextOccurrence::All) => Some(EditPageReplaceTextOccurrence::All),
        None => None,
    }
}

/// The service form of a client's edit operation.
pub open spec fn edit_operation(operation: McpEditPageOperation) -> EditPageOperation {
    match operation {
        McpEditPageOperation::ReplaceSection { section, content } => EditPageOperation::ReplaceSection {
            section: edit_selector(section),
            content,
        },
        McpEditPageOperation::InsertSection { anchor, placement, content } =>
            EditPageOperation::InsertSection {
            anchor: edit_selector(anchor),
            placement: edit_placement(placement),
            content,
        },
        McpEditPageOperation::DeleteSection { section } => EditPageOperation::DeleteSection {
            section: edit_selector(section),
        },
        McpEditPageOperation::ReplaceText { old_text, new_text, occurrence } =>
            EditPageOperation::ReplaceText { old_text, new_text, occurrence: edit_occurrence(occurrence) },
    }
}

impl From<McpEditPageOperation> for EditPageOperation {
    fn from(operation: McpEditPageOperation) -> (r: EditPageOperation) {
        match operation {
            McpEditPageOperation::ReplaceSection { section, content } =>
                EditPageOperation::ReplaceSection { section: SectionSelector::from(section), content },
            McpEditPageOperation::InsertSection { anchor, placement, content } =>
                EditPageOperation::InsertSection {
                anchor: SectionSelector::from(anchor),
                placement: EditPageInsertSectionPlacement::from(placement),
                content,
            },
            McpEditPageOperation::DeleteSection { section } => EditPageOperation::DeleteSection {
                section: SectionSelector::from(section),
            },
            McpEditPageOperation::ReplaceText { old_text, new_text, occurrence } =>
                EditPageOperation::ReplaceText {
                old_text,
                new_text,
                occurrence: match occurrence {
                    Some(o) => Some(EditPageReplaceTextOccurrence::from(o)),
                    None => None,
                },
            },
        }
    }
}

impl vstd::std_specs::convert::FromSpecImpl<McpEditPageOperation> for EditPageOperation {
    open spec fn obeys_from_spec() -> bool {
        true
    }

    open spec fn from_spec(operation: McpEditPageOperation) -> EditPageOperation {
        edit_operation(operation)
    }
}

impl From<crate::model::EditPageRequest> for crate::editing::EditPageRequest {
    fn from(request: crate::model::EditPageRequest) -> (r: crate::editing::EditPageRequest) {
        crate::editing::EditPageRequest::new(
            request.path,
            request.revision,
            request.instance_id,
            EditPageOperation::from(request.operation),
        )
    }
}

impl vstd::std_specs::convert::FromSpecImpl<crate::model::EditPageRequest> for
    crate::editing::EditPageRequest {
    open spec fn obeys_from_spec() -> bool {
        true
    }

    open spec fn from_spec(request: crate::model::EditPageRequest) -> crate::editing::EditPageRequest {
        crate::editing::EditPageRequest {
            path: request.path,
            revision: request.revision,
            instance_id: request.instance_id,
            operation: edit_operation(request.operation),
        }
    }
}

/// The client's form of a table-of-contents entry.
pub open spec fn section_info(t: TocSection) -> McpSectionInfo {
    McpSectionInfo {
        id: t.id,
        title: t.title,
        level: t.level,
        ordinal: t.ordinal,
        parent_id: t.parent_id,
        section_chars: t.section_chars,
    }
}

/// The client's form of a table-of-contents entry (executable).
pub fn section_info_of(section: &TocSection) -> (r: McpSectionInfo)
    ensures
        r == section_info(*section),
{
    McpSectionInfo {
        id: section.id.clone(),
        title: section.title.clone(),
        level: section.level,
        ordinal: section.ordinal,
        parent_id: match &section.parent_id {
            Some(p) => Some(p.clone()),
            None => None,
        },
        section_chars: section.section_chars,
    }
}

impl From<GetPageResult> for GetPageResponse {
    fn from(result: GetPageResult) -> (r: GetPageResponse) {
        GetPageResponse {
            path: result.path,
            revision: result.revision,
            instance_id: result.instance_id,
            content: result.content,
        }
    }
}

impl vstd::std_specs::convert::FromSpecImpl<GetPageResult> for GetPageResponse {
    open spec fn obeys_from_spec() -> bool {
        true
    }

    open spec fn from_spec(result: GetPageResult) -> GetPageResponse {
        GetPageResponse {
            path: result.path,
            revision: result.revision,
            instance_id: result.instance_id,
            content: result.content,
        }
    }
}

impl From<WritePageResult> for WritePageResponse {
    fn from(result: WritePageResult) -> (r: WritePageResponse) {
        WritePageResponse {
            path: result.path,
            revision: result.revision,
            instance_id: result.instance_id,
            summary: result.summary,
        }
    }
}

impl vstd::std_specs::convert::FromSpecImpl<WritePageResult> for WritePageResponse {
    open spec fn obeys_from_spec() -> bool {
        true
    }

    open spec fn from_spec(result: WritePageResult) -> WritePageResponse {
        WritePageResponse {
            path: result.path,
            revision: result.revision,
            instance_id: result.instance_id,
            summary: result.summary,
        }
    }
}

impl From<EditPageResult> for EditPageResponse {
    fn from(result: EditPageResult) -> (r: EditPageResponse) {
        EditPageResponse {
            path: result.path,
            revision: result.revision,
            instance_id: result.instance_id,
            summary: result.summary,
        }
    }
}

impl vstd::std_specs::convert::FromSpecImpl<EditPageResult> for EditPageResponse {
    open spec fn obeys_from_spec() -> bool {
        true
    }

    open spec fn from_spec(result: EditPageResult) -> EditPageResponse {
        EditPageResponse {
            path: result.path,
            revision: result.revision,
            instance_id: result.instance_id,
            summary: result.summary,
        }
    }
}

impl From<AppendServiceResult> for AppendPageResponse {
    fn from(result: AppendServiceResult) -> (r: AppendPageResponse) {
        AppendPageResponse {
            path: result.path,
            revision: result.revision,
            instance_id: result.instance_id,
            summary: result.summary,
            amended: result.amended,
        }
    }
}

impl vstd::std_specs::convert::FromSpecImpl<AppendServiceResult> for AppendPageResponse {
    open spec fn obeys_from_spec() -> bool {
        true
    }

    open spec fn from_spec(result: AppendServiceResult) -> AppendPageResponse {
        AppendPageResponse {
            path: result.path,
            revision: result.revision,
            instance_id: result.instance_id,
            summary: result.summary,
            amended: result.amended,
        }
    }
}

impl From<GetPageSectionResult> for GetPageSectionResponse {
    fn from(result: GetPageSectionResult) -> (r: GetPageSectionResponse) {
        let section = section_info_of(&result.section);
        GetPageSectionResponse {
            path: result.path,
            revision: result.revision,
            section,
            content: result.content,
        }
    }
}

impl vstd::std_specs::convert::FromSpecImpl<GetPageSectionResult> for GetPageSectionResponse {
    open spec fn obeys_from_spec() -> bool {
        true
    }

    open spec fn from_spec(result: GetPageSectionResult) -> GetPageSectionResponse {
        GetPageSectionResponse {
            path: result.path,
            revision: result.revision,
            section: section_info(result.section),
            content: result.content,
        }
    }
}

/// The client's form of a table of contents.
pub fn toc_response(result: GetPageTocResult) -> (r: GetPageTocResponse)
    ensures
        r.path == result.path,
        r.revision == result.revision,
        r.instance_id == result.instance_id,
        r.sections@ == result.sections@.map_values(|t: TocSection| section_info(t)),
{
    let mut sections: Vec<McpSectionInfo> = Vec::new();
    let mut i: usize = 0;
    while i < result.sections.len()
        invariant
            i <= result.sections@.len(),
            sections@ == result.sections@.take(i as int).map_values(|t: TocSection| section_info(t)),
        decreases result.sections@.len() - i,
    {
        sections.push(section_info_of(&result.sections[i]));
        i = i + 1;
        assert(sections@ =~= result.sections@.take(i as int).map_values(
            |t: TocSection| section_info(t),
        ));
    }
    assert(result.sections@.take(i as int) =~= result.sections@);
    GetPageTocResponse {
        path: result.path,
        revision: result.revision,
        instance_id: result.instance_id,
        sections,
    }
}

/// The client's form of a listed page.
pub open spec fn page_list_item(i: ListPageItem) -> McpPageListItem {
    McpPageListItem {
        path: i.path,
        revision: i.revision,
        updated_at: i.updated_at,
        updated_by: i.updated_by,
    }
}

/// The client's form of a listing.
pub fn list_pages_response(result: ListPagesResult) -> (r: ListPagesResponse)
    ensures
        r.items@ == result.items@.map_values(|i: ListPageItem| page_list_item(i)),
        r.has_more == result.has_more,
        r.next_cursor == result.next_cursor,
{
    let mut items: Vec<McpPageListItem> = Vec::new();
    let mut i: usize = 0;
    while i < result.items.len()
        invariant
            i <= result.items@.len(),
            items@ == result.items@.take(i as int).map_values(|x: ListPageItem| page_list_item(x)),
        decreases result.items@.len() - i,
    {
        let x = &result.items[i];
        items.push(
            McpPageListItem {
                path: x.path.clone(),
                revision: x.revision,
                updated_at: x.updated_at.clone(),
                updated_by: x.updated_by.clone(),
            },
        );
        i = i + 1;
        assert(items@ =~= result.items@.take(i as int).map_values(
            |x: ListPageItem| page_list_item(x),
        ));
    }
    assert(result.items@.take(i as int) =~= result.items@);
    ListPagesResponse { items, has_more: result.has_more, next_cursor: result.next_cursor }
}

/// A client's section selector for `get_page_section`, in service form.
pub open spec fn section_selector(selector: McpSectionSelector) -> SectionSelector {
    match selector {
        McpSectionSelector::ById(id) => SectionSelector::ById(id),
        McpSectionSelector::ByTitle(title) => SectionSelector::ByTitle(title),
    }
}

/// A client's section selector in service form (executable, by reference).
pub fn section_selector_of(selector: &McpSectionSelector) -> (r: SectionSelector)
    ensures
        r == section_selector(*selector),
{
    match selector {
        McpSectionSelector::ById(id) => SectionSelector::ById(id.clone()),
        McpSectionSelector::ByTitle(title) => SectionSelector::ByTitle(title.clone()),
    }
}

fn edit_selector_of(selector: &McpEditPageSectionSelector) -> (r: SectionSelector)
    ensures
        r == edit_selector(*selector),
{
    match selector {
        McpEditPageSectionSelector::Text(v) => SectionSelector::ByTitle(v.clone()),
        McpEditPageSectionSelector::ById(v) => SectionSelector::ById(v.clone()),
        McpEditPageSectionSelector::ByTitle(v) => SectionSelector::ByTitle(v.clone()),
    }
}

/// A client's edit request in service form.
pub open spec fn service_edit_request(request: crate::model::EditPageRequest) -> crate::editing::EditPageRequest {
    crate::editing::EditPageRequest {
        path: request.path,
        revision: request.revision,
        instance_id: request.instance_id,
        operation: edit_operation(request.operation),
    }
}

/// A client's edit request in service form (executable, by reference).
pub fn edit_request_of(request: &crate::model::EditPageRequest) -> (r: crate::editing::EditPageRequest)
    ensures
        r == service_edit_request(*request),
{
    let operation = match &request.operation {
        McpEditPageOperation::ReplaceSection { section, content } => EditPageOperation::ReplaceSection {
            section: edit_selector_of(section),
            content: content.clone(),
        },
        McpEditPageOperation::InsertSection { anchor, placement, content } =>
            EditPageOperation::InsertSection {
            anchor: edit_selector_of(anchor),
            placement: EditPageInsertSectionPlacement::from(*placement),
            content: content.clone(),
        },
        McpEditPageOperation::DeleteSection { section } => EditPageOperation::DeleteSection {
            section: edit_selector_of(section),
        },
        McpEditPageOperation::ReplaceText { old_text, new_text, occurrence } =>
            EditPageOperation::ReplaceText {
            old_text: old_text.clone(),
            new_text: new_text.clone(),
            occurrence: match occurrence {
                Some(o) => Some(EditPageReplaceTextOccurrence::from(*o)),
                None => None,
            },
        },
    };
    crate::editing::EditPageRequest::new(
        request.path.clone(),
        request.revision,
        request.instance_id.clone(),
        operation,
    )
}

} // verus!
