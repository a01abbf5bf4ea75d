use luwiki_mcp::editing::{
    EditPageInsertSectionPlacement, EditPageOperation, EditPageReplaceTextOccurrence,
    SectionSelector,
};
use luwiki_mcp::errors::McpErrorCode;
use luwiki_mcp::service::McpService;

#[test]
fn resolve_section_selector_rejects_ambiguous_title_as_invalid_input() {
    let service = McpService::new();
    let source = "# Root\n\nbody\n\n## Child\n\nfirst\n\n## Child\n\nsecond\n";
    let sections = service.parse_markdown_toc_sections(source).expect("parse toc sections failed");

    let error = service
        .resolve_section_selector(&sections, SectionSelector::ByTitle("Child".to_string()))
        .expect_err("ambiguous title must fail");

    assert_eq!(error.code(), McpErrorCode::InvalidInput);
    assert!(error.message().contains("section title is ambiguous"), "unexpected error: {}", error.message());
}

#[test]
fn replace_section_content_keeps_heading_and_replaces_body_range() {
    let service = McpService::new();
    let source = "# Root\n\nintro\n\n## Child\n\nchild text\n\n# Next\n\nnext\n";
    let sections = service.parse_markdown_toc_sections(source).expect("parse toc sections failed");
    let target = service
        .resolve_section_selector(&sections, SectionSelector::ById("s-001".to_string()))
        .expect("resolve section by id failed");

    let replaced = service.replace_section_content(source, &target, "replaced root body");

    assert!(replaced.starts_with("# Root\n"));
    assert!(replaced.contains("replaced root body"));
    assert!(!replaced.contains("intro"));
    assert!(!replaced.contains("## Child"));
    assert!(replaced.contains("# Next"));
}

#[test]
fn insert_section_content_supports_before_and_after_anchor() {
    let service = McpService::new();
    let source = "# Root\n\nroot body\n\n# Next\n\nnext body\n";
    let sections = service.parse_markdown_toc_sections(source).expect("parse toc sections failed");
    let root = service
        .resolve_section_selector(&sections, SectionSelector::ById("s-001".to_string()))
        .expect("resolve root failed");

    let inserted_before = service.insert_section_content(
        source,
        &root,
        EditPageInsertSectionPlacement::Before,
        "# Inserted Before\n\nbefore body\n\n",
    );
    assert!(inserted_before.starts_with("# Inserted Before\n\nbefore body\n\n# Root"));

    let inserted_after = service.insert_section_content(
        source,
        &root,
        EditPageInsertSectionPlacement::After,
        "# Inserted After\n\nafter body\n\n",
    );
    assert!(inserted_after.contains("# Root\n\nroot body\n\n# Inserted After\n\nafter body\n\n# Next"));
}

#[test]
fn delete_section_content_removes_only_target_section_range() {
    let service = McpService::new();
    let source = "# Root\n\nroot body\n\n## Child\n\nchild body\n\n# Next\n\nnext body\n";
    let sections = service.parse_markdown_toc_sections(source).expect("parse toc sections failed");
    let target = service
        .resolve_section_selector(&sections, SectionSelector::ById("s-001".to_string()))
        .expect("resolve section failed");

    let deleted = service.delete_section_content(source, &target);

    assert!(!deleted.contains("# Root"));
    assert!(!deleted.contains("root body"));
    assert!(!deleted.contains("## Child"));
    assert!(!deleted.contains("child body"));
    assert!(deleted.contains("# Next"));
    assert!(deleted.contains("next body"));
}

#[test]
fn replace_text_content_supports_default_first_and_all() {
    let service = McpService::new();
    let source = "alpha beta alpha beta";

    let replaced_default = service.replace_text_content(source, "alpha", "gamma", None);
    assert_eq!(replaced_default, "gamma beta alpha beta");

    let replaced_first = service.replace_text_content(
        source,
        "alpha",
        "gamma",
        Some(EditPageReplaceTextOccurrence::First),
    );
    assert_eq!(replaced_first, "gamma beta alpha beta");

    let replaced_all = service.replace_text_content(
        source,
        "alpha",
        "gamma",
        Some(EditPageReplaceTextOccurrence::All),
    );
    assert_eq!(replaced_all, "gamma beta gamma beta");
}

#[test]
fn insert_section_content_keeps_inserted_section_heading() {
    let service = McpService::new();
    let source = "# Root\n\nroot body\n\n# Next\n\nnext body\n";
    let sections = service.parse_markdown_toc_sections(source).expect("parse toc sections failed");
    let anchor = service
        .resolve_section_selector(&sections, SectionSelector::ById("s-001".to_string()))
        .expect("resolve anchor failed");

    let inserted = service.insert_section_content(
        source,
        &anchor,
        EditPageInsertSectionPlacement::After,
        "## Inserted\n\ninserted body\n",
    );

    assert!(inserted.contains("## Inserted\n\ninserted body\n"));
    assert!(inserted.contains("# Root\n\nroot body\n\n## Inserted"));
    assert!(inserted.contains("inserted body\n# Next"));
}

#[test]
fn apply_edit_page_operation_classifies_section_operation_failures() {
    let service = McpService::new();
    let source = "# Root\n\nbody\n";

    let missing_replace_section = service
        .apply_edit_page_operation(
            source,
            &EditPageOperation::ReplaceSection {
                section: SectionSelector::ById("s-999".to_string()),
                content: "updated".to_string(),
            },
        )
        .expect_err("missing replace target should fail");
    assert_eq!(missing_replace_section.code(), McpErrorCode::NotFound);

    let missing_insert_anchor = service
        .apply_edit_page_operation(
            source,
            &EditPageOperation::InsertSection {
                anchor: SectionSelector::ById("s-999".to_string()),
                placement: EditPageInsertSectionPlacement::After,
                content: "# Inserted\n\nbody\n".to_string(),
            },
        )
        .expect_err("missing insert anchor should fail");
    assert_eq!(missing_insert_anchor.code(), McpErrorCode::NotFound);

    let missing_delete_section = service
        .apply_edit_page_operation(
            source,
            &EditPageOperation::DeleteSection { section: SectionSelector::ById("s-999".to_string()) },
        )
        .expect_err("missing delete target should fail");
    assert_eq!(missing_delete_section.code(), McpErrorCode::NotFound);
}

#[test]
fn apply_edit_page_operation_classifies_replace_text_failures() {
    let service = McpService::new();
    let source = "# Root\n\nbody\n";

    let empty_old_text = service
        .apply_edit_page_operation(
            source,
            &EditPageOperation::ReplaceText {
                old_text: "".to_string(),
                new_text: "x".to_string(),
                occurrence: None,
            },
        )
        .expect_err("empty old_text should fail");
    assert_eq!(empty_old_text.code(), McpErrorCode::InvalidInput);

    let missing_text = service
        .apply_edit_page_operation(
            source,
            &EditPageOperation::ReplaceText {
                old_text: "missing".to_string(),
                new_text: "x".to_string(),
                occurrence: None,
            },
        )
        .expect_err("missing text should fail");
    assert_eq!(missing_text.code(), McpErrorCode::NotFound);
}

#[test]
fn toc_sections_number_headings_and_link_parents() {
    let service = McpService::new();
    let source = "# A\n\ntext\n\n## B\n\nmore\n\n# C\n";
    let sections = service.parse_markdown_toc_sections(source).expect("parse failed");
    assert_eq!(sections.len(), 3);
    assert_eq!(sections[0].id, "s-001");
    assert_eq!(sections[0].title, "A");
    assert_eq!(sections[0].level, 1);
    assert_eq!(sections[0].parent_id, None);
    assert_eq!(sections[1].id, "s-002");
    assert_eq!(sections[1].parent_id.as_deref(), Some("s-001"));
    assert_eq!(sections[1].level, 2);
    assert_eq!(sections[2].ordinal, 3);
    assert_eq!(sections[2].parent_id, None);
    // The first section runs from the end of its heading line up to the next
    // heading of its level; the heading's range ends after its line break.
    let body = &source[sections[0].content_start..sections[0].content_end];
    assert_eq!(body, "\ntext\n\n## B\n\nmore\n\n");
    assert_eq!(sections[2].content_end, source.len());
}

#[test]
fn toc_section_offsets_are_byte_offsets() {
    let service = McpService::new();
    let source = "# Caf\u{e9}\n\n\u{fc}ber\n\n# Z\n";
    let sections = service.parse_markdown_toc_sections(source).expect("parse failed");
    assert_eq!(sections.len(), 2);
    assert_eq!(sections[0].title, "Caf\u{e9}");
    assert_eq!(sections[0].heading_start, 0);
    // "# Caf\u{e9}\n" takes eight bytes: the accented letter takes two.
    assert_eq!(sections[0].content_start, 8);
    assert_eq!(sections[1].heading_start, source.find("# Z").unwrap());
    assert_eq!(sections[0].content_end, sections[1].heading_start);
    assert_eq!(sections[1].content_end, source.len());
    assert_eq!(
        &source[sections[0].content_start..sections[0].content_end],
        "\n\u{fc}ber\n\n"
    );
    assert_eq!(service.extract_section_content(source, &sections[0]), "\u{fc}ber\n\n");
    assert_eq!(
        service.replace_section_content(source, &sections[0], "neu"),
        "# Caf\u{e9}\n\nneu\n\n# Z\n"
    );
    assert_eq!(service.delete_section_content(source, &sections[0]), "# Z\n");
    assert_eq!(
        service.insert_section_content(
            source,
            &sections[1],
            EditPageInsertSectionPlacement::Before,
            "# \u{c4}\n",
        ),
        "# Caf\u{e9}\n\n\u{fc}ber\n\n# \u{c4}\n# Z\n"
    );
}

#[test]
fn toc_sections_of_text_without_headings_are_empty() {
    let service = McpService::new();
    let sections = service.parse_markdown_toc_sections("plain text\nmore text\n").expect("parse failed");
    assert!(sections.is_empty());
}

#[test]
fn extract_section_content_drops_leading_line_breaks() {
    let service = McpService::new();
    let source = "# A\n\n\r\nbody line\n";
    let sections = service.parse_markdown_toc_sections(source).expect("parse failed");
    assert_eq!(service.extract_section_content(source, &sections[0]), "body line\n");
}

#[test]
fn replace_section_keeps_surrounding_line_breaks() {
    let service = McpService::new();
    let source = "# A\n\nold\n\n# B\n";
    let sections = service.parse_markdown_toc_sections(source).expect("parse failed");
    let replaced = service.replace_section_content(source, &sections[0], "new");
    assert_eq!(replaced, "# A\n\nnew\n\n# B\n");
}

#[test]
fn insert_section_adds_a_line_break_when_neither_side_has_one() {
    let service = McpService::new();
    let source = "# A\ntext";
    let sections = service.parse_markdown_toc_sections(source).expect("parse failed");
    let inserted = service.insert_section_content(
        source,
        &sections[0],
        EditPageInsertSectionPlacement::Before,
        "# Z",
    );
    assert_eq!(inserted, "# Z\n# A\ntext");
}

#[test]
fn replace_text_with_empty_pattern_matches_between_characters() {
    let service = McpService::new();
    assert_eq!(
        service.replace_text_content("ab", "", "-", Some(EditPageReplaceTextOccurrence::All)),
        "ab".replace("", "-"),
    );
    assert_eq!(service.replace_text_content("ab", "", "-", None), "ab".replacen("", "-", 1));
}

#[test]
fn replace_text_counts_characters_not_bytes() {
    let service = McpService::new();
    let source = "äöü äöü";
    assert_eq!(
        service.replace_text_content(source, "öü", "x", Some(EditPageReplaceTextOccurrence::All)),
        "äx äx",
    );
}

#[test]
fn apply_edit_page_operation_applies_each_kind() {
    let service = McpService::new();
    let source = "# Root\n\nbody\n\n# Next\n\nnext\n";

    let replaced = service
        .apply_edit_page_operation(
            source,
            &EditPageOperation::ReplaceSection {
                section: SectionSelector::ByTitle("  Next ".to_string()),
                content: "changed".to_string(),
            },
        )
        .expect("replace section failed");
    assert_eq!(replaced, "# Root\n\nbody\n\n# Next\n\nchanged\n");

    let deleted = service
        .apply_edit_page_operation(
            source,
            &EditPageOperation::DeleteSection { section: SectionSelector::ById("s-002".to_string()) },
        )
        .expect("delete section failed");
    assert_eq!(deleted, "# Root\n\nbody\n\n");

    let texted = service
        .apply_edit_page_operation(
            source,
            &EditPageOperation::ReplaceText {
                old_text: "body".to_string(),
                new_text: "text".to_string(),
                occurrence: Some(EditPageReplaceTextOccurrence::All),
            },
        )
        .expect("replace text failed");
    assert_eq!(texted, "# Root\n\ntext\n\n# Next\n\nnext\n");
}

#[test]
fn resolve_section_selector_rejects_blank_title_and_unknown_id() {
    let service = McpService::new();
    let sections = service.parse_markdown_toc_sections("# A\n").expect("parse failed");
    let blank = service
        .resolve_section_selector(&sections, SectionSelector::ByTitle("   ".to_string()))
        .expect_err("blank title must fail");
    assert_eq!(blank.code(), McpErrorCode::InvalidInput);
    assert_eq!(blank.message(), "section title must not be empty");
    let unknown = service
        .resolve_section_selector(&sections, SectionSelector::ById("s-009".to_string()))
        .expect_err("unknown id must fail");
    assert_eq!(unknown.code(), McpErrorCode::NotFound);
    assert_eq!(unknown.message(), "section not found: s-009");
}
