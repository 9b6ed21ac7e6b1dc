use aider_script::markdown_doc::MarkdownDoc;

#[test]
fn test_parse_markdown_without_frontmatter() {
    let markdown = "
             # Example doc

             No frontmatter here.
             ";
    let doc = MarkdownDoc::parse(markdown);

    assert_eq!(doc.frontmatter, "");
    assert!(doc.body.starts_with("# Example doc"));
}

#[test]
fn markdown_doc_test_parse_markdown_with_frontmatter() {
    let markdown = "---\nargs:\n  - FUNCTION\n---\n# Add unit tests for FUNCTION\n";
    let doc = MarkdownDoc::parse(markdown);

    assert_eq!(doc.frontmatter, "args:\n  - FUNCTION");
    assert!(doc.body.starts_with("# Add unit tests for FUNCTION"));
}

#[test]
fn test_parse_single_delimiter_is_all_body() {
    let markdown = "abc\n---\ndef";
    let doc = MarkdownDoc::parse(markdown);

    assert_eq!(doc.frontmatter, "");
    assert_eq!(doc.body, "abc\n---\ndef");
}

#[test]
fn test_parse_only_first_pair_delimits() {
    let markdown = "---\nfm\n---\nbody part 1\n----\nbody part 2";
    let doc = MarkdownDoc::parse(markdown);

    assert_eq!(doc.frontmatter, "fm");
    assert_eq!(doc.body, "body part 1\n----\nbody part 2");
}

#[test]
fn test_parse_delimiter_with_trailing_whitespace() {
    let markdown = "---  \nfm\n--- \nbody";
    let doc = MarkdownDoc::parse(markdown);

    assert_eq!(doc.frontmatter, "fm");
    assert_eq!(doc.body, "body");
}

#[test]
fn test_parse_indented_dashes_are_not_delimiters() {
    let markdown = " ---\nfm\n ---\nbody";
    let doc = MarkdownDoc::parse(markdown);

    assert_eq!(doc.frontmatter, "");
    assert_eq!(doc.body, "---\nfm\n ---\nbody");
}

#[test]
fn test_parse_two_dashes_are_not_a_delimiter() {
    let markdown = "--\nfm\n--\nbody";
    let doc = MarkdownDoc::parse(markdown);

    assert_eq!(doc.frontmatter, "");
    assert_eq!(doc.body, "--\nfm\n--\nbody");
}

#[test]
fn test_parse_unterminated_frontmatter_block() {
    let markdown = "---\nargs:\n  - FUNCTION\nbody without closing line";
    let doc = MarkdownDoc::parse(markdown);

    assert_eq!(doc.frontmatter, "");
    assert_eq!(doc.body, "---\nargs:\n  - FUNCTION\nbody without closing line");
}
