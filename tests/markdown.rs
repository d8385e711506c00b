use whois_cli::MarkdownRenderer;

#[test]
fn test_is_markdown() {
    assert!(MarkdownRenderer::is_markdown("# Header"));
    assert!(MarkdownRenderer::is_markdown("**bold text**"));
    assert!(MarkdownRenderer::is_markdown("- list item"));
    assert!(MarkdownRenderer::is_markdown("[link](http://example.com)"));
    assert!(MarkdownRenderer::is_markdown("![image](image.png)"));
    assert!(MarkdownRenderer::is_markdown("> blockquote"));
    assert!(MarkdownRenderer::is_markdown("```code```"));
    assert!(!MarkdownRenderer::is_markdown("plain text"));
}

#[test]
fn whois_records_are_not_markdown() {
    assert!(!MarkdownRenderer::is_markdown("aut-num: AS3333\nas-name: RIPE-NCC-AS\nsource: RIPE"));
    assert!(MarkdownRenderer::is_markdown("12. item"));
    assert!(MarkdownRenderer::new(true).enable_images);
}
