use dogmv::error::DogmvError;
use dogmv::markdown::{
    document_for, escape_html, is_markdown_extension, is_markdown_file, load_markdown,
    plain_code_html, render_markdown, render_source_code, source_html_or_plain,
};
use dogmv::page::{create_error_html, create_html, welcome_html};

#[test]
fn test_render_markdown() {
    let markdown = "# Hello\n\nThis is a test.";
    let html = render_markdown(markdown);
    assert!(html.contains("<h1>"));
    assert!(html.contains("Hello"));
    assert!(html.contains("<p>"));
    assert!(html.contains("This is a test."));
}

#[test]
fn test_render_markdown_gfm() {
    let markdown = "| A | B |\n|---|---|\n| 1 | 2 |";
    let html = render_markdown(markdown);
    assert!(html.contains("<table>"));
    assert!(html.contains("<td>"));

    let markdown2 = "~~strikethrough~~";
    let html2 = render_markdown(markdown2);
    assert!(html2.contains("<del>") || html2.contains("strikethrough"));
}

#[test]
fn test_create_html() {
    let body = "<h1>Test</h1>";
    let html = create_html(body, "/test/path");
    assert!(html.contains("<!DOCTYPE html>"));
    assert!(html.contains("<h1>Test</h1>"));
    assert!(html.contains("file:///test/path/"));
}

#[test]
fn test_create_html_includes_css() {
    let html = create_html("", "/");
    assert!(html.contains("<style>"));
    assert!(html.contains("font-family"));
}

#[test]
fn test_is_markdown_file() {
    assert!(is_markdown_file("test.md"));
    assert!(is_markdown_file("test.markdown"));
    assert!(is_markdown_file("README.MD"));
    assert!(!is_markdown_file("test.rs"));
    assert!(!is_markdown_file("test.txt"));
    assert!(!is_markdown_file("test"));
}

#[test]
fn test_render_source_code() {
    let code = "fn main() {\n    println!(\"Hello, world!\");\n}";
    let html = render_source_code(code, "test.rs");
    assert!(html.contains("<pre"));
    assert!(html.contains("main"));
    assert!(html.contains("println"));
}

#[test]
fn test_render_source_code_unknown_extension() {
    let code = "some text content";
    let html = render_source_code(code, "test.unknown");
    assert!(html.contains("<pre"));
    assert!(html.contains("some text content"));
}

#[test]
fn heading_and_strong_render() {
    let html = render_markdown("# H\n\n**b**");
    assert!(html.contains("<h1>"));
    assert!(html.contains("<strong>"));
    assert!(html.contains("H"));
}

#[test]
fn strikethrough_renders_or_degrades() {
    let html = render_markdown("~~x~~");
    assert!(html.contains("<del>") || html.contains("x"));
    assert!(html.contains("<del>x</del>"));
}

#[test]
fn table_renders() {
    let html = render_markdown("| A | B |\n|---|---|\n| 1 | 2 |");
    assert!(html.contains("<table>"));
    assert!(html.contains("<td>"));
}

#[test]
fn task_list_and_autolink_render() {
    let html = render_markdown("- [x] done\n- [ ] open\n\nsee https://example.com now");
    assert!(html.contains("checkbox"));
    assert!(html.contains("<a href=\"https://example.com\">"));
}

#[test]
fn unknown_fence_language_is_escaped() {
    let html = render_markdown("```nosuchlanguage\n<script>alert(1)</script>\n```\n");
    assert!(!html.contains("<script>"));
    assert!(html.contains("&lt;script&gt;"));
}

#[test]
fn fence_without_language_is_escaped() {
    let html = render_markdown("```\n<b>\"q\" & more</b>\n```\n");
    assert!(!html.contains("<b>"));
    assert!(html.contains("&lt;b&gt;"));
}

#[test]
fn malformed_markdown_still_renders() {
    let html = render_markdown("**unclosed _mixed [link](\n|---|\n```");
    assert!(html.contains("unclosed"));
    let empty = render_markdown("");
    assert_eq!(empty, "");
}

#[test]
fn escape_html_replaces_the_four_characters() {
    assert_eq!(escape_html("a<b>&\"c'"), "a&lt;b&gt;&amp;&quot;c'");
    assert_eq!(escape_html(""), "");
    assert_eq!(escape_html("&amp;"), "&amp;amp;");
    assert_eq!(escape_html("日本<語>"), "日本&lt;語&gt;");
}

#[test]
fn plain_code_block_is_escaped() {
    let html = plain_code_html("<script>x</script>");
    assert!(html.starts_with("<pre style="));
    assert!(html.ends_with("&lt;script&gt;x&lt;/script&gt;</code></pre>"));
    assert!(!html.contains("<script>"));
}

#[test]
fn highlighter_output_or_plain_fallback() {
    assert_eq!(source_html_or_plain("x", Some("<b>x</b>".to_string())), "<b>x</b>");
    assert_eq!(source_html_or_plain("a&b", None), plain_code_html("a&b"));
    assert!(source_html_or_plain("a&b", None).contains("a&amp;b"));
}

#[test]
fn source_code_is_highlighted_not_passed_through() {
    let html = render_source_code("let x = 1 < 2;", "main.rs");
    assert!(html.contains("&lt;"));
    assert!(html.contains("<span"));
}

#[test]
fn markdown_extensions() {
    assert!(is_markdown_extension("md"));
    assert!(is_markdown_extension("markdown"));
    assert!(!is_markdown_extension("MD"));
    assert!(!is_markdown_extension("mdx"));
    assert!(is_markdown_file("/docs/Guide.Markdown"));
    assert!(!is_markdown_file(".md"));
    assert!(!is_markdown_file("notes.md.txt"));
    assert!(is_markdown_file("dir.txt/notes.md"));
}

#[test]
fn load_missing_file() {
    match load_markdown("/nope.md", None) {
        Err(DogmvError::FileNotFound(p)) => assert_eq!(p, "/nope.md"),
        other => panic!("unexpected {:?}", other),
    }
}

#[test]
fn load_read_text() {
    let r = load_markdown("/a.md", Some(Ok("# A".to_string())));
    assert_eq!(r.unwrap(), "# A");
}

#[test]
fn load_invalid_utf8() {
    let e = std::io::Error::new(std::io::ErrorKind::InvalidData, "stream did not contain valid UTF-8");
    match load_markdown("/bin.md", Some(Err(e))) {
        Err(DogmvError::InvalidUtf8(p)) => assert_eq!(p, "/bin.md"),
        other => panic!("unexpected {:?}", other),
    }
}

#[test]
fn load_other_io_error() {
    let e = std::io::Error::new(std::io::ErrorKind::PermissionDenied, "denied");
    match load_markdown("/secret.md", Some(Err(e))) {
        Err(DogmvError::Io(inner)) => assert_eq!(inner.kind(), std::io::ErrorKind::PermissionDenied),
        other => panic!("unexpected {:?}", other),
    }
}

#[test]
fn error_messages() {
    assert_eq!(DogmvError::FileNotFound("/x.md".to_string()).message(), "File not found: /x.md");
    assert_eq!(DogmvError::InvalidUtf8("/x.md".to_string()).message(), "Invalid UTF-8 in file: /x.md");
    assert_eq!(DogmvError::NotMarkdownFile("/x".to_string()).message(), "Not a markdown file: /x");
    assert_eq!(DogmvError::DirectoryReadError("d".to_string()).message(), "Directory read error: d");
    assert_eq!(DogmvError::RenderingError("r".to_string()).message(), "Rendering error: r");
    assert_eq!(DogmvError::InvalidPath("p".to_string()).message(), "Invalid path: p");
    let io = std::io::Error::new(std::io::ErrorKind::Other, "disk on fire");
    assert_eq!(DogmvError::Io(io).message(), "IO error: disk on fire");
}

#[test]
fn document_for_loaded_file() {
    let page = document_for("/notes/today.md", Ok("# Today".to_string()));
    assert!(page.starts_with("<!DOCTYPE html>"));
    assert!(page.contains("<base href=\"file:///notes/\">"));
    assert!(page.contains("<h1>Today</h1>"));
}

#[test]
fn document_for_failed_load() {
    let page = document_for("/gone.md", Err(DogmvError::FileNotFound("/gone.md".to_string())));
    assert_eq!(
        page,
        create_error_html(
            "Failed to Load File",
            "Could not read file: /gone.md\n\nError: File not found: /gone.md"
        )
    );
}

#[test]
fn error_page_holds_title_and_message() {
    let page = create_error_html("T1", "M2");
    assert!(page.contains("<h1>T1</h1>"));
    assert!(page.contains("<div class=\"error-message\">M2</div>"));
}

#[test]
fn welcome_page_lists_shortcuts() {
    let page = welcome_html();
    assert!(page.contains("Ctrl+O"));
    assert!(page.contains("Ctrl+R"));
    assert!(page.contains("Ctrl+Q"));
}

#[test]
fn source_code_markup_is_escaped() {
    let html = render_source_code("<script>alert(1)</script>", "page.html");
    assert!(!html.contains("<script>"));
    let plain = render_source_code("<script>", "notes");
    assert!(!plain.contains("<script>"));
    assert!(plain.contains("&lt;script&gt;"));
}
