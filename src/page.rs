//! The HTML pages the viewer shows: a rendered document with its style
//! sheet, an error page and the welcome page.
use vstd::prelude::*;

verus! {

/// The start of a document, up to the base directory in its `<base>` tag.
pub const DOCUMENT_HEAD: &'static str = r#"<!DOCTYPE html>
<html>
<head>
    <meta charset="UTF-8">
    <base href="file://"#;

/// From the end of the `<base>` tag to the start of the body: the style sheet.
pub const DOCUMENT_STYLE: &'static str = r#"/">
    <style>
        body {
            font-family: -apple-system, BlinkMacSystemFont, "Segoe UI", Helvetica, Arial, sans-serif;
            line-height: 1.6;
            padding: 20px;
            max-width: 900px;
            margin: 0 auto;
            color: #24292e;
        }
        h1, h2, h3, h4, h5, h6 {
            margin-top: 24px;
            margin-bottom: 16px;
            font-weight: 600;
            line-height: 1.25;
        }
        h1 {
            font-size: 2em;
            border-bottom: 1px solid #eaecef;
            padding-bottom: 0.3em;
        }
        h2 {
            font-size: 1.5em;
            border-bottom: 1px solid #eaecef;
            padding-bottom: 0.3em;
        }
        h3 { font-size: 1.25em; }
        h4 { font-size: 1em; }
        h5 { font-size: 0.875em; }
        h6 { font-size: 0.85em; color: #6a737d; }

        p { margin-top: 0; margin-bottom: 16px; }

        a {
            color: #0366d6;
            text-decoration: none;
        }
        a:hover {
            text-decoration: underline;
        }

        code {
            background-color: rgba(27,31,35,0.05);
            padding: 0.2em 0.4em;
            margin: 0;
            font-size: 85%;
            border-radius: 3px;
            font-family: "SFMono-Regular", Consolas, "Liberation Mono", Menlo, monospace;
        }

        pre {
            padding: 16px;
            overflow: auto;
            font-size: 85%;
            line-height: 1.45;
            border-radius: 6px;
            margin-top: 0;
            margin-bottom: 16px;
            background-color: #f6f8fa !important;
        }

        pre.syntect {
            background-color: #f6f8fa !important;
        }

        pre:not(.syntect) {
            background-color: #f6f8fa !important;
        }

        pre code {
            background-color: transparent !important;
            padding: 0;
            margin: 0;
            font-size: 100%;
            border-radius: 0;
        }

        blockquote {
            padding: 0 1em;
            color: #6a737d;
            border-left: 0.25em solid #dfe2e5;
            margin: 0 0 16px 0;
        }

        table {
            border-collapse: collapse;
            width: 100%;
            margin-bottom: 16px;
        }

        table tr {
            background-color: #fff;
            border-top: 1px solid #c6cbd1;
        }

        table tr:nth-child(2n) {
            background-color: #f6f8fa;
        }

        table th, table td {
            padding: 6px 13px;
            border: 1px solid #dfe2e5;
        }

        table th {
            font-weight: 600;
        }

        ul, ol {
            margin-top: 0;
            margin-bottom: 16px;
            padding-left: 2em;
        }

        li + li {
            margin-top: 0.25em;
        }

        img {
            max-width: 100%;
            box-sizing: content-box;
        }

        hr {
            height: 0.25em;
            padding: 0;
            margin: 24px 0;
            background-color: #e1e4e8;
            border: 0;
        }

        input[type="checkbox"] {
            margin-right: 0.5em;
        }
    </style>
</head>
<body>
"#;

/// The end of a document.
pub const DOCUMENT_TAIL: &'static str = r#"
</body>
</html>"#;

/// The start of an error page, up to its title.
pub const ERROR_HEAD: &'static str = r#"<!DOCTYPE html>
<html>
<head>
    <meta charset="UTF-8">
    <style>
        body {
            font-family: -apple-system, BlinkMacSystemFont, "Segoe UI", Helvetica, Arial, sans-serif;
            padding: 40px;
            max-width: 800px;
            margin: 0 auto;
            color: #24292e;
        }
        h1 {
            color: #d73a49;
            font-size: 2em;
            margin-bottom: 20px;
        }
        .error-message {
            background-color: #fff5f5;
            border: 1px solid #feb2b2;
            border-radius: 6px;
            padding: 16px;
            margin-bottom: 20px;
            white-space: pre-wrap;
            font-family: monospace;
        }
        .hint {
            color: #6a737d;
            font-size: 0.9em;
        }
    </style>
</head>
<body>
    <h1>"#;

/// Between an error page's title and its message.
pub const ERROR_MIDDLE: &'static str = r#"</h1>
    <div class="error-message">"#;

/// The end of an error page.
pub const ERROR_TAIL: &'static str = r#"</div>
    <p class="hint">Try using Ctrl+O to open a different file, or check that the file exists and is readable.</p>
</body>
</html>"#;

/// The page shown when no file is open.
pub const WELCOME_PAGE: &'static str = r#"<!DOCTYPE html>
<html>
<head>
    <meta charset="UTF-8">
    <style>
        body {
            font-family: -apple-system, BlinkMacSystemFont, "Segoe UI", Helvetica, Arial, sans-serif;
            text-align: center;
            margin-top: 50px;
            color: #24292e;
        }
        h1 {
            font-size: 2.5em;
            font-weight: 600;
            margin-bottom: 20px;
        }
        .subtitle {
            color: #666;
            font-size: 1.2em;
            margin-bottom: 50px;
        }
        .shortcuts {
            margin-top: 50px;
            text-align: left;
            display: inline-block;
        }
        .shortcuts h3 {
            font-size: 1.5em;
            margin-bottom: 20px;
        }
        .shortcuts ul {
            list-style: none;
            padding-left: 0;
            font-size: 1.1em;
        }
        .shortcuts li {
            margin-bottom: 10px;
        }
        kbd {
            background-color: #f6f8fa;
            border: 1px solid #d1d5da;
            border-radius: 3px;
            padding: 3px 8px;
            font-family: "SFMono-Regular", Consolas, "Liberation Mono", Menlo, monospace;
            font-size: 0.9em;
        }
    </style>
</head>
<body>
    <h1>dogmv - Markdown Viewer</h1>
    <p class="subtitle">← 左側のツリーからMarkdownファイルを選択してください</p>

    <div class="shortcuts">
        <h3>キーボードショートカット:</h3>
        <ul>
            <li><kbd>Ctrl+O</kbd> : ファイルを開く</li>
            <li><kbd>Ctrl+R</kbd> : リロード</li>
            <li><kbd>Ctrl+Q</kbd> : 終了</li>
        </ul>
    </div>
</body>
</html>"#;

/// A complete HTML document around `body`, whose relative links and images
/// resolve against the directory `base`.
pub open spec fn html_document(body: Seq<char>, base: Seq<char>) -> Seq<char> {
    DOCUMENT_HEAD@ + base + DOCUMENT_STYLE@ + body + DOCUMENT_TAIL@
}

/// An error page with the given title and message.
pub open spec fn error_page(title: Seq<char>, message: Seq<char>) -> Seq<char> {
    ERROR_HEAD@ + title + ERROR_MIDDLE@ + message + ERROR_TAIL@
}

/// Wraps rendered HTML in a complete document with the viewer's style sheet;
/// `base_path` is the directory that relative links resolve against.
pub fn create_html(body: &str, base_path: &str) -> (r: String)
    ensures
        r@ == html_document(body@, base_path@),
{
    let mut page = String::from_str(DOCUMENT_HEAD);
    page.append(base_path);
    page.append(DOCUMENT_STYLE);
    page.append(body);
    page.append(DOCUMENT_TAIL);
    page
}

/// A styled error page with a title and a message.
pub fn create_error_html(title: &str, message: &str) -> (r: String)
    ensures
        r@ == error_page(title@, message@),
{
    let mut page = String::from_str(ERROR_HEAD);
    page.append(title);
    page.append(ERROR_MIDDLE);
    page.append(message);
    page.append(ERROR_TAIL);
    page
}

/// The page shown when no file is open, with the keyboard shortcuts.
pub fn welcome_html() -> (r: String)
    ensures
        r@ == WELCOME_PAGE@,
{
    String::from_str(WELCOME_PAGE)
}

} // verus!
