//! Markdown and source files turned into HTML, and files loaded for display.
use vstd::prelude::*;
use crate::error::{describes, DogmvError};
use crate::page::{create_error_html, create_html, error_page, html_document};
use crate::paths::{extension_of, parent_of, path_extension, path_parent};
use crate::text::{lower_of, lowercase, same_text};

verus! {

/// The name of the syntax that claims a file extension among syntect's
/// bundled syntaxes, if one does.
pub uninterp spec fn syntax_by_extension(ext: Seq<char>) -> Option<Seq<char>>;

/// The name of the bundled syntax whose first-line pattern matches the
/// code, if one does.
pub uninterp spec fn syntax_by_first_line(code: Seq<char>) -> Option<Seq<char>>;

/// The HTML that syntect makes of the code, highlighted with the bundled
/// syntax and theme of the given names; none when no bundled syntax has that
/// name or highlighting fails.
pub uninterp spec fn highlighted_as(code: Seq<char>, syntax: Seq<char>, theme: Seq<char>) -> Option<
    Seq<char>,
>;

/// Relies on `SyntaxSet::find_syntax_by_extension` over syntect's bundled
/// syntaxes (`SyntaxSet::load_defaults_newlines`): the name of the syntax
/// that claims the extension, if any.
#[verifier::external_body]
fn bundled_syntax_for_extension(ext: &str) -> (r: Option<String>)
    ensures
        match r {
            Some(name) => syntax_by_extension(ext@) == Some(name@),
            None => syntax_by_extension(ext@) is None,
        },
{
    let set = syntect::parsing::SyntaxSet::load_defaults_newlines();
    set.find_syntax_by_extension(ext).map(|syntax| syntax.name.clone())
}

/// Relies on `SyntaxSet::find_syntax_by_first_line` over syntect's bundled
/// syntaxes (`SyntaxSet::load_defaults_newlines`): the name of the syntax
/// whose first-line pattern matches the code, if any.
#[verifier::external_body]
fn bundled_syntax_for_first_line(code: &str) -> (r: Option<String>)
    ensures
        match r {
            Some(name) => syntax_by_first_line(code@) == Some(name@),
            None => syntax_by_first_line(code@) is None,
        },
{
    let set = syntect::parsing::SyntaxSet::load_defaults_newlines();
    set.find_syntax_by_first_line(code).map(|syntax| syntax.name.clone())
}

/// Relies on `syntect::html::highlighted_html_for_string`, with the bundled
/// syntax found by `SyntaxSet::find_syntax_by_name` and the bundled theme
/// taken from `ThemeSet::load_defaults`: the highlighted HTML, or none when
/// no syntax has that name or syntect reports an error. Indexing the theme
/// map panics on a name it lacks, hence the bundled theme.
#[verifier::external_body]
fn highlight_with_bundled(code: &str, syntax: &str, theme: &str) -> (r: Option<String>)
    requires
        is_bundled_theme(theme@),
    ensures
        match r {
            Some(html) => highlighted_as(code@, syntax@, theme@) == Some(html@),
            None => highlighted_as(code@, syntax@, theme@) is None,
        },
{
    let set = syntect::parsing::SyntaxSet::load_defaults_newlines();
    let themes = syntect::highlighting::ThemeSet::load_defaults();
    let found = set.find_syntax_by_name(syntax)?;
    syntect::html::highlighted_html_for_string(code, &set, found, &themes.themes[theme]).ok()
}

/// The name of the syntax that code from `path` is highlighted as: the one
/// that claims the file's extension, else the one that recognises the first
/// line, else plain text; plain text too when the path has no extension.
pub open spec fn chosen_syntax(code: Seq<char>, path: Seq<char>) -> Seq<char> {
    match path_extension(path) {
        Some(ext) => match syntax_by_extension(ext) {
            Some(name) => name,
            None => match syntax_by_first_line(code) {
                Some(name) => name,
                None => PLAIN_TEXT_SYNTAX@,
            },
        },
        None => PLAIN_TEXT_SYNTAX@,
    }
}

/// The name of syntect's syntax for unstructured text.
pub const PLAIN_TEXT_SYNTAX: &'static str = "Plain Text";

/// What source code from `path` is shown as: its highlighted HTML, or the
/// code escaped in a plain block when highlighting gives nothing.
pub open spec fn source_code_html(code: Seq<char>, path: Seq<char>) -> Seq<char> {
    match highlighted_as(code, chosen_syntax(code, path), CODE_THEME@) {
        Some(html) => html,
        None => plain_code_block(code),
    }
}

/// What comrak renders for Markdown text, with the given extensions on or
/// off and fenced code highlighted in the given theme.
pub uninterp spec fn comrak_html(
    markdown: Seq<char>,
    strikethrough: bool,
    table: bool,
    tasklist: bool,
    autolink: bool,
    theme: Seq<char>,
) -> Seq<char>;

/// The themes that syntect bundles, by the names its documentation lists.
pub open spec fn is_bundled_theme(name: Seq<char>) -> bool {
    name == "base16-ocean.dark"@ || name == "base16-eighties.dark"@ || name == "base16-mocha.dark"@
        || name == "base16-ocean.light"@ || name == "InspiredGitHub"@ || name == "Solarized (dark)"@
        || name == "Solarized (light)"@
}

/// Relies on `comrak::markdown_to_html_with_plugins`, with comrak's syntect
/// adapter as the highlighter of fenced code: the HTML for the text, for any
/// text (every text is Markdown). The adapter looks its theme up by name in
/// syntect's bundled themes and panics on any other name.
#[verifier::external_body]
fn comrak_to_html(
    markdown: &str,
    strikethrough: bool,
    table: bool,
    tasklist: bool,
    autolink: bool,
    theme: &str,
) -> (r: String)
    requires
        is_bundled_theme(theme@),
    ensures
        r@ == comrak_html(markdown@, strikethrough, table, tasklist, autolink, theme@),
{
    let mut options = comrak::Options::default();
    options.extension.strikethrough = strikethrough;
    options.extension.table = table;
    options.extension.tasklist = tasklist;
    options.extension.autolink = autolink;
    let adapter = comrak::plugins::syntect::SyntectAdapter::new(Some(theme));
    let mut plugins = comrak::Plugins::default();
    plugins.render.codefence_syntax_highlighter = Some(&adapter);
    comrak::markdown_to_html_with_plugins(markdown, &options, &plugins)
}

/// The theme that code is highlighted in.
pub const CODE_THEME: &'static str = "InspiredGitHub";

/// GitHub-flavoured rendering: strikethrough, tables, task lists and
/// autolinks on, fenced code highlighted by its language tag.
pub open spec fn rendered_markdown(markdown: Seq<char>) -> Seq<char> {
    comrak_html(markdown, true, true, true, true, CODE_THEME@)
}

/// What one character becomes once escaped for HTML text.
pub open spec fn escape_char(c: char) -> Seq<char> {
    if c == '&' {
        "&amp;"@
    } else if c == '<' {
        "&lt;"@
    } else if c == '>' {
        "&gt;"@
    } else if c == '"' {
        "&quot;"@
    } else {
        seq![c]
    }
}

/// `s` with `&`, `<`, `>` and `"` replaced by their HTML entities.
pub open spec fn escaped_html(s: Seq<char>) -> Seq<char>
    decreases s.len(),
{
    if s.len() == 0 {
        Seq::empty()
    } else {
        escaped_html(s.drop_last()) + escape_char(s.last())
    }
}

/// Escapes `&`, `<`, `>` and `"` so that `text` can stand inside HTML.
pub fn escape_html(text: &str) -> (r: String)
    ensures
        r@ == escaped_html(text@),
{
    let n = text.unicode_len();
    let mut out = String::new();
    let mut i: usize = 0;
    while i < n
        invariant
            n == text@.len(),
            i <= n,
            out@ == escaped_html(text@.subrange(0, i as int)),
        decreases n - i,
    {
        let c = text.get_char(i);
        assert(text@.subrange(0, i + 1).drop_last() == text@.subrange(0, i as int));
        if c == '&' {
            out.append("&amp;");
        } else if c == '<' {
            out.append("&lt;");
        } else if c == '>' {
            out.append("&gt;");
        } else if c == '"' {
            out.append("&quot;");
        } else {
            out.append(text.substring_char(i, i + 1));
            assert(text@.subrange(i as int, i + 1) == seq![c]);
        }
        i = i + 1;
    }
    assert(text@.subrange(0, n as int) == text@);
    out
}

/// Renders Markdown to HTML with the GitHub extensions and highlighted code.
/// Every text renders: malformed Markdown only renders plainer.
pub fn render_markdown(markdown: &str) -> (r: String)
    ensures
        r@ == rendered_markdown(markdown@),
{
    comrak_to_html(markdown, true, true, true, true, CODE_THEME)
}

/// Whether a lowercased extension is one of Markdown's.
pub fn is_markdown_extension(ext: &str) -> (r: bool)
    ensures
        r == (ext@ == "md"@ || ext@ == "markdown"@),
{
    same_text(ext, "md") || same_text(ext, "markdown")
}

/// Whether a path names a Markdown file by its extension, in any case.
pub open spec fn is_markdown_path(path: Seq<char>) -> bool {
    match path_extension(path) {
        Some(ext) => lower_of(ext) == "md"@ || lower_of(ext) == "markdown"@,
        None => false,
    }
}

/// Whether the file at `path` is Markdown: its extension is `md` or
/// `markdown`, in any case.
pub fn is_markdown_file(path: &str) -> (r: bool)
    ensures
        r == is_markdown_path(path@),
{
    match extension_of(path) {
        Some(ext) => {
            let lower = lowercase(ext.as_str());
            is_markdown_extension(lower.as_str())
        },
        None => false,
    }
}

/// Code shown without highlighting: escaped, in a plain block.
pub open spec fn plain_code_block(code: Seq<char>) -> Seq<char> {
    PLAIN_CODE_OPEN@ + escaped_html(code) + PLAIN_CODE_CLOSE@
}

/// The opening of a block of unhighlighted code.
pub const PLAIN_CODE_OPEN: &'static str = "<pre style='background-color: #f6f8fa; padding: 16px; overflow: auto; border-radius: 6px;'><code>";

/// The closing of a block of unhighlighted code.
pub const PLAIN_CODE_CLOSE: &'static str = "</code></pre>";

/// `code` escaped in a plain block.
pub fn plain_code_html(code: &str) -> (r: String)
    ensures
        r@ == plain_code_block(code@),
{
    let mut r = String::from_str(PLAIN_CODE_OPEN);
    let escaped = escape_html(code);
    r.append(escaped.as_str());
    r.append(PLAIN_CODE_CLOSE);
    r
}

/// The HTML for source code, given what the highlighter made of it: its
/// output when it succeeded, else the code escaped in a plain block.
pub fn source_html_or_plain(code: &str, highlighted: Option<String>) -> (r: String)
    ensures
        match highlighted {
            Some(h) => r == h,
            None => r@ == plain_code_block(code@),
        },
{
    match highlighted {
        Some(h) => h,
        None => plain_code_html(code),
    }
}

/// Renders source code to highlighted HTML, choosing the syntax by the
/// file's extension, then by the code's first line, then plain text. When
/// highlighting gives nothing, the code is shown escaped in a plain block.
pub fn render_source_code(code: &str, path: &str) -> (r: String)
    ensures
        r@ == source_code_html(code@, path@),
{
    let syntax = match extension_of(path) {
        Some(ext) => match bundled_syntax_for_extension(ext.as_str()) {
            Some(name) => name,
            None => match bundled_syntax_for_first_line(code) {
                Some(name) => name,
                None => String::from_str(PLAIN_TEXT_SYNTAX),
            },
        },
        None => String::from_str(PLAIN_TEXT_SYNTAX),
    };
    let highlighted = highlight_with_bundled(code, syntax.as_str(), CODE_THEME);
    source_html_or_plain(code, highlighted)
}

/// Relies on `std::io::Error::kind`: whether the error is of the kind
/// `InvalidData`, which `read_to_string` reports for bytes that are not UTF-8.
#[verifier::external_body]
fn is_invalid_data(e: &std::io::Error) -> (r: bool) {
    e.kind() == std::io::ErrorKind::InvalidData
}

/// The error for a failed read of `path`: invalid UTF-8 when the bytes were
/// not text, the I/O error itself otherwise.
pub fn read_error(path: &str, invalid_data: bool, e: std::io::Error) -> (r: DogmvError)
    ensures
        invalid_data ==> (r matches DogmvError::InvalidUtf8(p) && p@ == path@),
        !invalid_data ==> r == DogmvError::Io(e),
{
    if invalid_data {
        DogmvError::InvalidUtf8(String::from_str(path))
    } else {
        DogmvError::Io(e)
    }
}

/// The outcome of loading the Markdown file at `path`. `read` is none when
/// the file did not exist when checked, else what reading it as text gave.
pub fn load_markdown(path: &str, read: Option<Result<String, std::io::Error>>) -> (r: Result<String, DogmvError>)
    ensures
        read is None ==> (r matches Err(DogmvError::FileNotFound(p)) && p@ == path@),
        read matches Some(Ok(text)) ==> r == Ok::<String, DogmvError>(text),
        read matches Some(Err(e)) ==> (r matches Err(DogmvError::InvalidUtf8(p)) && p@ == path@)
            || r == Err::<String, DogmvError>(DogmvError::Io(e)),
{
    match read {
        None => Err(DogmvError::FileNotFound(String::from_str(path))),
        Some(Ok(text)) => Ok(text),
        Some(Err(e)) => {
            let invalid = is_invalid_data(&e);
            Err(read_error(path, invalid, e))
        },
    }
}

/// The directory that a file's relative links resolve against: its parent,
/// or nothing.
pub open spec fn base_dir_of(path: Seq<char>) -> Seq<char> {
    match path_parent(path) {
        Some(dir) => dir,
        None => Seq::empty(),
    }
}

/// The title of the page shown when a file cannot be loaded.
pub const LOAD_FAILURE_TITLE: &'static str = "Failed to Load File";

/// The message of the page shown when `path` cannot be loaded.
pub open spec fn load_failure_message(path: Seq<char>, reason: Seq<char>) -> Seq<char> {
    "Could not read file: "@ + path + "\n\nError: "@ + reason
}

/// The page to show for the file at `path`, given the outcome of loading
/// it: its rendered Markdown as a document, or an error page that says why
/// it could not be loaded.
pub fn document_for(path: &str, loaded: Result<String, DogmvError>) -> (r: String)
    ensures
        loaded matches Ok(text) ==> r@ == html_document(rendered_markdown(text@), base_dir_of(path@)),
        loaded matches Err(e) ==> exists|reason: Seq<char>|
            describes(e, reason) && r@ == error_page(LOAD_FAILURE_TITLE@, load_failure_message(path@, reason)),
{
    match loaded {
        Ok(text) => {
            let body = render_markdown(text.as_str());
            let base = match parent_of(path) {
                Some(dir) => dir,
                None => String::new(),
            };
            create_html(body.as_str(), base.as_str())
        },
        Err(e) => {
            let reason = e.message();
            let mut message = String::from_str("Could not read file: ");
            message.append(path);
            message.append("\n\nError: ");
            message.append(reason.as_str());
            create_error_html(LOAD_FAILURE_TITLE, message.as_str())
        },
    }
}

} // verus!
