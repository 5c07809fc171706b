//! The choices behind rendering Markdown: the version of the rendering,
//! where the code highlighter loads its syntaxes and themes from, and the
//! markup of headings and code blocks.

use vstd::prelude::*;

use crate::config::{ThemeCodeSource, ThemeConfig};

verus! {

/// The version of the rendering of articles.
pub fn version(theme: &ThemeConfig) -> (r: &str)
    ensures
        r@ == theme.render_version@,
{
    theme.render_version.as_str()
}

/// The directory that a code source loads from: none for the built-in set.
pub open spec fn source_dir(source: ThemeCodeSource, theme_dir: Seq<char>, custom_dir: Seq<char>) -> Option<Seq<char>> {
    match source {
        ThemeCodeSource::Default => None,
        ThemeCodeSource::Theme => Some(theme_dir),
        ThemeCodeSource::Custom => Some(custom_dir),
    }
}

/// The text of `t`, if any.
pub open spec fn optional_view(t: Option<&str>) -> Option<Seq<char>> {
    match t {
        Some(s) => Some(s@),
        None => None,
    }
}

/// The directory that the syntax definitions of code are loaded from; none
/// where the built-in ones are used.
pub fn code_syntax_dir(config: &ThemeConfig) -> (r: Option<&str>)
    ensures
        optional_view(r) == source_dir(
            config.code_syntax_source,
            config.current.code_syntax_dir@,
            config.custom.code_syntax_dir@,
        ),
{
    match config.code_syntax_source {
        ThemeCodeSource::Default => None,
        ThemeCodeSource::Theme => Some(config.current().code_syntax_dir.as_str()),
        ThemeCodeSource::Custom => Some(config.custom().code_syntax_dir.as_str()),
    }
}

/// The directory that the themes of code are loaded from; none where the
/// built-in ones are used.
pub fn code_themes_dir(config: &ThemeConfig) -> (r: Option<&str>)
    ensures
        optional_view(r) == source_dir(
            config.code_themes_source,
            config.current.code_themes_dir@,
            config.custom.code_themes_dir@,
        ),
{
    match config.code_themes_source {
        ThemeCodeSource::Default => None,
        ThemeCodeSource::Theme => Some(config.current().code_themes_dir.as_str()),
        ThemeCodeSource::Custom => Some(config.custom().code_themes_dir.as_str()),
    }
}

/// The language named in the header of a code block: its info string, or
/// `plaintext` where it has none.
pub fn code_block_language(info: &str) -> (r: &str)
    ensures
        info@.len() == 0 ==> r@ == "plaintext"@,
        info@.len() > 0 ==> r@ == info@,
{
    if info.unicode_len() == 0 {
        "plaintext"
    } else {
        info
    }
}

/// The anchor that opens a heading's text: `<a href="#{id}" class="anchor"
/// id="{prefix}{id}">`.
pub open spec fn heading_anchor_text(id: Seq<char>, prefix: Seq<char>) -> Seq<char> {
    "<a href=\"#"@ + id + "\" class=\"anchor\" id=\""@ + prefix + id + "\">"@
}

/// The anchor that opens a heading's text.
pub fn heading_anchor(id: &str, prefix: &str) -> (r: String)
    ensures
        r@ == heading_anchor_text(id@, prefix@),
{
    let mut s = String::from_str("<a href=\"#");
    s.append(id);
    s.append("\" class=\"anchor\" id=\"");
    s.append(prefix);
    s.append(id);
    s.append("\">");
    s
}

/// The opening of a code block: the box, and the header that names the
/// language (already escaped for HTML) beside a copy button.
pub open spec fn code_block_header_text(escaped_language: Seq<char>) -> Seq<char> {
    "<div class=\"code-block-box\"><div class=\"code-block-header\"><span>"@ + escaped_language
        + "</span><button class=\"code-copy-btn\" title=\"将代码复制到剪贴板\"></button></div>"@
}

/// The opening of a code block, for a language already escaped for HTML.
pub fn code_block_header(escaped_language: &str) -> (r: String)
    ensures
        r@ == code_block_header_text(escaped_language@),
{
    let mut s = String::from_str("<div class=\"code-block-box\"><div class=\"code-block-header\"><span>");
    s.append(escaped_language);
    s.append("</span><button class=\"code-copy-btn\" title=\"将代码复制到剪贴板\"></button></div>");
    s
}

/// The opening of the box around a table.
pub fn table_box_open() -> (r: &'static str)
    ensures
        r@ == "<div class=\"table-box\">"@,
{
    "<div class=\"table-box\">"
}

/// The closing of the box around a code block or a table.
pub fn box_close() -> (r: &'static str)
    ensures
        r@ == "</div>"@,
{
    "</div>"
}

} // verus!
