//! The `markdown` filter of the page templates: page contents and posts
//! are written in Markdown (with tables) and shown as HTML.
use vstd::prelude::*;
use pulldown_cmark::{html, Options, Parser};

verus! {

/// The HTML that `pulldown_cmark` writes for `source`, parsed with tables
/// enabled.
pub uninterp spec fn markdown_html(source: Seq<char>) -> Seq<char>;

/// Runs `pulldown_cmark::html::push_html` on an empty string with the
/// events of `Parser::new_ext(source, Options::ENABLE_TABLES)`; the result
/// is the HTML it writes.
#[verifier::external_body]
fn render_markdown(source: &str) -> (r: String)
    ensures
        r@ == markdown_html(source@),
{
    let mut out = String::new();
    html::push_html(&mut out, Parser::new_ext(source, Options::ENABLE_TABLES));
    out
}

/// Why the filter refused its input.
pub enum MarkdownFilterError {
    /// The template handed the filter something other than a string.
    NotAString,
}

/// The `markdown` template filter: the HTML for a string of Markdown
/// (`None` stands for a value that is not a string, which the filter
/// refuses).
pub fn markdown_filter(value: Option<&str>) -> (r: Result<String, MarkdownFilterError>)
    ensures
        value is None ==> r is Err,
        value matches Some(s) ==> r matches Ok(h) && h@ == markdown_html(s@),
{
    match value {
        None => Err(MarkdownFilterError::NotAString),
        Some(s) => Ok(render_markdown(s)),
    }
}

} // verus!
