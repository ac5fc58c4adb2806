//! Rendering an entry's Markdown source to an HTML fragment.  The Markdown
//! crate does the conversion; this module fixes that the result depends on
//! the source text alone, and maps a failed source read to the request's
//! error.

use vstd::prelude::*;
use crate::errors::RenderError;

verus! {

/// The HTML fragment that the Markdown renderer produces for `text`.
pub uninterp spec fn html_of(text: Seq<char>) -> Seq<char>;

/// Relies on `pulldown_cmark::Parser::new` and
/// `pulldown_cmark::html::push_html`, with no options enabled: the HTML
/// produced depends on the Markdown text alone, and empty text gives no
/// events, hence no output.
#[verifier::external_body]
fn markdown_to_html(text: &str) -> (r: String)
    ensures
        r@ == html_of(text@),
        text@.len() == 0 ==> r@.len() == 0,
{
    let parser = pulldown_cmark::Parser::new(text);
    let mut out = String::new();
    pulldown_cmark::html::push_html(&mut out, parser);
    out
}

/// Converts one entry's Markdown source to an HTML fragment.  The result is
/// a function of the text handed in, and of nothing else.
pub fn render_markdown(text: &str) -> (r: String)
    ensures
        r@ == html_of(text@),
        text@.len() == 0 ==> r@.len() == 0,
{
    markdown_to_html(text)
}

/// Turns the outcome of reading a matched entry's source file into the
/// request's outcome: a fresh render of exactly what was read, or
/// `EntryRead` with the reader's message.  Nothing is kept between calls,
/// so a failed read is never answered from an earlier render.
pub fn render_read(read: Result<String, String>) -> (r: Result<String, RenderError>)
    ensures
        match read {
            Ok(text) => r matches Ok(html) && html@ == html_of(text@),
            Err(msg) => r matches Err(e) && (e matches RenderError::EntryRead(m) && m@
                == msg@),
        },
{
    match read {
        Ok(text) => Ok(render_markdown(text.as_str())),
        Err(msg) => Err(RenderError::EntryRead(msg)),
    }
}

/// Rendering is idempotent: two renders of one unchanged source text are
/// byte-identical.
pub proof fn lemma_render_idempotent(text: Seq<char>, r1: Seq<char>, r2: Seq<char>)
    requires
        r1 == html_of(text),
        r2 == html_of(text),
    ensures
        r1 == r2,
{
}

} // verus!
