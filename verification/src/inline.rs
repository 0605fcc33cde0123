//! Inline markup inside a document's title.

use vstd::prelude::*;
use crate::text::{chars_of, has_prefix, has_suffix, matches_at, text_of_range, view_of};

verus! {

/// The HTML that `orgize` gives for the first paragraph of a markup text,
/// or `None` where the text holds no paragraph.
pub uninterp spec fn paragraph_html(markup: Seq<char>) -> Option<Seq<char>>;

/// Parses `markup` with `orgize::Org::parse`, takes the first paragraph of
/// the tree and renders it with a fresh `orgize::export::HtmlExport`. All of
/// it depends on the text alone, so the contract names the result after it.
#[verifier::external_body]
fn render_paragraph(markup: &str) -> (html: Option<String>)
    ensures
        view_of(html) == paragraph_html(markup@),
{
    let org = orgize::Org::parse(markup);
    let paragraph = org.first_node::<orgize::ast::Paragraph>()?;
    let mut export = orgize::export::HtmlExport::default();
    export.render(orgize::rowan::ast::AstNode::syntax(&paragraph));
    Some(export.finish())
}

/// The tag that opens a rendered paragraph.
pub open spec fn paragraph_open() -> Seq<char> {
    seq!['<', 'p', '>']
}

/// The tag that closes a rendered paragraph.
pub open spec fn paragraph_close() -> Seq<char> {
    seq!['<', '/', 'p', '>']
}

/// A rendered paragraph without the tags around it, or `None` where it is
/// absent or not wrapped in them.
pub open spec fn unwrapped(html: Option<Seq<char>>) -> Option<Seq<char>> {
    match html {
        Some(h) => if h.len() >= 7 && has_prefix(h, paragraph_open()) && has_suffix(
            h,
            paragraph_close(),
        ) {
            Some(h.subrange(3, h.len() - 4))
        } else {
            None
        },
        None => None,
    }
}

/// The inline HTML of a title: its first paragraph, rendered, without the
/// paragraph tags.
pub open spec fn inline_html(title: Seq<char>) -> Option<Seq<char>> {
    unwrapped(paragraph_html(title))
}

/// Removes the paragraph tags around a rendered paragraph.
pub fn strip_paragraph(html: Option<String>) -> (inner: Option<String>)
    ensures
        view_of(inner) == unwrapped(view_of(html)),
{
    match html {
        None => None,
        Some(h) => {
            let text = chars_of(h.as_str());
            let n = text.len();
            if n < 7 {
                return None;
            }
            let open: Vec<char> = vec!['<', 'p', '>'];
            let close: Vec<char> = vec!['<', '/', 'p', '>'];
            assert(open@ == paragraph_open());
            assert(close@ == paragraph_close());
            if matches_at(&text, 0, &open) && matches_at(&text, n - 4, &close) {
                Some(text_of_range(&text, 3, n - 4))
            } else {
                None
            }
        },
    }
}

/// Renders a title as inline HTML.
pub fn render_title(title: &str) -> (html: Option<String>)
    ensures
        view_of(html) == inline_html(title@),
{
    strip_paragraph(render_paragraph(title))
}

} // verus!
