//! Escaping of text that is placed inside HTML.

use vstd::prelude::*;

verus! {

/// What stands for one character inside HTML: the five characters that HTML
/// reads as markup become entities, every other character stays as it is.
pub open spec fn escaped_char(c: char) -> Seq<char> {
    if c == '<' {
        seq!['&', 'l', 't', ';']
    } else if c == '>' {
        seq!['&', 'g', 't', ';']
    } else if c == '&' {
        seq!['&', 'a', 'm', 'p', ';']
    } else if c == '\'' {
        seq!['&', 'a', 'p', 'o', 's', ';']
    } else if c == '"' {
        seq!['&', 'q', 'u', 'o', 't', ';']
    } else {
        seq![c]
    }
}

/// `s` with each character escaped, in order.
pub open spec fn escaped(s: Seq<char>) -> Seq<char>
    decreases s.len(),
{
    if s.len() == 0 {
        Seq::empty()
    } else {
        escaped(s.drop_last()) + escaped_char(s.last())
    }
}

/// Formats `orgize::export::HtmlEscape`. Its `Display` impl copies the text
/// and writes `&lt;`, `&gt;`, `&amp;`, `&apos;` and `&quot;` in place of `<`,
/// `>`, `&`, `'` and `"`; the contract claims exactly that.
#[verifier::external_body]
pub(crate) fn escape_html(s: &str) -> (r: String)
    ensures
        r@ == escaped(s@),
{
    format!("{}", orgize::export::HtmlEscape(s))
}

/// Escaped text holds none of the characters `<`, `>`, `'` and `"`.
pub proof fn lemma_escaped_is_inert(s: Seq<char>, i: int)
    requires
        0 <= i < escaped(s).len(),
    ensures
        escaped(s)[i] != '<',
        escaped(s)[i] != '>',
        escaped(s)[i] != '\'',
        escaped(s)[i] != '"',
    decreases s.len(),
{
    if s.len() > 0 {
        let head = escaped(s.drop_last());
        if i < head.len() {
            lemma_escaped_is_inert(s.drop_last(), i);
        }
    }
}

} // verus!
