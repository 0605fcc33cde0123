//! Identifiers for headings.

use vstd::prelude::*;

verus! {

/// The identifier that the `slugify` crate derives from a text with its
/// default settings: no stop words, `-` as separator, no limit of length.
pub uninterp spec fn slug_of(text: Seq<char>) -> Seq<char>;

/// Calls `slugify::slugify` as the crate's macro does for one argument. The
/// function reads nothing but its arguments, so the contract names its
/// result after the text.
#[verifier::external_body]
fn slugify_text(text: &str) -> (id: String)
    ensures
        id@ == slug_of(text@),
{
    slugify::slugify(text, "", "-", None)
}

/// The URL-safe identifier of a heading's text.
pub fn slug(text: &str) -> (id: String)
    ensures
        id@ == slug_of(text@),
{
    slugify_text(text)
}

/// The identifier depends on the text alone: equal texts have equal
/// identifiers. Different texts may share one.
pub proof fn lemma_slug_deterministic(a: Seq<char>, b: Seq<char>)
    requires
        a == b,
    ensures
        slug_of(a) == slug_of(b),
{
}

} // verus!
