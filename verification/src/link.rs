//! Links: where a target points, and the reference that stands for it.

use vstd::prelude::*;
use crate::document::Link;
use crate::escape::{escape_html, escaped};
use crate::text::{chars_of, has_prefix, has_suffix, matches_at, slice_of, text_of_range};

verus! {

/// How a link is told to point inside the site.
#[derive(Debug, Clone, Copy, PartialEq, Eq)]
pub enum LinkRule {
    /// A target is local where it starts with `./`, the stem of the
    /// document that holds the link, and `/`.
    DocumentStem,
    /// A target is local where it starts with `./`, a segment of its own
    /// and `/`.
    TargetSegment,
}

/// The scheme that marks a target as a file.
pub open spec fn file_scheme() -> Seq<char> {
    seq!['f', 'i', 'l', 'e', ':']
}

/// A target without the file schemes at its start.
pub open spec fn without_scheme(path: Seq<char>) -> Seq<char>
    decreases path.len(),
{
    if has_prefix(path, file_scheme()) {
        without_scheme(path.skip(5))
    } else {
        path
    }
}

/// The position of the first `/` from `from` on, or the length of the path
/// where none follows.
pub open spec fn first_slash(path: Seq<char>, from: int) -> int
    decreases path.len() - from,
{
    if from < 0 || from >= path.len() {
        path.len() as int
    } else if path[from] == '/' {
        from
    } else {
        first_slash(path, from + 1)
    }
}

/// The start of a path that is relative to the place of the document.
pub open spec fn here() -> Seq<char> {
    seq!['.', '/']
}

/// `./`, the segment that follows and `/`, where the path starts that way
/// and the segment is neither empty nor `.`.
pub open spec fn segment_prefix(path: Seq<char>) -> Option<Seq<char>> {
    let end = first_slash(path, 2);
    if has_prefix(path, here()) && 2 < end < path.len() && path.subrange(2, end) != seq!['.'] {
        Some(path.take(end + 1))
    } else {
        None
    }
}

/// `./`, the stem and `/`.
pub open spec fn stem_prefix(stem: Seq<char>) -> Seq<char> {
    here() + stem + seq!['/']
}

/// The start of the path that marks it as local under the rule, if it has
/// one.
pub open spec fn local_prefix(rule: LinkRule, stem: Seq<char>, path: Seq<char>) -> Option<
    Seq<char>,
> {
    match rule {
        LinkRule::DocumentStem => if has_prefix(path, stem_prefix(stem)) {
            Some(stem_prefix(stem))
        } else {
            None
        },
        LinkRule::TargetSegment => segment_prefix(path),
    }
}

/// The extension of markup documents, with its `.`.
pub open spec fn markup_suffix() -> Seq<char> {
    seq!['.', 'o', 'r', 'g']
}

/// Whether a link's target points inside the site.
pub open spec fn is_local(rule: LinkRule, stem: Seq<char>, target: Seq<char>) -> bool {
    local_prefix(rule, stem, without_scheme(target)) is Some
}

/// What a link's target is rewritten to. A remote target only loses its
/// file schemes. A local one also loses the start that marks it as local,
/// and the markup extension at its end, so that it names the page.
pub open spec fn site_target(rule: LinkRule, stem: Seq<char>, target: Seq<char>) -> Seq<char> {
    let path = without_scheme(target);
    match local_prefix(rule, stem, path) {
        Some(p) => {
            let rest = path.skip(p.len() as int);
            if has_suffix(rest, markup_suffix()) {
                rest.take(rest.len() - 4)
            } else {
                rest
            }
        },
        None => path,
    }
}

/// The reference to an image.
pub open spec fn image_html(target: Seq<char>) -> Seq<char> {
    "<img src=\""@ + target + "\">"@
}

/// The opening of an anchor to a page of the site: the attributes that let
/// a client-side router fetch the page's fragment into the content region
/// and record the page in the history, and a plain `href` beside them.
pub open spec fn local_anchor(target: Seq<char>) -> Seq<char> {
    "<a hx-get=\""@ + target + "/_.html\"\n  preload\n  hx-target=\"#content\"\n  hx-push-url=\""@
        + target + "/\"\n  hx-history-target=\""@ + target
        + "/\"\n  aria-controls=\"content\"\n  href=\""@ + target + "\"\n  class=\"\">\n"@
}

/// The opening of an anchor that leaves the site and opens a new context.
pub open spec fn remote_anchor(target: Seq<char>) -> Seq<char> {
    "<a href=\""@ + target + "\"\n  preload\n  target=\"_blank\">\n"@
}

/// The end of an anchor.
pub open spec fn anchor_close() -> Seq<char> {
    "</a>"@
}

/// Whether the nodes nested in a link are rendered: not for an image, and
/// not where the link has no description.
pub open spec fn link_descends(link: Link) -> bool {
    !link.image && link.described
}

/// What stands in the output where a link begins. An image is an image
/// reference and nothing else. Any other link opens an anchor, local or
/// remote; without a description the escaped target is the anchor's body
/// and the anchor ends at once.
pub open spec fn link_open(link: Link, rule: LinkRule, stem: Seq<char>) -> Seq<char> {
    let target = escaped(site_target(rule, stem, link.path@));
    if link.image {
        image_html(target)
    } else {
        let anchor = if is_local(rule, stem, link.path@) {
            local_anchor(target)
        } else {
            remote_anchor(target)
        };
        if link.described {
            anchor
        } else {
            anchor + target + anchor_close()
        }
    }
}

/// A link that was rewritten: whether it points inside the site, and what
/// it points to.
#[derive(Debug, Clone, PartialEq, Eq)]
pub struct Resolved {
    pub local: bool,
    pub target: String,
}

/// Where the file schemes at the start of `v` end.
fn scheme_end(v: &Vec<char>) -> (start: usize)
    ensures
        start <= v.len(),
        without_scheme(v@) == v@.skip(start as int),
{
    let scheme: Vec<char> = vec!['f', 'i', 'l', 'e', ':'];
    assert(scheme@ == file_scheme());
    let mut start: usize = 0;
    assert(v@.skip(0) == v@);
    while matches_at(v, start, &scheme)
        invariant
            start <= v.len(),
            scheme@ == file_scheme(),
            without_scheme(v@) == without_scheme(v@.skip(start as int)),
        decreases v.len() - start,
    {
        proof {
            let rest = v@.skip(start as int);
            assert(rest.subrange(0, 5) == v@.subrange(start as int, start + 5));
            assert(has_prefix(rest, file_scheme()));
            assert(rest.skip(5) == v@.skip(start + 5));
        }
        start += 5;
    }
    proof {
        let rest = v@.skip(start as int);
        if has_prefix(rest, file_scheme()) {
            assert(rest.subrange(0, 5) == v@.subrange(start as int, start + 5));
        }
    }
    start
}

/// The length of the start that marks `path` as local by a segment of its
/// own.
fn segment_prefix_len(path: &Vec<char>) -> (len: Option<usize>)
    ensures
        match len {
            Some(n) => n <= path.len() && segment_prefix(path@) == Some(path@.take(n as int)),
            None => segment_prefix(path@) is None,
        },
{
    let n = path.len();
    if n < 2 || path[0] != '.' || path[1] != '/' {
        proof {
            if has_prefix(path@, here()) {
                assert(path@.subrange(0, 2)[0] == '.');
                assert(path@.subrange(0, 2)[1] == '/');
            }
        }
        return None;
    }
    assert(path@.subrange(0, 2) =~= here());
    let mut end: usize = 2;
    while end < n && path[end] != '/'
        invariant
            2 <= end <= n,
            n == path.len(),
            first_slash(path@, 2) == first_slash(path@, end as int),
        decreases n - end,
    {
        end += 1;
    }
    if end == 2 || end == n {
        return None;
    }
    if end == 3 && path[2] == '.' {
        assert(path@.subrange(2, 3) =~= seq!['.']);
        return None;
    }
    proof {
        if path@.subrange(2, end as int) == seq!['.'] {
            assert(path@.subrange(2, end as int).len() == 1);
            assert(path@.subrange(2, end as int)[0] == '.');
        }
    }
    Some(end + 1)
}

/// The length of the start that marks `path` as local under the rule.
fn local_prefix_len(rule: &LinkRule, stem: &str, path: &Vec<char>) -> (len: Option<usize>)
    ensures
        match len {
            Some(n) => n <= path.len() && local_prefix(*rule, stem@, path@) is Some
                && local_prefix(*rule, stem@, path@).unwrap().len() == n,
            None => local_prefix(*rule, stem@, path@) is None,
        },
{
    match rule {
        LinkRule::TargetSegment => segment_prefix_len(path),
        LinkRule::DocumentStem => {
            let name = chars_of(stem);
            let mut pattern: Vec<char> = vec!['.', '/'];
            assert(pattern@ == here());
            let mut i: usize = 0;
            while i < name.len()
                invariant
                    i <= name.len(),
                    pattern@ == here() + name@.take(i as int),
                decreases name.len() - i,
            {
                pattern.push(name[i]);
                assert(name@.take(i + 1) == name@.take(i as int).push(name@[i as int]));
                i += 1;
            }
            assert(name@.take(i as int) == name@);
            pattern.push('/');
            assert(pattern@ == stem_prefix(stem@));
            if matches_at(path, 0, &pattern) {
                Some(pattern.len())
            } else {
                None
            }
        },
    }
}

/// Rewrites the target of a link.
pub fn resolve(rule: &LinkRule, stem: &str, target: &str) -> (r: Resolved)
    ensures
        r.local == is_local(*rule, stem@, target@),
        r.target@ == site_target(*rule, stem@, target@),
{
    let whole = chars_of(target);
    let start = scheme_end(&whole);
    let path = slice_of(&whole, start, whole.len());
    assert(path@ == without_scheme(target@));
    match local_prefix_len(rule, stem, &path) {
        None => Resolved { local: false, target: text_of_range(&path, 0, path.len()) },
        Some(k) => {
            let suffix: Vec<char> = vec!['.', 'o', 'r', 'g'];
            assert(suffix@ == markup_suffix());
            let n = path.len();
            let ghost rest = path@.skip(k as int);
            let end: usize = if n - k >= 4 && matches_at(&path, n - 4, &suffix) {
                assert(rest.subrange(rest.len() - 4, rest.len() as int) == path@.subrange(
                    n - 4,
                    n as int,
                ));
                n - 4
            } else {
                proof {
                    if has_suffix(rest, markup_suffix()) {
                        assert(rest.subrange(rest.len() - 4, rest.len() as int) == path@.subrange(
                            n - 4,
                            n as int,
                        ));
                    }
                }
                n
            };
            let out = text_of_range(&path, k, end);
            assert(out@ =~= site_target(*rule, stem@, target@));
            Resolved { local: true, target: out }
        },
    }
}

/// Appends the opening of an anchor to a page of the site.
fn push_local_anchor(out: &mut String, target: &str)
    ensures
        final(out)@ == old(out)@ + local_anchor(target@),
{
    out.append("<a hx-get=\"");
    out.append(target);
    out.append("/_.html\"\n  preload\n  hx-target=\"#content\"\n  hx-push-url=\"");
    out.append(target);
    out.append("/\"\n  hx-history-target=\"");
    out.append(target);
    out.append("/\"\n  aria-controls=\"content\"\n  href=\"");
    out.append(target);
    out.append("\"\n  class=\"\">\n");
    assert(out@ =~= old(out)@ + local_anchor(target@));
}

/// Appends the opening of an anchor that leaves the site.
fn push_remote_anchor(out: &mut String, target: &str)
    ensures
        final(out)@ == old(out)@ + remote_anchor(target@),
{
    out.append("<a href=\"");
    out.append(target);
    out.append("\"\n  preload\n  target=\"_blank\">\n");
    assert(out@ =~= old(out)@ + remote_anchor(target@));
}

/// Appends to `out` what stands where a link begins, and tells whether the
/// nodes nested in the link are to be rendered.
pub fn open_link(out: &mut String, link: &Link, rule: &LinkRule, stem: &str) -> (descend: bool)
    ensures
        final(out)@ == old(out)@ + link_open(*link, *rule, stem@),
        descend == link_descends(*link),
{
    let resolved = resolve(rule, stem, link.path.as_str());
    let target = escape_html(resolved.target.as_str());
    let t = target.as_str();
    if link.image {
        out.append("<img src=\"");
        out.append(t);
        out.append("\">");
        assert(out@ =~= old(out)@ + link_open(*link, *rule, stem@));
        return false;
    }
    if resolved.local {
        push_local_anchor(out, t);
    } else {
        push_remote_anchor(out, t);
    }
    if !link.described {
        out.append(t);
        out.append("</a>");
    }
    assert(out@ =~= old(out)@ + link_open(*link, *rule, stem@));
    link.described
}

} // verus!
