//! A page of the site: the HTML of a document, and its entry in the feed.

use vstd::prelude::*;
use crate::depth::{declared_depth, parse_small};
use crate::document::{find_property, lemma_lookup, lookup, property_value, Document};
use crate::escape::{escape_html, escaped};
use crate::inline::{inline_html, render_title};
use crate::link::LinkRule;
use crate::path::{file_stem, stem_of, strip_extension, without_extension};
use crate::render::{heading, push_heading, rendered_all, Context};
use crate::text::view_of;

verus! {

/// What the feed needs to know of the site.
#[derive(Debug, Clone)]
pub struct RssConfig {
    root_address: String,
}

impl RssConfig {
    /// The address under which the site is served.
    pub closed spec fn root(&self) -> Seq<char> {
        self.root_address@
    }

    pub fn new(root_address: String) -> (config: Self)
        ensures
            config.root() == root_address@,
    {
        Self { root_address }
    }

    /// The address under which the site is served.
    pub fn root_address(&self) -> (root: &str)
        ensures
            root@ == self.root(),
    {
        self.root_address.as_str()
    }
}

/// An entry of the feed.
#[derive(Debug, Clone, PartialEq, Eq)]
pub struct FeedItem {
    pub title: Option<String>,
    pub description: Option<String>,
    pub pub_date: Option<String>,
    pub link: Option<String>,
}

/// The key of the property that keeps a document out of the feed.
pub open spec fn skip_key() -> Seq<char> {
    "skip_feed"@
}

/// Whether a document is kept out of the feed: it has the property that
/// says so, whatever the property's value.
pub open spec fn excluded_from_feed(doc: Document) -> bool {
    lookup(doc.properties@, skip_key()) is Some
}

/// A document that holds the property which keeps it out of the feed is
/// kept out, whatever else it declares.
pub proof fn lemma_marker_excludes(doc: Document, at: int)
    requires
        0 <= at < doc.properties@.len(),
        doc.properties@[at].key@ == skip_key(),
    ensures
        excluded_from_feed(doc),
{
    lemma_lookup(doc.properties@, skip_key(), 0);
}

/// The address of a document's page: the root address, `/`, and the
/// document's path without its extension.
pub open spec fn page_address(root: Seq<char>, path: Seq<char>) -> Seq<char> {
    root + "/"@ + without_extension(path)
}

/// Whether `item` is the feed entry of the document at `path`: title,
/// description and date are the document's properties of those names,
/// absent where the property is, and the link is the page's address.
pub open spec fn is_item_of(item: FeedItem, root: Seq<char>, doc: Document, path: Seq<char>) -> bool {
    &&& view_of(item.title) == lookup(doc.properties@, "title"@)
    &&& view_of(item.description) == lookup(doc.properties@, "description"@)
    &&& view_of(item.pub_date) == lookup(doc.properties@, "publication_date"@)
    &&& view_of(item.link) == Some(page_address(root, path))
}

/// The feed entry of a document, or `None` for a document that is kept out
/// of the feed.
pub fn to_rss_item(config: &RssConfig, doc: &Document, file_rel_path: &str) -> (item: Option<
    FeedItem,
>)
    ensures
        item is None <==> excluded_from_feed(*doc),
        item matches Some(i) ==> is_item_of(i, config.root(), *doc, file_rel_path@),
{
    if find_property(&doc.properties, "skip_feed").is_some() {
        return None;
    }
    let mut link = config.root_address.clone();
    link.append("/");
    link.append(strip_extension(file_rel_path).as_str());
    Some(
        FeedItem {
            title: property_value(&doc.properties, "title"),
            description: property_value(&doc.properties, "description"),
            pub_date: property_value(&doc.properties, "publication_date"),
            link: Some(link),
        },
    )
}

/// Why a document could not be transformed.
#[derive(Debug, Clone, Copy, PartialEq, Eq)]
pub enum TransformError {
    /// The title, read as markup, holds no paragraph.
    Title,
}

/// One entry of a rendered list of tags.
pub open spec fn tag_item(tag: Seq<char>) -> Seq<char> {
    "<li>"@ + escaped(tag) + "</li>"@
}

/// The entries of a rendered list of tags, in order.
pub open spec fn tag_items(tags: Seq<String>) -> Seq<char>
    decreases tags.len(),
{
    if tags.len() == 0 {
        Seq::empty()
    } else {
        tag_items(tags.drop_last()) + tag_item(tags.last()@)
    }
}

/// A rendered list of tags.
pub open spec fn tag_list(tags: Seq<String>) -> Seq<char> {
    "<ul class=\"tags\">"@ + tag_items(tags) + "</ul>"@
}

/// Whether tags are given, and at least one.
pub open spec fn has_tags(tags: Option<&Vec<String>>) -> bool {
    tags matches Some(t) && t@.len() > 0
}

/// The head of a page: nothing for a document without title; else the
/// title as a heading at the level of the base depth, alone or, where tags
/// are given, with the list of tags in a header element.
pub open spec fn page_head(title: Option<Seq<char>>, depth: int, tags: Option<&Vec<String>>) -> Seq<
    char,
> {
    match title {
        None => Seq::empty(),
        Some(t) => if has_tags(tags) {
            "<header>"@ + heading(depth, t) + tag_list(tags.unwrap()@) + "</header>"@
        } else {
            heading(depth, t)
        },
    }
}

/// The base depth that a document declares in its property `base_depth`.
pub open spec fn base_depth_of(doc: Document) -> int {
    declared_depth(lookup(doc.properties@, "base_depth"@))
}

/// The page of a document whose title, if it has one, is rendered as
/// `title`: the head, then the document's elements under its base depth,
/// all inside the main element.
pub open spec fn page_html(
    doc: Document,
    title: Option<Seq<char>>,
    path: Seq<char>,
    tags: Option<&Vec<String>>,
    rule: LinkRule,
) -> Seq<char> {
    "<main>"@ + page_head(title, base_depth_of(doc), tags) + rendered_all(
        doc.children@,
        rule,
        file_stem(path),
        base_depth_of(doc),
    ) + "</main>"@
}

/// What the transformation of a document gives: its page, or an error
/// where the document has a title that holds no paragraph.
pub open spec fn transformed(
    doc: Document,
    path: Seq<char>,
    tags: Option<&Vec<String>>,
    rule: LinkRule,
) -> Result<Seq<char>, TransformError> {
    match doc.title {
        None => Ok(page_html(doc, None, path, tags, rule)),
        Some(t) => match inline_html(t@) {
            Some(inner) => Ok(page_html(doc, Some(inner), path, tags, rule)),
            None => Err(TransformError::Title),
        },
    }
}

/// The base depth that a document declares.
pub fn base_depth(doc: &Document) -> (depth: i8)
    ensures
        depth == base_depth_of(*doc),
{
    match find_property(&doc.properties, "base_depth") {
        Some(v) => match parse_small(v.as_str()) {
            Some(n) => n,
            None => 0,
        },
        None => 0,
    }
}

/// Appends a list of tags.
fn push_tag_list(out: &mut String, tags: &Vec<String>)
    ensures
        final(out)@ == old(out)@ + tag_list(tags@),
{
    out.append("<ul class=\"tags\">");
    let ghost start = out@;
    let mut i: usize = 0;
    assert(start + tag_items(tags@.take(0)) =~= start);
    while i < tags.len()
        invariant
            i <= tags.len(),
            out@ == start + tag_items(tags@.take(i as int)),
        decreases tags.len() - i,
    {
        let tag = escape_html(tags[i].as_str());
        out.append("<li>");
        out.append(tag.as_str());
        out.append("</li>");
        proof {
            let next = tags@.take(i + 1);
            assert(next.drop_last() == tags@.take(i as int));
            assert(next.last() == tags@[i as int]);
            assert(out@ =~= start + tag_items(next));
        }
        i += 1;
    }
    assert(tags@.take(i as int) == tags@);
    out.append("</ul>");
    assert(out@ =~= old(out)@ + tag_list(tags@));
}

/// Appends the head of a page.
fn push_page_head(out: &mut String, title: &Option<String>, depth: i64, tags: Option<&Vec<String>>)
    ensures
        final(out)@ == old(out)@ + page_head(view_of(*title), depth as int, tags),
{
    match title {
        None => {
            assert(old(out)@ + page_head(view_of(*title), depth as int, tags) =~= old(out)@);
        },
        Some(t) => {
            let listed = match tags {
                Some(list) => list.len() > 0,
                None => false,
            };
            if listed {
                out.append("<header>");
                push_heading(out, 0, depth, t.as_str());
                push_tag_list(out, tags.unwrap());
                out.append("</header>");
            } else {
                push_heading(out, 0, depth, t.as_str());
            }
            assert(out@ =~= old(out)@ + page_head(view_of(*title), depth as int, tags));
        },
    }
}

/// Assembles the page of a document whose title is already rendered.
pub fn assemble(
    doc: &Document,
    title: Option<String>,
    file_rel_path: &str,
    tags: Option<&Vec<String>>,
    rule: LinkRule,
) -> (html: String)
    ensures
        html@ == page_html(*doc, view_of(title), file_rel_path@, tags, rule),
{
    let depth = base_depth(doc) as i64;
    let mut ctx = Context::new(rule, stem_of(file_rel_path), depth);
    ctx.out.append("<main>");
    push_page_head(&mut ctx.out, &title, depth, tags);
    ctx.render_all(&doc.children);
    ctx.out.append("</main>");
    assert(ctx.out@ =~= page_html(*doc, view_of(title), file_rel_path@, tags, rule));
    ctx.out
}

/// Transforms a document into the HTML of its page.
pub fn to_html(
    doc: &Document,
    file_rel_path: &str,
    tags: Option<&Vec<String>>,
    rule: LinkRule,
) -> (html: Result<String, TransformError>)
    ensures
        match html {
            Ok(page) => transformed(*doc, file_rel_path@, tags, rule) == Ok::<
                Seq<char>,
                TransformError,
            >(page@),
            Err(e) => transformed(*doc, file_rel_path@, tags, rule) == Err::<
                Seq<char>,
                TransformError,
            >(e),
        },
{
    let title = match &doc.title {
        None => None,
        Some(t) => match render_title(t.as_str()) {
            Some(inner) => Some(inner),
            None => {
                return Err(TransformError::Title);
            },
        },
    };
    Ok(assemble(doc, title, file_rel_path, tags, rule))
}

} // verus!
