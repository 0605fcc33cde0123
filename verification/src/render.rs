//! The transformation of a document's tree into HTML: what each kind of
//! node contributes where it begins and where it ends, and the walk that
//! puts the contributions in order.

use vstd::prelude::*;
use crate::depth::{heading_tag, heading_tag_for};
use crate::document::{Element, Headline, Node, Property};
use crate::escape::{escape_html, escaped};
use crate::link::{anchor_close, link_descends, link_open, open_link, LinkRule};
use crate::slug::{slug, slug_of};
use crate::text::{chars_of, replace_and_trim, replaced, same_text, trimmed};

verus! {

/// What the handler of a node's beginning asks of the walk.
#[derive(Debug, Clone, Copy, PartialEq, Eq)]
pub enum Walk {
    /// Render the nodes nested in the node, then the node's end.
    Descend,
    /// Pass over the nodes nested in the node, and over its end.
    Skip,
}

/// The state of one transformation pass.
pub struct Context {
    /// How links are told to point inside the site.
    pub rule: LinkRule,
    /// The stem of the file that holds the document.
    pub stem: String,
    /// The offset that is added to the level of a headline.
    pub base_depth: i64,
    /// The output so far.
    pub out: String,
}

/// Whether a headline only groups what is nested in it: its title starts
/// with `.`.
pub open spec fn is_sentinel(h: Headline) -> bool {
    has_mark(h.title@)
}

/// Whether a title starts with the mark of a group.
pub open spec fn has_mark(title: Seq<char>) -> bool {
    title.len() > 0 && title[0] == '.'
}

/// The name of a group: its title with each `.` read as a space, without
/// the white space around it.
pub open spec fn group_label(title: Seq<char>) -> Seq<char> {
    trimmed(replaced(title, '.', ' '))
}

/// The base depth inside a group: one less than around it. It stays where
/// it is once it has reached the least value that it can hold.
pub open spec fn lowered(depth: int) -> int {
    if depth > i64::MIN {
        depth - 1
    } else {
        depth
    }
}

/// The marker that shows a headline's state, before its title.
pub open spec fn state_marks(h: Headline) -> Seq<char> {
    (if h.todo {
        "<span class=\"org_todo\">TODO</span> "@
    } else {
        Seq::empty()
    }) + (if h.done {
        "<span class=\"org_todo_done\">DONE</span> "@
    } else {
        Seq::empty()
    })
}

/// A heading element with the given content, at the level that the depth
/// is mapped to.
pub open spec fn heading(depth: int, content: Seq<char>) -> Seq<char> {
    "<"@ + heading_tag(depth) + ">"@ + content + "</"@ + heading_tag(depth) + ">"@
}

/// The content of a section's heading: a link to the section itself around
/// the state marker and the title.
pub open spec fn self_link(h: Headline) -> Seq<char> {
    "<a href=\"#"@ + slug_of(h.title@) + "\">"@ + state_marks(h) + h.title_html@ + anchor_close()
}

/// The beginning of a section: the container, named by the slug of the
/// title, and in it the heading.
pub open spec fn section_open(h: Headline, depth: int) -> Seq<char> {
    "<section id=\""@ + slug_of(h.title@) + "\">"@ + heading(h.level + depth, self_link(h))
}

/// The beginning of a group: a container named by the group's label.
pub open spec fn group_open(title: Seq<char>) -> Seq<char> {
    "<div class=\""@ + group_label(title) + "\">"@
}

/// What stands in the output where a headline begins.
pub open spec fn headline_open(h: Headline, depth: int) -> Seq<char> {
    if is_sentinel(h) {
        group_open(h.title@)
    } else {
        section_open(h, depth)
    }
}

/// What stands in the output where a headline ends.
pub open spec fn headline_close(h: Headline) -> Seq<char> {
    if is_sentinel(h) {
        "</div>"@
    } else {
        "</section>"@
    }
}

/// The beginning of a block of source code, tagged with its language
/// where it declares one.
pub open spec fn source_open(language: Option<String>) -> Seq<char> {
    match language {
        Some(l) => "<pre><code class=\"language-"@ + escaped(l@) + "\">"@,
        None => "<pre><code>"@,
    }
}

/// The end of a block of source code.
pub open spec fn source_close() -> Seq<char> {
    "</code></pre>"@
}

/// A block of text that is shown as it stands.
pub open spec fn fixed_width_html(value: Seq<char>) -> Seq<char> {
    "<pre><samp class=\"org_result\">"@ + escaped(value) + "</samp></pre>"@
}

/// A metadata element.
pub open spec fn meta(name: Seq<char>, value: Seq<char>) -> Seq<char> {
    "<meta property=\"article:"@ + name + "\" content=\""@ + escaped(value) + "\">"@
}

/// Whether a property is shown as metadata: its key is `ID`,
/// `published_time` or `modified_time`.
pub open spec fn is_shown(key: Seq<char>) -> bool {
    key == "ID"@ || key == "published_time"@ || key == "modified_time"@
}

/// The metadata element that a property is shown as: one for each of the
/// keys `ID`, `published_time` and `modified_time`, nothing for any other.
pub open spec fn meta_tag(p: Property) -> Seq<char> {
    if p.key@ == "ID"@ {
        meta("id"@, p.value@)
    } else if p.key@ == "published_time"@ {
        meta("published_time"@, p.value@)
    } else if p.key@ == "modified_time"@ {
        meta("modified_time"@, p.value@)
    } else {
        Seq::empty()
    }
}

/// The metadata elements of a drawer's properties, in order.
pub open spec fn meta_tags(properties: Seq<Property>) -> Seq<char>
    decreases properties.len(),
{
    if properties.len() == 0 {
        Seq::empty()
    } else {
        meta_tags(properties.drop_last()) + meta_tag(properties.last())
    }
}

/// What stands in the output where a node begins.
pub open spec fn opening(node: Node, rule: LinkRule, stem: Seq<char>, depth: int) -> Seq<char> {
    match node {
        Node::Headline(h) => headline_open(h, depth),
        Node::Link(l) => link_open(l, rule, stem),
        Node::SourceBlock { language } => source_open(language),
        Node::FixedWidth { value } => fixed_width_html(value@),
        Node::ExportBlock { value } => value@,
        Node::PropertyDrawer { properties } => meta_tags(properties@),
        Node::Other { enter, leave } => enter@,
    }
}

/// Whether the nodes nested in a node are rendered, and the node's end
/// after them.
pub open spec fn descends(node: Node) -> bool {
    match node {
        Node::Headline(h) => true,
        Node::Link(l) => link_descends(l),
        Node::SourceBlock { language } => true,
        Node::FixedWidth { value } => false,
        Node::ExportBlock { value } => false,
        Node::PropertyDrawer { properties } => false,
        Node::Other { enter, leave } => true,
    }
}

/// The base depth that holds for the nodes nested in a node.
pub open spec fn inner_depth(node: Node, depth: int) -> int {
    match node {
        Node::Headline(h) => if is_sentinel(h) {
            lowered(depth)
        } else {
            depth
        },
        _ => depth,
    }
}

/// What stands in the output where a node ends.
pub open spec fn closing(node: Node) -> Seq<char> {
    match node {
        Node::Headline(h) => headline_close(h),
        Node::Link(l) => anchor_close(),
        Node::SourceBlock { language } => source_close(),
        Node::Other { enter, leave } => leave@,
        _ => Seq::empty(),
    }
}

/// The HTML of an element: its beginning and, unless the node asks to be
/// skipped, the nested elements under the node's inner depth and its end.
pub open spec fn rendered(e: Element, rule: LinkRule, stem: Seq<char>, depth: int) -> Seq<char>
    decreases e,
{
    opening(e.node, rule, stem, depth) + if descends(e.node) {
        rendered_all(e.children@, rule, stem, inner_depth(e.node, depth)) + closing(e.node)
    } else {
        Seq::empty()
    }
}

/// The HTML of elements that follow one another, all under one depth.
pub open spec fn rendered_all(
    es: Seq<Element>,
    rule: LinkRule,
    stem: Seq<char>,
    depth: int,
) -> Seq<char>
    decreases es,
{
    if es.len() == 0 {
        Seq::empty()
    } else {
        rendered_all(es.drop_last(), rule, stem, depth) + rendered(es.last(), rule, stem, depth)
    }
}

/// Tells what the beginning of a node asks of the walk, without writing
/// anything.
pub fn walk_of(node: &Node) -> (walk: Walk)
    ensures
        walk == Walk::Descend <==> descends(*node),
        walk == Walk::Skip <==> !descends(*node),
{
    match node {
        Node::Headline(h) => Walk::Descend,
        Node::Link(l) => if !l.image && l.described {
            Walk::Descend
        } else {
            Walk::Skip
        },
        Node::SourceBlock { language } => Walk::Descend,
        Node::FixedWidth { value } => Walk::Skip,
        Node::ExportBlock { value } => Walk::Skip,
        Node::PropertyDrawer { properties } => Walk::Skip,
        Node::Other { enter, leave } => Walk::Descend,
    }
}

/// Tells whether a title starts with the mark of a group.
pub fn starts_with_mark(title: &str) -> (marked: bool)
    ensures
        marked == has_mark(title@),
{
    let v = chars_of(title);
    v.len() > 0 && v[0] == '.'
}

/// Appends a heading with the given content, at the level that the
/// headline's level and the base depth give.
pub fn push_heading(out: &mut String, level: usize, base_depth: i64, content: &str)
    ensures
        final(out)@ == old(out)@ + heading(level + base_depth, content@),
{
    let tag = heading_tag_for(level, base_depth);
    out.append("<");
    out.append(tag.as_str());
    out.append(">");
    out.append(content);
    out.append("</");
    out.append(tag.as_str());
    out.append(">");
    assert(out@ =~= old(out)@ + heading(level + base_depth, content@));
}

/// The state marker of a headline.
fn marks_of(h: &Headline) -> (marks: String)
    ensures
        marks@ == state_marks(*h),
{
    let mut marks = String::new();
    if h.todo {
        marks.append("<span class=\"org_todo\">TODO</span> ");
    }
    if h.done {
        marks.append("<span class=\"org_todo_done\">DONE</span> ");
    }
    assert(marks@ =~= state_marks(*h));
    marks
}

/// The content of a section's heading.
fn self_link_of(h: &Headline, id: &str) -> (link: String)
    requires
        id@ == slug_of(h.title@),
    ensures
        link@ == self_link(*h),
{
    let marks = marks_of(h);
    let mut link = String::from_str("<a href=\"#");
    link.append(id);
    link.append("\">");
    link.append(marks.as_str());
    link.append(h.title_html.as_str());
    link.append("</a>");
    assert(link@ =~= self_link(*h));
    link
}

/// Appends what stands where a headline begins.
fn open_headline(out: &mut String, h: &Headline, base_depth: i64)
    ensures
        final(out)@ == old(out)@ + headline_open(*h, base_depth as int),
{
    if starts_with_mark(h.title.as_str()) {
        let label = replace_and_trim(h.title.as_str(), '.', ' ');
        out.append("<div class=\"");
        out.append(label.as_str());
        out.append("\">");
        assert(out@ =~= old(out)@ + group_open(h.title@));
    } else {
        let id = slug(h.title.as_str());
        let link = self_link_of(h, id.as_str());
        out.append("<section id=\"");
        out.append(id.as_str());
        out.append("\">");
        push_heading(out, h.level, base_depth, link.as_str());
        assert(out@ =~= old(out)@ + section_open(*h, base_depth as int));
    }
}

/// Tells whether a property of this key is shown as metadata.
pub fn is_meta_key(key: &str) -> (shown: bool)
    ensures
        shown == is_shown(key@),
{
    same_text(key, "ID") || same_text(key, "published_time") || same_text(key, "modified_time")
}

/// A property that is not shown leaves nothing in the output.
pub proof fn lemma_hidden_property_is_dropped(p: Property)
    requires
        !is_shown(p.key@),
    ensures
        meta_tag(p) == Seq::<char>::empty(),
{
}

/// Appends the metadata element of one property.
fn push_meta(out: &mut String, p: &Property)
    ensures
        final(out)@ == old(out)@ + meta_tag(*p),
{
    let key = p.key.as_str();
    let name = if same_text(key, "ID") {
        "id"
    } else if same_text(key, "published_time") {
        "published_time"
    } else if same_text(key, "modified_time") {
        "modified_time"
    } else {
        assert(old(out)@ + meta_tag(*p) =~= old(out)@);
        return ;
    };
    let value = escape_html(p.value.as_str());
    out.append("<meta property=\"article:");
    out.append(name);
    out.append("\" content=\"");
    out.append(value.as_str());
    out.append("\">");
    assert(out@ =~= old(out)@ + meta_tag(*p));
}

/// Appends the metadata elements of a drawer.
fn push_metas(out: &mut String, properties: &Vec<Property>)
    ensures
        final(out)@ == old(out)@ + meta_tags(properties@),
{
    let mut i: usize = 0;
    assert(old(out)@ + meta_tags(properties@.take(0)) =~= old(out)@);
    while i < properties.len()
        invariant
            i <= properties.len(),
            out@ == old(out)@ + meta_tags(properties@.take(i as int)),
        decreases properties.len() - i,
    {
        push_meta(out, &properties[i]);
        proof {
            let next = properties@.take(i + 1);
            assert(next.drop_last() == properties@.take(i as int));
            assert(next.last() == properties@[i as int]);
            assert(out@ =~= old(out)@ + meta_tags(next));
        }
        i += 1;
    }
    assert(properties@.take(i as int) == properties@);
}

impl Context {
    /// The state at the start of a pass: nothing written yet.
    pub fn new(rule: LinkRule, stem: String, base_depth: i64) -> (ctx: Context)
        ensures
            ctx.rule == rule,
            ctx.stem == stem,
            ctx.base_depth == base_depth,
            ctx.out@ == Seq::<char>::empty(),
    {
        Context { rule, stem, base_depth, out: String::new() }
    }

    /// Handles the beginning of a node: writes what stands there, sets the
    /// base depth for what is nested in the node, and says whether the walk
    /// is to descend.
    pub fn enter(&mut self, node: &Node) -> (walk: Walk)
        ensures
            final(self).out@ == old(self).out@ + opening(
                *node,
                old(self).rule,
                old(self).stem@,
                old(self).base_depth as int,
            ),
            final(self).base_depth == inner_depth(*node, old(self).base_depth as int),
            final(self).rule == old(self).rule,
            final(self).stem == old(self).stem,
            walk == Walk::Descend <==> descends(*node),
            walk == Walk::Skip <==> !descends(*node),
    {
        match node {
            Node::Headline(h) => {
                open_headline(&mut self.out, h, self.base_depth);
                if starts_with_mark(h.title.as_str()) && self.base_depth > i64::MIN {
                    self.base_depth = self.base_depth - 1;
                }
                Walk::Descend
            },
            Node::Link(l) => {
                if open_link(&mut self.out, l, &self.rule, self.stem.as_str()) {
                    Walk::Descend
                } else {
                    Walk::Skip
                }
            },
            Node::SourceBlock { language } => {
                match language {
                    Some(l) => {
                        let name = escape_html(l.as_str());
                        self.out.append("<pre><code class=\"language-");
                        self.out.append(name.as_str());
                        self.out.append("\">");
                        assert(self.out@ =~= old(self).out@ + source_open(*language));
                    },
                    None => {
                        self.out.append("<pre><code>");
                    },
                }
                Walk::Descend
            },
            Node::FixedWidth { value } => {
                let text = escape_html(value.as_str());
                self.out.append("<pre><samp class=\"org_result\">");
                self.out.append(text.as_str());
                self.out.append("</samp></pre>");
                assert(self.out@ =~= old(self).out@ + fixed_width_html(value@));
                Walk::Skip
            },
            Node::ExportBlock { value } => {
                self.out.append(value.as_str());
                Walk::Skip
            },
            Node::PropertyDrawer { properties } => {
                push_metas(&mut self.out, properties);
                Walk::Skip
            },
            Node::Other { enter, leave } => {
                self.out.append(enter.as_str());
                Walk::Descend
            },
        }
    }

    /// Handles the end of a node that the walk descended into: writes what
    /// stands there, and puts the base depth back to what it was around the
    /// node.
    pub fn leave(&mut self, node: &Node, outer_depth: i64)
        ensures
            final(self).out@ == old(self).out@ + closing(*node),
            final(self).base_depth == outer_depth,
            final(self).rule == old(self).rule,
            final(self).stem == old(self).stem,
    {
        match node {
            Node::Headline(h) => {
                if starts_with_mark(h.title.as_str()) {
                    self.out.append("</div>");
                } else {
                    self.out.append("</section>");
                }
            },
            Node::Link(l) => {
                self.out.append("</a>");
            },
            Node::SourceBlock { language } => {
                self.out.append("</code></pre>");
            },
            Node::Other { enter, leave } => {
                self.out.append(leave.as_str());
            },
            _ => {
                assert(old(self).out@ + closing(*node) =~= old(self).out@);
            },
        }
        self.base_depth = outer_depth;
    }

    /// Renders an element and all that is nested in it. The base depth is
    /// afterwards what it was before.
    pub fn render(&mut self, e: &Element)
        ensures
            final(self).out@ == old(self).out@ + rendered(
                *e,
                old(self).rule,
                old(self).stem@,
                old(self).base_depth as int,
            ),
            final(self).base_depth == old(self).base_depth,
            final(self).rule == old(self).rule,
            final(self).stem == old(self).stem,
        decreases e,
    {
        let outer = self.base_depth;
        let walk = self.enter(&e.node);
        match walk {
            Walk::Skip => {
                assert(self.out@ =~= old(self).out@ + rendered(
                    *e,
                    old(self).rule,
                    old(self).stem@,
                    old(self).base_depth as int,
                ));
                self.base_depth = outer;
            },
            Walk::Descend => {
                let ghost before = self.out@;
                let ghost inner = self.base_depth as int;
                let mut i: usize = 0;
                assert(before + rendered_all(
                    e.children@.take(0),
                    self.rule,
                    self.stem@,
                    inner,
                ) =~= before);
                while i < e.children.len()
                    invariant
                        i <= e.children.len(),
                        self.base_depth == inner,
                        self.rule == old(self).rule,
                        self.stem == old(self).stem,
                        self.out@ == before + rendered_all(
                            e.children@.take(i as int),
                            self.rule,
                            self.stem@,
                            inner,
                        ),
                    decreases e.children.len() - i,
                {
                    self.render(&e.children[i]);
                    proof {
                        let next = e.children@.take(i + 1);
                        assert(next.drop_last() == e.children@.take(i as int));
                        assert(next.last() == e.children@[i as int]);
                        assert(self.out@ =~= before + rendered_all(
                            next,
                            self.rule,
                            self.stem@,
                            inner,
                        ));
                    }
                    i += 1;
                }
                assert(e.children@.take(i as int) == e.children@);
                self.leave(&e.node, outer);
                assert(self.out@ =~= old(self).out@ + rendered(
                    *e,
                    old(self).rule,
                    old(self).stem@,
                    old(self).base_depth as int,
                ));
            },
        }
    }

    /// Renders elements that follow one another. The base depth is
    /// afterwards what it was before.
    pub fn render_all(&mut self, es: &Vec<Element>)
        ensures
            final(self).out@ == old(self).out@ + rendered_all(
                es@,
                old(self).rule,
                old(self).stem@,
                old(self).base_depth as int,
            ),
            final(self).base_depth == old(self).base_depth,
            final(self).rule == old(self).rule,
            final(self).stem == old(self).stem,
    {
        let mut i: usize = 0;
        assert(old(self).out@ + rendered_all(
            es@.take(0),
            self.rule,
            self.stem@,
            self.base_depth as int,
        ) =~= old(self).out@);
        while i < es.len()
            invariant
                i <= es.len(),
                self.base_depth == old(self).base_depth,
                self.rule == old(self).rule,
                self.stem == old(self).stem,
                self.out@ == old(self).out@ + rendered_all(
                    es@.take(i as int),
                    self.rule,
                    self.stem@,
                    self.base_depth as int,
                ),
            decreases es.len() - i,
        {
            self.render(&es[i]);
            proof {
                let next = es@.take(i + 1);
                assert(next.drop_last() == es@.take(i as int));
                assert(next.last() == es@[i as int]);
                assert(self.out@ =~= old(self).out@ + rendered_all(
                    next,
                    self.rule,
                    self.stem@,
                    self.base_depth as int,
                ));
            }
            i += 1;
        }
        assert(es@.take(i as int) == es@);
    }
}

} // verus!
