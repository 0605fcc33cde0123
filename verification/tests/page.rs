use blorg::document::{Document, Element, Headline, Link, Node, Property};
use blorg::link::{resolve, LinkRule};
use blorg::page::{base_depth, to_html, to_rss_item, RssConfig, TransformError};
use blorg::render::{is_meta_key, walk_of, Context, Walk};

fn headline(level: usize, title: &str) -> Headline {
    Headline {
        level,
        title: title.to_string(),
        title_html: title.to_string(),
        todo: false,
        done: false,
    }
}

fn section(level: usize, title: &str, children: Vec<Element>) -> Element {
    Element { node: Node::Headline(headline(level, title)), children }
}

fn text(s: &str) -> Element {
    Element { node: Node::Other { enter: s.to_string(), leave: String::new() }, children: vec![] }
}

fn property(key: &str, value: &str) -> Property {
    Property { key: key.to_string(), value: value.to_string() }
}

fn document(properties: Vec<Property>, children: Vec<Element>) -> Document {
    Document { title: None, properties, children }
}

fn page(doc: &Document) -> String {
    to_html(doc, "notes/garden.org", None, LinkRule::DocumentStem).unwrap()
}

#[test]
fn single_heading_is_a_section_with_a_self_link() {
    let doc = document(vec![], vec![section(1, "Hello World", vec![])]);
    assert_eq!(
        page(&doc),
        "<main><section id=\"hello-world\"><h1><a href=\"#hello-world\">Hello World</a></h1></section></main>"
    );
}

#[test]
fn declared_base_depth_shifts_the_heading() {
    let doc = document(vec![property("base_depth", "2")], vec![section(1, "Deep", vec![])]);
    assert_eq!(
        page(&doc),
        "<main><section id=\"deep\"><h3><a href=\"#deep\">Deep</a></h3></section></main>"
    );
}

#[test]
fn heading_level_is_kept_between_one_and_six() {
    let high = document(vec![property("base_depth", "100")], vec![section(9, "Top", vec![])]);
    assert!(page(&high).contains("<h6>"));
    let low = document(vec![property("base_depth", "-100")], vec![section(3, "Low", vec![])]);
    assert!(page(&low).contains("<h1>"));
    let huge = document(vec![], vec![section(usize::MAX, "Huge", vec![])]);
    assert!(page(&huge).contains("<h6>"));
}

#[test]
fn group_wraps_its_content_and_lifts_nested_headings() {
    let grouped = document(
        vec![],
        vec![section(1, ".Group", vec![section(2, "Inside", vec![text("body")])])],
    );
    assert_eq!(
        page(&grouped),
        "<main><div class=\"Group\"><section id=\"inside\"><h1><a href=\"#inside\">Inside</a></h1>body</section></div></main>"
    );
    let plain = document(vec![], vec![section(2, "Inside", vec![])]);
    assert!(page(&plain).contains("<h2>"));
}

#[test]
fn group_label_reads_dots_as_spaces() {
    let doc = document(vec![], vec![section(1, ".two.columns.", vec![])]);
    assert_eq!(page(&doc), "<main><div class=\"two columns\"></div></main>");
}

#[test]
fn depth_after_a_group_is_the_depth_before_it() {
    let mut ctx = Context::new(LinkRule::DocumentStem, "garden".to_string(), 1);
    let tree = section(1, ".a", vec![section(2, ".b", vec![section(3, "c", vec![])])]);
    ctx.render(&tree);
    assert_eq!(ctx.base_depth, 1);
    assert_eq!(
        ctx.out,
        "<div class=\"a\"><div class=\"b\"><section id=\"c\"><h2><a href=\"#c\">c</a></h2></section></div></div>"
    );
    let after = section(1, "d", vec![]);
    ctx.out.clear();
    ctx.render(&after);
    assert!(ctx.out.contains("<h2>"));
}

#[test]
fn depth_at_its_least_value_stays_there() {
    let mut ctx = Context::new(LinkRule::DocumentStem, String::new(), i64::MIN);
    let walk = ctx.enter(&Node::Headline(headline(1, ".g")));
    assert_eq!(walk, Walk::Descend);
    assert_eq!(ctx.base_depth, i64::MIN);
    ctx.leave(&Node::Headline(headline(1, ".g")), i64::MIN);
    assert_eq!(ctx.base_depth, i64::MIN);
    assert_eq!(ctx.out, "<div class=\"g\"></div>");
}

#[test]
fn todo_and_done_are_marked_before_the_title() {
    let mut todo = headline(1, "Write");
    todo.todo = true;
    let mut done = headline(1, "Read");
    done.done = true;
    let doc = document(
        vec![],
        vec![
            Element { node: Node::Headline(todo), children: vec![] },
            Element { node: Node::Headline(done), children: vec![] },
        ],
    );
    let html = page(&doc);
    assert!(html.contains("<a href=\"#write\"><span class=\"org_todo\">TODO</span> Write</a>"));
    assert!(html.contains("<a href=\"#read\"><span class=\"org_todo_done\">DONE</span> Read</a>"));
}

#[test]
fn heading_shows_the_rendered_title() {
    let mut h = headline(2, "A *bold* move");
    h.title_html = "A <b>bold</b> move".to_string();
    let doc = document(vec![], vec![Element { node: Node::Headline(h), children: vec![] }]);
    assert_eq!(
        page(&doc),
        "<main><section id=\"a-bold-move\"><h2><a href=\"#a-bold-move\">A <b>bold</b> move</a></h2></section></main>"
    );
}

#[test]
fn image_link_is_an_image_reference_only() {
    let link = Link { path: "file:./garden/rose.png".to_string(), image: true, described: false };
    let doc = document(vec![], vec![Element { node: Node::Link(link), children: vec![text("never shown")] }]);
    assert_eq!(page(&doc), "<main><img src=\"rose.png\"></main>");
}

#[test]
fn local_link_carries_the_navigation_hints() {
    let link = Link { path: "./garden/tools.org".to_string(), image: false, described: true };
    let doc = document(vec![], vec![Element { node: Node::Link(link), children: vec![text("Tools")] }]);
    assert_eq!(
        page(&doc),
        "<main><a hx-get=\"tools/_.html\"\n  preload\n  hx-target=\"#content\"\n  hx-push-url=\"tools/\"\n  hx-history-target=\"tools/\"\n  aria-controls=\"content\"\n  href=\"tools\"\n  class=\"\">\nTools</a></main>"
    );
}

#[test]
fn remote_link_opens_a_new_context() {
    let link = Link { path: "https://example.org/?a=1&b=2".to_string(), image: false, described: false };
    let doc = document(vec![], vec![Element { node: Node::Link(link), children: vec![text("never shown")] }]);
    assert_eq!(
        page(&doc),
        "<main><a href=\"https://example.org/?a=1&amp;b=2\"\n  preload\n  target=\"_blank\">\nhttps://example.org/?a=1&amp;b=2</a></main>"
    );
}

#[test]
fn the_two_rules_for_local_links_differ() {
    let by_stem = resolve(&LinkRule::DocumentStem, "garden", "./shed/tools.org");
    assert!(!by_stem.local);
    assert_eq!(by_stem.target, "./shed/tools.org");
    let by_segment = resolve(&LinkRule::TargetSegment, "garden", "./shed/tools.org");
    assert!(by_segment.local);
    assert_eq!(by_segment.target, "tools");
}

#[test]
fn targets_that_are_no_local_paths_stay_remote() {
    for target in ["tools.org", "#anchor", "./tools.org", "././a/b", ".//a/b", "/a/b", ""] {
        let r = resolve(&LinkRule::TargetSegment, "garden", target);
        assert!(!r.local, "{}", target);
        assert_eq!(r.target, target);
    }
    let r = resolve(&LinkRule::TargetSegment, "garden", "file:file:./a/b.txt");
    assert!(r.local);
    assert_eq!(r.target, "b.txt");
}

#[test]
fn walk_descends_unless_the_node_is_taken_whole() {
    let link = |image: bool, described: bool| {
        Node::Link(Link { path: "x".to_string(), image, described })
    };
    assert_eq!(walk_of(&link(false, true)), Walk::Descend);
    assert_eq!(walk_of(&link(false, false)), Walk::Skip);
    assert_eq!(walk_of(&link(true, false)), Walk::Skip);
    assert_eq!(walk_of(&Node::Headline(headline(1, ".g"))), Walk::Descend);
    assert_eq!(walk_of(&Node::SourceBlock { language: None }), Walk::Descend);
    assert_eq!(walk_of(&Node::FixedWidth { value: String::new() }), Walk::Skip);
    assert_eq!(walk_of(&Node::ExportBlock { value: String::new() }), Walk::Skip);
    assert_eq!(walk_of(&Node::PropertyDrawer { properties: vec![] }), Walk::Skip);
}

#[test]
fn source_block_is_tagged_with_its_language() {
    let block = Element {
        node: Node::SourceBlock { language: Some("c<>".to_string()) },
        children: vec![text("int x;")],
    };
    let bare = Element { node: Node::SourceBlock { language: None }, children: vec![text("x")] };
    let doc = document(vec![], vec![block, bare]);
    assert_eq!(
        page(&doc),
        "<main><pre><code class=\"language-c&lt;&gt;\">int x;</code></pre><pre><code>x</code></pre></main>"
    );
}

#[test]
fn fixed_width_text_is_escaped_and_not_descended() {
    let block = Element {
        node: Node::FixedWidth { value: "a < b && \"c\" > 'd'".to_string() },
        children: vec![text("never shown")],
    };
    let doc = document(vec![], vec![block]);
    assert_eq!(
        page(&doc),
        "<main><pre><samp class=\"org_result\">a &lt; b &amp;&amp; &quot;c&quot; &gt; &apos;d&apos;</samp></pre></main>"
    );
}

#[test]
fn export_block_passes_through_as_it_is() {
    let block = Element {
        node: Node::ExportBlock { value: "<video src=\"a&b\"></video>".to_string() },
        children: vec![text("never shown")],
    };
    let doc = document(vec![], vec![block]);
    assert_eq!(page(&doc), "<main><video src=\"a&b\"></video></main>");
}

#[test]
fn property_drawer_shows_the_known_keys_only() {
    let drawer = Element {
        node: Node::PropertyDrawer {
            properties: vec![
                property("ID", "a\"1"),
                property("author", "nobody"),
                property("published_time", "2024-01-02"),
                property("modified_time", "2024-03-04"),
                property("id", "lower case"),
            ],
        },
        children: vec![text("never shown")],
    };
    let doc = document(vec![], vec![drawer]);
    assert_eq!(
        page(&doc),
        "<main><meta property=\"article:id\" content=\"a&quot;1\"><meta property=\"article:published_time\" content=\"2024-01-02\"><meta property=\"article:modified_time\" content=\"2024-03-04\"></main>"
    );
}

#[test]
fn only_three_keys_are_shown_as_metadata() {
    assert!(is_meta_key("ID"));
    assert!(is_meta_key("published_time"));
    assert!(is_meta_key("modified_time"));
    assert!(!is_meta_key("id"));
    assert!(!is_meta_key("ID "));
    assert!(!is_meta_key("title"));
    assert!(!is_meta_key(""));
}

#[test]
fn other_nodes_bring_their_own_text() {
    let paragraph = Element {
        node: Node::Other { enter: "<p>".to_string(), leave: "</p>".to_string() },
        children: vec![text("one "), text("two")],
    };
    let doc = document(vec![], vec![paragraph]);
    assert_eq!(page(&doc), "<main><p>one two</p></main>");
}

#[test]
fn title_is_rendered_as_inline_markup() {
    let mut doc = document(vec![], vec![]);
    doc.title = Some("A *bold* <title>".to_string());
    assert_eq!(page(&doc), "<main><h1>A <b>bold</b> &lt;title&gt;</h1></main>");
}

#[test]
fn title_follows_the_base_depth() {
    let mut doc = document(vec![property("base_depth", "3")], vec![]);
    doc.title = Some("Third".to_string());
    assert_eq!(page(&doc), "<main><h3>Third</h3></main>");
}

#[test]
fn tags_stand_with_the_title_in_a_header() {
    let mut doc = document(vec![], vec![]);
    doc.title = Some("Garden".to_string());
    let tags = vec!["roses".to_string(), "a&b".to_string()];
    let html = to_html(&doc, "garden.org", Some(&tags), LinkRule::DocumentStem).unwrap();
    assert_eq!(
        html,
        "<main><header><h1>Garden</h1><ul class=\"tags\"><li>roses</li><li>a&amp;b</li></ul></header></main>"
    );
    let none: Vec<String> = vec![];
    let html = to_html(&doc, "garden.org", Some(&none), LinkRule::DocumentStem).unwrap();
    assert_eq!(html, "<main><h1>Garden</h1></main>");
}

#[test]
fn title_without_a_paragraph_is_an_error() {
    let mut doc = document(vec![], vec![section(1, "x", vec![])]);
    doc.title = Some(String::new());
    assert_eq!(
        to_html(&doc, "garden.org", None, LinkRule::DocumentStem),
        Err(TransformError::Title)
    );
}

#[test]
fn base_depth_is_a_small_signed_number_or_zero() {
    let depth = |v: &str| base_depth(&document(vec![property("base_depth", v)], vec![]));
    assert_eq!(depth("2"), 2);
    assert_eq!(depth("+5"), 5);
    assert_eq!(depth("-128"), -128);
    assert_eq!(depth("127"), 127);
    assert_eq!(depth("0007"), 7);
    assert_eq!(depth("-0"), 0);
    assert_eq!(depth("128"), 0);
    assert_eq!(depth("-129"), 0);
    assert_eq!(depth("99999999999999999999999999"), 0);
    assert_eq!(depth(""), 0);
    assert_eq!(depth("-"), 0);
    assert_eq!(depth(" 2"), 0);
    assert_eq!(depth("2a"), 0);
    assert_eq!(base_depth(&document(vec![], vec![])), 0);
}

#[test]
fn first_property_of_a_key_wins() {
    let doc = document(vec![property("base_depth", "4"), property("base_depth", "1")], vec![]);
    assert_eq!(base_depth(&doc), 4);
}

#[test]
fn feed_item_copies_the_properties_and_links_the_page() {
    let config = RssConfig::new("https://example.org".to_string());
    assert_eq!(config.root_address(), "https://example.org");
    let doc = document(
        vec![
            property("title", "Roses"),
            property("description", "On roses"),
            property("publication_date", "Tue, 02 Jan 2024 00:00:00 +0000"),
        ],
        vec![],
    );
    let item = to_rss_item(&config, &doc, "notes/roses.org").unwrap();
    assert_eq!(item.title.as_deref(), Some("Roses"));
    assert_eq!(item.description.as_deref(), Some("On roses"));
    assert_eq!(item.pub_date.as_deref(), Some("Tue, 02 Jan 2024 00:00:00 +0000"));
    assert_eq!(item.link.as_deref(), Some("https://example.org/notes/roses"));
}

#[test]
fn feed_item_without_properties_has_only_a_link() {
    let config = RssConfig::new("https://example.org".to_string());
    let item = to_rss_item(&config, &document(vec![], vec![]), "roses.org").unwrap();
    assert_eq!(item.title, None);
    assert_eq!(item.description, None);
    assert_eq!(item.pub_date, None);
    assert_eq!(item.link.as_deref(), Some("https://example.org/roses"));
}

#[test]
fn excluded_document_has_no_feed_item() {
    let config = RssConfig::new("https://example.org".to_string());
    let doc = document(
        vec![property("title", "Roses"), property("description", "On roses"), property("skip_feed", "")],
        vec![],
    );
    assert_eq!(to_rss_item(&config, &doc, "roses.org"), None);
}
