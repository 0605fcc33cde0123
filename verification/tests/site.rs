use blorg::document::{Document, Property};
use blorg::feed::{Channel, Feed};
use blorg::link::LinkRule;
use blorg::page::RssConfig;
use blorg::path::{extension_of, stem_of, strip_extension};
use blorg::site::{
    classify, feed_file, minify_choices, name_of, needs_copy, page_paths, plan, should_be_skipped,
    stub_page, write_css, write_html, write_stub_file, Args, FileKind, LogLevel, Stamp, Step,
    WriteError,
};
use blorg::slug::slug;
use blorg::text::{ends_with, replace_and_trim, same_text, starts_with};

#[test]
fn slug_is_the_same_for_the_same_text() {
    assert_eq!(slug("Hello World"), "hello-world");
    assert_eq!(slug("Hello World"), slug("Hello World"));
    assert_eq!(slug("hello, world!"), slug("Hello World"));
    assert_eq!(slug(""), "");
}

#[test]
fn editor_and_project_files_are_skipped() {
    for name in [".dir-locals.el", ".env", ".gitignore", ".projectile", "Justfile"] {
        assert!(should_be_skipped(name), "{}", name);
    }
    assert!(!should_be_skipped("Justfile.org"));
    assert!(!should_be_skipped("justfile"));
}

#[test]
fn temporary_files_are_skipped_by_the_start_of_their_name() {
    assert!(should_be_skipped(".#index.org"));
    assert!(should_be_skipped(".#"));
    assert!(!should_be_skipped("index.#org"));
    assert!(!should_be_skipped("#.index"));
    assert!(!should_be_skipped("index.org"));
    assert!(!should_be_skipped(""));
}

#[test]
fn backup_files_are_skipped_by_the_end_of_their_name() {
    assert!(should_be_skipped("notes.org.bak"));
    assert!(should_be_skipped("notes.bak"));
    assert!(should_be_skipped("notes.tmp"));
    assert!(should_be_skipped(".bak"));
    assert!(should_be_skipped(".tmp"));
    assert!(!should_be_skipped(".tmp-notes"));
    assert!(!should_be_skipped(".bak.org"));
    assert!(!should_be_skipped("notes.BAK"));
    assert!(!should_be_skipped("bak"));
    assert!(!should_be_skipped("notesbak"));
}

#[test]
fn files_are_told_apart_by_their_extension() {
    assert_eq!(classify("a/b.org"), FileKind::Markup);
    assert_eq!(classify("a/b.html"), FileKind::Html);
    assert_eq!(classify("a/b.css"), FileKind::Style);
    assert_eq!(classify("a/b.png"), FileKind::Other);
    assert_eq!(classify("a/b.ORG"), FileKind::Other);
    assert_eq!(classify("a.org/b"), FileKind::Other);
    assert_eq!(classify("a/.org"), FileKind::Other);
    assert_eq!(classify("a/b.tar.css"), FileKind::Style);
}

#[test]
fn each_entry_has_its_step() {
    assert_eq!(plan(true, "notes"), Step::MakeDirectory);
    assert_eq!(plan(true, ".env"), Step::MakeDirectory);
    assert_eq!(plan(false, "notes/.env"), Step::Ignore);
    assert_eq!(plan(false, "notes/.#draft.org"), Step::Ignore);
    assert_eq!(plan(false, "notes/draft.org.bak"), Step::Ignore);
    assert_eq!(plan(false, "style/site.css.tmp"), Step::Ignore);
    assert_eq!(plan(false, "old.bak/draft.org"), Step::Render);
    assert_eq!(plan(false, ".env/draft.org"), Step::Render);
    assert_eq!(plan(false, "notes/index.html"), Step::WriteHtml);
    assert_eq!(plan(false, "style/site.css"), Step::WriteStyle);
    assert_eq!(plan(false, "img/rose.png"), Step::Copy);
    assert_eq!(plan(false, "LICENSE"), Step::Copy);
}

#[test]
fn paths_are_parted_at_the_last_dot_of_the_last_segment() {
    assert_eq!(strip_extension("a/b.org"), "a/b");
    assert_eq!(strip_extension("a.b/c"), "a.b/c");
    assert_eq!(strip_extension("a/.hidden"), "a/.hidden");
    assert_eq!(strip_extension("a/b.tar.gz"), "a/b.tar");
    assert_eq!(strip_extension("a/b."), "a/b");
    assert_eq!(strip_extension(".."), "..");
    assert_eq!(strip_extension(""), "");
    assert_eq!(stem_of("a/b.org"), "b");
    assert_eq!(stem_of("b"), "b");
    assert_eq!(extension_of("a/b.org").as_deref(), Some("org"));
    assert_eq!(extension_of("a/b.").as_deref(), Some(""));
    assert_eq!(extension_of("a/b"), None);
    assert_eq!(name_of("a/b/c.org"), "c.org");
    assert_eq!(name_of("c.org"), "c.org");
    assert_eq!(name_of("a/"), "");
}

#[test]
fn page_of_a_document_is_a_directory_with_stub_and_fragment() {
    let paths = page_paths("x/y.org");
    assert_eq!(paths.directory, "x/y");
    assert_eq!(paths.stub, "x/y/index.html");
    assert_eq!(paths.fragment, "x/y/_.html");
    assert_eq!(feed_file(), "feed.rss");
}

#[test]
fn unchanged_file_is_not_copied_again() {
    let source = Stamp { len: 10, modified: 100 };
    assert!(needs_copy(false, None));
    assert!(!needs_copy(false, Some((source, Stamp { len: 10, modified: 100 }))));
    assert!(!needs_copy(false, Some((source, Stamp { len: 10, modified: 250 }))));
}

#[test]
fn changed_file_is_copied_again() {
    let copy = Stamp { len: 10, modified: 100 };
    assert!(needs_copy(false, Some((Stamp { len: 11, modified: 100 }, copy))));
    assert!(needs_copy(false, Some((Stamp { len: 9, modified: 50 }, copy))));
    assert!(needs_copy(false, Some((Stamp { len: 10, modified: 101 }, copy))));
    assert!(needs_copy(true, Some((Stamp { len: 10, modified: 100 }, copy))));
    assert!(needs_copy(true, None));
}

#[test]
fn style_sheet_that_cannot_be_minified_is_copied_or_refused() {
    assert_eq!(
        write_css(Some("a{b:c}".to_string()), "a { b: c }", false, "s.css"),
        Ok("a{b:c}".to_string())
    );
    assert_eq!(write_css(None, "a { b: c", true, "s.css"), Ok("a { b: c".to_string()));
    let refused = write_css(None, "a { b: c", false, "style/s.css");
    assert_eq!(refused, Err(WriteError::Minify { path: "style/s.css".to_string() }));
    assert_eq!(refused.unwrap_err().message(), "Couldn't minify style/s.css");
}

fn minified(contents: &str) -> Vec<u8> {
    let choices = minify_choices();
    let mut cfg = minify_html::Cfg::new();
    cfg.minify_css = choices.minify_css;
    cfg.minify_js = choices.minify_js;
    cfg.ensure_spec_compliant_unquoted_attribute_values = choices.spec_compliant_unquoted_values;
    cfg.keep_comments = choices.keep_comments;
    cfg.keep_closing_tags = choices.keep_closing_tags;
    minify_html::minify(contents.as_bytes(), &cfg)
}

#[test]
fn html_is_written_as_it_is_unless_minified() {
    let page = "<p>  Hello,   world!  </p>\n<!-- note -->\n";
    assert_eq!(write_html(None, page), page.as_bytes().to_vec());
    assert_eq!(write_html(Some(b"<p>Hello, world!</p>".to_vec()), page), b"<p>Hello, world!</p>".to_vec());
    assert_eq!(write_html(Some(Vec::new()), page), Vec::<u8>::new());
    let small = minified(page);
    assert!(small.len() < page.len());
    assert_eq!(write_html(Some(small.clone()), page), small);
    assert_eq!(write_html(None, "h\u{e9}"), vec![b'h', 0xC3, 0xA9]);
}

#[test]
fn stub_forwards_to_the_shell() {
    let stub = stub_page();
    assert!(stub.starts_with("<!DOCTYPE html>\n<html xmlns=\"http://www.w3.org/1999/xhtml\""));
    assert!(stub.contains("\t\t<title>Redirecting to root page...</title>\n"));
    assert!(stub.contains("'/?/' + l.pathname.slice(1) + l.hash\n);\n"));
    assert!(stub.ends_with("\t</body>\n</html>\n"));
    assert_eq!(write_stub_file(None), stub.as_bytes().to_vec());
    let small = minified(stub);
    assert!(small.len() < stub.len());
    assert_eq!(write_stub_file(Some(small.clone())), small);
}

#[test]
fn minifier_keeps_closing_tags_and_drops_comments() {
    let choices = minify_choices();
    assert!(choices.minify_css && choices.minify_js && choices.spec_compliant_unquoted_values);
    assert!(!choices.keep_comments && choices.keep_closing_tags);
    let small = String::from_utf8(minified("<p>a</p><!-- gone --><p>b</p>")).unwrap();
    assert!(small.contains("</p>"));
    assert!(!small.contains("gone"));
}

#[test]
fn settings_have_their_defaults() {
    let args = Args::new("https://example.org".to_string(), "T".to_string(), "D".to_string());
    assert_eq!(args.dir, "site");
    assert_eq!(args.outdir, "out");
    assert_eq!(args.language, "en-GB");
    assert_eq!(args.log_level, LogLevel::Info);
    assert_eq!(args.root_address, "https://example.org");
    assert_eq!(args.title, "T");
    assert_eq!(args.description, "D");
    assert!(!args.copy_older_files && !args.minify_html && !args.minifier_copy_on_failure);
    assert_eq!(args.link_rule, LinkRule::DocumentStem);
}

fn doc_with(properties: Vec<(&str, &str)>) -> Document {
    Document {
        title: None,
        properties: properties
            .into_iter()
            .map(|(k, v)| Property { key: k.to_string(), value: v.to_string() })
            .collect(),
        children: vec![],
    }
}

#[test]
fn feed_keeps_the_order_of_the_documents() {
    let config = RssConfig::new("https://example.org".to_string());
    let mut feed = Feed::new();
    assert!(feed.add(&config, &doc_with(vec![("title", "one")]), "one.org"));
    assert!(!feed.add(&config, &doc_with(vec![("title", "hidden"), ("skip_feed", "t")]), "h.org"));
    assert!(feed.add(&config, &doc_with(vec![("title", "two")]), "two.org"));
    let titles: Vec<Option<&str>> = feed.items().iter().map(|i| i.title.as_deref()).collect();
    assert_eq!(titles, vec![Some("one"), Some("two")]);
}

#[test]
fn feed_document_holds_channel_and_items() {
    let config = RssConfig::new("https://example.org".to_string());
    let mut feed = Feed::new();
    feed.add(&config, &doc_with(vec![("title", "Roses"), ("description", "On roses")]), "roses.org");
    feed.add(&config, &doc_with(vec![("title", "Hidden"), ("skip_feed", "")]), "hidden.org");
    let channel = Channel {
        title: "Garden".to_string(),
        link: "https://example.org".to_string(),
        description: "Notes".to_string(),
        language: "en-GB".to_string(),
    };
    let xml = feed.document(&channel, "Tue, 02 Jan 2024 10:00:00 +0000").unwrap();
    assert!(xml.contains("<title>Garden</title>"));
    assert!(xml.contains("<language>en-GB</language>"));
    assert!(xml.contains("<lastBuildDate>Tue, 02 Jan 2024 10:00:00 +0000</lastBuildDate>"));
    assert!(xml.contains("<item><title>Roses</title><link>https://example.org/roses</link>"));
    assert!(!xml.contains("Hidden"));
}

#[test]
fn feed_that_is_not_valid_has_no_document() {
    let feed = Feed::new();
    let channel = Channel {
        title: "Garden".to_string(),
        link: "not an address".to_string(),
        description: "Notes".to_string(),
        language: "en-GB".to_string(),
    };
    assert_eq!(feed.document(&channel, "Tue, 02 Jan 2024 10:00:00 +0000"), None);
    let good = Channel { link: "https://example.org".to_string(), ..channel };
    assert_eq!(feed.document(&good, "yesterday"), None);
}

#[test]
fn texts_are_compared_by_their_characters() {
    assert!(starts_with("héllo", "hé"));
    assert!(!starts_with("h", "hé"));
    assert!(starts_with("abc", ""));
    assert!(ends_with("notes.org", ".org"));
    assert!(!ends_with("org", ".org"));
    assert!(ends_with("org", ""));
    assert!(same_text("a", "a"));
    assert!(!same_text("a", "ab"));
    assert_eq!(replace_and_trim(". a.b \u{3000}", '.', ' '), "a b");
    assert_eq!(replace_and_trim("...", '.', ' '), "");
}
