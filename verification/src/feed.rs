//! The feed of a site: the entries of its documents, in the order in which
//! the documents were met, and the feed document made of them.

use vstd::prelude::*;
use crate::document::Document;
use crate::page::{excluded_from_feed, is_item_of, to_rss_item, FeedItem, RssConfig};
use crate::text::view_of;

verus! {

/// What a feed says of the site as a whole.
#[derive(Debug, Clone, PartialEq, Eq)]
pub struct Channel {
    pub title: String,
    pub link: String,
    pub description: String,
    pub language: String,
}

/// The texts of an entry: title, description, date of publication and
/// link.
pub open spec fn texts_of(item: FeedItem) -> (
    Option<Seq<char>>,
    Option<Seq<char>>,
    Option<Seq<char>>,
    Option<Seq<char>>,
) {
    (view_of(item.title), view_of(item.description), view_of(item.pub_date), view_of(item.link))
}

/// The texts of entries, in order.
pub open spec fn all_texts(items: Seq<FeedItem>) -> Seq<
    (Option<Seq<char>>, Option<Seq<char>>, Option<Seq<char>>, Option<Seq<char>>),
> {
    Seq::new(items.len(), |i: int| texts_of(items[i]))
}

/// The feed document that the `rss` crate writes for a channel with the
/// given title, link, description and language, built at the given date,
/// with the given entries; `None` where the crate finds the channel
/// invalid.
pub uninterp spec fn feed_xml(
    title: Seq<char>,
    link: Seq<char>,
    description: Seq<char>,
    language: Seq<char>,
    build_date: Seq<char>,
    items: Seq<(Option<Seq<char>>, Option<Seq<char>>, Option<Seq<char>>, Option<Seq<char>>)>,
) -> Option<Seq<char>>;

/// Builds an `rss::Channel` with `rss::ChannelBuilder`, its items with
/// `rss::ItemBuilder`, has the channel checked by
/// `rss::validation::Validate::validate` and, where that succeeds, written
/// by its `to_string`. The result depends on the texts alone, so the
/// contract names it after them.
#[verifier::external_body]
fn channel_xml(channel: &Channel, build_date: &str, items: &Vec<FeedItem>) -> (xml: Option<String>)
    ensures
        view_of(xml) == feed_xml(
            channel.title@,
            channel.link@,
            channel.description@,
            channel.language@,
            build_date@,
            all_texts(items@),
        ),
{
    let mut entries: Vec<rss::Item> = Vec::new();
    for i in items {
        entries.push(rss::ItemBuilder::default().title(i.title.clone()).description(
            i.description.clone()).pub_date(i.pub_date.clone()).link(i.link.clone()).build());
    }
    let built = rss::ChannelBuilder::default().title(channel.title.clone()).link(
        channel.link.clone()).description(channel.description.clone()).last_build_date(
        Some(build_date.to_string())).language(Some(channel.language.clone())).items(entries).build();
    rss::validation::Validate::validate(&built).ok().map(|_| built.to_string())
}

/// The entries that a build has collected.
pub struct Feed {
    items: Vec<FeedItem>,
}

impl Feed {
    /// The entries, in the order in which they were added.
    pub closed spec fn entries(&self) -> Seq<FeedItem> {
        self.items@
    }

    /// A feed without entries.
    pub fn new() -> (feed: Feed)
        ensures
            feed.entries().len() == 0,
    {
        Feed { items: Vec::new() }
    }

    /// Adds the entry of a document at the end, unless the document is
    /// kept out of the feed. Tells whether an entry was added.
    pub fn add(&mut self, config: &RssConfig, doc: &Document, file_rel_path: &str) -> (added: bool)
        ensures
            added == !excluded_from_feed(*doc),
            !added ==> final(self).entries() == old(self).entries(),
            added ==> final(self).entries().len() == old(self).entries().len() + 1,
            added ==> final(self).entries().drop_last() == old(self).entries(),
            added ==> is_item_of(
                final(self).entries().last(),
                config.root(),
                *doc,
                file_rel_path@,
            ),
    {
        match to_rss_item(config, doc, file_rel_path) {
            Some(item) => {
                self.items.push(item);
                assert(self.items@.drop_last() == old(self).items@);
                true
            },
            None => false,
        }
    }

    /// The entries, in the order in which they were added.
    pub fn items(&self) -> (items: &Vec<FeedItem>)
        ensures
            items@ == self.entries(),
    {
        &self.items
    }

    /// The feed document of the channel with the collected entries, or
    /// `None` where channel and entries do not make a valid feed.
    pub fn document(&self, channel: &Channel, build_date: &str) -> (xml: Option<String>)
        ensures
            view_of(xml) == feed_xml(
                channel.title@,
                channel.link@,
                channel.description@,
                channel.language@,
                build_date@,
                all_texts(self.entries()),
            ),
    {
        channel_xml(channel, build_date, &self.items)
    }
}

} // verus!
