//! The structural tree of a parsed markup document, as plain values.

use vstd::prelude::*;
use crate::text::{same_text, view_of};

verus! {

/// One entry of a property drawer.
#[derive(Debug, Clone, PartialEq, Eq)]
pub struct Property {
    pub key: String,
    pub value: String,
}

/// A headline of the document.
#[derive(Debug, Clone, PartialEq, Eq)]
pub struct Headline {
    /// Nesting depth in the source, counted from 1.
    pub level: usize,
    /// The title as it stands in the source.
    pub title: String,
    /// The title's inline content, rendered.
    pub title_html: String,
    /// Whether the headline is marked as still to do.
    pub todo: bool,
    /// Whether the headline is marked as done.
    pub done: bool,
}

/// A link of the document.
#[derive(Debug, Clone, PartialEq, Eq)]
pub struct Link {
    /// The target as it stands in the source.
    pub path: String,
    /// Whether the link shows an image.
    pub image: bool,
    /// Whether the link has a visible description.
    pub described: bool,
}

/// The kinds of node that the transformation tells apart. Every other kind
/// of the markup language is `Other`, and brings the text that stands in
/// the output where the node begins and where it ends.
#[derive(Debug, Clone, PartialEq, Eq)]
pub enum Node {
    Headline(Headline),
    Link(Link),
    SourceBlock { language: Option<String> },
    FixedWidth { value: String },
    ExportBlock { value: String },
    PropertyDrawer { properties: Vec<Property> },
    Other { enter: String, leave: String },
}

/// A node with the nodes nested in it, in source order.
#[derive(Debug, PartialEq, Eq)]
pub struct Element {
    pub node: Node,
    pub children: Vec<Element>,
}

/// A parsed document.
#[derive(Debug, PartialEq, Eq)]
pub struct Document {
    /// The title, itself markup, where the document declares one.
    pub title: Option<String>,
    /// The document-level properties, in source order.
    pub properties: Vec<Property>,
    /// The top-level nodes, in source order.
    pub children: Vec<Element>,
}

/// The value of the first property from position `from` on whose key is
/// `key`.
pub open spec fn lookup_from(properties: Seq<Property>, key: Seq<char>, from: int) -> Option<
    Seq<char>,
>
    decreases properties.len() - from,
{
    if from < 0 || from >= properties.len() {
        None
    } else if properties[from].key@ == key {
        Some(properties[from].value@)
    } else {
        lookup_from(properties, key, from + 1)
    }
}

/// The value of the first property whose key is `key`.
pub open spec fn lookup(properties: Seq<Property>, key: Seq<char>) -> Option<Seq<char>> {
    lookup_from(properties, key, 0)
}

/// A property that is looked up and found stands in the list under that
/// key; one that is not found stands nowhere in it.
pub proof fn lemma_lookup(properties: Seq<Property>, key: Seq<char>, from: int)
    requires
        0 <= from,
    ensures
        match lookup_from(properties, key, from) {
            Some(v) => exists|i: int|
                from <= i < properties.len() && (#[trigger] properties[i]).key@ == key
                    && properties[i].value@ == v,
            None => forall|i: int|
                from <= i < properties.len() ==> (#[trigger] properties[i]).key@ != key,
        },
    decreases properties.len() - from,
{
    if from < properties.len() {
        if properties[from].key@ == key {
            assert(properties[from].value@ == lookup_from(properties, key, from).unwrap());
        } else {
            lemma_lookup(properties, key, from + 1);
        }
    }
}

/// Looks a property up by its key.
pub fn find_property<'a>(properties: &'a Vec<Property>, key: &str) -> (value: Option<&'a String>)
    ensures
        match value {
            Some(v) => lookup(properties@, key@) == Some(v@),
            None => lookup(properties@, key@) is None,
        },
{
    let mut i: usize = 0;
    while i < properties.len()
        invariant
            i <= properties.len(),
            lookup(properties@, key@) == lookup_from(properties@, key@, i as int),
        decreases properties.len() - i,
    {
        if same_text(properties[i].key.as_str(), key) {
            return Some(&properties[i].value);
        }
        i += 1;
    }
    None
}

/// Looks a property up by its key and copies its value.
pub fn property_value(properties: &Vec<Property>, key: &str) -> (value: Option<String>)
    ensures
        view_of(value) == lookup(properties@, key@),
{
    match find_property(properties, key) {
        Some(v) => Some(v.clone()),
        None => None,
    }
}

} // verus!
