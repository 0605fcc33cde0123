pub mod text;
pub mod escape;
pub mod slug;
pub mod inline;
pub mod depth;
pub mod path;
pub mod document;
pub mod link;
pub mod render;
pub mod page;
pub mod site;
pub mod feed;
