//! A static site builder: front matter, posts, archive, feed and CV pages.
use vstd::prelude::*;

pub mod clock;
pub mod cv;
pub mod document;
pub mod feed;
pub mod pages;
pub mod post;
pub mod site;
pub mod text;
pub mod yaml;

verus! {

/// The characters of an optional string.
pub open spec fn opt_view(o: Option<String>) -> Option<Seq<char>> {
    match o {
        Some(s) => Some(s@),
        None => None,
    }
}

} // verus!
