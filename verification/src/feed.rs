//! Data model for feed responses and the error taxonomy.
//!
//! A listing response arrives as a nested envelope: `Response` holds
//! `Children`, which holds the list of `ChildrenData` entries, each wrapping
//! one `Post` with the fields the display needs. A `FetchResult` is the
//! ordered list of entries one fetch produced; a merged feed is the
//! concatenation of several such lists.

use vstd::prelude::*;

verus! {

/// The payload of one feed entry: the minimal fields needed for display.
#[derive(Debug)]
pub struct Post {
    pub title: String,
    pub permalink: String,
    pub subreddit: String,
}

/// The mathematical value of a `Post`: its three fields as character
/// sequences.
pub ghost struct PostView {
    pub title: Seq<char>,
    pub permalink: Seq<char>,
    pub subreddit: Seq<char>,
}

impl View for Post {
    type V = PostView;

    open spec fn view(&self) -> PostView {
        PostView { title: self.title@, permalink: self.permalink@, subreddit: self.subreddit@ }
    }
}

/// One entry of a listing response, wrapping its `Post`.
#[derive(Debug)]
pub struct ChildrenData {
    pub data: Post,
}

impl View for ChildrenData {
    type V = PostView;

    open spec fn view(&self) -> PostView {
        self.data@
    }
}

/// The list of entries inside a listing response.
#[derive(Debug)]
pub struct Children {
    pub children: Vec<ChildrenData>,
}

impl View for Children {
    type V = Seq<PostView>;

    open spec fn view(&self) -> Seq<PostView> {
        self.children@.map_values(|c: ChildrenData| c@)
    }
}

/// The outer envelope of a listing response.
#[derive(Debug)]
pub struct Response {
    pub data: Children,
}

impl View for Response {
    type V = Seq<PostView>;

    open spec fn view(&self) -> Seq<PostView> {
        self.data@
    }
}

/// Everything that can go wrong in one run, from configuration to the sink.
/// Every variant is fatal: errors surface to the top level and are never
/// retried or swallowed.
#[derive(Debug)]
pub enum FeedError {
    /// The configured feed list is empty or contains a blank name; raised
    /// before any network activity.
    ConfigurationError,
    /// The health precheck failed for the named feed.
    InvalidFeedError(String),
    /// A fetch or health call failed at the transport layer.
    NetworkError,
    /// A response carried a status code other than 200.
    HttpStatusError(u16),
    /// A listing response did not match the expected envelope shape.
    ParseError,
    /// Writing the current item to the output sink failed.
    SinkWriteError,
}

} // verus!
