//! Resolving the podcast that a refresh command names.
use crate::models::Podcast;
use crate::text::{remove_chars, strip_chars};
use vstd::prelude::*;

verus! {

/// Why a refresh could not start.
#[derive(Clone, Copy, Debug, PartialEq, Eq, Structural)]
pub enum RefreshError {
    /// No podcast is registered under the feed URL.
    NotFound,
}

/// A feed URL as typed, without quote and space characters.
pub open spec fn normal_feed(raw: Seq<char>) -> Seq<char> {
    strip_chars(raw, '\'', ' ')
}

/// Some podcast is registered under `feed`.
pub open spec fn has_feed(podcasts: Seq<Podcast>, feed: Seq<char>) -> bool {
    exists|k: int| 0 <= k < podcasts.len() && (#[trigger] podcasts[k]).rssfeed@ == feed
}

/// Drops every `'` and space from a feed URL as typed on the command line.
pub fn normalize_feed(raw: &str) -> (r: String)
    ensures
        r@ == normal_feed(raw@),
{
    remove_chars(raw, '\'', ' ')
}

/// The first podcast registered under the normalized feed URL.
pub fn find_podcast_by_feed(podcasts: &Vec<Podcast>, raw_feed: &str) -> (r: Result<
    Podcast,
    RefreshError,
>)
    ensures
        r is Err <==> !has_feed(podcasts@, normal_feed(raw_feed@)),
        r is Err ==> r == Err::<Podcast, RefreshError>(RefreshError::NotFound),
        r matches Ok(p) ==> exists|i: int|
            0 <= i < podcasts@.len() && p == podcasts@[i] && p.rssfeed@ == normal_feed(raw_feed@)
                && forall|k: int|
                0 <= k < i ==> (#[trigger] podcasts@[k]).rssfeed@ != normal_feed(raw_feed@),
{
    let feed = normalize_feed(raw_feed);
    let mut i: usize = 0;
    while i < podcasts.len()
        invariant
            0 <= i <= podcasts@.len(),
            feed@ == normal_feed(raw_feed@),
            forall|k: int| 0 <= k < i ==> (#[trigger] podcasts@[k]).rssfeed@ != feed@,
        decreases podcasts@.len() - i,
    {
        if crate::text::text_is(podcasts[i].rssfeed.as_str(), feed.as_str()) {
            return Ok(podcasts[i].copy());
        }
        i = i + 1;
    }
    Err(RefreshError::NotFound)
}

} // verus!
