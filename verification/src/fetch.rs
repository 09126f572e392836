//! The fetch orchestration: fan-out of one listing request per feed, the
//! per-response decision, and the fan-in merge of the results.
//!
//! The requests themselves run outside, on a bounded worker pool that sends
//! each result into a shared channel. This module computes everything
//! around that: the listing URLs in dispatch order (which is feed-list
//! order), the verdict on one response, and the merge of the drained
//! results — their concatenation in arrival order, losing and duplicating
//! nothing. Arrival order is scheduler-dependent; with a single worker it
//! equals dispatch order, which makes the whole run deterministic.

use vstd::prelude::*;
use crate::feed::{ChildrenData, FeedError, Response};
use crate::urls::{UrlType, json_url_view};

verus! {

/// How one listing request ended: the transport failed outright, or the
/// endpoint answered with a status code and — when the status was 200 and
/// the body matched the envelope shape — a parsed response.
pub enum FetchOutcome {
    TransportFailure,
    Responded { status: u16, body: Option<Response> },
}

/// The verdict on one listing request: the items it produced, or which
/// error ends the run. Transport failure is a `NetworkError`; any status
/// other than 200 is an `HttpStatusError` carrying that status; a 200
/// whose body did not match the envelope shape is a `ParseError`;
/// otherwise the response's entries are handed back in order.
pub fn decide_fetch(outcome: FetchOutcome) -> (r: Result<Vec<ChildrenData>, FeedError>)
    ensures
        match outcome {
            FetchOutcome::TransportFailure => r matches Err(e) && e == FeedError::NetworkError,
            FetchOutcome::Responded { status, body } => {
                if status != 200 {
                    r matches Err(e) && e == FeedError::HttpStatusError(status)
                } else {
                    match body {
                        Option::None => r matches Err(e) && e == FeedError::ParseError,
                        Option::Some(resp) => r matches Ok(items) && items == resp.data.children,
                    }
                }
            },
        },
{
    match outcome {
        FetchOutcome::TransportFailure => Result::Err(FeedError::NetworkError),
        FetchOutcome::Responded { status, body } => {
            if status != 200 {
                Result::Err(FeedError::HttpStatusError(status))
            } else {
                match body {
                    Option::None => Result::Err(FeedError::ParseError),
                    Option::Some(resp) => Result::Ok(resp.data.children),
                }
            }
        },
    }
}

/// The listing URLs to dispatch, one per feed, in feed-list order: task
/// submission order equals configuration order.
pub fn dispatch_urls(feeds: &Vec<String>) -> (urls: Vec<String>)
    ensures
        urls@.len() == feeds@.len(),
        forall|i: int| 0 <= i < feeds@.len() ==> (#[trigger] urls@[i])@ == json_url_view(
            feeds@[i]@,
        ),
{
    let mut urls: Vec<String> = Vec::new();
    let mut i: usize = 0;
    while i < feeds.len()
        invariant
            i <= feeds@.len(),
            urls@.len() == i,
            forall|j: int| 0 <= j < i ==> (#[trigger] urls@[j])@ == json_url_view(feeds@[j]@),
        decreases feeds@.len() - i,
    {
        let url_type = UrlType::JsonUrl(feeds[i].clone());
        urls.push(url_type.value());
        i = i + 1;
    }
    urls
}

/// The merged feed's value: the concatenation of the per-feed results in
/// the order they arrived.
pub open spec fn merged_view(results: Seq<Vec<ChildrenData>>) -> Seq<ChildrenData> {
    results.map_values(|r: Vec<ChildrenData>| r@).flatten()
}

/// The total number of items across the per-feed results.
pub open spec fn total_items(results: Seq<Vec<ChildrenData>>) -> int
    decreases results.len(),
{
    if results.len() == 0 {
        0
    } else {
        results[0]@.len() + total_items(results.drop_first())
    }
}

/// The merged feed holds exactly as many items as the per-feed results do
/// together: merging loses no item and duplicates none.
pub proof fn lemma_merged_feed_complete(results: Seq<Vec<ChildrenData>>)
    ensures
        merged_view(results).len() == total_items(results),
    decreases results.len(),
{
    let mapped = results.map_values(|r: Vec<ChildrenData>| r@);
    if results.len() > 0 {
        lemma_merged_feed_complete(results.drop_first());
        assert(results.drop_first().map_values(|r: Vec<ChildrenData>| r@) =~= mapped.drop_first());
    }
}

/// With one worker the run is sequential, so arrival order is dispatch
/// order: two runs over the same per-feed results merge to the same feed,
/// items and order alike.
pub proof fn lemma_fetch_all_deterministic(
    first: Seq<Vec<ChildrenData>>,
    second: Seq<Vec<ChildrenData>>,
)
    requires
        first == second,
    ensures
        merged_view(first) == merged_view(second),
{
}

/// Drains the per-feed results, in the order they arrived on the fan-in
/// channel, into one merged feed: their exact concatenation.
pub fn fetch_all(results: Vec<Vec<ChildrenData>>) -> (merged: Vec<ChildrenData>)
    ensures
        merged@ == merged_view(results@),
        merged@.len() == total_items(results@),
{
    proof {
        lemma_merged_feed_complete(results@);
    }
    let ghost all = results@;
    let mut merged: Vec<ChildrenData> = Vec::new();
    let mut rest = results;
    proof {
        assert(merged@ + merged_view(rest@) =~= merged_view(all));
    }
    while rest.len() > 0
        invariant
            merged@ + merged_view(rest@) == merged_view(all),
        decreases rest@.len(),
    {
        let ghost rest0 = rest@;
        let mut head = rest.remove(0);
        let ghost head0 = head;
        let ghost prev_merged = merged@;
        merged.append(&mut head);
        proof {
            let f = |r: Vec<ChildrenData>| r@;
            assert(rest0 =~= seq![head0].add(rest@));
            assert(rest0.map_values(f).drop_first() =~= rest@.map_values(f));
            assert(rest0.map_values(f).first() == head0@);
            assert(merged_view(rest0) == head0@ + merged_view(rest@));
            assert(merged@ + merged_view(rest@) =~= prev_merged + merged_view(rest0));
        }
    }
    proof {
        assert(merged_view(rest@) =~= Seq::<ChildrenData>::empty());
        assert(merged@ =~= merged_view(all));
    }
    merged
}

} // verus!
