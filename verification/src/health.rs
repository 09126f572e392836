//! The health precheck: every configured feed must resolve to a live source
//! before any fetch work is scheduled.
//!
//! Feeds are checked strictly in list order, one at a time, and the run
//! aborts on the first feed that fails — feeds after it are never consulted.
//! An unusable feed list is rejected before any check at all. The check of
//! one feed is outside work (an HTTP request); `HealthPrecheck` is the
//! state machine the surrounding loop drives, handing in each outcome, and
//! `verify_all` is the whole run over a given assignment of outcomes.

use vstd::prelude::*;
use crate::config::{feeds_valid, feeds_are_valid};
use crate::feed::FeedError;

verus! {

/// True when every feed in the run is healthy.
pub open spec fn all_healthy(health: Seq<bool>) -> bool {
    forall|i: int| 0 <= i < health.len() ==> health[i]
}

/// The index of the first unhealthy feed; meaningful only when one exists.
pub open spec fn first_unhealthy(health: Seq<bool>) -> int
    decreases health.len(),
{
    if health.len() == 0 {
        0
    } else if !health[0] {
        0
    } else {
        1 + first_unhealthy(health.drop_first())
    }
}

/// An index that is unhealthy and preceded only by healthy indices is the
/// first unhealthy one.
pub proof fn lemma_first_unhealthy_at(health: Seq<bool>, i: int)
    requires
        0 <= i < health.len(),
        !health[i],
        forall|j: int| 0 <= j < i ==> health[j],
    ensures
        first_unhealthy(health) == i,
        !all_healthy(health),
    decreases i,
{
    if i > 0 {
        let rest = health.drop_first();
        assert(forall|j: int| 0 <= j < i - 1 ==> rest[j] == health[j + 1]);
        lemma_first_unhealthy_at(rest, i - 1);
    }
}

/// When some feed is unhealthy, the first unhealthy index is in range, is
/// unhealthy, and everything before it is healthy.
pub proof fn lemma_first_unhealthy_props(health: Seq<bool>)
    requires
        !all_healthy(health),
    ensures
        0 <= first_unhealthy(health) < health.len(),
        !health[first_unhealthy(health)],
        forall|j: int| 0 <= j < first_unhealthy(health) ==> health[j],
    decreases health.len(),
{
    if health.len() > 0 && health[0] {
        let rest = health.drop_first();
        assert(!all_healthy(rest)) by {
            let w = choose|i: int| 0 <= i < health.len() && !health[i];
            assert(rest[w - 1] == health[w]);
        }
        lemma_first_unhealthy_props(rest);
        assert(forall|j: int| 0 <= j < first_unhealthy(health) ==> health[j]) by {
            assert(forall|j: int| 1 <= j < first_unhealthy(health) ==> health[j] == rest[j - 1]);
        }
    }
}

/// The precheck consults feeds only up to and including the first failure:
/// two assignments of health outcomes that agree up to that point fail at
/// the same feed, whatever the feeds after it would have answered.
pub proof fn lemma_precheck_ignores_later_feeds(h1: Seq<bool>, h2: Seq<bool>)
    requires
        h1.len() == h2.len(),
        !all_healthy(h1),
        forall|j: int| 0 <= j <= first_unhealthy(h1) ==> h1[j] == h2[j],
    ensures
        !all_healthy(h2),
        first_unhealthy(h2) == first_unhealthy(h1),
{
    lemma_first_unhealthy_props(h1);
    lemma_first_unhealthy_at(h2, first_unhealthy(h1));
}

/// The health verdict for one feed: healthy exactly when the endpoint
/// answered with status 200. A transport failure (no status at all) counts
/// as unhealthy.
pub fn check_health(status: Option<u16>) -> (healthy: bool)
    ensures
        healthy <==> status == Option::Some(200u16),
{
    match status {
        Option::Some(code) => code == 200,
        Option::None => false,
    }
}

/// One precheck run in progress: the feed list and how many feeds have
/// passed so far. The surrounding loop asks `current` which feed to check,
/// performs the check, and hands the outcome to `record`.
pub struct HealthPrecheck {
    pub feeds: Vec<String>,
    pub next: usize,
}

impl HealthPrecheck {
    /// A run is well-formed while its feed list is usable and its cursor
    /// has not passed the end.
    pub open spec fn wf(&self) -> bool {
        &&& feeds_valid(self.feeds@)
        &&& self.next <= self.feeds@.len()
    }

    /// Starts a run. An unusable feed list is rejected here, before any
    /// feed is consulted.
    pub fn new(feeds: Vec<String>) -> (r: Result<HealthPrecheck, FeedError>)
        ensures
            feeds_valid(feeds@) ==> (r matches Ok(p) && p.feeds@ == feeds@ && p.next == 0),
            !feeds_valid(feeds@) ==> (r matches Err(e) && e == FeedError::ConfigurationError),
    {
        if !feeds_are_valid(&feeds) {
            return Result::Err(FeedError::ConfigurationError);
        }
        Result::Ok(HealthPrecheck { feeds, next: 0 })
    }

    /// The feed whose health is to be checked next, or `None` when every
    /// feed has passed.
    pub fn current(&self) -> (r: Option<&String>)
        requires
            self.wf(),
        ensures
            match r {
                Option::Some(name) => {
                    &&& self.next < self.feeds@.len()
                    &&& name@ == self.feeds@[self.next as int]@
                },
                Option::None => self.next == self.feeds@.len(),
            },
    {
        if self.next < self.feeds.len() {
            Option::Some(&self.feeds[self.next])
        } else {
            Option::None
        }
    }

    /// Records the outcome of checking the current feed. A healthy outcome
    /// advances the run; an unhealthy one stops it at once, naming the feed
    /// that failed.
    pub fn record(&mut self, healthy: bool) -> (r: Result<(), FeedError>)
        requires
            old(self).wf(),
            old(self).next < old(self).feeds@.len(),
        ensures
            final(self).feeds@ == old(self).feeds@,
            final(self).wf(),
            healthy ==> {
                &&& r matches Ok(u) && u == ()
                &&& final(self).next == old(self).next + 1
            },
            !healthy ==> {
                &&& r matches Err(e) && e matches FeedError::InvalidFeedError(name)
                    && name@ == old(self).feeds@[old(self).next as int]@
                &&& final(self).next == old(self).next
            },
    {
        if healthy {
            if self.next < self.feeds.len() {
                self.next = self.next + 1;
            }
            Result::Ok(())
        } else {
            Result::Err(FeedError::InvalidFeedError(self.feeds[self.next].clone()))
        }
    }
}

/// A whole precheck run over a given assignment of health outcomes,
/// `health[i]` being the outcome for `feeds[i]`. Succeeds exactly when the
/// list is usable and every feed is healthy; an unusable list is rejected
/// before any outcome is read; otherwise the run fails naming the first
/// unhealthy feed.
pub fn verify_all(feeds: &Vec<String>, health: &Vec<bool>) -> (r: Result<(), FeedError>)
    requires
        health@.len() == feeds@.len(),
    ensures
        !feeds_valid(feeds@) ==> (r matches Err(e) && e == FeedError::ConfigurationError),
        feeds_valid(feeds@) && all_healthy(health@) ==> (r matches Ok(u) && u == ()),
        feeds_valid(feeds@) && !all_healthy(health@) ==> (r matches Err(e) && e matches
            FeedError::InvalidFeedError(name) && name@ == feeds@[first_unhealthy(health@)]@),
{
    if !feeds_are_valid(feeds) {
        return Result::Err(FeedError::ConfigurationError);
    }
    let mut i: usize = 0;
    while i < feeds.len()
        invariant
            i <= feeds@.len(),
            health@.len() == feeds@.len(),
            feeds_valid(feeds@),
            forall|j: int| 0 <= j < i ==> health@[j],
        decreases feeds@.len() - i,
    {
        if !health[i] {
            proof {
                lemma_first_unhealthy_at(health@, i as int);
            }
            return Result::Err(FeedError::InvalidFeedError(feeds[i].clone()));
        }
        i = i + 1;
    }
    Result::Ok(())
}

} // verus!
