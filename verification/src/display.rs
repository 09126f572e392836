//! The display cycle: the merged feed is iterated forever, one item per
//! step, wrapping back to the first item after the last.
//!
//! Each step yields what the surrounding loop acts on: the link text that
//! overwrites the sink's whole contents, and the human-readable log line
//! for that item. The pause between steps and the writes themselves are
//! outside work; the cycle only carries the interval along. An empty feed
//! is a configuration error that must be caught before this loop starts,
//! so a cycle is never built over one.

use vstd::prelude::*;
use vstd::string::*;
use crate::feed::{ChildrenData, FeedError, PostView};

verus! {

/// The character sequence of the link written to the sink for an item.
pub open spec fn link_view(p: PostView) -> Seq<char> {
    "https://reddit.com"@ + p.permalink
}

/// The character sequence of the log line emitted for an item.
pub open spec fn log_line_view(p: PostView) -> Seq<char> {
    "["@ + p.subreddit + "]"@ + p.title
}

/// What one cycle step asks the surrounding loop to do: overwrite the sink
/// with `link`, emit `log_line`, then pause for the cycle's interval.
pub struct DisplayStep {
    pub link: String,
    pub log_line: String,
}

/// The cycle's state: the merged feed, the position of the item shown
/// next, and the pause between steps in milliseconds.
pub struct DisplayCycle {
    pub items: Vec<ChildrenData>,
    pub pos: usize,
    pub interval_ms: u64,
}

impl DisplayCycle {
    /// A cycle is well-formed while it has items and its position is on
    /// one of them.
    pub open spec fn wf(&self) -> bool {
        &&& self.items@.len() > 0
        &&& self.pos < self.items@.len()
    }

    /// Starts a cycle over a non-empty merged feed, at its first item.
    pub fn new(items: Vec<ChildrenData>, interval_ms: u64) -> (c: DisplayCycle)
        requires
            items@.len() > 0,
        ensures
            c.items@ == items@,
            c.pos == 0,
            c.interval_ms == interval_ms,
            c.wf(),
    {
        DisplayCycle { items, pos: 0, interval_ms }
    }

    /// Produces the link and log line for the current item and moves to
    /// the next one, wrapping to the first after the last. The feed and
    /// the interval never change.
    pub fn step(&mut self) -> (out: DisplayStep)
        requires
            old(self).wf(),
        ensures
            final(self).wf(),
            final(self).items@ == old(self).items@,
            final(self).interval_ms == old(self).interval_ms,
            out.link@ == link_view(old(self).items@[old(self).pos as int]@),
            out.log_line@ == log_line_view(old(self).items@[old(self).pos as int]@),
            final(self).pos == (old(self).pos + 1) % (old(self).items@.len() as int),
    {
        let n = self.items.len();
        let item = &self.items[self.pos];
        let mut link = String::from_str("https://reddit.com");
        link.append(item.data.permalink.as_str());
        let mut log_line = String::from_str("[");
        log_line.append(item.data.subreddit.as_str());
        log_line.append("]");
        log_line.append(item.data.title.as_str());
        if self.pos + 1 == n {
            proof {
                vstd::arithmetic::div_mod::lemma_mod_self_0(n as int);
            }
            self.pos = 0;
        } else {
            proof {
                vstd::arithmetic::div_mod::lemma_small_mod((self.pos + 1) as nat, n as nat);
            }
            self.pos = self.pos + 1;
        }
        DisplayStep { link, log_line }
    }
}

/// The cycle's position after a number of steps, by iterating the one-step
/// rule of `step`: each step advances one place, modulo the item count.
pub open spec fn pos_after(start: int, steps: nat, n: int) -> int
    decreases steps,
{
    if steps == 0 {
        start
    } else {
        (pos_after(start, (steps - 1) as nat, n) + 1) % n
    }
}

/// The cycle's schedule in closed form: starting at `start` over `n` items,
/// after `steps` steps the cycle stands at `(start + steps) % n`. The items
/// are shown strictly in order, wrap to the first after the last, and every
/// item recurs every `n` steps.
pub proof fn lemma_cycle_schedule(start: int, steps: nat, n: int)
    requires
        0 <= start < n,
    ensures
        pos_after(start, steps, n) == (start + steps) % n,
    decreases steps,
{
    if steps == 0 {
        vstd::arithmetic::div_mod::lemma_small_mod(start as nat, n as nat);
    } else {
        lemma_cycle_schedule(start, (steps - 1) as nat, n);
        vstd::arithmetic::div_mod::lemma_add_mod_noop_right(1, start + steps - 1, n);
    }
}

/// The verdict on one sink write: a failed write is a `SinkWriteError`,
/// fatal for the whole run — there is no retry of a write.
pub fn classify_sink_write(succeeded: bool) -> (r: Result<(), FeedError>)
    ensures
        succeeded ==> (r matches Ok(u) && u == ()),
        !succeeded ==> (r matches Err(e) && e == FeedError::SinkWriteError),
{
    if succeeded {
        Result::Ok(())
    } else {
        Result::Err(FeedError::SinkWriteError)
    }
}

} // verus!
