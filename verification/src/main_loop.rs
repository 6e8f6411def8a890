//! The coordinating loop's per-iteration logic.
//!
//! The main loop owns no long-running work of its own: each iteration it
//! drains at most one batch from the channel without waiting, every
//! `inspect_every`-th iteration it takes a best-effort look at the shared
//! cache, and then it sleeps a fixed tick.  The sleep and the surrounding
//! `loop` live outside this crate; `step` is the whole of one iteration's
//! decisions and is what is verified.
//!
//! A disconnected channel does not end the loop: it is noted exactly once,
//! after which the loop stops polling the channel but keeps inspecting the
//! cache — the two are independent data sources.

use vstd::prelude::*;
use vstd::string::StrSliceExecFns;
use crate::cache::SharedCache;
use crate::channel::{Channel, ReceiveOutcome};
use crate::records::Post;

verus! {

/// Index `i` picks a post of `batch` with the longest body; among equally
/// long bodies, the last one.
pub open spec fn is_longest_post(batch: Seq<Post>, i: int) -> bool {
    &&& 0 <= i < batch.len()
    &&& forall|j: int| 0 <= j < batch.len() ==> batch[j].body@.len() <= batch[i].body@.len()
    &&& forall|j: int| i < j < batch.len() ==> batch[j].body@.len() < batch[i].body@.len()
}

/// The summary statistic derived from a received batch: the index of the
/// post with the longest body (the last such post on a tie), or `None` for
/// an empty batch.
pub fn longest_post_index(batch: &Vec<Post>) -> (r: Option<usize>)
    ensures
        match r {
            Some(i) => is_longest_post(batch@, i as int),
            None => batch@.len() == 0,
        },
{
    if batch.len() == 0 {
        return None;
    }
    let mut best: usize = 0;
    let mut idx: usize = 1;
    while idx < batch.len()
        invariant
            1 <= idx <= batch@.len(),
            0 <= best < idx,
            forall|j: int|
                0 <= j < idx ==> batch@[j].body@.len() <= batch@[best as int].body@.len(),
            forall|j: int|
                best < j < idx ==> batch@[j].body@.len() < batch@[best as int].body@.len(),
        decreases batch@.len() - idx,
    {
        if batch[idx].body.as_str().unicode_len() >= batch[best].body.as_str().unicode_len() {
            best = idx;
        }
        idx = idx + 1;
    }
    Some(best)
}

/// What a periodic cache inspection saw.  This is best-effort reporting, not
/// a consistency checkpoint: it pins down the count and a sample field of
/// the snapshot read, and distinguishes "no data yet" from an empty
/// snapshot.
#[derive(Debug, PartialEq, Eq)]
pub enum CacheSummary {
    /// No replace has happened yet.
    NoData,
    /// The current snapshot's size, and the first record's name if there is
    /// one.
    Data { user_count: usize, first_name: Option<String> },
}

/// Reads the cache once and derives its summary.
pub fn inspect_cache(cache: &SharedCache) -> (r: CacheSummary)
    ensures
        match cache.latest() {
            None => r == CacheSummary::NoData,
            Some(us) => {
                &&& r matches CacheSummary::Data { user_count, first_name }
                &&& user_count == us.len()
                &&& us.len() == 0 ==> first_name is None
                &&& us.len() > 0 ==> (first_name matches Some(n) && n@ == us[0].name@)
            },
        },
{
    match cache.read() {
        None => CacheSummary::NoData,
        Some(users) => {
            let user_count = users.len();
            let first_name = if users.len() > 0 {
                Some(users[0].name.clone())
            } else {
                None
            };
            CacheSummary::Data { user_count, first_name }
        },
    }
}

/// Everything one iteration decided, for the caller to act on: print, stop
/// polling the channel once `disconnect_noted`, and run one cache
/// inspection when `inspect_due` — under the cache's own lock, never nested
/// with the channel's.
#[derive(Debug)]
pub struct StepReport {
    /// The batch drained this iteration, if one was pending.
    pub batch: Option<Vec<Post>>,
    /// The index of the longest-body post within `batch`, if `batch` is a
    /// non-empty batch.
    pub longest: Option<usize>,
    /// True exactly on the iteration that first finds the channel
    /// disconnected and drained — the condition is logged once.
    pub disconnect_noted: bool,
    /// True exactly on inspection iterations: the caller follows up with one
    /// `inspect_cache`.
    pub inspect_due: bool,
}

/// The coordinating loop's state: an iteration counter, the inspection
/// period, and whether the channel is still worth polling.
pub struct MainLoop {
    counter: u64,
    every: u64,
    channel_active: bool,
}

impl MainLoop {
    /// Completed iterations, wrapping at the top of `u64`.
    pub closed spec fn counter(&self) -> u64 {
        self.counter
    }

    /// The fixed inspection period: every `inspect_every`-th iteration reads
    /// the cache.
    pub closed spec fn inspect_every(&self) -> u64 {
        self.every
    }

    /// False once a disconnect has been noted; the loop then leaves the
    /// channel alone but keeps running.
    pub closed spec fn channel_active(&self) -> bool {
        self.channel_active
    }

    /// The inspection period is never zero.
    pub open spec fn wf(&self) -> bool {
        self.inspect_every() > 0
    }

    pub fn new(inspect_every: u64) -> (r: MainLoop)
        requires
            inspect_every > 0,
        ensures
            r.wf(),
            r.counter() == 0,
            r.inspect_every() == inspect_every,
            r.channel_active(),
    {
        MainLoop { counter: 0, every: inspect_every, channel_active: true }
    }

    /// One iteration: drain at most one batch (never waiting), note a
    /// disconnect exactly once, say whether this is an inspection iteration,
    /// and advance the counter.  The iteration never fails and never
    /// terminates the loop.
    pub fn step(&mut self, ch: &mut Channel) -> (r: StepReport)
        requires
            old(self).wf(),
            old(ch).wf(),
        ensures
            final(self).wf(),
            final(ch).wf(),
            final(self).inspect_every() == old(self).inspect_every(),
            final(self).counter() == if old(self).counter() == u64::MAX {
                0u64
            } else {
                (old(self).counter() + 1) as u64
            },
            final(ch).cap() == old(ch).cap(),
            final(ch).is_connected() == old(ch).is_connected(),
            final(ch).sent() == old(ch).sent(),
            // The channel is polled only while active, and at most one batch —
            // the oldest pending one — is drained.
            final(ch).received() == if old(self).channel_active() && old(ch).pending().len()
                > 0 {
                old(ch).received().push(old(ch).pending()[0])
            } else {
                old(ch).received()
            },
            final(ch).pending() == if old(self).channel_active() && old(ch).pending().len()
                > 0 {
                old(ch).pending().drop_first()
            } else {
                old(ch).pending()
            },
            old(self).channel_active() && old(ch).pending().len() > 0 ==> {
                &&& r.batch matches Some(b)
                &&& b@ == old(ch).pending()[0]
                &&& match r.longest {
                    Some(i) => is_longest_post(b@, i as int),
                    None => b@.len() == 0,
                }
            },
            !(old(self).channel_active() && old(ch).pending().len() > 0) ==> r.batch is None
                && r.longest is None,
            // A disconnect is noted on exactly the first iteration that finds
            // the channel drained and disconnected, and polling stops then.
            r.disconnect_noted == (old(self).channel_active() && old(ch).pending().len() == 0
                && !old(ch).is_connected()),
            final(self).channel_active() == (old(self).channel_active() && !r.disconnect_noted),
            // The cache is inspected exactly every `inspect_every`-th
            // iteration.
            r.inspect_due == (old(self).counter() % old(self).inspect_every() == 0),
    {
        let mut batch: Option<Vec<Post>> = None;
        let mut longest: Option<usize> = None;
        let mut disconnect_noted = false;
        if self.channel_active {
            match ch.try_receive() {
                ReceiveOutcome::Received(b) => {
                    longest = longest_post_index(&b);
                    batch = Some(b);
                },
                ReceiveOutcome::Empty => {},
                ReceiveOutcome::Disconnected => {
                    disconnect_noted = true;
                    self.channel_active = false;
                },
            }
        }
        let inspect_due = self.counter % self.every == 0;
        self.counter = if self.counter == u64::MAX {
            0
        } else {
            self.counter + 1
        };
        StepReport { batch, longest, disconnect_noted, inspect_due }
    }
}

} // verus!
