//! Poller cycle logic.
//!
//! A poller runs `fetch -> deliver` cycles on a fixed period, forever.  The
//! fetch itself is network work and happens outside this crate; what is
//! modelled and verified here is the decision each cycle makes once the
//! fetch's outcome is in hand: deliver a success to the sink, absorb a
//! failure locally, and — for the channel poller — stop permanently once the
//! consumer is gone.  The driving loop hands each outcome to `cycle` and
//! sleeps the configured interval between calls, so the interval is also the
//! only retry delay after a failure.
//!
//! Failures never propagate: a cycle always returns a report for the status
//! line and leaves the sink untouched on failure.  Each poller is a separate
//! value owning its own counters and sink handle, so no cycle of one poller
//! can affect another poller's state.

use vstd::prelude::*;
use crate::cache::SharedCache;
use crate::channel::{Channel, SendOutcome};
use crate::errors::FetchError;
use crate::records::{Post, User};

verus! {

/// What one fetch produced: a whole collection, or one of the absorbed
/// failure kinds.
#[derive(Debug, PartialEq, Eq)]
pub enum FetchOutcome<T> {
    Success(T),
    Failure(FetchError),
}

/// The status report of one cycle; exactly one is produced per cycle.
#[derive(Debug, PartialEq, Eq)]
pub enum CycleReport {
    /// The fetch succeeded and its collection of `count` records reached the
    /// sink.
    Delivered { count: usize },
    /// The fetch failed; the failure was absorbed and the sink untouched.
    Failed { error: FetchError },
    /// The fetch succeeded but the channel was full; the outcome is
    /// signalled rather than the batch silently dropped.
    SendFull,
    /// The fetch succeeded but the consumer end is gone; the poller stops
    /// permanently.
    SendDisconnected,
    /// The poller had already stopped; nothing was done.
    Stopped,
}

/// A counter increment that sticks at the top of its range instead of
/// wrapping.
pub open spec fn bumped(x: u64) -> u64 {
    if x < u64::MAX {
        (x + 1) as u64
    } else {
        x
    }
}

fn bump(x: u64) -> (r: u64)
    ensures
        r == bumped(x),
{
    if x < u64::MAX {
        x + 1
    } else {
        x
    }
}

/// The effect of one cycle's outcome on the cache's replace history: a
/// success appends its whole snapshot, a failure appends nothing.
pub open spec fn apply_cache_outcome(
    h: Seq<Seq<User>>,
    o: FetchOutcome<Vec<User>>,
) -> Seq<Seq<User>> {
    match o {
        FetchOutcome::Success(snap) => h.push(snap@),
        FetchOutcome::Failure(_) => h,
    }
}

/// The cache history left behind by a whole run of cycles, oldest outcome
/// first.
pub open spec fn history_after(
    h: Seq<Seq<User>>,
    outcomes: Seq<FetchOutcome<Vec<User>>>,
) -> Seq<Seq<User>>
    decreases outcomes.len(),
{
    if outcomes.len() == 0 {
        h
    } else {
        apply_cache_outcome(history_after(h, outcomes.drop_last()), outcomes.last())
    }
}

/// The snapshots of the successful outcomes of a run, in order.
pub open spec fn success_snapshots(outcomes: Seq<FetchOutcome<Vec<User>>>) -> Seq<Seq<User>>
    decreases outcomes.len(),
{
    if outcomes.len() == 0 {
        Seq::empty()
    } else {
        match outcomes.last() {
            FetchOutcome::Success(snap) => success_snapshots(outcomes.drop_last()).push(snap@),
            FetchOutcome::Failure(_) => success_snapshots(outcomes.drop_last()),
        }
    }
}

/// The recurring worker that keeps the shared cache fresh.
pub struct CachePoller {
    interval_secs: u64,
    cycles: u64,
    errors: u64,
}

impl CachePoller {
    /// The fixed period, in seconds, between cycle starts — and the only
    /// retry delay after a failed cycle.
    pub closed spec fn interval(&self) -> u64 {
        self.interval_secs
    }

    /// How many cycles have completed.
    pub closed spec fn cycles(&self) -> u64 {
        self.cycles
    }

    /// How many cycles failed; every one was absorbed locally.
    pub closed spec fn errors(&self) -> u64 {
        self.errors
    }

    pub fn new(interval_secs: u64) -> (r: CachePoller)
        ensures
            r.interval() == interval_secs,
            r.cycles() == 0,
            r.errors() == 0,
    {
        CachePoller { interval_secs, cycles: 0, errors: 0 }
    }

    /// The configured period, for the driving loop's sleep.
    pub fn interval_secs(&self) -> (r: u64)
        ensures
            r == self.interval(),
    {
        self.interval_secs
    }

    /// The error count so far, for status reporting.
    pub fn error_count(&self) -> (r: u64)
        ensures
            r == self.errors(),
    {
        self.errors
    }

    /// One `fetch -> deliver` cycle, given the fetch's outcome.  A success
    /// atomically replaces the cache's snapshot; a failure is absorbed —
    /// counted, reported, and the cache left exactly as it was.  Either way
    /// the cycle ends normally and the next one may run after the interval.
    pub fn cycle(
        &mut self,
        cache: &mut SharedCache,
        outcome: FetchOutcome<Vec<User>>,
    ) -> (r: CycleReport)
        requires
            old(cache).wf(),
        ensures
            final(cache).wf(),
            final(self).interval() == old(self).interval(),
            final(self).cycles() == bumped(old(self).cycles()),
            final(cache).history() == apply_cache_outcome(old(cache).history(), outcome),
            match outcome {
                FetchOutcome::Success(snap) => {
                    &&& final(cache).latest() == Some(snap@)
                    &&& final(self).errors() == old(self).errors()
                    &&& r matches CycleReport::Delivered { count } && count == snap@.len()
                },
                FetchOutcome::Failure(e) => {
                    &&& final(cache).latest() == old(cache).latest()
                    &&& final(self).errors() == bumped(old(self).errors())
                    &&& r == (CycleReport::Failed { error: e })
                },
            },
    {
        self.cycles = bump(self.cycles);
        match outcome {
            FetchOutcome::Success(snap) => {
                let count = snap.len();
                cache.replace(snap);
                CycleReport::Delivered { count }
            },
            FetchOutcome::Failure(e) => {
                self.errors = bump(self.errors);
                CycleReport::Failed { error: e }
            },
        }
    }
}

/// The recurring worker that streams post batches to the channel.
pub struct ChannelPoller {
    user_id: i32,
    interval_secs: u64,
    cycles: u64,
    errors: u64,
    stopped: bool,
}

impl ChannelPoller {
    /// The owning resource whose posts this poller fetches.
    pub closed spec fn owner_id(&self) -> i32 {
        self.user_id
    }

    /// The fixed period, in seconds, between cycle starts.
    pub closed spec fn interval(&self) -> u64 {
        self.interval_secs
    }

    /// How many cycles have run (none once stopped).
    pub closed spec fn cycles(&self) -> u64 {
        self.cycles
    }

    /// How many cycles failed; every one was absorbed locally.
    pub closed spec fn errors(&self) -> u64 {
        self.errors
    }

    /// Whether the poller has stopped for good after finding the consumer
    /// gone.  Baseline policy, made explicit: once the channel reports
    /// disconnection the whole cycle stops — there is no consumer left, so
    /// neither fetching nor sending continues.
    pub closed spec fn is_stopped(&self) -> bool {
        self.stopped
    }

    pub fn new(user_id: i32, interval_secs: u64) -> (r: ChannelPoller)
        ensures
            r.owner_id() == user_id,
            r.interval() == interval_secs,
            r.cycles() == 0,
            r.errors() == 0,
            !r.is_stopped(),
    {
        ChannelPoller { user_id, interval_secs, cycles: 0, errors: 0, stopped: false }
    }

    /// The owning resource's identifier, for the driving loop's fetch.
    pub fn owner(&self) -> (r: i32)
        ensures
            r == self.owner_id(),
    {
        self.user_id
    }

    /// The configured period, for the driving loop's sleep.
    pub fn interval_secs(&self) -> (r: u64)
        ensures
            r == self.interval(),
    {
        self.interval_secs
    }

    /// Whether the driving loop should stop calling `cycle`.
    pub fn stopped(&self) -> (r: bool)
        ensures
            r == self.is_stopped(),
    {
        self.stopped
    }

    /// The error count so far, for status reporting.
    pub fn error_count(&self) -> (r: u64)
        ensures
            r == self.errors(),
    {
        self.errors
    }

    /// One `fetch -> send` cycle, given the fetch's outcome.  A successful
    /// fetch's batch is sent whole; a failed fetch is absorbed and nothing
    /// is sent.  A send onto a disconnected channel stops the poller
    /// permanently; a full channel is signalled and the poller carries on.
    /// A stopped poller does nothing and touches nothing.
    pub fn cycle(
        &mut self,
        ch: &mut Channel,
        outcome: FetchOutcome<Vec<Post>>,
    ) -> (r: CycleReport)
        requires
            old(ch).wf(),
        ensures
            final(ch).wf(),
            final(self).owner_id() == old(self).owner_id(),
            final(self).interval() == old(self).interval(),
            final(ch).cap() == old(ch).cap(),
            final(ch).is_connected() == old(ch).is_connected(),
            final(ch).received() == old(ch).received(),
            old(self).is_stopped() ==> {
                &&& r == CycleReport::Stopped
                &&& *final(self) == *old(self)
                &&& final(ch).sent() == old(ch).sent()
                &&& final(ch).pending() == old(ch).pending()
            },
            !old(self).is_stopped() ==> {
                &&& final(self).cycles() == bumped(old(self).cycles())
                &&& match outcome {
                    FetchOutcome::Failure(e) => {
                        &&& final(ch).sent() == old(ch).sent()
                        &&& final(ch).pending() == old(ch).pending()
                        &&& final(self).errors() == bumped(old(self).errors())
                        &&& !final(self).is_stopped()
                        &&& r == (CycleReport::Failed { error: e })
                    },
                    FetchOutcome::Success(batch) => {
                        &&& final(self).errors() == old(self).errors()
                        &&& if !old(ch).is_connected() {
                            &&& final(ch).sent() == old(ch).sent()
                            &&& final(ch).pending() == old(ch).pending()
                            &&& final(self).is_stopped()
                            &&& r == CycleReport::SendDisconnected
                        } else if old(ch).pending().len() == old(ch).cap() {
                            &&& final(ch).sent() == old(ch).sent()
                            &&& final(ch).pending() == old(ch).pending()
                            &&& !final(self).is_stopped()
                            &&& r == CycleReport::SendFull
                        } else {
                            &&& final(ch).sent() == old(ch).sent().push(batch@)
                            &&& final(ch).pending() == old(ch).pending().push(batch@)
                            &&& !final(self).is_stopped()
                            &&& r matches CycleReport::Delivered { count } && count
                                == batch@.len()
                        }
                    },
                }
            },
    {
        if self.stopped {
            return CycleReport::Stopped;
        }
        self.cycles = bump(self.cycles);
        match outcome {
            FetchOutcome::Success(batch) => {
                let count = batch.len();
                match ch.send(batch) {
                    SendOutcome::Delivered => CycleReport::Delivered { count },
                    SendOutcome::Full => CycleReport::SendFull,
                    SendOutcome::Disconnected => {
                        self.stopped = true;
                        CycleReport::SendDisconnected
                    },
                }
            },
            FetchOutcome::Failure(e) => {
                self.errors = bump(self.errors);
                CycleReport::Failed { error: e }
            },
        }
    }
}

/// Failure isolation: over any run of cycles, the cache history that is left
/// is the starting history followed by exactly the snapshots of the
/// successful cycles, in order — failed cycles leave no trace in it.
pub proof fn lemma_failures_leave_no_trace(
    h: Seq<Seq<User>>,
    outcomes: Seq<FetchOutcome<Vec<User>>>,
)
    ensures
        history_after(h, outcomes) == h + success_snapshots(outcomes),
    decreases outcomes.len(),
{
    if outcomes.len() == 0 {
        assert(h + success_snapshots(outcomes) =~= h);
    } else {
        lemma_failures_leave_no_trace(h, outcomes.drop_last());
        match outcomes.last() {
            FetchOutcome::Success(snap) => {
                assert(h + success_snapshots(outcomes.drop_last()).push(snap@) =~= (h
                    + success_snapshots(outcomes.drop_last())).push(snap@));
            },
            FetchOutcome::Failure(_) => {},
        }
    }
}

/// After a run with at least one successful cycle, the snapshot on top of
/// the history — the one a read observes — is exactly the last successful
/// cycle's, however many failures came before, between or after.
pub proof fn lemma_last_success_prevails(
    h: Seq<Seq<User>>,
    outcomes: Seq<FetchOutcome<Vec<User>>>,
)
    requires
        success_snapshots(outcomes).len() > 0,
    ensures
        history_after(h, outcomes).len() > 0,
        history_after(h, outcomes).last() == success_snapshots(outcomes).last(),
{
    lemma_failures_leave_no_trace(h, outcomes);
}

} // verus!
