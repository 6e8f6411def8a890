//! The shared snapshot cache.
//!
//! A `SharedCache` holds the latest snapshot of one resource: exactly one
//! current value, replaced in whole by each successful poll cycle, never
//! partially.  The cache itself is a sequential object; concurrent use wraps
//! it in a mutual-exclusion lock whose critical section is exactly one
//! `replace` or one `read`, so every observation made through these two
//! operations is an observation of the sequential object modelled here.
//!
//! The model keeps a ghost history of every snapshot ever stored.  The
//! well-formedness invariant ties the current value to the last entry of that
//! history, which is what makes atomicity and recency statable: a read can
//! only ever see the complete output of one past `replace`.

use vstd::prelude::*;
use crate::records::User;

verus! {

/// Single-writer, multi-reader store of the latest snapshot of users.
pub struct SharedCache {
    current: Option<Vec<User>>,
    log: Ghost<Seq<Seq<User>>>,
}

impl SharedCache {
    /// Every snapshot ever stored, in `replace` order.
    pub closed spec fn history(&self) -> Seq<Seq<User>> {
        self.log@
    }

    /// The snapshot a read observes now; `None` until the first `replace`.
    pub closed spec fn latest(&self) -> Option<Seq<User>> {
        match self.current {
            Some(v) => Some(v@),
            None => None,
        }
    }

    /// The cache is empty exactly until the first `replace`, and otherwise
    /// holds, whole, the snapshot stored by the most recent `replace`.
    pub closed spec fn wf(&self) -> bool {
        &&& self.current is None <==> self.log@.len() == 0
        &&& self.current matches Some(v) ==> v@ == self.log@.last()
    }

    /// Creates an empty cache: no data yet, distinguishable from any stored
    /// snapshot (even an empty one).
    pub fn new() -> (r: SharedCache)
        ensures
            r.wf(),
            r.history() == Seq::<Seq<User>>::empty(),
            r.latest() is None,
    {
        SharedCache { current: None, log: Ghost(Seq::empty()) }
    }

    /// Atomically swaps in a new snapshot.  The snapshot becomes the one
    /// observed by every subsequent read, and the replace history grows by
    /// exactly this snapshot.
    pub fn replace(&mut self, snapshot: Vec<User>)
        requires
            old(self).wf(),
        ensures
            final(self).wf(),
            final(self).history() == old(self).history().push(snapshot@),
            final(self).latest() == Some(snapshot@),
    {
        self.log = Ghost(self.log@.push(snapshot@));
        self.current = Some(snapshot);
    }

    /// Returns the current snapshot, whole, or `None` if no replace has
    /// happened yet.
    pub fn read(&self) -> (r: Option<&Vec<User>>)
        ensures
            match r {
                Some(v) => self.latest() == Some(v@),
                None => self.latest() is None,
            },
    {
        self.current.as_ref()
    }
}

/// Atomicity: whatever a read observes is the complete output of some single
/// past `replace` — never a mixture of two.
pub proof fn lemma_read_is_one_replace(c: &SharedCache)
    requires
        c.wf(),
        c.latest() is Some,
    ensures
        exists|k: int|
            0 <= k < c.history().len() && c.latest() == Some(#[trigger] c.history()[k]),
{
    assert(c.latest() == Some(c.history()[c.history().len() - 1]));
}

/// Recency: after the `k`-th `replace` and no later one, a read observes
/// exactly the `k`-th snapshot.
pub proof fn lemma_read_is_most_recent(c: &SharedCache, k: int)
    requires
        c.wf(),
        c.history().len() == k,
        k > 0,
    ensures
        c.latest() == Some(c.history()[k - 1]),
{
}

} // verus!
