//! The bounded FIFO handoff channel.
//!
//! A `Channel` carries batches of posts from exactly one producer to exactly
//! one consumer.  Capacity policy, made explicit here: the channel is bounded
//! and non-blocking — a send onto a full channel reports `Full` and enqueues
//! nothing, so nothing is ever dropped without the outcome being signalled.
//! (Passing `usize::MAX` as the capacity recovers an effectively unbounded
//! channel.)  Dropping the consumer end is modelled by `disconnect`: a
//! terminal condition after which every send reports `Disconnected`, while
//! the consumer may still drain what was already enqueued.
//!
//! Like the cache, the channel is a sequential object; concurrent use wraps
//! it in a lock whose critical section is one operation.  Ghost logs record
//! every batch ever delivered (`sent`) and every batch ever handed to the
//! consumer (`received`); the pending queue is exactly the gap between the
//! two, which is what makes FIFO delivery statable.

use vstd::prelude::*;
use crate::records::Post;

verus! {

/// What a `send` reported.
#[derive(Debug, PartialEq, Eq)]
pub enum SendOutcome {
    /// The batch was enqueued and will reach the consumer in order.
    Delivered,
    /// The channel already held `capacity` batches; nothing was enqueued.
    Full,
    /// The consumer end no longer exists; nothing was enqueued.
    Disconnected,
}

/// What a `try_receive` reported.
#[derive(Debug, PartialEq, Eq)]
pub enum ReceiveOutcome {
    /// The oldest pending batch, dequeued.
    Received(Vec<Post>),
    /// Nothing pending right now; the producer may still send.
    Empty,
    /// Nothing pending and the channel is disconnected: nothing will ever
    /// arrive again.
    Disconnected,
}

/// Bounded FIFO handoff of post batches from one producer to one consumer.
pub struct Channel {
    queue: Vec<Vec<Post>>,
    capacity: usize,
    connected: bool,
    received_log: Ghost<Seq<Seq<Post>>>,
}

impl Channel {
    /// The batches enqueued and not yet received, oldest first.
    pub closed spec fn pending(&self) -> Seq<Seq<Post>> {
        self.queue@.map_values(|b: Vec<Post>| b@)
    }

    /// Every batch ever handed to the consumer, in the order it was handed
    /// out.
    pub closed spec fn received(&self) -> Seq<Seq<Post>> {
        self.received_log@
    }

    /// Every batch ever successfully sent, in send order.
    pub open spec fn sent(&self) -> Seq<Seq<Post>> {
        self.received() + self.pending()
    }

    /// Whether the consumer end still exists.
    pub closed spec fn is_connected(&self) -> bool {
        self.connected
    }

    /// The bound the channel was created with.
    pub closed spec fn cap(&self) -> nat {
        self.capacity as nat
    }

    /// The pending queue never exceeds the bound.
    pub open spec fn wf(&self) -> bool {
        self.pending().len() <= self.cap()
    }

    /// Creates a connected, empty channel with the given capacity bound.
    pub fn new(capacity: usize) -> (r: Channel)
        ensures
            r.wf(),
            r.is_connected(),
            r.cap() == capacity,
            r.sent() == Seq::<Seq<Post>>::empty(),
            r.received() == Seq::<Seq<Post>>::empty(),
            r.pending() == Seq::<Seq<Post>>::empty(),
    {
        let r = Channel {
            queue: Vec::new(),
            capacity,
            connected: true,
            received_log: Ghost(Seq::empty()),
        };
        proof {
            assert(r.pending() =~= Seq::<Seq<Post>>::empty());
            assert(r.sent() =~= Seq::<Seq<Post>>::empty());
        }
        r
    }

    /// Marks the channel disconnected, as when the consumer end is dropped.
    /// Already-pending batches stay drainable; nothing else changes.
    pub fn disconnect(&mut self)
        requires
            old(self).wf(),
        ensures
            final(self).wf(),
            !final(self).is_connected(),
            final(self).cap() == old(self).cap(),
            final(self).sent() == old(self).sent(),
            final(self).received() == old(self).received(),
            final(self).pending() == old(self).pending(),
    {
        self.connected = false;
    }

    /// Attempts to enqueue one batch.  Exactly one of three things happens,
    /// and which one is fully determined by the channel's state: on a
    /// disconnected channel the send reports `Disconnected`; on a full one,
    /// `Full`; otherwise the batch is appended, whole, to the send order.
    /// In the two failure outcomes the channel is left exactly as it was.
    pub fn send(&mut self, batch: Vec<Post>) -> (r: SendOutcome)
        requires
            old(self).wf(),
        ensures
            final(self).wf(),
            final(self).cap() == old(self).cap(),
            final(self).is_connected() == old(self).is_connected(),
            final(self).received() == old(self).received(),
            match r {
                SendOutcome::Delivered => {
                    &&& old(self).is_connected()
                    &&& old(self).pending().len() < old(self).cap()
                    &&& final(self).sent() == old(self).sent().push(batch@)
                    &&& final(self).pending() == old(self).pending().push(batch@)
                },
                SendOutcome::Full => {
                    &&& old(self).is_connected()
                    &&& old(self).pending().len() == old(self).cap()
                    &&& final(self).sent() == old(self).sent()
                    &&& final(self).pending() == old(self).pending()
                },
                SendOutcome::Disconnected => {
                    &&& !old(self).is_connected()
                    &&& final(self).sent() == old(self).sent()
                    &&& final(self).pending() == old(self).pending()
                },
            },
    {
        if !self.connected {
            SendOutcome::Disconnected
        } else if self.queue.len() == self.capacity {
            SendOutcome::Full
        } else {
            self.queue.push(batch);
            proof {
                assert(self.pending() =~= old(self).pending().push(batch@));
                assert(self.sent() =~= old(self).sent().push(batch@));
            }
            SendOutcome::Delivered
        }
    }

    /// Non-blocking poll from the consumer side.  Hands out at most one
    /// batch: the oldest pending one, which is exactly the next batch of the
    /// send order that the consumer has not yet seen — FIFO delivery.
    pub fn try_receive(&mut self) -> (r: ReceiveOutcome)
        requires
            old(self).wf(),
        ensures
            final(self).wf(),
            final(self).cap() == old(self).cap(),
            final(self).is_connected() == old(self).is_connected(),
            final(self).sent() == old(self).sent(),
            match r {
                ReceiveOutcome::Received(b) => {
                    &&& old(self).pending().len() > 0
                    &&& b@ == old(self).pending()[0]
                    &&& b@ == old(self).sent()[old(self).received().len() as int]
                    &&& final(self).received() == old(self).received().push(b@)
                    &&& final(self).pending() == old(self).pending().drop_first()
                },
                ReceiveOutcome::Empty => {
                    &&& old(self).pending().len() == 0
                    &&& old(self).is_connected()
                    &&& final(self).received() == old(self).received()
                    &&& final(self).pending() == old(self).pending()
                },
                ReceiveOutcome::Disconnected => {
                    &&& old(self).pending().len() == 0
                    &&& !old(self).is_connected()
                    &&& final(self).received() == old(self).received()
                    &&& final(self).pending() == old(self).pending()
                },
            },
    {
        if self.queue.len() > 0 {
            let b = self.queue.remove(0);
            self.received_log = Ghost(self.received_log@.push(b@));
            proof {
                assert(self.pending() =~= old(self).pending().drop_first());
                assert(self.sent() =~= old(self).sent());
            }
            ReceiveOutcome::Received(b)
        } else if self.connected {
            ReceiveOutcome::Empty
        } else {
            ReceiveOutcome::Disconnected
        }
    }
}

/// FIFO delivery: at every point, what the consumer has received is exactly
/// the first part of what the producer has sent, in the same order; the
/// pending queue is exactly the rest of it.
pub proof fn lemma_fifo_order(ch: &Channel)
    ensures
        ch.received().len() <= ch.sent().len(),
        ch.received() == ch.sent().subrange(0, ch.received().len() as int),
        ch.pending() == ch.sent().subrange(
            ch.received().len() as int,
            ch.sent().len() as int,
        ),
        forall|i: int|
            0 <= i < ch.received().len() ==> ch.received()[i] == #[trigger] ch.sent()[i],
{
    assert(ch.received() =~= ch.sent().subrange(0, ch.received().len() as int));
    assert(ch.pending() =~= ch.sent().subrange(
        ch.received().len() as int,
        ch.sent().len() as int,
    ));
}

} // verus!
