//! The bounded outbound queue: the conduit through which heartbeats
//! and application commands reach the single transport writer.
//!
//! The queue never drops a frame. Offering a frame to a full queue
//! hands the frame back: the caller suspends and offers it again
//! once capacity frees, which is cooperative backpressure. The
//! outbound task drains the queue front-first, so frames leave in
//! the order they were accepted.

use vstd::prelude::*;

verus! {

/// What offering a frame to the queue yielded.
#[derive(Debug, Clone, PartialEq, Eq)]
pub enum SendOutcome {
    /// The frame was enqueued.
    Accepted,
    /// The queue was full. The frame comes back untouched: the
    /// caller must wait and offer it again, not drop it.
    MustWait(String),
}

/// Spec-level content of a [`SendOutcome`].
pub enum SendOutcomeModel {
    Accepted,
    MustWait(Seq<char>),
}

impl View for SendOutcome {
    type V = SendOutcomeModel;

    open spec fn view(&self) -> SendOutcomeModel {
        match self {
            SendOutcome::Accepted => SendOutcomeModel::Accepted,
            SendOutcome::MustWait(f) => SendOutcomeModel::MustWait(f@),
        }
    }
}

/// What one offer does to the queue's contents: a frame is appended
/// while there is room, and bounces back untouched while there is
/// none. No branch loses a frame.
pub open spec fn offer_model(items: Seq<Seq<char>>, capacity: nat, frame: Seq<char>) -> (
    Seq<Seq<char>>,
    SendOutcomeModel,
) {
    if items.len() < capacity {
        (items.push(frame), SendOutcomeModel::Accepted)
    } else {
        (items, SendOutcomeModel::MustWait(frame))
    }
}

/// What one drain step does: the front frame leaves, if any.
pub open spec fn drain_model(items: Seq<Seq<char>>) -> (Seq<Seq<char>>, Option<Seq<char>>) {
    if items.len() == 0 {
        (items, None)
    } else {
        (items.drop_first(), Some(items[0]))
    }
}

/// The shared, bounded outbound queue.
pub struct OutboundQueue {
    items: Vec<String>,
    capacity: usize,
}

impl OutboundQueue {
    /// The queued frames, front first.
    pub closed spec fn contents(self) -> Seq<Seq<char>> {
        self.items.deep_view()
    }

    /// The bound the queue was created with.
    pub closed spec fn cap(self) -> nat {
        self.capacity as nat
    }

    /// The queue's invariant: never over capacity.
    pub closed spec fn wf(self) -> bool {
        &&& 1 <= self.capacity
        &&& self.items.len() <= self.capacity
    }

    /// An empty queue with the given bound.
    pub fn new(capacity: usize) -> (r: OutboundQueue)
        requires
            1 <= capacity,
        ensures
            r.wf(),
            r.contents().len() == 0,
            r.cap() == capacity,
    {
        OutboundQueue { items: Vec::new(), capacity }
    }

    /// How many frames are queued.
    pub fn len(&self) -> (r: usize)
        ensures
            r == self.contents().len(),
    {
        self.items.len()
    }

    /// Offers a frame: exactly [`offer_model`].
    pub fn offer(&mut self, frame: String) -> (r: SendOutcome)
        requires
            old(self).wf(),
        ensures
            final(self).wf(),
            final(self).cap() == old(self).cap(),
            final(self).contents() == offer_model(
                old(self).contents(),
                old(self).cap(),
                frame@,
            ).0,
            r@ == offer_model(old(self).contents(), old(self).cap(), frame@).1,
    {
        if self.items.len() < self.capacity {
            let ghost before = self.items.deep_view();
            self.items.push(frame);
            proof {
                assert(self.items.deep_view() =~= before.push(frame@));
            }
            SendOutcome::Accepted
        } else {
            SendOutcome::MustWait(frame)
        }
    }

    /// Takes the front frame for the transport writer: exactly
    /// [`drain_model`].
    pub fn drain_front(&mut self) -> (r: Option<String>)
        requires
            old(self).wf(),
        ensures
            final(self).wf(),
            final(self).cap() == old(self).cap(),
            final(self).contents() == drain_model(old(self).contents()).0,
            match (r, drain_model(old(self).contents()).1) {
                (Some(f), Some(m)) => f@ == m,
                (None, None) => true,
                _ => false,
            },
    {
        if self.items.len() == 0 {
            None
        } else {
            let ghost before = self.items.deep_view();
            let f = self.items.remove(0);
            proof {
                assert(self.items.deep_view() =~= before.drop_first());
            }
            Some(f)
        }
    }
}

/// Backpressure without loss: offering to a full queue suspends the
/// frame rather than dropping it, and after one drain the same offer
/// is accepted, so the frame still reaches the transport in order.
pub proof fn lemma_full_queue_backpressure(
    items: Seq<Seq<char>>,
    capacity: nat,
    frame: Seq<char>,
)
    requires
        1 <= capacity,
        items.len() == capacity,
    ensures
        offer_model(items, capacity, frame).0 == items,
        offer_model(items, capacity, frame).1 == SendOutcomeModel::MustWait(frame),
        ({
            let drained = drain_model(items).0;
            offer_model(drained, capacity, frame).1 == SendOutcomeModel::Accepted
                && offer_model(drained, capacity, frame).0 == drained.push(frame)
        }),
{
}

} // verus!
