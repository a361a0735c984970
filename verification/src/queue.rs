//! The router's bounded FIFO queue of undelivered notification payloads.
//!
//! While no notifier is active, inbound notifications wait here in arrival
//! order. The queue never grows past its configured capacity: inserting
//! into a full queue first evicts the single oldest entry (drop-oldest
//! backpressure), so new notifications are never rejected.

use std::collections::VecDeque;

use vstd::prelude::*;

verus! {

/// What enqueuing `x` does to a queue holding `q` under capacity `cap`:
/// the oldest entry is evicted first when the queue is full, then `x` is
/// appended.
pub open spec fn enqueued(q: Seq<Vec<u8>>, x: Vec<u8>, cap: nat) -> Seq<Vec<u8>> {
    if q.len() >= cap {
        q.drop_first().push(x)
    } else {
        q.push(x)
    }
}

/// A bounded FIFO queue of serialized notification payloads with
/// drop-oldest eviction. Insertion order is delivery order.
pub struct PendingQueue {
    items: VecDeque<Vec<u8>>,
    capacity: usize,
}

impl View for PendingQueue {
    type V = Seq<Vec<u8>>;

    closed spec fn view(&self) -> Seq<Vec<u8>> {
        self.items@
    }
}

impl PendingQueue {
    /// The configured bound on how many payloads may wait at once.
    pub closed spec fn capacity(&self) -> nat {
        self.capacity as nat
    }

    /// The queue's invariant: it never holds more than `capacity`
    /// payloads, and the capacity is at least one.
    pub open spec fn wf(&self) -> bool {
        &&& self@.len() <= self.capacity()
        &&& self.capacity() >= 1
    }

    /// Creates an empty queue bounded by `capacity`.
    pub fn new(capacity: usize) -> (q: Self)
        requires
            capacity >= 1,
        ensures
            q.wf(),
            q@ == Seq::<Vec<u8>>::empty(),
            q.capacity() == capacity,
    {
        PendingQueue { items: VecDeque::new(), capacity }
    }

    /// How many payloads are waiting.
    pub fn len(&self) -> (n: usize)
        ensures
            n == self@.len(),
    {
        self.items.len()
    }

    /// Appends `payload`, evicting the oldest waiting payload first if the
    /// queue is already at capacity.
    pub fn enqueue(&mut self, payload: Vec<u8>)
        requires
            old(self).wf(),
        ensures
            final(self).wf(),
            final(self).capacity() == old(self).capacity(),
            final(self)@ == enqueued(old(self)@, payload, old(self).capacity()),
    {
        let ghost q0 = self@;
        if self.items.len() == self.capacity {
            let _evicted = self.items.pop_front();
            proof {
                assert(self@ =~= q0.drop_first());
            }
        }
        self.items.push_back(payload);
        proof {
            assert(self@ =~= enqueued(q0, payload, old(self).capacity()));
        }
    }

    /// Removes and returns every waiting payload, oldest first; the queue
    /// is empty afterwards.
    pub fn drain(&mut self) -> (drained: Vec<Vec<u8>>)
        requires
            old(self).wf(),
        ensures
            final(self).wf(),
            final(self).capacity() == old(self).capacity(),
            final(self)@ == Seq::<Vec<u8>>::empty(),
            drained@ == old(self)@,
    {
        let mut drained: Vec<Vec<u8>> = Vec::new();
        while self.len() > 0
            invariant
                self.wf(),
                self.capacity() == old(self).capacity(),
                drained@ + self@ =~= old(self)@,
            decreases self@.len(),
        {
            let ghost q0 = self@;
            let payload = self.items.pop_front().unwrap();
            proof {
                assert(self@ =~= q0.drop_first());
            }
            drained.push(payload);
        }
        proof {
            assert(drained@ =~= old(self)@);
            assert(self@ =~= Seq::<Vec<u8>>::empty());
        }
        drained
    }
}

} // verus!
