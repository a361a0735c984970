//! The routing broker's delivery protocol.
//!
//! The router owns the identity of the single currently-active notifier and
//! a bounded FIFO queue of undelivered notification payloads. Control
//! requests elect the active notifier: the most recent SEIZE always wins,
//! and a YIELD changes state only when it comes from the notifier that is
//! currently active, so stale control messages cannot disturb the live
//! election. Entering the active state drains the queue to the new notifier
//! in arrival order. A notification that cannot be delivered — because no
//! notifier is active, or because forwarding to the active one failed — is
//! queued with drop-oldest eviction and the sender is told QUEUED instead
//! of ACK.
//!
//! The surrounding program performs the socket work: it receives messages,
//! attempts the forwards this module decides on, and reports the outcome
//! back in as a plain event.

use vstd::prelude::*;

use crate::notif::RequestType;
use crate::queue::{enqueued, PendingQueue};

verus! {

/// The queue capacity a router runs with when its configuration names
/// none.
pub const DEFAULT_QUEUE_CAPACITY: usize = 1000;

/// The router's reply to a sender: ACK when the notification reached the
/// active notifier, QUEUED when it was buffered instead.
#[derive(Debug, Clone, Copy, PartialEq, Eq, Structural)]
pub enum DataReply {
    Ack,
    Queued,
}

/// The mathematical state of the router: the active notifier's routing
/// identity, if any; the queued payloads, oldest first; and the queue's
/// configured capacity.
#[verifier::ext_equal]
pub struct RouterView {
    pub current: Option<u32>,
    pub pending: Seq<Vec<u8>>,
    pub capacity: nat,
}

impl RouterView {
    /// Validity: the queue never exceeds its capacity, which is at least
    /// one.
    pub open spec fn wf(self) -> bool {
        &&& self.pending.len() <= self.capacity
        &&& self.capacity >= 1
    }
}

/// What a control request from the peer `from` does to the state: a SEIZE
/// unconditionally makes `from` the active notifier and empties the queue
/// (its contents are handed to `from`); a YIELD returns the router to idle
/// only when `from` is the active notifier.
pub open spec fn control_step(s: RouterView, from: u32, req: RequestType) -> RouterView {
    match req {
        RequestType::Seize => RouterView { current: Some(from), pending: Seq::empty(), ..s },
        RequestType::Yield => RouterView {
            current: if s.current == Some(from) {
                None
            } else {
                s.current
            },
            ..s
        },
    }
}

/// The payloads a control request hands out for forwarding: on a SEIZE,
/// everything that was queued, in arrival order; on a YIELD, nothing.
pub open spec fn control_drained(s: RouterView, req: RequestType) -> Seq<Vec<u8>> {
    if req is Seize {
        s.pending
    } else {
        Seq::empty()
    }
}

/// What an inbound notification does to the state. `delivered` says
/// whether the payload reached the active notifier: if so, nothing
/// changes; if not — the router was idle, or the forward failed on a stale
/// identity — the router is (or becomes) idle and the payload is queued
/// with drop-oldest eviction.
pub open spec fn data_step(s: RouterView, payload: Vec<u8>, delivered: bool) -> RouterView {
    if delivered {
        s
    } else {
        RouterView { current: None, pending: enqueued(s.pending, payload, s.capacity), ..s }
    }
}

/// The reply owed to the sender of a notification: ACK exactly when it was
/// delivered, QUEUED otherwise.
pub open spec fn data_reply(delivered: bool) -> DataReply {
    if delivered {
        DataReply::Ack
    } else {
        DataReply::Queued
    }
}

/// The router's in-memory state. Initialized idle with an empty queue;
/// never persisted: a restart starts fresh by design.
pub struct RouterState {
    current_notifier: Option<u32>,
    queue: PendingQueue,
}

impl View for RouterState {
    type V = RouterView;

    closed spec fn view(&self) -> RouterView {
        RouterView {
            current: self.current_notifier,
            pending: self.queue@,
            capacity: self.queue.capacity(),
        }
    }
}

impl RouterState {
    /// The state's invariant.
    pub open spec fn wf(&self) -> bool {
        self@.wf()
    }

    /// A fresh router: idle, with an empty queue bounded by `capacity`.
    pub fn new(capacity: usize) -> (s: Self)
        requires
            capacity >= 1,
        ensures
            s.wf(),
            s@.current is None,
            s@.pending == Seq::<Vec<u8>>::empty(),
            s@.capacity == capacity,
    {
        RouterState { current_notifier: None, queue: PendingQueue::new(capacity) }
    }

    /// Where an inbound notification should be forwarded: the active
    /// notifier's routing identity, or nothing while idle.
    pub fn forward_target(&self) -> (target: Option<u32>)
        ensures
            target == self@.current,
    {
        self.current_notifier
    }

    /// Applies a control request from the peer `from` and returns the
    /// payloads that must now be forwarded to it, oldest first. The caller
    /// owes `from` an ACK reply in every case.
    pub fn on_control(&mut self, from: u32, req: RequestType) -> (drained: Vec<Vec<u8>>)
        requires
            old(self).wf(),
        ensures
            final(self).wf(),
            final(self)@ == control_step(old(self)@, from, req),
            drained@ == control_drained(old(self)@, req),
    {
        match req {
            RequestType::Seize => {
                self.current_notifier = Some(from);
                let drained = self.queue.drain();
                proof {
                    assert(self@ =~= control_step(old(self)@, from, req));
                }
                drained
            },
            RequestType::Yield => {
                let from_active = match self.current_notifier {
                    Some(id) => id == from,
                    None => false,
                };
                if from_active {
                    self.current_notifier = None;
                }
                proof {
                    assert(self@ =~= control_step(old(self)@, from, req));
                }
                Vec::new()
            },
        }
    }

    /// Records the outcome of one inbound notification. `delivered` says
    /// whether the caller forwarded `payload` to the active notifier
    /// successfully; a failed forward demotes the router to idle and the
    /// payload is queued rather than lost. Returns the reply owed to the
    /// sender.
    pub fn on_data(&mut self, payload: Vec<u8>, delivered: bool) -> (reply: DataReply)
        requires
            old(self).wf(),
            delivered ==> old(self)@.current is Some,
        ensures
            final(self).wf(),
            final(self)@ == data_step(old(self)@, payload, delivered),
            reply == data_reply(delivered),
    {
        if delivered {
            DataReply::Ack
        } else {
            self.current_notifier = None;
            self.queue.enqueue(payload);
            proof {
                assert(self@ =~= data_step(old(self)@, payload, false));
            }
            DataReply::Queued
        }
    }
}

/// The state after a sequence of SEIZE requests from the identities `ids`,
/// applied oldest first.
pub open spec fn apply_seizes(s: RouterView, ids: Seq<u32>) -> RouterView
    decreases ids.len(),
{
    if ids.len() == 0 {
        s
    } else {
        apply_seizes(control_step(s, ids[0], RequestType::Seize), ids.drop_first())
    }
}

/// The state after a sequence of undelivered inbound notifications,
/// applied oldest first.
pub open spec fn apply_undelivered(s: RouterView, ps: Seq<Vec<u8>>) -> RouterView
    decreases ps.len(),
{
    if ps.len() == 0 {
        s
    } else {
        apply_undelivered(data_step(s, ps[0], false), ps.drop_first())
    }
}

/// A control request preserves validity and the configured capacity.
pub proof fn lemma_control_step_wf(s: RouterView, from: u32, req: RequestType)
    requires
        s.wf(),
    ensures
        control_step(s, from, req).wf(),
        control_step(s, from, req).capacity == s.capacity,
{
}

/// An inbound notification preserves validity and the configured capacity.
pub proof fn lemma_data_step_wf(s: RouterView, payload: Vec<u8>, delivered: bool)
    requires
        s.wf(),
    ensures
        data_step(s, payload, delivered).wf(),
        data_step(s, payload, delivered).capacity == s.capacity,
{
}

/// Single-active invariant: over any sequence of SEIZE requests, the
/// forwarding target after each request is exactly the identity that sent
/// it — only the most recent SEIZE-ing identity is ever the forwarding
/// target.
pub proof fn lemma_latest_seize_wins(s: RouterView, ids: Seq<u32>)
    requires
        ids.len() >= 1,
    ensures
        apply_seizes(s, ids).current == Some(ids.last()),
        forall|k: int|
            1 <= k <= ids.len() ==> apply_seizes(s, #[trigger] ids.take(k)).current == Some(
                ids[k - 1],
            ),
    decreases ids.len(),
{
    if ids.len() == 1 {
        assert(ids.take(1) =~= ids);
    } else {
        let s1 = control_step(s, ids[0], RequestType::Seize);
        lemma_latest_seize_wins(s1, ids.drop_first());
        assert(ids.drop_first().last() == ids.last());
        assert forall|k: int| 1 <= k <= ids.len() implies apply_seizes(
            s,
            #[trigger] ids.take(k),
        ).current == Some(ids[k - 1]) by {
            if k == 1 {
                assert(apply_seizes(s, ids.take(1)) == apply_seizes(s1, ids.take(1).drop_first()));
                assert(ids.take(1).drop_first() =~= Seq::<u32>::empty());
            } else {
                assert(ids.drop_first().take(k - 1) =~= ids.take(k).drop_first());
                assert(apply_seizes(s1, ids.drop_first().take(k - 1)).current == Some(
                    ids.drop_first()[k - 2],
                ));
            }
        }
    }
}

/// Stale-YIELD no-op: a YIELD from an identity other than the active one
/// leaves the whole state — active identity and queue — unchanged.
pub proof fn lemma_stale_yield_noop(s: RouterView, from: u32)
    requires
        s.current != Some(from),
    ensures
        control_step(s, from, RequestType::Yield) == s,
{
    assert(control_step(s, from, RequestType::Yield) =~= s);
}

/// Undelivered notifications that fit within the capacity are appended in
/// arrival order, and the router ends idle.
pub proof fn lemma_undelivered_append(s: RouterView, ps: Seq<Vec<u8>>)
    requires
        s.wf(),
        s.pending.len() + ps.len() <= s.capacity,
        ps.len() >= 1,
    ensures
        apply_undelivered(s, ps).pending == s.pending + ps,
        apply_undelivered(s, ps).current is None,
        apply_undelivered(s, ps).capacity == s.capacity,
        apply_undelivered(s, ps).wf(),
    decreases ps.len(),
{
    let s1 = data_step(s, ps[0], false);
    assert(s1.pending =~= s.pending.push(ps[0]));
    if ps.len() == 1 {
        assert(s.pending.push(ps[0]) =~= s.pending + ps);
    } else {
        lemma_undelivered_append(s1, ps.drop_first());
        assert(s.pending.push(ps[0]) + ps.drop_first() =~= s.pending + ps);
    }
}

/// FIFO drain: notifications queued while idle are handed out for
/// forwarding in that exact order by the next SEIZE, which also empties
/// the queue.
pub proof fn lemma_fifo_drain(s: RouterView, ps: Seq<Vec<u8>>, id: u32)
    requires
        s.wf(),
        s.current is None,
        s.pending == Seq::<Vec<u8>>::empty(),
        1 <= ps.len() <= s.capacity,
    ensures
        control_drained(apply_undelivered(s, ps), RequestType::Seize) == ps,
        control_step(apply_undelivered(s, ps), id, RequestType::Seize).pending == Seq::<
            Vec<u8>,
        >::empty(),
        control_step(apply_undelivered(s, ps), id, RequestType::Seize).current == Some(id),
{
    lemma_undelivered_append(s, ps);
    assert(s.pending + ps =~= ps);
}

/// Bounded queue / drop-oldest: with capacity `k`, queueing `k + 1`
/// notifications while idle retains exactly the last `k`, the oldest
/// having been evicted first.
pub proof fn lemma_drop_oldest(s: RouterView, ps: Seq<Vec<u8>>)
    requires
        s.wf(),
        s.pending == Seq::<Vec<u8>>::empty(),
        ps.len() == s.capacity + 1,
    ensures
        apply_undelivered(s, ps).pending == ps.drop_first(),
        apply_undelivered(s, ps).pending.len() == s.capacity,
{
    let front = ps.drop_last();
    lemma_apply_undelivered_snoc(s, ps);
    lemma_undelivered_append(s, front);
    let s1 = apply_undelivered(s, front);
    assert(s1.pending =~= front);
    let s2 = data_step(s1, ps.last(), false);
    assert(s2.pending =~= front.drop_first().push(ps.last()));
    assert(front.drop_first().push(ps.last()) =~= ps.drop_first());
}

/// Applying a nonempty batch of undelivered notifications is applying all
/// but the last, then the last.
proof fn lemma_apply_undelivered_snoc(s: RouterView, ps: Seq<Vec<u8>>)
    requires
        ps.len() >= 1,
    ensures
        apply_undelivered(s, ps) == data_step(apply_undelivered(s, ps.drop_last()), ps.last(), false),
    decreases ps.len(),
{
    if ps.len() == 1 {
        assert(ps.drop_last() =~= Seq::<Vec<u8>>::empty());
    } else {
        let s1 = data_step(s, ps[0], false);
        lemma_apply_undelivered_snoc(s1, ps.drop_first());
        assert(ps.drop_first().drop_last() =~= ps.drop_last().drop_first());
        assert(ps.drop_first().last() == ps.last());
    }
}

/// Forward-failure demotion: after a successful SEIZE by `x`, a forward
/// to `x` that fails leaves the router idle with the notification queued,
/// not lost.
pub proof fn lemma_forward_failure_demotes(s: RouterView, x: u32, payload: Vec<u8>)
    requires
        s.wf(),
    ensures
        ({
            let seized = control_step(s, x, RequestType::Seize);
            let failed = data_step(seized, payload, false);
            failed.current is None && failed.pending == seq![payload]
        }),
{
    let seized = control_step(s, x, RequestType::Seize);
    let failed = data_step(seized, payload, false);
    assert(failed.pending =~= seq![payload]);
}

} // verus!
