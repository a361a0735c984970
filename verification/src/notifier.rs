//! The notifier's control-plane state machine.
//!
//! A notifier claims the active route with SEIZE and relinquishes it with
//! YIELD. After sending a control request it waits for the router's ACK,
//! resending the same request at a fixed interval, forever, until the ACK
//! arrives. External signal intents (seize on unlock, yield on lock) replace
//! the pending request and are sent immediately — the last intent wins. Any
//! received message other than the ACK token carries a notification, which
//! is presented after remote-origin annotation.
//!
//! The surrounding program owns the socket and the signal listener: it
//! polls (with the retry interval as timeout while an ACK is awaited,
//! indefinitely otherwise), classifies what arrived, and feeds one event in
//! per wakeup, carrying out the returned action.

use vstd::prelude::*;

use crate::notif::{annotate, annotated, Notification, RequestType};

verus! {

/// What the notifier's loop is tracking between wakeups: whether a control
/// request still awaits the router's ACK, and which request to resend on a
/// timeout.
#[derive(Debug, Clone, Copy, PartialEq, Eq, Structural)]
pub struct NotifierState {
    pub wait_for_ack: bool,
    pub replay_request: RequestType,
}

/// One wakeup of the notifier's loop, already classified: the router's
/// ACK, a forwarded notification, a poll timeout while awaiting an ACK, or
/// a signal-driven intent to seize or yield.
#[derive(Debug, Clone, PartialEq, Eq)]
pub enum NotifierEvent {
    Ack,
    Notif(Notification),
    TimedOut,
    Intent(RequestType),
}

/// What the caller must do after an event: nothing, present a notification
/// to the user, or send a control request to the router.
#[derive(Debug, Clone, PartialEq, Eq)]
pub enum NotifierAction {
    Nothing,
    Present(Notification),
    SendControl(RequestType),
}

/// What an event does to the notifier's state: an ACK ends the wait; an
/// intent becomes the pending request and starts a new wait; notifications
/// and timeouts change nothing.
pub open spec fn notifier_step(s: NotifierState, ev: NotifierEvent) -> NotifierState {
    match ev {
        NotifierEvent::Ack => NotifierState { wait_for_ack: false, ..s },
        NotifierEvent::Notif(_) => s,
        NotifierEvent::TimedOut => s,
        NotifierEvent::Intent(r) => NotifierState { wait_for_ack: true, replay_request: r },
    }
}

/// The control request a poll timeout makes the notifier resend: the
/// pending request while an ACK is awaited, nothing otherwise.
pub open spec fn timeout_resend(s: NotifierState) -> Option<RequestType> {
    if s.wait_for_ack {
        Some(s.replay_request)
    } else {
        None
    }
}

impl NotifierState {
    /// The state right after startup: the initial SEIZE has been sent (the
    /// caller puts it on the wire) and its ACK is awaited.
    pub fn new() -> (s: Self)
        ensures
            s.wait_for_ack,
            s.replay_request == RequestType::Seize,
    {
        NotifierState { wait_for_ack: true, replay_request: RequestType::Seize }
    }

    /// Reacts to one classified event: updates the wait state and returns
    /// the action the caller must carry out. `local_hostname` names the
    /// machine the notifier runs on; notifications from elsewhere are
    /// presented with their origin prefixed to the summary.
    pub fn on_event(&mut self, ev: NotifierEvent, local_hostname: &String) -> (action:
        NotifierAction)
        ensures
            *final(self) == notifier_step(*old(self), ev),
            ev is Ack ==> action is Nothing,
            (ev matches NotifierEvent::Notif(n) ==> action matches NotifierAction::Present(m)
                && m@ == annotated(n@, local_hostname@)),
            ev is TimedOut && old(self).wait_for_ack ==> action == NotifierAction::SendControl(
                old(self).replay_request,
            ),
            ev is TimedOut && !old(self).wait_for_ack ==> action is Nothing,
            (ev matches NotifierEvent::Intent(r) ==> action == NotifierAction::SendControl(r)),
    {
        match ev {
            NotifierEvent::Ack => {
                self.wait_for_ack = false;
                NotifierAction::Nothing
            },
            NotifierEvent::Notif(n) => NotifierAction::Present(annotate(n, local_hostname)),
            NotifierEvent::TimedOut => {
                if self.wait_for_ack {
                    NotifierAction::SendControl(self.replay_request)
                } else {
                    NotifierAction::Nothing
                }
            },
            NotifierEvent::Intent(r) => {
                self.wait_for_ack = true;
                self.replay_request = r;
                NotifierAction::SendControl(r)
            },
        }
    }
}

/// The state after `n` consecutive poll timeouts.
pub open spec fn apply_timeouts(s: NotifierState, n: nat) -> NotifierState
    decreases n,
{
    if n == 0 {
        s
    } else {
        apply_timeouts(notifier_step(s, NotifierEvent::TimedOut), (n - 1) as nat)
    }
}

/// Retry liveness: while an ACK is outstanding, any number of poll
/// timeouts leaves the notifier still waiting, and every single timeout
/// makes it resend the pending control request — the retry goes on
/// indefinitely until an ACK arrives.
pub proof fn lemma_retry_liveness(s: NotifierState, n: nat)
    requires
        s.wait_for_ack,
    ensures
        forall|k: nat| k <= n ==> #[trigger] apply_timeouts(s, k) == s,
        forall|k: nat|
            k <= n ==> timeout_resend(#[trigger] apply_timeouts(s, k)) == Some(s.replay_request),
    decreases n,
{
    if n > 0 {
        lemma_retry_liveness(s, (n - 1) as nat);
        assert(apply_timeouts(s, n) == apply_timeouts(notifier_step(s, NotifierEvent::TimedOut), (n
            - 1) as nat));
    }
}

} // verus!
