//! The sender's one-attempt delivery decision.
//!
//! A sender submits its notification once and waits a bounded time for the
//! router's reply. It never retries: when the literal acknowledgment token
//! comes back the notification is delivered and the sender succeeds; on any
//! other reply, or on a timeout, the sender presents the notification
//! locally — a user-authored notification is never silently dropped — and
//! reports an error to its caller.

use vstd::prelude::*;

use crate::tokens::{ack_token, is_ack};

verus! {

/// The sender's follow-up after its single delivery attempt: done, or
/// present the notification locally exactly once and report an error.
#[derive(Debug, Clone, Copy, PartialEq, Eq, Structural)]
pub enum SendOutcome {
    Delivered,
    PresentLocally,
}

/// When a delivery attempt counts as successful: some reply arrived and it
/// is the literal acknowledgment token.
pub open spec fn send_succeeded(reply: Option<String>) -> bool {
    reply matches Some(r) && r@ == ack_token()
}

/// Decides the sender's follow-up. `reply` is the router's reply, or
/// nothing when the wait timed out. Exactly the acknowledgment token means
/// delivered; everything else directs the caller to one local presentation
/// and an error return.
pub fn on_send_reply(reply: Option<String>) -> (outcome: SendOutcome)
    ensures
        outcome is Delivered <==> send_succeeded(reply),
{
    match reply {
        Some(r) => {
            if is_ack(&r) {
                SendOutcome::Delivered
            } else {
                SendOutcome::PresentLocally
            }
        },
        None => SendOutcome::PresentLocally,
    }
}

} // verus!
