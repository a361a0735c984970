//! The wire tokens of the routing protocol.
//!
//! Control requests and replies are short literal strings agreed by
//! convention; they must be preserved bit-for-bit for interoperability.
//! This module pins each token down and classifies inbound payloads.

use vstd::prelude::*;

use crate::notif::RequestType;
use crate::router::DataReply;

verus! {

/// The token by which a notifier claims the active route.
pub open spec fn seize_token() -> Seq<char> {
    "SEIZE"@
}

/// The token by which a notifier relinquishes the active route.
pub open spec fn yield_token() -> Seq<char> {
    "YIELD"@
}

/// The token by which the router accepts a control request or confirms
/// delivery of a notification.
pub open spec fn ack_token() -> Seq<char> {
    "ACK"@
}

/// The token by which the router tells a sender that its notification was
/// buffered because no notifier is active.
pub open spec fn queued_token() -> Seq<char> {
    "QUEUED"@
}

/// Builds the acknowledgment token the router sends in reply to every
/// control request.
pub fn ack_reply() -> (r: String)
    ensures
        r@ == ack_token(),
{
    "ACK".to_owned()
}

/// Builds the reply a router sends to a sender whose notification was
/// buffered.
pub fn queued_reply() -> (r: String)
    ensures
        r@ == queued_token(),
{
    "QUEUED".to_owned()
}

/// Builds the control request token a notifier sends for `req`.
pub fn control_request_payload(req: RequestType) -> (r: String)
    ensures
        req is Seize ==> r@ == seize_token(),
        req is Yield ==> r@ == yield_token(),
{
    match req {
        RequestType::Seize => "SEIZE".to_owned(),
        RequestType::Yield => "YIELD".to_owned(),
    }
}

/// Builds the reply token the router owes a sender: ACK for a delivered
/// notification, QUEUED for a buffered one.
pub fn data_reply_payload(reply: DataReply) -> (r: String)
    ensures
        reply is Ack ==> r@ == ack_token(),
        reply is Queued ==> r@ == queued_token(),
{
    match reply {
        DataReply::Ack => "ACK".to_owned(),
        DataReply::Queued => "QUEUED".to_owned(),
    }
}

/// Classifies an inbound control payload. Only the literal SEIZE token
/// claims the route; any other payload is treated as a YIELD, the
/// permissive default.
pub fn classify_control(payload: &String) -> (r: RequestType)
    ensures
        r is Seize <==> payload@ == seize_token(),
{
    let seize: String = "SEIZE".to_owned();
    if payload.eq(&seize) {
        RequestType::Seize
    } else {
        RequestType::Yield
    }
}

/// Recognizes the router's acknowledgment among the messages a notifier
/// receives; every other message carries a notification payload.
pub fn is_ack(payload: &String) -> (r: bool)
    ensures
        r <==> payload@ == ack_token(),
{
    let ack: String = "ACK".to_owned();
    payload.eq(&ack)
}

} // verus!
