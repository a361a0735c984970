use notif::notif::RequestType;
use notif::router::DataReply;
use notif::sender::{on_send_reply, SendOutcome};
use notif::tokens::{
    ack_reply, classify_control, control_request_payload, data_reply_payload, is_ack, queued_reply,
};

#[test]
fn wire_tokens_are_exact() {
    assert_eq!(ack_reply(), "ACK");
    assert_eq!(queued_reply(), "QUEUED");
    assert_eq!(control_request_payload(RequestType::Seize), "SEIZE");
    assert_eq!(control_request_payload(RequestType::Yield), "YIELD");
    assert_eq!(data_reply_payload(DataReply::Ack), "ACK");
    assert_eq!(data_reply_payload(DataReply::Queued), "QUEUED");
}

#[test]
fn seize_token_claims_route() {
    assert_eq!(classify_control(&"SEIZE".to_string()), RequestType::Seize);
}

#[test]
fn yield_token_is_yield() {
    assert_eq!(classify_control(&"YIELD".to_string()), RequestType::Yield);
}

#[test]
fn unknown_control_treated_as_yield() {
    assert_eq!(classify_control(&"seize".to_string()), RequestType::Yield);
    assert_eq!(classify_control(&"".to_string()), RequestType::Yield);
    assert_eq!(classify_control(&"SEIZED".to_string()), RequestType::Yield);
}

#[test]
fn ack_recognition_is_exact() {
    assert!(is_ack(&"ACK".to_string()));
    assert!(!is_ack(&"ack".to_string()));
    assert!(!is_ack(&"QUEUED".to_string()));
    assert!(!is_ack(&"".to_string()));
}

#[test]
fn sender_timeout_falls_back_to_local_presentation() {
    assert_eq!(on_send_reply(None), SendOutcome::PresentLocally);
}

#[test]
fn sender_ack_is_delivered() {
    assert_eq!(on_send_reply(Some("ACK".to_string())), SendOutcome::Delivered);
}

#[test]
fn sender_other_reply_falls_back() {
    assert_eq!(
        on_send_reply(Some("QUEUED".to_string())),
        SendOutcome::PresentLocally
    );
}
