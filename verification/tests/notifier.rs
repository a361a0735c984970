use notif::notif::{Notification, RequestType};
use notif::notifier::{NotifierAction, NotifierEvent, NotifierState};

fn sample(hostname: &str) -> Notification {
    Notification::new(
        hostname.to_string(),
        "hi".to_string(),
        "body".to_string(),
        "normal".to_string(),
    )
}

#[test]
fn starts_awaiting_ack_for_seize() {
    let s = NotifierState::new();
    assert!(s.wait_for_ack);
    assert_eq!(s.replay_request, RequestType::Seize);
}

#[test]
fn timeout_resends_pending_request_until_ack() {
    let local = "here".to_string();
    let mut s = NotifierState::new();
    for _ in 0..3 {
        let action = s.on_event(NotifierEvent::TimedOut, &local);
        assert_eq!(action, NotifierAction::SendControl(RequestType::Seize));
        assert!(s.wait_for_ack);
    }
    let action = s.on_event(NotifierEvent::Ack, &local);
    assert_eq!(action, NotifierAction::Nothing);
    assert!(!s.wait_for_ack);
    let action = s.on_event(NotifierEvent::TimedOut, &local);
    assert_eq!(action, NotifierAction::Nothing);
}

#[test]
fn intent_supersedes_pending_request() {
    let local = "here".to_string();
    let mut s = NotifierState::new();
    let action = s.on_event(NotifierEvent::Intent(RequestType::Yield), &local);
    assert_eq!(action, NotifierAction::SendControl(RequestType::Yield));
    assert!(s.wait_for_ack);
    let action = s.on_event(NotifierEvent::TimedOut, &local);
    assert_eq!(action, NotifierAction::SendControl(RequestType::Yield));
}

#[test]
fn remote_notification_gets_origin_prefix() {
    let local = "here".to_string();
    let mut s = NotifierState::new();
    let action = s.on_event(NotifierEvent::Notif(sample("other")), &local);
    match action {
        NotifierAction::Present(n) => {
            assert_eq!(n.summary, "@other: hi");
            assert_eq!(n.hostname, "other");
            assert_eq!(n.body, "body");
            assert_eq!(n.urgency, "normal");
        }
        other => panic!("expected a presentation, got {:?}", other),
    }
}

#[test]
fn local_notification_presented_unmodified() {
    let local = "here".to_string();
    let mut s = NotifierState::new();
    let action = s.on_event(NotifierEvent::Notif(sample("here")), &local);
    assert_eq!(action, NotifierAction::Present(sample("here")));
}

#[test]
fn notification_does_not_disturb_wait_state() {
    let local = "here".to_string();
    let mut s = NotifierState::new();
    s.on_event(NotifierEvent::Notif(sample("here")), &local);
    assert!(s.wait_for_ack);
    assert_eq!(s.replay_request, RequestType::Seize);
}
