use notif::notif::RequestType;
use notif::router::{DataReply, RouterState};

#[test]
fn new_router_is_idle() {
    let router = RouterState::new(8);
    assert_eq!(router.forward_target(), None);
}

#[test]
fn single_active_latest_seize_wins() {
    let mut router = RouterState::new(8);
    for id in [1u32, 2, 3] {
        let drained = router.on_control(id, RequestType::Seize);
        assert_eq!(router.forward_target(), Some(id));
        assert!(drained.is_empty());
    }
    assert_eq!(router.forward_target(), Some(3));
}

#[test]
fn stale_yield_is_noop() {
    let mut router = RouterState::new(8);
    router.on_control(2, RequestType::Yield);
    assert_eq!(router.forward_target(), None);
    router.on_control(2, RequestType::Seize);
    let drained = router.on_control(1, RequestType::Yield);
    assert_eq!(router.forward_target(), Some(2));
    assert!(drained.is_empty());
}

#[test]
fn yield_from_active_goes_idle() {
    let mut router = RouterState::new(8);
    router.on_control(2, RequestType::Seize);
    router.on_control(2, RequestType::Yield);
    assert_eq!(router.forward_target(), None);
}

#[test]
fn fifo_drain_on_seize() {
    let mut router = RouterState::new(8);
    let n1 = vec![1u8];
    let n2 = vec![2u8];
    let n3 = vec![3u8];
    for payload in [n1.clone(), n2.clone(), n3.clone()] {
        let reply = router.on_data(payload, false);
        assert_eq!(reply, DataReply::Queued);
    }
    let drained = router.on_control(7, RequestType::Seize);
    assert_eq!(drained, vec![n1, n2, n3]);
    let again = router.on_control(7, RequestType::Seize);
    assert!(again.is_empty());
}

#[test]
fn drop_oldest_at_capacity() {
    let capacity = 3;
    let mut router = RouterState::new(capacity);
    for i in 0..capacity as u8 + 1 {
        router.on_data(vec![i], false);
    }
    let drained = router.on_control(1, RequestType::Seize);
    assert_eq!(drained, vec![vec![1u8], vec![2], vec![3]]);
}

#[test]
fn forward_failure_demotes_and_queues() {
    let mut router = RouterState::new(8);
    router.on_control(9, RequestType::Seize);
    assert_eq!(router.forward_target(), Some(9));
    let reply = router.on_data(vec![42u8], false);
    assert_eq!(reply, DataReply::Queued);
    assert_eq!(router.forward_target(), None);
    let drained = router.on_control(10, RequestType::Seize);
    assert_eq!(drained, vec![vec![42u8]]);
}

#[test]
fn delivered_forward_keeps_state() {
    let mut router = RouterState::new(8);
    router.on_control(5, RequestType::Seize);
    let reply = router.on_data(vec![42u8], true);
    assert_eq!(reply, DataReply::Ack);
    assert_eq!(router.forward_target(), Some(5));
    let drained = router.on_control(5, RequestType::Seize);
    assert!(drained.is_empty());
}
