use notif::queue::PendingQueue;

#[test]
fn enqueue_below_capacity_keeps_order() {
    let mut q = PendingQueue::new(4);
    q.enqueue(vec![1u8]);
    q.enqueue(vec![2u8]);
    q.enqueue(vec![3u8]);
    assert_eq!(q.len(), 3);
    assert_eq!(q.drain(), vec![vec![1u8], vec![2], vec![3]]);
}

#[test]
fn enqueue_at_capacity_evicts_oldest() {
    let mut q = PendingQueue::new(2);
    q.enqueue(vec![1u8]);
    q.enqueue(vec![2u8]);
    q.enqueue(vec![3u8]);
    assert_eq!(q.len(), 2);
    assert_eq!(q.drain(), vec![vec![2u8], vec![3]]);
}

#[test]
fn capacity_one_keeps_only_newest() {
    let mut q = PendingQueue::new(1);
    q.enqueue(vec![1u8]);
    q.enqueue(vec![2u8]);
    assert_eq!(q.drain(), vec![vec![2u8]]);
}

#[test]
fn drain_leaves_queue_empty() {
    let mut q = PendingQueue::new(2);
    q.enqueue(vec![1u8]);
    let first = q.drain();
    assert_eq!(first.len(), 1);
    assert_eq!(q.len(), 0);
    assert!(q.drain().is_empty());
}
