use sweettest_utils::signals::SignalQueue;

#[test]
fn drain_returns_arrivals_in_order_and_empties() {
    let mut queue = SignalQueue::new();
    queue.push("a");
    queue.push("b");
    queue.push("c");
    assert_eq!(queue.len(), 3);
    assert_eq!(queue.drain(), vec!["a", "b", "c"]);
    assert_eq!(queue.len(), 0);
    assert_eq!(queue.drain(), Vec::<&str>::new());
}

#[test]
fn each_drain_starts_afresh() {
    let mut queue = SignalQueue::new();
    queue.push(1);
    assert_eq!(queue.drain(), vec![1]);
    queue.push(2);
    queue.push(3);
    assert_eq!(queue.drain(), vec![2, 3]);
}

#[test]
fn successive_drains_return_every_signal_once() {
    let mut queue = SignalQueue::new();
    let mut drained = Vec::new();
    queue.push(1);
    queue.push(2);
    drained.extend(queue.drain());
    drained.extend(queue.drain());
    queue.push(3);
    drained.extend(queue.drain());
    queue.push(4);
    queue.push(5);
    drained.extend(queue.drain());
    assert_eq!(drained, vec![1, 2, 3, 4, 5]);
    assert_eq!(queue.len(), 0);
}
