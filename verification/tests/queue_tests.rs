use fetch_pipeline::queue::{DrainQueue, PopOutcome, PushOutcome};

#[test]
fn handles_leave_in_admission_order() {
    let mut queue = DrainQueue::new(4);
    assert_eq!(queue.push(1), PushOutcome::Accepted);
    assert_eq!(queue.push(2), PushOutcome::Accepted);
    assert_eq!(queue.push(3), PushOutcome::Accepted);
    assert_eq!(queue.pop(), PopOutcome::Item(1));
    assert_eq!(queue.pop(), PopOutcome::Item(2));
    assert_eq!(queue.pop(), PopOutcome::Item(3));
}

#[test]
fn full_queue_refuses_without_losing_anything() {
    let mut queue = DrainQueue::new(2);
    assert_eq!(queue.push(10), PushOutcome::Accepted);
    assert_eq!(queue.push(11), PushOutcome::Accepted);
    assert_eq!(queue.push(12), PushOutcome::Full);
    assert_eq!(queue.len(), 2);
    assert_eq!(queue.pop(), PopOutcome::Item(10));
    assert_eq!(queue.push(12), PushOutcome::Accepted);
    assert_eq!(queue.pop(), PopOutcome::Item(11));
    assert_eq!(queue.pop(), PopOutcome::Item(12));
}

#[test]
fn closed_queue_admits_nothing_but_still_drains() {
    let mut queue = DrainQueue::new(2);
    assert_eq!(queue.push(7), PushOutcome::Accepted);
    queue.close();
    assert_eq!(queue.push(8), PushOutcome::Closed);
    assert_eq!(queue.len(), 1);
    assert_eq!(queue.pop(), PopOutcome::Item(7));
    assert_eq!(queue.pop(), PopOutcome::Disconnected);
}

#[test]
fn empty_open_queue_asks_the_consumer_to_wait() {
    let mut queue = DrainQueue::new(1);
    assert_eq!(queue.pop(), PopOutcome::Empty);
    assert_eq!(queue.push(5), PushOutcome::Accepted);
    assert_eq!(queue.pop(), PopOutcome::Item(5));
    assert_eq!(queue.pop(), PopOutcome::Empty);
}
