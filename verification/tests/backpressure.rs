//! The bounded outbound queue: backpressure without loss, in order.

use gateway_client::outbound::{OutboundQueue, SendOutcome};

#[test]
fn offers_fill_to_capacity_then_must_wait() {
    let mut q = OutboundQueue::new(2);
    assert_eq!(q.offer("a".to_owned()), SendOutcome::Accepted);
    assert_eq!(q.offer("b".to_owned()), SendOutcome::Accepted);
    assert_eq!(q.len(), 2);
    assert_eq!(q.offer("c".to_owned()), SendOutcome::MustWait("c".to_owned()));
    assert_eq!(q.len(), 2, "a refused offer must leave the queue unchanged");
}

#[test]
fn offer_resumes_after_capacity_frees() {
    let mut q = OutboundQueue::new(1);
    assert_eq!(q.offer("a".to_owned()), SendOutcome::Accepted);
    let bounced = match q.offer("b".to_owned()) {
        SendOutcome::MustWait(f) => f,
        SendOutcome::Accepted => panic!("a full queue must not accept"),
    };
    assert_eq!(q.drain_front(), Some("a".to_owned()));
    assert_eq!(q.offer(bounced), SendOutcome::Accepted);
    assert_eq!(q.drain_front(), Some("b".to_owned()));
}

#[test]
fn frames_leave_in_offer_order() {
    let mut q = OutboundQueue::new(3);
    let _ = q.offer("one".to_owned());
    let _ = q.offer("two".to_owned());
    let _ = q.offer("three".to_owned());
    assert_eq!(q.drain_front(), Some("one".to_owned()));
    assert_eq!(q.drain_front(), Some("two".to_owned()));
    assert_eq!(q.drain_front(), Some("three".to_owned()));
    assert_eq!(q.drain_front(), None);
}

#[test]
fn draining_an_empty_queue_yields_nothing() {
    let mut q = OutboundQueue::new(4);
    assert_eq!(q.drain_front(), None);
    assert_eq!(q.len(), 0);
}
