use futures::channel::mpsc::channel;
use unite4::channel::{enqueue_payload, enqueue_payloads, QueueError};

#[test]
fn full_queue_reports_overflow() {
    // capacity is the buffer plus one slot per sender
    let (mut tx, mut rx) = channel::<String>(0);
    assert_eq!(enqueue_payload(&mut tx, "a".to_string()), Ok(()));
    assert_eq!(enqueue_payload(&mut tx, "b".to_string()), Err(QueueError::Overflow));
    assert_eq!(rx.try_next().unwrap(), Some("a".to_string()));
}

#[test]
fn dropped_receiver_reports_disconnected() {
    let (mut tx, rx) = channel::<String>(4);
    drop(rx);
    assert_eq!(enqueue_payload(&mut tx, "a".to_string()), Err(QueueError::Disconnected));
}

#[test]
fn batch_reports_each_payload_in_order() {
    let (mut tx, mut rx) = channel::<String>(1);
    let payloads = vec!["1".to_string(), "2".to_string(), "3".to_string()];
    let outcomes = enqueue_payloads(&mut tx, &payloads);
    assert_eq!(outcomes, vec![Ok(()), Ok(()), Err(QueueError::Overflow)]);
    assert_eq!(rx.try_next().unwrap(), Some("1".to_string()));
    assert_eq!(rx.try_next().unwrap(), Some("2".to_string()));
}
