use vstd::prelude::*;

use futures::channel::mpsc::Sender;

verus! {

#[verifier::external_type_specification]
#[verifier::external_body]
#[verifier::reject_recursive_types(T)]
pub struct ExSender<T>(Sender<T>);

/// Why a payload could not be queued.
#[derive(Clone, Copy, Debug, PartialEq, Eq, Structural)]
pub enum QueueError {
    /// The queue was at capacity; the payload was dropped.
    Overflow,
    /// The receiving side is gone.
    Disconnected,
}

/// Relies on futures' `Sender::try_send`, which never waits: the payload is
/// queued, or the error says whether the channel was full or its receiver
/// dropped (`TrySendError::is_full`).
#[verifier::external_body]
fn try_send_payload(tx: &mut Sender<String>, payload: String) -> (r: Result<(), QueueError>) {
    match tx.try_send(payload) {
        Ok(()) => Ok(()),
        Err(e) => if e.is_full() {
            Err(QueueError::Overflow)
        } else {
            Err(QueueError::Disconnected)
        },
    }
}

/// Queues one payload without waiting; a full queue drops it and reports
/// `Overflow`.
pub fn enqueue_payload(tx: &mut Sender<String>, payload: String) -> (r: Result<(), QueueError>) {
    try_send_payload(tx, payload)
}

/// Queues each payload in order, without waiting, and reports the outcome of
/// each: one entry per payload, in the same order.
pub fn enqueue_payloads(tx: &mut Sender<String>, payloads: &Vec<String>) -> (r: Vec<
    Result<(), QueueError>,
>)
    ensures
        r@.len() == payloads@.len(),
{
    let mut out: Vec<Result<(), QueueError>> = Vec::new();
    let mut i: usize = 0;
    while i < payloads.len()
        invariant
            i <= payloads@.len(),
            out@.len() == i,
        decreases payloads@.len() - i,
    {
        let outcome = enqueue_payload(tx, payloads[i].clone());
        out.push(outcome);
        i = i + 1;
    }
    out
}

} // verus!
