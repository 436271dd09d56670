//! Bounded queues between the loops of the gateway.

use vstd::prelude::*;

verus! {

/// `crossbeam_channel::Sender`: the sending end of a queue, carried through
/// as it is.
#[verifier::external_type_specification]
#[verifier::external_body]
#[verifier::reject_recursive_types(T)]
pub struct ExSender<T>(crossbeam_channel::Sender<T>);

/// `crossbeam_channel::Receiver`: the receiving end of a queue, carried
/// through as it is.
#[verifier::external_type_specification]
#[verifier::external_body]
#[verifier::reject_recursive_types(T)]
pub struct ExReceiver<T>(crossbeam_channel::Receiver<T>);

/// What became of one attempt to enqueue without blocking.
#[derive(Clone, Copy, Debug, PartialEq, Eq, Structural)]
pub enum SendOutcome {
    /// The message is in the queue.
    Delivered,
    /// The queue was at capacity; the message was dropped.
    Full,
    /// The receiving end is gone; the message was dropped.
    Disconnected,
}

/// `crossbeam_channel::Sender::try_send`: enqueues `msg` if there is room and a
/// receiver, and says which of the three cases held. The outcome depends on
/// what the receiving side has done, so nothing is promised about it.
#[verifier::external_body]
pub(crate) fn offer<T>(tx: &crossbeam_channel::Sender<T>, msg: T) -> (o: SendOutcome) {
    match tx.try_send(msg) {
        Ok(()) => SendOutcome::Delivered,
        Err(crossbeam_channel::TrySendError::Full(_)) => SendOutcome::Full,
        Err(crossbeam_channel::TrySendError::Disconnected(_)) => SendOutcome::Disconnected,
    }
}

/// `crossbeam_channel::bounded`: a new queue for buffers that holds at most
/// `capacity` of them, as its sending and its receiving end.
#[verifier::external_body]
pub(crate) fn bounded_queue(capacity: usize) -> (ends: (
    crossbeam_channel::Sender<bytes::Bytes>,
    crossbeam_channel::Receiver<bytes::Bytes>,
)) {
    crossbeam_channel::bounded(capacity)
}

} // verus!
