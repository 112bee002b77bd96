//! The event channel: an unbounded multi-producer/single-consumer queue from
//! crossbeam_channel, reached only through the trusted items below. The
//! queue's contents are shared with other threads, so no contract here can
//! pin what a send or receive observes; each item states only what holds of
//! every outcome.

use vstd::prelude::*;

verus! {

/// The terminal condition of the stream: every producer handle is gone and
/// the queue is empty, so no further event can ever arrive. The caller is
/// expected to treat it as the shutdown signal for its main loop.
#[derive(Clone, Copy, Debug, PartialEq, Eq)]
pub struct Disconnected;

#[verifier::external_type_specification]
#[verifier::external_body]
#[verifier::reject_recursive_types(T)]
pub struct ExSender<T>(crossbeam_channel::Sender<T>);

#[verifier::external_type_specification]
#[verifier::external_body]
#[verifier::reject_recursive_types(T)]
pub struct ExReceiver<T>(crossbeam_channel::Receiver<T>);

/// Relies on crossbeam_channel::unbounded: a fresh channel with no capacity
/// bound, on which a send never blocks.
#[verifier::external_body]
pub(crate) fn unbounded_channel<T>() -> (crossbeam_channel::Sender<T>, crossbeam_channel::Receiver<T>) {
    crossbeam_channel::unbounded()
}

/// Relies on crossbeam_channel::Sender::clone: the clone feeds the same
/// queue as the original handle.
#[verifier::external_body]
pub(crate) fn clone_sender<T>(tx: &crossbeam_channel::Sender<T>) -> crossbeam_channel::Sender<T> {
    tx.clone()
}

/// Relies on crossbeam_channel::Sender::send: on an unbounded channel it
/// queues the message and returns Ok, except when the receiver has been
/// dropped, in which case it hands the message back inside the error.
/// Whether the receiver is gone depends on another thread, so neither
/// outcome can be promised.
#[verifier::external_body]
pub(crate) fn channel_send<T>(tx: &crossbeam_channel::Sender<T>, value: T) -> (r: Result<(), T>)
    ensures
        r matches Err(returned) ==> returned == value,
{
    match tx.send(value) {
        Ok(()) => Ok(()),
        Err(crossbeam_channel::SendError(returned)) => Err(returned),
    }
}

/// Relies on crossbeam_channel::Receiver::recv: blocks the calling thread
/// until a message arrives, and fails exactly when every sender has been
/// dropped and the queue is empty. Which message arrives, or whether any
/// does, depends on the producing threads, so nothing is promised of the
/// outcome.
#[verifier::external_body]
pub(crate) fn channel_recv<T>(rx: &crossbeam_channel::Receiver<T>) -> Result<T, Disconnected> {
    match rx.recv() {
        Ok(value) => Ok(value),
        Err(crossbeam_channel::RecvError) => Err(Disconnected),
    }
}

} // verus!
