//! The ordered multiple-producer/single-consumer channels the library runs on:
//! one carries commands to the render actor, the other carries back-pressure
//! tokens from the actor to the producers. Both are standard-library channels
//! behind trusted declarations; everything proved about ordering lives in the
//! actor's own model.

use vstd::prelude::*;

verus! {

/// Producer endpoint of a standard multiple-producer channel.
#[verifier::external_type_specification]
#[verifier::external_body]
#[verifier::reject_recursive_types(T)]
pub struct ExSender<T>(std::sync::mpsc::Sender<T>);

/// Consumer endpoint of a standard multiple-producer channel.
#[verifier::external_type_specification]
#[verifier::external_body]
#[verifier::reject_recursive_types(T)]
pub struct ExReceiver<T>(std::sync::mpsc::Receiver<T>);

/// A send or receive found the other side gone: the actor has shut down, or
/// every producer handle was dropped. Surfaced to the caller as a hard
/// failure, never silently swallowed.
#[derive(Clone, Copy, Debug, PartialEq, Eq, Structural)]
pub struct ChannelClosedError;

/// What a non-blocking receive found.
pub enum TryRecvOutcome<T> {
    /// A message was waiting.
    Received(T),
    /// No message is waiting; the sender side is still alive.
    Empty,
    /// The sender side is gone.
    Closed,
}

/// Relies on std::sync::mpsc::channel: a fresh asynchronous channel, its two
/// endpoints connected to each other and to nothing else.
#[verifier::external_body]
pub fn make_channel<T>() -> (std::sync::mpsc::Sender<T>, std::sync::mpsc::Receiver<T>) {
    std::sync::mpsc::channel()
}

/// Relies on std::sync::mpsc::Sender::send: queues the value unless the
/// receiver is gone; values sent from one thread arrive in the order sent.
#[verifier::external_body]
pub fn channel_send<T>(sender: &std::sync::mpsc::Sender<T>, value: T) -> (r: Result<
    (),
    ChannelClosedError,
>) {
    match sender.send(value) {
        Ok(()) => Ok(()),
        Err(_) => Err(ChannelClosedError),
    }
}

/// Relies on std::sync::mpsc::Sender::clone: another producer endpoint of the
/// same channel.
#[verifier::external_body]
pub fn clone_sender<T>(sender: &std::sync::mpsc::Sender<T>) -> (r: std::sync::mpsc::Sender<T>) {
    sender.clone()
}

/// Relies on std::sync::mpsc::Receiver::recv: blocks until a message arrives
/// or every sender is gone.
#[verifier::external_body]
pub fn channel_recv<T>(receiver: &std::sync::mpsc::Receiver<T>) -> (r: Result<
    T,
    ChannelClosedError,
>) {
    match receiver.recv() {
        Ok(value) => Ok(value),
        Err(_) => Err(ChannelClosedError),
    }
}

/// Relies on std::sync::mpsc::Receiver::try_recv: returns at once with a
/// waiting message, with nothing, or with the news that the senders are gone.
#[verifier::external_body]
pub fn channel_try_recv<T>(receiver: &std::sync::mpsc::Receiver<T>) -> (r: TryRecvOutcome<T>) {
    match receiver.try_recv() {
        Ok(value) => TryRecvOutcome::Received(value),
        Err(std::sync::mpsc::TryRecvError::Empty) => TryRecvOutcome::Empty,
        Err(std::sync::mpsc::TryRecvError::Disconnected) => TryRecvOutcome::Closed,
    }
}

} // verus!
