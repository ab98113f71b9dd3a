//! The queue primitive: crossbeam's unbounded channels, seen through small trusted wrappers.
//!
//! The two handle types below are only ever built by `unbounded_channel` and
//! `clone_sender`, so every channel they refer to is an unbounded one, and every read end
//! holds a write end of its own channel.
use crossbeam_channel::{Receiver, Sender, TryRecvError, TrySendError};
use vstd::prelude::*;

verus! {

/// A write end of a channel made by `unbounded_channel`: a channel with no capacity bound.
#[verifier::external_body]
#[verifier::reject_recursive_types(T)]
pub struct UnboundedSender<T> {
    inner: Sender<T>,
}

/// The only read end of a channel made by `unbounded_channel`, together with a write end of
/// the same channel, so that the channel keeps a sender for as long as this value lives.
#[verifier::external_body]
#[verifier::reject_recursive_types(T)]
pub struct AnchoredReceiver<T> {
    inner: Receiver<T>,
    anchor: Sender<T>,
}

/// Why a non-blocking enqueue did not take a message. The message comes back.
pub enum SendFailure<T> {
    /// The queue had no room left.
    Full(T),
    /// No receiver remains.
    Disconnected(T),
}

/// Why a non-blocking dequeue yielded no message.
#[derive(Clone, Copy, Debug, PartialEq, Eq, Structural)]
pub enum RecvFailure {
    /// Nothing is queued at the moment.
    Empty,
    /// Nothing is queued and no sender remains.
    Disconnected,
}

/// Relies on `crossbeam_channel::unbounded`, which makes a list-flavoured channel with no
/// capacity bound, and on `Sender::clone` for the write end that the read end keeps.
#[verifier::external_body]
pub(crate) fn unbounded_channel<T>() -> (UnboundedSender<T>, AnchoredReceiver<T>) {
    let (sender, receiver) = crossbeam_channel::unbounded();
    let anchor = sender.clone();
    (UnboundedSender { inner: sender }, AnchoredReceiver { inner: receiver, anchor })
}

/// Relies on `Sender::clone`: another write end of the same channel.
#[verifier::external_body]
pub(crate) fn clone_sender<T>(sender: &UnboundedSender<T>) -> UnboundedSender<T> {
    UnboundedSender { inner: sender.inner.clone() }
}

/// Relies on `Sender::try_send`: it never blocks, and a returned error carries the message
/// that was handed in. On an unbounded (list-flavoured) channel the only error it reports
/// is `Disconnected`; `Full` never comes.
#[verifier::external_body]
pub(crate) fn try_send<T>(sender: &UnboundedSender<T>, message: T) -> (r: Result<(), SendFailure<T>>)
    ensures
        !(r matches Err(SendFailure::Full(_))),
        r matches Err(SendFailure::Disconnected(m)) ==> m == message,
{
    match sender.inner.try_send(message) {
        Ok(()) => Ok(()),
        Err(TrySendError::Full(m)) => Err(SendFailure::Full(m)),
        Err(TrySendError::Disconnected(m)) => Err(SendFailure::Disconnected(m)),
    }
}

/// Relies on `Receiver::try_recv`: it never blocks, and it reports `Disconnected` only once
/// the last sender is gone. The receiver holds a sender of its own channel, so that report
/// never comes here. Which other outcome comes depends on what other threads have sent.
#[verifier::external_body]
pub(crate) fn try_recv<T>(receiver: &AnchoredReceiver<T>) -> (r: Result<T, RecvFailure>)
    ensures
        !(r matches Err(RecvFailure::Disconnected)),
{
    match receiver.inner.try_recv() {
        Ok(m) => Ok(m),
        Err(TryRecvError::Empty) => Err(RecvFailure::Empty),
        Err(TryRecvError::Disconnected) => Err(RecvFailure::Disconnected),
    }
}

} // verus!
