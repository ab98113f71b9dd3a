//! The producer side: a cloneable handle whose `send` never blocks.
use crate::channel::{clone_sender, try_send, unbounded_channel, SendFailure, UnboundedSender};
use crate::drain::CrossbeamEventReceiver;
use vstd::prelude::*;

verus! {

/// What became of a message handed to `send`, when nothing fatal happened.
#[derive(Clone, Copy, Debug, PartialEq, Eq, Structural)]
pub enum SendStatus {
    /// The message is queued for the next drain.
    Enqueued,
    /// No receiver remains (the loop is shutting down): the message was dropped.
    ReceiverGone,
}

/// The queue reported that it was full. An unbounded queue only does so when memory is
/// exhausted, so the caller is expected to abort rather than recover.
#[derive(Clone, Copy, Debug, PartialEq, Eq, Structural)]
pub struct QueueFull;

/// The failure policy of a send: a full queue is fatal, a missing receiver is benign.
pub open spec fn send_policy_spec<T>(attempt: Result<(), SendFailure<T>>) -> Result<SendStatus, QueueFull> {
    match attempt {
        Ok(()) => Ok(SendStatus::Enqueued),
        Err(SendFailure::Full(_)) => Err(QueueFull),
        Err(SendFailure::Disconnected(_)) => Ok(SendStatus::ReceiverGone),
    }
}

/// Turns what the enqueue reported into the outcome of `send`.
pub fn send_policy<T>(attempt: Result<(), SendFailure<T>>) -> (r: Result<SendStatus, QueueFull>)
    ensures
        r == send_policy_spec(attempt),
{
    match attempt {
        Ok(()) => Ok(SendStatus::Enqueued),
        Err(SendFailure::Full(_)) => Err(QueueFull),
        Err(SendFailure::Disconnected(_)) => Ok(SendStatus::ReceiverGone),
    }
}

/// A write end of one message type's channel. Clones share that channel.
#[verifier::reject_recursive_types(T)]
pub struct CrossbeamEventSender<T>(UnboundedSender<T>);

impl<T> Clone for CrossbeamEventSender<T> {
    fn clone(&self) -> Self {
        CrossbeamEventSender(clone_sender(&self.0))
    }
}

impl<T> CrossbeamEventSender<T> {
    /// Enqueues `event` without blocking.
    ///
    /// `Ok(Enqueued)` when the queue took it, `Ok(ReceiverGone)` when no receiver remains
    /// (the message is dropped). Which of the two happens depends on the channel's state at
    /// the time of the call. The channel is unbounded, so the fatal `Err(QueueFull)` that
    /// `send_policy` gives for a full queue never comes.
    pub fn send(&self, event: T) -> (r: Result<SendStatus, QueueFull>)
        ensures
            r is Ok,
    {
        let attempt = try_send(&self.0, event);
        send_policy(attempt)
    }
}

/// Creates one unbounded channel for a message type: its first write end and its only
/// read end.
pub fn new_channel<T>() -> (CrossbeamEventSender<T>, CrossbeamEventReceiver<T>) {
    let (s, r) = unbounded_channel();
    (CrossbeamEventSender(s), CrossbeamEventReceiver(r))
}

} // verus!
