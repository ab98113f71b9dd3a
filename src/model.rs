//! A first-in first-out channel as a value, and what the send and drain policies do on it.
//!
//! Crossbeam's channels are first-in first-out per sender and unbounded. While no send runs
//! concurrently, successive dequeues on such a channel observe `fifo_trace`; the lemmas
//! here state what the drain step and the send policy make of that.
use crate::channel::{RecvFailure, SendFailure};
use crate::drain::{delivered, ends_disconnected, is_drain_trace, messages_of};
use crate::sender::{send_policy_spec, QueueFull, SendStatus};
use vstd::prelude::*;

verus! {

/// What successive dequeues yield on a first-in first-out channel holding `queue` while
/// no send runs: each queued message in turn, then "empty", or "disconnected" when no
/// sender remains.
pub open spec fn fifo_trace<T>(queue: Seq<T>, senders_alive: bool) -> Seq<Result<T, RecvFailure>> {
    queue.map_values(|m: T| Ok::<T, RecvFailure>(m)).push(
        if senders_alive {
            Err(RecvFailure::Empty)
        } else {
            Err(RecvFailure::Disconnected)
        },
    )
}

/// What an enqueue reports on an unbounded channel: it takes the message unless no
/// receiver remains, in which case the message comes back.
pub open spec fn unbounded_attempt<T>(receiver_alive: bool, message: T) -> Result<(), SendFailure<T>> {
    if receiver_alive {
        Ok(())
    } else {
        Err(SendFailure::Disconnected(message))
    }
}

/// The queue after `messages` reach it in order.
pub open spec fn queue_after_sends<T>(queue: Seq<T>, receiver_alive: bool, messages: Seq<T>) -> Seq<T> {
    if receiver_alive {
        queue + messages
    } else {
        queue
    }
}

/// The queue after a drain that observed `trace`: the delivered messages have left it.
pub open spec fn queue_after_drain<T>(queue: Seq<T>, trace: Seq<Result<T, RecvFailure>>) -> Seq<T> {
    queue.skip(delivered(trace).len() as int)
}

/// A drain of a first-in first-out channel is a valid drain that forwards exactly what
/// was queued, oldest first, and reports lost senders exactly when none remains.
pub proof fn lemma_fifo_drain_delivers_queue<T>(queue: Seq<T>, senders_alive: bool)
    ensures
        is_drain_trace(fifo_trace(queue, senders_alive)),
        delivered(fifo_trace(queue, senders_alive)) == queue,
        ends_disconnected(fifo_trace(queue, senders_alive)) == !senders_alive,
{
    let trace = fifo_trace(queue, senders_alive);
    let oks = queue.map_values(|m: T| Ok::<T, RecvFailure>(m));
    assert(trace.drop_last() =~= oks);
    assert(messages_of(oks) =~= queue);
    assert forall|i: int| 0 <= i < trace.len() - 1 implies (#[trigger] trace[i]) is Ok by {
        assert(trace[i] == oks[i]);
    }
}

/// Whatever one producer sends before a drain, that drain forwards in the order sent.
pub proof fn lemma_drain_keeps_send_order<T>(sent: Seq<T>, senders_alive: bool)
    ensures
        is_drain_trace(fifo_trace(queue_after_sends(Seq::empty(), true, sent), senders_alive)),
        delivered(fifo_trace(queue_after_sends(Seq::empty(), true, sent), senders_alive)) == sent,
{
    assert(queue_after_sends(Seq::empty(), true, sent) =~= sent);
    lemma_fifo_drain_delivers_queue(sent, senders_alive);
}

/// With many producers, in whatever interleaving their sends reach the queue, the drain's
/// output restricted to one producer's messages is that producer's sends in its own order.
/// `producer` tells which producer sent a message; `own` is what producer `p` sent.
pub proof fn lemma_drain_keeps_each_producer_order<T>(
    arrivals: Seq<T>,
    producer: spec_fn(T) -> nat,
    p: nat,
    own: Seq<T>,
    senders_alive: bool,
)
    requires
        arrivals.filter(|m: T| producer(m) == p) == own,
    ensures
        delivered(fifo_trace(queue_after_sends(Seq::empty(), true, arrivals), senders_alive)).filter(
            |m: T| producer(m) == p,
        ) == own,
{
    lemma_drain_keeps_send_order(arrivals, senders_alive);
}

/// Draining twice with no send in between: the second drain forwards nothing.
pub proof fn lemma_second_drain_forwards_nothing<T>(queue: Seq<T>, senders_alive: bool)
    ensures
        delivered(
            fifo_trace(queue_after_drain(queue, fifo_trace(queue, senders_alive)), senders_alive),
        ).len() == 0,
{
    lemma_fifo_drain_delivers_queue(queue, senders_alive);
    let rest = queue_after_drain(queue, fifo_trace(queue, senders_alive));
    assert(rest =~= Seq::<T>::empty());
    lemma_fifo_drain_delivers_queue(rest, senders_alive);
}

/// A send on an unbounded channel is never fatal. With no receiver left it reports
/// `ReceiverGone` and leaves the queue as it was, so no later drain forwards the message.
pub proof fn lemma_send_without_receiver<T>(queue: Seq<T>, receiver_alive: bool, message: T)
    ensures
        send_policy_spec(unbounded_attempt(receiver_alive, message)) is Ok,
        !receiver_alive ==> send_policy_spec(unbounded_attempt(receiver_alive, message))
            == Ok::<SendStatus, QueueFull>(SendStatus::ReceiverGone),
        !receiver_alive ==> queue_after_sends(queue, receiver_alive, seq![message]) == queue,
{
}

/// A queue that reports itself full makes `send` fail with `QueueFull`, the fatal outcome.
pub proof fn lemma_full_queue_is_fatal<T>(message: T)
    ensures
        send_policy_spec(Err::<(), SendFailure<T>>(SendFailure::Full(message)))
            == Err::<SendStatus, QueueFull>(QueueFull),
{
}

/// With no sender left, a drain still forwards everything queued, then reports the lost
/// senders, the fatal outcome of a drain.
pub proof fn lemma_drain_without_senders<T>(queue: Seq<T>)
    ensures
        delivered(fifo_trace(queue, false)) == queue,
        ends_disconnected(fifo_trace(queue, false)),
{
    lemma_fifo_drain_delivers_queue(queue, false);
}

} // verus!
