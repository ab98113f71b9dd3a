//! The consumer side: the per-tick drain step over the channel's only read end.
use crate::channel::{try_recv, AnchoredReceiver, RecvFailure};
use vstd::prelude::*;

verus! {

/// The payloads of a run of dequeue outcomes that all yielded a message.
pub open spec fn messages_of<T>(outcomes: Seq<Result<T, RecvFailure>>) -> Seq<T> {
    outcomes.map_values(|o: Result<T, RecvFailure>| o->Ok_0)
}

/// Whether `trace` is what one drain observes, dequeue by dequeue: every outcome yielded a
/// message except the last, which yielded none; or the call stopped after collecting the
/// most messages a `Vec` can count, leaving the rest for the next tick.
pub open spec fn is_drain_trace<T>(trace: Seq<Result<T, RecvFailure>>) -> bool {
    ||| {
        &&& trace.len() > 0
        &&& trace.last() is Err
        &&& forall|i: int| 0 <= i < trace.len() - 1 ==> (#[trigger] trace[i]) is Ok
    }
    ||| {
        &&& trace.len() == usize::MAX
        &&& forall|i: int| 0 <= i < trace.len() ==> (#[trigger] trace[i]) is Ok
    }
}

/// The messages a drain forwards: those its dequeues yielded, in the order yielded.
pub open spec fn delivered<T>(trace: Seq<Result<T, RecvFailure>>) -> Seq<T> {
    if trace.len() > 0 && trace.last() is Err {
        messages_of(trace.drop_last())
    } else {
        messages_of(trace)
    }
}

/// Whether the drain ended because no sender remains.
pub open spec fn ends_disconnected<T>(trace: Seq<Result<T, RecvFailure>>) -> bool {
    trace.len() > 0 && trace.last() == Err::<T, RecvFailure>(RecvFailure::Disconnected)
}

/// What one drain produced.
pub struct DrainReport<T> {
    /// The messages to forward, oldest first.
    pub messages: Vec<T>,
    /// The channel reported that no sender remains, a defect on which the caller aborts.
    /// `drain` never sets it: its receiver keeps a sender of its own channel.
    pub senders_gone: bool,
    /// Every dequeue outcome the drain observed, in order.
    pub trace: Ghost<Seq<Result<T, RecvFailure>>>,
}

/// The only read end of one message type's channel. It keeps a write end of that channel
/// too, so the channel never loses all its senders while the drain step can run.
#[verifier::reject_recursive_types(T)]
pub struct CrossbeamEventReceiver<T>(pub(crate) AnchoredReceiver<T>);

impl<T> CrossbeamEventReceiver<T> {
    /// Empties the queue without blocking: dequeues until the channel reports that nothing
    /// is queued, and returns every message obtained, in the order obtained. A call stops
    /// after `usize::MAX` messages at most; any still queued wait for the next call.
    pub fn drain(&self) -> (r: DrainReport<T>)
        ensures
            is_drain_trace(r.trace@),
            r.messages@ == delivered(r.trace@),
            r.senders_gone == ends_disconnected(r.trace@),
            !r.senders_gone,
    {
        let mut report = DrainReport::new();
        while report.messages.len() < usize::MAX
            invariant
                report.trace@.len() == report.messages@.len(),
                forall|i: int| 0 <= i < report.trace@.len() ==> (#[trigger] report.trace@[i]) is Ok,
                report.messages@ == messages_of(report.trace@),
                !report.senders_gone,
            decreases usize::MAX - report.messages.len(),
        {
            let ghost before = report.trace@;
            let outcome = try_recv(&self.0);
            let done = report.absorb(outcome);
            if done {
                assert(report.trace@.drop_last() =~= before);
                return report;
            }
            assert(report.messages@ =~= messages_of(report.trace@));
        }
        report
    }
}

impl<T> DrainReport<T> {
    /// The report of a drain that has observed nothing yet.
    pub fn new() -> (r: Self)
        ensures
            r.messages@ == Seq::<T>::empty(),
            !r.senders_gone,
            r.trace@ == Seq::<Result<T, RecvFailure>>::empty(),
    {
        DrainReport { messages: Vec::new(), senders_gone: false, trace: Ghost(Seq::empty()) }
    }

    /// Takes in one dequeue outcome and returns whether the drain is over. A message is
    /// kept for forwarding and the drain goes on; "empty" ends the drain normally;
    /// "disconnected" ends it and records that no sender remains.
    pub fn absorb(&mut self, outcome: Result<T, RecvFailure>) -> (done: bool)
        ensures
            final(self).trace@ == old(self).trace@.push(outcome),
            done == outcome is Err,
            final(self).messages@ == (match outcome {
                Ok(m) => old(self).messages@.push(m),
                Err(_) => old(self).messages@,
            }),
            final(self).senders_gone == (old(self).senders_gone || outcome == Err::<T, RecvFailure>(
                RecvFailure::Disconnected,
            )),
    {
        let ghost seen = outcome;
        self.trace = Ghost(self.trace@.push(seen));
        match outcome {
            Ok(m) => {
                self.messages.push(m);
                false
            },
            Err(e) => {
                if e == RecvFailure::Disconnected {
                    self.senders_gone = true;
                }
                true
            },
        }
    }
}

} // verus!
