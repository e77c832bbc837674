//! Live push-to-pull bridges over one delivery channel.
//!
//! [`EventBridge`] turns callback-pushed events into a lazily pulled,
//! cooperatively cancellable sequence; [`collect_until_deadline`] is its
//! deadline-aggregate variant; [`ReplyCorrelator`] joins the verified
//! correlation machine of [`crate::correlator`] to a live reply channel.
//!
//! What a live channel delivers depends on producer threads, so no contract
//! here can say which items arrive. What the contracts do pin is how every
//! outcome is handled: a bridge never yields after it has ended, every
//! yielded item is appended to its history exactly once and in order, the
//! deadline aggregate equals [`crate::replay::aggregate_spec`] of the
//! trace of receive outcomes it observed, a correlator emits batches in
//! request order with each partial batch's arrival order preserved, and a
//! cancelled batch is discarded, never emitted.

use vstd::prelude::*;

use crate::channel::{deadline_after_millis, poll_recv, poll_recv_deadline, PollOutcome};
use crate::correlator::{BridgeState, Correlator, DrainOutcome, IdleOutcome, Reply, UpstreamItem};
use crate::replay::{aggregate_spec, lemma_aggregate_snoc};
use crate::signal::CancellationSignal;
use crate::OutputValue;

verus! {

/// Default bounded capacity of one delivery channel.
pub const DEFAULT_CHANNEL_CAPACITY: usize = 256;

/// Default granularity, in milliseconds, of one bounded wait between
/// cancellation polls.
pub const DEFAULT_POLL_MILLIS: u64 = 50;

/// What one pull decides, given the polled cancellation flag and the
/// channel outcome: the explicit decision rule of the live stream.
/// Cancellation wins over everything; a delivered event is yielded; an
/// expired wait is skipped and polled again; closure ends the sequence.
#[derive(Debug)]
pub enum BridgeDecision<T> {
    Yield(T),
    Skip,
    End,
}

/// The live stream's decision rule, verified for every flag value and
/// every channel outcome.
pub fn bridge_step<T>(cancelled: bool, poll: PollOutcome<T>) -> (d: BridgeDecision<T>)
    ensures
        cancelled ==> d is End,
        !cancelled ==> (poll matches PollOutcome::Item(t) ==> d == BridgeDecision::Yield(t)),
        !cancelled && poll is TimedOut ==> d is Skip,
        !cancelled && poll is Closed ==> d is End,
{
    if cancelled {
        BridgeDecision::End
    } else {
        match poll {
            PollOutcome::Item(t) => BridgeDecision::Yield(t),
            PollOutcome::TimedOut => BridgeDecision::Skip,
            PollOutcome::Closed => BridgeDecision::End,
        }
    }
}

/// Result of one pull on a live bridge.
#[derive(Debug)]
pub enum Pull<T> {
    /// The next event of the sequence.
    Item(T),
    /// Nothing yet: every bounded wait expired. Pull again.
    Pending,
    /// The sequence is over -- cancellation was observed or the channel
    /// closed -- and stays over.
    Ended,
}

/// The push-to-pull adapter over one delivery channel.
///
/// It owns the consumer side of the channel, polls a cancellation signal
/// between bounded waits, and keeps an opaque companion value alive for as
/// long as events may still arrive; the producer side lives in whatever
/// callback the networking layer invokes. The ghost `yielded` history
/// records every item handed out, in order: contracts state that the
/// sequence is never restarted and never reordered.
#[verifier::reject_recursive_types(T)]
pub struct EventBridge<T, R> {
    rx: flume::Receiver<T>,
    signal: CancellationSignal,
    resource: R,
    poll_millis: u64,
    done: bool,
    history: Ghost<Seq<T>>,
}

impl<T, R> EventBridge<T, R> {
    /// Whether the sequence has ended; once true it stays true.
    pub closed spec fn is_done(self) -> bool {
        self.done
    }

    /// Every item yielded so far, in yield order.
    pub closed spec fn yielded(self) -> Seq<T> {
        self.history@
    }

    /// A fresh bridge over `rx`. `resource` is the handle that keeps the
    /// underlying registration alive; it is dropped, ending the
    /// registration, only when the bridge itself is dropped or released.
    pub fn new(rx: flume::Receiver<T>, signal: CancellationSignal, resource: R, poll_millis: u64)
        -> (b: EventBridge<T, R>)
        ensures
            !b.is_done(),
            b.yielded() == Seq::<T>::empty(),
    {
        EventBridge { rx, signal, resource, poll_millis, done: false, history: Ghost(Seq::empty()) }
    }

    /// One pull attempt: poll cancellation first, then wait boundedly for
    /// one event. Termination -- by cancellation or closure -- is always
    /// end-of-sequence, never an error, and is permanent.
    pub fn poll_next(&mut self) -> (r: Pull<T>)
        ensures
            old(self).is_done() ==> r is Ended,
            r matches Pull::Item(t)
                ==> !old(self).is_done() && !final(self).is_done()
                    && final(self).yielded() == old(self).yielded().push(t),
            r is Pending ==> *final(self) == *old(self),
            r is Ended ==> final(self).is_done() && final(self).yielded() == old(self).yielded(),
    {
        if self.done {
            return Pull::Ended;
        }
        let cancelled = self.signal.is_set();
        let decision = if cancelled {
            // Cancellation is polled first: the channel is not even asked,
            // so no event is consumed and lost.
            bridge_step(true, PollOutcome::TimedOut)
        } else {
            bridge_step(false, poll_recv(&self.rx, self.poll_millis))
        };
        match decision {
            BridgeDecision::Yield(t) => {
                self.history = Ghost(self.history@.push(t));
                Pull::Item(t)
            },
            BridgeDecision::Skip => Pull::Pending,
            BridgeDecision::End => {
                self.done = true;
                Pull::Ended
            },
        }
    }

    /// Pull until an item arrives, the sequence ends, or `max_polls`
    /// bounded waits have expired. Cancellation stays responsive: it is
    /// polled before every wait.
    pub fn next_within(&mut self, max_polls: u64) -> (r: Pull<T>)
        ensures
            old(self).is_done() ==> r is Ended,
            r matches Pull::Item(t)
                ==> !final(self).is_done()
                    && final(self).yielded() == old(self).yielded().push(t),
            r is Pending ==> *final(self) == *old(self),
            r is Ended ==> final(self).is_done() && final(self).yielded() == old(self).yielded(),
    {
        if self.done {
            return Pull::Ended;
        }
        let mut i: u64 = 0;
        while i < max_polls
            invariant
                *self == *old(self),
            decreases max_polls - i,
        {
            let r = self.poll_next();
            match r {
                Pull::Item(t) => {
                    return Pull::Item(t);
                },
                Pull::Ended => {
                    return Pull::Ended;
                },
                Pull::Pending => {},
            }
            i = i + 1;
        }
        Pull::Pending
    }

    /// The keep-alive companion value.
    pub closed spec fn resource(self) -> R {
        self.resource
    }

    /// Hand back the keep-alive companion, consuming the bridge. Only
    /// sensible once the sequence has ended: releasing it earlier ends the
    /// underlying registration while events may still arrive.
    pub fn release(self) -> (r: R)
        ensures
            r == self.resource(),
    {
        self.resource
    }
}


/// What one receive outcome decides in deadline-aggregate mode: a
/// delivered item is appended; an expired wait means the absolute deadline
/// has passed, and closure means no item will ever come, so either ends
/// the collection with the buffer as the one aggregate.
#[derive(Debug)]
pub enum AggregateDecision<T> {
    Append(T),
    Finish,
}

/// The deadline aggregate's decision rule, verified for every outcome.
pub fn aggregate_step<T>(poll: PollOutcome<T>) -> (d: AggregateDecision<T>)
    ensures
        poll matches PollOutcome::Item(t) ==> d == AggregateDecision::Append(t),
        poll is TimedOut ==> d is Finish,
        poll is Closed ==> d is Finish,
{
    match poll {
        PollOutcome::Item(t) => AggregateDecision::Append(t),
        PollOutcome::TimedOut => AggregateDecision::Finish,
        PollOutcome::Closed => AggregateDecision::Finish,
    }
}

/// Deadline-aggregate mode: buffer every event arriving before the
/// absolute `deadline`, in arrival order, and return the whole aggregate
/// when the deadline elapses or the channel closes, whichever is first; a
/// channel that closes before delivering anything yields an empty
/// aggregate, not a hang. `max_items` caps the aggregate's size.
///
/// Which events arrive depends on producer threads, so alongside the
/// aggregate the collector returns, for specification, the trace of
/// receive outcomes it observed: the aggregate is exactly
/// [`aggregate_spec`] of that trace -- every delivered item before the
/// first expired wait or closure, in arrival order, up to the cap.
pub fn collect_until_deadline<T>(
    rx: &flume::Receiver<T>,
    deadline: &std::time::Instant,
    max_items: usize,
) -> (r: (Vec<T>, Ghost<Seq<PollOutcome<T>>>))
    ensures
        r.0@ == aggregate_spec(r.1@, max_items as nat),
        r.0@.len() <= max_items,
{
    let mut out: Vec<T> = Vec::new();
    let ghost mut polls: Seq<PollOutcome<T>> = Seq::empty();
    while out.len() < max_items
        invariant
            out@.len() <= max_items,
            polls.len() == out@.len(),
            forall|i: int| 0 <= i < polls.len() ==> polls[i] is Item,
            out@ == aggregate_spec(polls, max_items as nat),
        decreases max_items - out.len(),
    {
        let p = poll_recv_deadline(rx, *deadline);
        let ghost pg = p;
        proof {
            lemma_aggregate_snoc(polls, pg, max_items as nat);
        }
        match aggregate_step(p) {
            AggregateDecision::Append(t) => {
                out.push(t);
                proof {
                    polls = polls.push(pg);
                }
            },
            AggregateDecision::Finish => {
                proof {
                    polls = polls.push(pg);
                }
                return (out, Ghost(polls));
            },
        }
    }
    (out, Ghost(polls))
}

/// Deadline-aggregate collection over a window of `window_millis`
/// milliseconds from now, with the same contract: the aggregate is
/// [`aggregate_spec`] of the observed trace, capped at `max_items`.
pub fn collect_for_millis<T>(rx: &flume::Receiver<T>, window_millis: u64, max_items: usize) -> (r:
    (Vec<T>, Ghost<Seq<PollOutcome<T>>>))
    ensures
        r.0@ == aggregate_spec(r.1@, max_items as nat),
        r.0@.len() <= max_items,
{
    let deadline = deadline_after_millis(window_millis);
    collect_until_deadline(rx, &deadline, max_items)
}

/// What draining one whole batch on a live channel came to.
#[derive(Debug)]
pub enum DrainResult {
    /// The reply channel closed: this is the finished batch, the next
    /// element of the outer sequence.
    Batch(Vec<OutputValue>),
    /// Cancellation was observed: the partial batch is discarded and the
    /// outer sequence is over.
    Cancelled,
    /// Every bounded wait expired with the channel still open. Drain again.
    StillWaiting,
}

/// The live batched reply correlator: the verified state machine joined to
/// a cancellation signal and a live reply channel per request.
///
/// Its driver alternates two calls. `next_request` decides what to do with
/// the next upstream item; when it answers `Issue(payload)`, the driver
/// issues that payload to the networking layer, obtains one fresh reply
/// channel for it, and hands the channel to `drain_batch`. At most one
/// reply channel is ever open at a time: strict request/reply pipelining,
/// never concurrent multiplexing, because the protocol carries no per-reply
/// request tag.
pub struct ReplyCorrelator {
    machine: Correlator,
    signal: CancellationSignal,
    poll_millis: u64,
}

impl ReplyCorrelator {
    /// The underlying verified state machine.
    pub closed spec fn machine(self) -> Correlator {
        self.machine
    }

    /// Exec view of the machine's lifecycle state, for drivers that must
    /// check where the machine stands before acting.
    pub fn current_state(&self) -> (s: BridgeState)
        ensures
            s == self.machine().state(),
    {
        self.machine.current_state()
    }

    /// A fresh correlator polling `signal` between bounded waits of
    /// `poll_millis` milliseconds.
    pub fn new(signal: CancellationSignal, poll_millis: u64) -> (c: ReplyCorrelator)
        ensures
            c.machine().inv(),
            c.machine().state() is Idle,
            c.machine().emitted() == Seq::<Seq<OutputValue>>::empty(),
    {
        ReplyCorrelator { machine: Correlator::new(), signal, poll_millis }
    }

    /// One `Idle` decision on the next upstream item (`None` when upstream
    /// is exhausted), with the cancellation signal polled first. `Issue(p)`
    /// asks the driver to issue `p` and drain its fresh reply channel;
    /// `Skipped` records a silently dropped unusable item; `Finished` ends
    /// the outer sequence, which emits nothing further.
    pub fn next_request(&mut self, upstream: Option<UpstreamItem>) -> (r: IdleOutcome)
        requires
            old(self).machine().inv(),
            old(self).machine().state() is Idle,
        ensures
            final(self).machine().inv(),
            final(self).machine().emitted() == old(self).machine().emitted(),
            r matches IdleOutcome::Issue(p)
                ==> final(self).machine().state() is Draining
                    && final(self).machine().buffered() == Seq::<OutputValue>::empty()
                    && upstream == Some(UpstreamItem::Usable(p)),
            r is Skipped
                ==> final(self).machine() == old(self).machine()
                    && upstream matches Some(UpstreamItem::Unusable),
            r is Finished ==> final(self).machine().state() is Terminal,
            upstream is None ==> r is Finished,
    {
        let cancelled = self.signal.is_set();
        self.machine.step_idle(cancelled, upstream)
    }

    /// One `Draining` decision on a live reply channel: cancellation is
    /// polled first and, if set, ends the whole sequence with the partial
    /// batch discarded; otherwise one bounded-wait receive is classified
    /// and applied to the machine.
    pub fn drain_step(&mut self, rx: &flume::Receiver<Reply>) -> (r: DrainOutcome)
        requires
            old(self).machine().inv(),
            old(self).machine().state() is Draining,
        ensures
            final(self).machine().inv(),
            r is Finished
                ==> final(self).machine().state() is Terminal
                    && final(self).machine().emitted() == old(self).machine().emitted(),
            r is Pending
                ==> final(self).machine().state() is Draining
                    && final(self).machine().emitted() == old(self).machine().emitted()
                    && final(self).machine().buffered().len() >= old(self).machine().buffered().len()
                    && final(self).machine().buffered().take(
                        old(self).machine().buffered().len() as int,
                    ) == old(self).machine().buffered(),
            r matches DrainOutcome::Emitted(b)
                ==> final(self).machine().state() is Idle
                    && b@ == old(self).machine().buffered()
                    && final(self).machine().emitted() == old(self).machine().emitted().push(b@),
    {
        let cancelled = self.signal.is_set();
        if cancelled {
            self.machine.step_draining(true, PollOutcome::TimedOut)
        } else {
            let poll = poll_recv(rx, self.poll_millis);
            let ghost buf = self.machine.buffered();
            let r = self.machine.step_draining(false, poll);
            proof {
                if r is Pending {
                    assert(self.machine.buffered().take(buf.len() as int) =~= buf);
                }
            }
            r
        }
    }

    /// Drain one request's reply channel to its finished batch, with at
    /// most `max_polls` bounded waits. Replies keep arrival order: whatever
    /// was already buffered stays a prefix of the batch. A cancelled batch
    /// is discarded, never emitted; batches reach the emission history in
    /// request order, one per `Batch` result.
    pub fn drain_batch(&mut self, rx: &flume::Receiver<Reply>, max_polls: u64) -> (r: DrainResult)
        requires
            old(self).machine().inv(),
            old(self).machine().state() is Draining,
        ensures
            final(self).machine().inv(),
            r matches DrainResult::Batch(b)
                ==> final(self).machine().state() is Idle
                    && b@.len() >= old(self).machine().buffered().len()
                    && b@.take(old(self).machine().buffered().len() as int) == old(
                        self,
                    ).machine().buffered()
                    && final(self).machine().emitted() == old(self).machine().emitted().push(b@),
            r is Cancelled
                ==> final(self).machine().state() is Terminal
                    && final(self).machine().emitted() == old(self).machine().emitted(),
            r is StillWaiting
                ==> final(self).machine().state() is Draining
                    && final(self).machine().emitted() == old(self).machine().emitted()
                    && final(self).machine().buffered().len() >= old(self).machine().buffered().len()
                    && final(self).machine().buffered().take(
                        old(self).machine().buffered().len() as int,
                    ) == old(self).machine().buffered(),
    {
        let ghost buf0 = old(self).machine().buffered();
        let mut i: u64 = 0;
        while i < max_polls
            invariant
                self.machine().inv(),
                self.machine().state() is Draining,
                self.machine().emitted() == old(self).machine().emitted(),
                buf0 == old(self).machine().buffered(),
                self.machine().buffered().len() >= buf0.len(),
                self.machine().buffered().take(buf0.len() as int) == buf0,
            decreases max_polls - i,
        {
            let ghost before = self.machine().buffered();
            let r = self.drain_step(rx);
            match r {
                DrainOutcome::Emitted(b) => {
                    return DrainResult::Batch(b);
                },
                DrainOutcome::Finished => {
                    return DrainResult::Cancelled;
                },
                DrainOutcome::Pending => {
                    proof {
                        assert(self.machine().buffered().take(buf0.len() as int)
                            =~= before.take(buf0.len() as int));
                    }
                },
            }
            i = i + 1;
        }
        DrainResult::StillWaiting
    }
}

} // verus!
