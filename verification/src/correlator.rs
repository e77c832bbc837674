//! The batched request/reply correlation state machine.
//!
//! The correlator drives a sequence of outbound requests to completion, one
//! at a time: it pulls a request payload from upstream, has the caller open
//! one fresh reply channel for it, drains that channel into a batch, and
//! emits exactly one batch per usable request. The protocol carries no
//! per-reply request tag; correctness rests on strict one-at-a-time
//! sequencing, so the machine is an explicit tagged state
//! ([`BridgeState`]), never implicit control flow.
//!
//! This module is the pure decision core: every transition takes the polled
//! cancellation flag and the channel outcome as arguments and is verified
//! for every value of them. The glue that polls a real channel lives in
//! [`crate::bridge`]; scripted whole-run drivers and the laws proved about
//! them live in [`crate::replay`].

use vstd::prelude::*;

use crate::channel::PollOutcome;
use crate::OutputValue;

verus! {

/// One item pulled from the upstream request sequence. Payloads that cannot
/// be coerced to the expected shape are `Unusable`; the correlator silently
/// skips them rather than surfacing an error.
#[derive(Clone, Debug)]
pub enum UpstreamItem {
    Usable(String),
    Unusable,
}

/// One unit delivered on a reply channel: an ordinary data reply, or a
/// reply-level application error, which is carried inside the batch and
/// never aborts it.
#[derive(Clone, Debug)]
pub enum Reply {
    Data(String),
    Error(String),
}

/// What `convert_reply` returns for each reply.
pub open spec fn spec_convert(r: Reply) -> OutputValue {
    match r {
        Reply::Data(s) => OutputValue::Data(s),
        Reply::Error(s) => OutputValue::Error(s),
    }
}

/// Pure, non-failing record conversion: a data reply becomes an ordinary
/// output value, a reply-level error becomes an error-shaped one.
pub fn convert_reply(r: Reply) -> (v: OutputValue)
    ensures
        v == spec_convert(r),
{
    match r {
        Reply::Data(s) => OutputValue::Data(s),
        Reply::Error(s) => OutputValue::Error(s),
    }
}

/// The correlator's lifecycle: `Idle` (no open reply channel), `Draining`
/// (one reply channel open, batch accumulating), `Terminal` (no more
/// requests and no open channel; the outer sequence is over).
#[derive(Clone, Copy, Debug, PartialEq, Eq)]
pub enum BridgeState {
    Idle,
    Draining,
    Terminal,
}

/// What an `Idle` transition asks of its driver.
#[derive(Debug)]
pub enum IdleOutcome {
    /// Issue this payload and open a fresh reply channel for it.
    Issue(String),
    /// The upstream item was unusable; pull the next one.
    Skipped,
    /// The whole outer sequence ends here.
    Finished,
}

/// What a `Draining` transition asks of its driver.
#[derive(Debug)]
pub enum DrainOutcome {
    /// The reply channel closed: this finished batch is the next element of
    /// the outer sequence, and the machine is `Idle` again.
    Emitted(Vec<OutputValue>),
    /// Still draining; poll again.
    Pending,
    /// Cancellation was observed: the partial buffer is discarded and the
    /// whole outer sequence ends without it.
    Finished,
}

/// The state machine. The ghost `emitted` history records every batch ever
/// handed out, in order, so contracts can state that batches are emitted in
/// request order and that a cancelled batch never appears.
pub struct Correlator {
    state: BridgeState,
    buffer: Vec<OutputValue>,
    emitted: Ghost<Seq<Seq<OutputValue>>>,
}

impl Correlator {
    /// Current lifecycle state.
    pub closed spec fn state(self) -> BridgeState {
        self.state
    }

    /// The partial batch accumulated for the request now draining.
    pub closed spec fn buffered(self) -> Seq<OutputValue> {
        self.buffer@
    }

    /// Every batch emitted so far, in emission order.
    pub closed spec fn emitted(self) -> Seq<Seq<OutputValue>> {
        self.emitted@
    }

    /// A batch buffer only ever exists while a reply channel is open.
    pub open spec fn inv(self) -> bool {
        !(self.state() is Draining) ==> self.buffered() == Seq::<OutputValue>::empty()
    }

    /// A fresh correlator: `Idle`, nothing buffered, nothing emitted.
    pub fn new() -> (c: Correlator)
        ensures
            c.inv(),
            c.state() is Idle,
            c.buffered() == Seq::<OutputValue>::empty(),
            c.emitted() == Seq::<Seq<OutputValue>>::empty(),
    {
        Correlator { state: BridgeState::Idle, buffer: Vec::new(), emitted: Ghost(Seq::empty()) }
    }

    /// Exec view of the lifecycle state.
    pub fn current_state(&self) -> (s: BridgeState)
        ensures
            s == self.state(),
    {
        self.state
    }

    /// One `Idle` decision. `cancelled` is the polled cancellation flag and
    /// wins over everything; `upstream` is the next upstream item, `None`
    /// when upstream is exhausted. Cancellation and exhaustion both end the
    /// outer sequence (there is nothing buffered to discard); an unusable
    /// item is skipped; a usable payload opens a fresh, empty batch.
    pub fn step_idle(&mut self, cancelled: bool, upstream: Option<UpstreamItem>) -> (r:
        IdleOutcome)
        requires
            old(self).inv(),
            old(self).state() is Idle,
        ensures
            final(self).inv(),
            final(self).emitted() == old(self).emitted(),
            cancelled ==> final(self).state() is Terminal && r is Finished,
            !cancelled && upstream is None ==> final(self).state() is Terminal && r is Finished,
            !cancelled ==> (upstream matches Some(UpstreamItem::Unusable)
                ==> *final(self) == *old(self) && r is Skipped),
            !cancelled ==> (upstream matches Some(UpstreamItem::Usable(p))
                ==> final(self).state() is Draining
                    && final(self).buffered() == Seq::<OutputValue>::empty()
                    && r == IdleOutcome::Issue(p)),
    {
        if cancelled {
            self.state = BridgeState::Terminal;
            IdleOutcome::Finished
        } else {
            match upstream {
                None => {
                    self.state = BridgeState::Terminal;
                    IdleOutcome::Finished
                },
                Some(UpstreamItem::Unusable) => IdleOutcome::Skipped,
                Some(UpstreamItem::Usable(p)) => {
                    self.state = BridgeState::Draining;
                    self.buffer = Vec::new();
                    IdleOutcome::Issue(p)
                },
            }
        }
    }

    /// One `Draining` decision. `cancelled` is polled first and ends the
    /// whole sequence at once, discarding the partial buffer: no partial
    /// batch is ever emitted. Otherwise `poll` is the outcome of one
    /// bounded-wait receive: a reply is converted and appended (arrival
    /// order preserved), an expired wait changes nothing, and closure emits
    /// the finished batch -- empty batches included -- returning the
    /// machine to `Idle`.
    pub fn step_draining(&mut self, cancelled: bool, poll: PollOutcome<Reply>) -> (r: DrainOutcome)
        requires
            old(self).inv(),
            old(self).state() is Draining,
        ensures
            final(self).inv(),
            cancelled
                ==> final(self).state() is Terminal
                    && final(self).emitted() == old(self).emitted()
                    && r is Finished,
            !cancelled ==> (poll matches PollOutcome::Item(rep)
                ==> final(self).state() is Draining
                    && final(self).buffered() == old(self).buffered().push(spec_convert(rep))
                    && final(self).emitted() == old(self).emitted()
                    && r is Pending),
            !cancelled && poll is TimedOut ==> *final(self) == *old(self) && r is Pending,
            !cancelled && poll is Closed
                ==> final(self).state() is Idle
                    && final(self).buffered() == Seq::<OutputValue>::empty()
                    && final(self).emitted() == old(self).emitted().push(old(self).buffered())
                    && (r matches DrainOutcome::Emitted(b) && b@ == old(self).buffered()),
    {
        if cancelled {
            self.state = BridgeState::Terminal;
            self.buffer = Vec::new();
            DrainOutcome::Finished
        } else {
            match poll {
                PollOutcome::Item(rep) => {
                    self.buffer.push(convert_reply(rep));
                    DrainOutcome::Pending
                },
                PollOutcome::TimedOut => DrainOutcome::Pending,
                PollOutcome::Closed => {
                    let mut batch: Vec<OutputValue> = Vec::new();
                    std::mem::swap(&mut batch, &mut self.buffer);
                    self.state = BridgeState::Idle;
                    self.emitted = Ghost(self.emitted@.push(batch@));
                    DrainOutcome::Emitted(batch)
                },
            }
        }
    }
}

} // verus!
