//! Scripted whole-run drivers for the correlator, and the laws proved over
//! them.
//!
//! A script is the complete record of what the environment did during one
//! run: the upstream items in order, and, for each request, the happenings
//! on its reply channel up to the close signal. Replaying a script through
//! the verified state machine yields the run's full output, and the
//! contracts here pin that output exactly: one batch per usable request, in
//! request order, each batch the converted replies of its own channel in
//! arrival order, and, under cancellation, exactly the fully drained
//! batches with the interrupted one discarded.

use vstd::prelude::*;

use crate::bridge::{aggregate_step, bridge_step, AggregateDecision, BridgeDecision};
use crate::channel::PollOutcome;
use crate::correlator::{
    spec_convert, Correlator, DrainOutcome, IdleOutcome, Reply, UpstreamItem,
};
use crate::OutputValue;

verus! {

/// One scripted happening on an open reply channel: a reply is delivered,
/// or one bounded wait expires with nothing. The close signal is not an
/// event: every script ends with it implicitly.
#[derive(Clone, Debug)]
pub enum DrainEvent {
    Reply(Reply),
    Wait,
}

/// The replies a script delivers, in arrival order.
pub open spec fn replies_of(script: Seq<DrainEvent>) -> Seq<Reply>
    decreases script.len(),
{
    if script.len() == 0 {
        Seq::empty()
    } else {
        match script.first() {
            DrainEvent::Reply(r) => seq![r] + replies_of(script.drop_first()),
            DrainEvent::Wait => replies_of(script.drop_first()),
        }
    }
}

/// The batch one request's script produces: its replies, converted, in
/// arrival order.
pub open spec fn batch_of(script: Seq<DrainEvent>) -> Seq<OutputValue> {
    replies_of(script).map_values(|r: Reply| spec_convert(r))
}

/// How many upstream items are usable payloads.
pub open spec fn usable_count(requests: Seq<UpstreamItem>) -> nat
    decreases requests.len(),
{
    if requests.len() == 0 {
        0
    } else {
        (match requests.first() {
            UpstreamItem::Usable(_) => 1 as nat,
            UpstreamItem::Unusable => 0 as nat,
        }) + usable_count(requests.drop_first())
    }
}

/// The complete output of an uncancelled run: `requests` and `scripts` are
/// aligned index by index; an unusable request contributes nothing (its
/// script goes unused), a usable one contributes its script's batch.
pub open spec fn correlate_spec(
    requests: Seq<UpstreamItem>,
    scripts: Seq<Seq<DrainEvent>>,
) -> Seq<Seq<OutputValue>>
    decreases requests.len(),
{
    if requests.len() == 0 {
        Seq::empty()
    } else {
        match requests.first() {
            UpstreamItem::Unusable => correlate_spec(requests.drop_first(), scripts.drop_first()),
            UpstreamItem::Usable(_) => seq![batch_of(scripts.first())] + correlate_spec(
                requests.drop_first(),
                scripts.drop_first(),
            ),
        }
    }
}

/// Replays one request's script through a draining machine and returns the
/// batch emitted at the close signal.
fn drain_scripted(c: &mut Correlator, script: Vec<DrainEvent>) -> (b: Vec<OutputValue>)
    requires
        old(c).inv(),
        old(c).state() is Draining,
        old(c).buffered() == Seq::<OutputValue>::empty(),
    ensures
        final(c).inv(),
        final(c).state() is Idle,
        final(c).buffered() == Seq::<OutputValue>::empty(),
        b@ == batch_of(script@),
        final(c).emitted() == old(c).emitted().push(b@),
{
    let ghost s0 = script@;
    let mut script = script;
    while script.len() > 0
        invariant
            c.inv(),
            c.state() is Draining,
            c.emitted() == old(c).emitted(),
            c.buffered() + batch_of(script@) == batch_of(s0),
        decreases script.len(),
    {
        let ghost before = script@;
        let ev = script.remove(0);
        proof {
            assert(script@ =~= before.drop_first());
            assert(before.first() == ev);
        }
        match ev {
            DrainEvent::Reply(rep) => {
                proof {
                    assert(replies_of(before) == seq![rep] + replies_of(before.drop_first()));
                    assert(batch_of(before) =~= seq![spec_convert(rep)] + batch_of(
                        before.drop_first(),
                    ));
                }
                let ghost buf = c.buffered();
                c.step_draining(false, PollOutcome::Item(rep));
                proof {
                    assert(c.buffered() + batch_of(script@) =~= buf + batch_of(before));
                }
            },
            DrainEvent::Wait => {
                c.step_draining(false, PollOutcome::TimedOut);
            },
        }
    }
    proof {
        assert(batch_of(script@) =~= Seq::<OutputValue>::empty());
        assert(c.buffered() =~= batch_of(s0));
    }
    let r = c.step_draining(false, PollOutcome::Closed);
    match r {
        DrainOutcome::Emitted(b) => b,
        _ => {
            proof {
                assert(false);
            }
            Vec::new()
        },
    }
}

/// Replays a whole uncancelled run: every upstream item is pulled in order,
/// unusable ones are skipped, and each usable one is driven to its emitted
/// batch before the next is pulled. The output is exactly
/// [`correlate_spec`] of the script, and the machine ends `Terminal` with
/// the same batches in its emission history.
pub fn correlate(requests: Vec<UpstreamItem>, scripts: Vec<Vec<DrainEvent>>) -> (out: Vec<
    Vec<OutputValue>,
>)
    requires
        requests@.len() == scripts@.len(),
    ensures
        out@.map_values(|b: Vec<OutputValue>| b@) == correlate_spec(
            requests@,
            scripts@.map_values(|s: Vec<DrainEvent>| s@),
        ),
        out@.len() == usable_count(requests@),
{
    let ghost r0 = requests@;
    let ghost s0 = scripts@.map_values(|s: Vec<DrainEvent>| s@);
    let mut requests = requests;
    let mut scripts = scripts;
    let mut c = Correlator::new();
    let mut out: Vec<Vec<OutputValue>> = Vec::new();
    while requests.len() > 0
        invariant
            c.inv(),
            c.state() is Idle,
            c.buffered() == Seq::<OutputValue>::empty(),
            requests@.len() == scripts@.len(),
            c.emitted() == out@.map_values(|b: Vec<OutputValue>| b@),
            out@.map_values(|b: Vec<OutputValue>| b@) + correlate_spec(
                requests@,
                scripts@.map_values(|s: Vec<DrainEvent>| s@),
            ) == correlate_spec(r0, s0),
        decreases requests.len(),
    {
        let ghost req_before = requests@;
        let ghost scr_before = scripts@.map_values(|s: Vec<DrainEvent>| s@);
        let item = requests.remove(0);
        let script = scripts.remove(0);
        proof {
            assert(requests@ =~= req_before.drop_first());
            assert(scripts@.map_values(|s: Vec<DrainEvent>| s@) =~= scr_before.drop_first());
            assert(script@ == scr_before.first());
        }
        let r = c.step_idle(false, Some(item));
        match r {
            IdleOutcome::Issue(_) => {
                let b = drain_scripted(&mut c, script);
                let ghost outv_before = out@.map_values(|bb: Vec<OutputValue>| bb@);
                out.push(b);
                proof {
                    assert(out@.map_values(|bb: Vec<OutputValue>| bb@) =~= outv_before.push(b@));
                    assert(outv_before.push(b@) + correlate_spec(
                        requests@,
                        scripts@.map_values(|s: Vec<DrainEvent>| s@),
                    ) =~= outv_before + correlate_spec(req_before, scr_before));
                }
            },
            IdleOutcome::Skipped => {
            },
            IdleOutcome::Finished => {
                proof {
                    assert(false);
                }
            },
        }
    }
    proof {
        assert(correlate_spec(requests@, scripts@.map_values(|s: Vec<DrainEvent>| s@))
            =~= Seq::<Seq<OutputValue>>::empty());
        assert(out@.map_values(|b: Vec<OutputValue>| b@) =~= correlate_spec(r0, s0));
        lemma_batch_count(r0, s0);
    }
    // Upstream is exhausted: one last pull reports it and the machine
    // reaches its terminal state.
    let _ = c.step_idle(false, None);
    out
}

/// Replays a run in which cancellation is observed while the batch with
/// index `cancel_batch` is draining, after `cancel_step` of its channel
/// happenings (or all of them, if it has fewer); when `cancel_batch`
/// equals the number of usable requests, cancellation is observed instead
/// at the idle pull after the last batch. Either way the run yields
/// exactly the fully drained batches -- a prefix of the uncancelled
/// output, the whole of it in the latter case -- and an interrupted
/// batch's buffer is discarded, never emitted.
pub fn correlate_cancelled(
    requests: Vec<UpstreamItem>,
    scripts: Vec<Vec<DrainEvent>>,
    cancel_batch: usize,
    cancel_step: usize,
) -> (out: Vec<Vec<OutputValue>>)
    requires
        requests@.len() == scripts@.len(),
        cancel_batch <= usable_count(requests@),
    ensures
        out@.len() == cancel_batch,
        out@.map_values(|b: Vec<OutputValue>| b@) == correlate_spec(
            requests@,
            scripts@.map_values(|s: Vec<DrainEvent>| s@),
        ).take(cancel_batch as int),
{
    let ghost r0 = requests@;
    let ghost s0 = scripts@.map_values(|s: Vec<DrainEvent>| s@);
    let mut pending = requests;
    let mut queue = scripts;
    let mut c = Correlator::new();
    let mut out: Vec<Vec<OutputValue>> = Vec::new();
    while pending.len() > 0
        invariant
            c.inv(),
            c.state() is Idle,
            c.buffered() == Seq::<OutputValue>::empty(),
            pending@.len() == queue@.len(),
            r0 == requests@,
            s0 == scripts@.map_values(|s: Vec<DrainEvent>| s@),
            c.emitted() == out@.map_values(|b: Vec<OutputValue>| b@),
            out@.len() <= cancel_batch,
            out@.len() + usable_count(pending@) == usable_count(r0),
            cancel_batch <= usable_count(r0),
            out@.map_values(|b: Vec<OutputValue>| b@) + correlate_spec(
                pending@,
                queue@.map_values(|s: Vec<DrainEvent>| s@),
            ) == correlate_spec(r0, s0),
        decreases pending.len(),
    {
        let ghost req_before = pending@;
        let ghost scr_before = queue@.map_values(|s: Vec<DrainEvent>| s@);
        let item = pending.remove(0);
        let script = queue.remove(0);
        proof {
            assert(pending@ =~= req_before.drop_first());
            assert(queue@.map_values(|s: Vec<DrainEvent>| s@) =~= scr_before.drop_first());
            assert(script@ == scr_before.first());
        }
        let r = c.step_idle(false, Some(item));
        match r {
            IdleOutcome::Issue(_) => {
                if out.len() < cancel_batch {
                    let b = drain_scripted(&mut c, script);
                    let ghost outv_before = out@.map_values(|bb: Vec<OutputValue>| bb@);
                    out.push(b);
                    proof {
                        assert(out@.map_values(|bb: Vec<OutputValue>| bb@) =~= outv_before.push(
                            b@,
                        ));
                        assert(outv_before.push(b@) + correlate_spec(
                            pending@,
                            queue@.map_values(|s: Vec<DrainEvent>| s@),
                        ) =~= outv_before + correlate_spec(req_before, scr_before));
                    }
                } else {
                    // Drain part of this batch, then observe cancellation:
                    // the partial buffer is discarded and the run ends.
                    let kmax = if cancel_step < script.len() {
                        cancel_step
                    } else {
                        script.len()
                    };
                    let mut i: usize = 0;
                    while i < kmax
                        invariant
                            c.inv(),
                            c.state() is Draining,
                            c.emitted() == out@.map_values(|bb: Vec<OutputValue>| bb@),
                            i <= kmax,
                            kmax <= script@.len(),
                        decreases kmax - i,
                    {
                        let ev = script[i].clone();
                        match ev {
                            DrainEvent::Reply(rep) => {
                                c.step_draining(false, PollOutcome::Item(rep));
                            },
                            DrainEvent::Wait => {
                                c.step_draining(false, PollOutcome::TimedOut);
                            },
                        }
                        i += 1;
                    }
                    c.step_draining(true, PollOutcome::TimedOut);
                    proof {
                        assert(out@.len() == cancel_batch);
                        assert(out@.map_values(|b: Vec<OutputValue>| b@) + correlate_spec(
                            req_before,
                            scr_before,
                        ) == correlate_spec(r0, s0));
                        assert(correlate_spec(r0, s0).take(cancel_batch as int) =~= out@.map_values(
                            |b: Vec<OutputValue>| b@,
                        ));
                    }
                    return out;
                }
            },
            IdleOutcome::Skipped => {
            },
            IdleOutcome::Finished => {
                proof {
                    assert(false);
                }
            },
        }
    }
    proof {
        assert(usable_count(pending@) == 0);
        assert(out@.len() == cancel_batch);
        assert(correlate_spec(pending@, queue@.map_values(|s: Vec<DrainEvent>| s@))
            =~= Seq::<Seq<OutputValue>>::empty());
        assert(correlate_spec(r0, s0).take(cancel_batch as int) =~= out@.map_values(
            |b: Vec<OutputValue>| b@,
        ));
    }
    // Every usable request was drained before the signal was seen:
    // cancellation is observed at the idle pull after the last batch, the
    // machine terminates, and the whole uncancelled output stands.
    let _ = c.step_idle(true, None);
    out
}

/// Law: one batch per usable request. The correlator never skips a usable
/// request and never emits a batch no request asked for.
pub proof fn lemma_batch_count(requests: Seq<UpstreamItem>, scripts: Seq<Seq<DrainEvent>>)
    requires
        requests.len() == scripts.len(),
    ensures
        correlate_spec(requests, scripts).len() == usable_count(requests),
    decreases requests.len(),
{
    if requests.len() == 0 {
    } else {
        lemma_batch_count(requests.drop_first(), scripts.drop_first());
    }
}

/// Law: for requests that are all usable, each followed by its replies and
/// a close signal, the correlator yields exactly one batch per request, the
/// i-th batch holding the i-th request's replies, converted, in arrival
/// order, and batches standing in request order.
pub proof fn lemma_each_request_one_batch(
    requests: Seq<UpstreamItem>,
    scripts: Seq<Seq<DrainEvent>>,
)
    requires
        requests.len() == scripts.len(),
        forall|i: int| 0 <= i < requests.len() ==> requests[i] is Usable,
    ensures
        correlate_spec(requests, scripts).len() == requests.len(),
        forall|i: int|
            0 <= i < requests.len() ==> correlate_spec(requests, scripts)[i] == batch_of(
                scripts[i],
            ),
        forall|i: int|
            0 <= i < requests.len() ==> correlate_spec(requests, scripts)[i].len() == replies_of(
                scripts[i],
            ).len(),
    decreases requests.len(),
{
    if requests.len() == 0 {
    } else {
        assert(requests[0] is Usable);
        assert forall|j: int|
            0 <= j < requests.drop_first().len() implies requests.drop_first()[j] is Usable by {
            assert(requests.drop_first()[j] == requests[j + 1]);
        }
        lemma_each_request_one_batch(requests.drop_first(), scripts.drop_first());
        let rest = correlate_spec(requests.drop_first(), scripts.drop_first());
        assert(correlate_spec(requests, scripts) =~= seq![batch_of(scripts.first())] + rest);
        assert forall|i: int|
            0 <= i < requests.len() implies correlate_spec(requests, scripts)[i] == batch_of(
            scripts[i],
        ) by {
            if i > 0 {
                assert(rest[i - 1] == batch_of(scripts.drop_first()[i - 1]));
                assert(scripts.drop_first()[i - 1] == scripts[i]);
            }
        }
    }
}

/// Law: a malformed upstream item is skipped without altering the batch
/// count or the order of the batches of the surrounding usable requests:
/// removing it, with its unused script, leaves the output unchanged.
pub proof fn lemma_unusable_skipped(
    requests: Seq<UpstreamItem>,
    scripts: Seq<Seq<DrainEvent>>,
    i: int,
)
    requires
        requests.len() == scripts.len(),
        0 <= i < requests.len(),
        requests[i] is Unusable,
    ensures
        correlate_spec(requests, scripts) == correlate_spec(
            requests.remove(i),
            scripts.remove(i),
        ),
    decreases i,
{
    if i == 0 {
        assert(requests.first() is Unusable);
        assert(requests.remove(0) =~= requests.drop_first());
        assert(scripts.remove(0) =~= scripts.drop_first());
    } else {
        assert(requests.drop_first()[i - 1] == requests[i]);
        lemma_unusable_skipped(requests.drop_first(), scripts.drop_first(), i - 1);
        assert(requests.drop_first().remove(i - 1) =~= requests.remove(i).drop_first());
        assert(scripts.drop_first().remove(i - 1) =~= scripts.remove(i).drop_first());
        assert(requests.remove(i).first() == requests.first());
        assert(scripts.remove(i).first() == scripts.first());
    }
}

/// One scripted happening at a live stream bridge: an event is delivered,
/// one bounded wait expires, cancellation is observed, or the producer
/// side closes.
#[derive(Clone, Debug)]
pub enum BridgeEvent<T> {
    Deliver(T),
    Wait,
    Cancel,
    Close,
}

/// The items a live stream yields for a script: every delivered event, in
/// arrival order, up to the first cancellation or closure -- and nothing
/// after either.
pub open spec fn stream_spec<T>(script: Seq<BridgeEvent<T>>) -> Seq<T>
    decreases script.len(),
{
    if script.len() == 0 {
        Seq::empty()
    } else {
        match script.first() {
            BridgeEvent::Deliver(t) => seq![t] + stream_spec(script.drop_first()),
            BridgeEvent::Wait => stream_spec(script.drop_first()),
            BridgeEvent::Cancel => Seq::empty(),
            BridgeEvent::Close => Seq::empty(),
        }
    }
}

/// Law: a producer that closes before any item is delivered yields an
/// empty sequence -- closure resolves the pull at once, never as an error.
pub proof fn lemma_close_before_first_item_is_empty<T>(script: Seq<BridgeEvent<T>>)
    requires
        script.len() > 0,
        script.first() is Close,
    ensures
        stream_spec(script) == Seq::<T>::empty(),
{
}

/// Replays one live-stream run through the bridge's decision rule: the
/// output is exactly the delivered events up to the first cancellation or
/// closure, in arrival order.
pub fn stream_replay<T>(script: Vec<BridgeEvent<T>>) -> (out: Vec<T>)
    ensures
        out@ == stream_spec(script@),
{
    let ghost s0 = script@;
    let mut rest = script;
    let mut out: Vec<T> = Vec::new();
    while rest.len() > 0
        invariant
            s0 == script@,
            out@ + stream_spec(rest@) == stream_spec(s0),
        decreases rest.len(),
    {
        let ghost before = rest@;
        let ev = rest.remove(0);
        proof {
            assert(rest@ =~= before.drop_first());
            assert(before.first() == ev);
        }
        let step: (bool, PollOutcome<T>) = match ev {
            BridgeEvent::Deliver(t) => (false, PollOutcome::Item(t)),
            BridgeEvent::Wait => (false, PollOutcome::TimedOut),
            BridgeEvent::Cancel => (true, PollOutcome::TimedOut),
            BridgeEvent::Close => (false, PollOutcome::Closed),
        };
        match bridge_step(step.0, step.1) {
            BridgeDecision::Yield(t) => {
                let ghost outv = out@;
                out.push(t);
                proof {
                    assert(out@ + stream_spec(rest@) =~= outv + stream_spec(before));
                }
            },
            BridgeDecision::Skip => {},
            BridgeDecision::End => {
                proof {
                    assert(out@ =~= stream_spec(s0));
                }
                return out;
            },
        }
    }
    proof {
        assert(out@ =~= stream_spec(s0));
    }
    out
}

/// The aggregate a trace of receive outcomes produces: every delivered
/// item before the first expired deadline wait or closure, in arrival
/// order, capped at `max_items`. Items delivered after the stopping
/// outcome contribute nothing.
pub open spec fn aggregate_spec<T>(polls: Seq<PollOutcome<T>>, max_items: nat) -> Seq<T>
    decreases polls.len(),
{
    if polls.len() == 0 || max_items == 0 {
        Seq::empty()
    } else {
        match polls.first() {
            PollOutcome::Item(t) => seq![t] + aggregate_spec(
                polls.drop_first(),
                (max_items - 1) as nat,
            ),
            PollOutcome::TimedOut => Seq::empty(),
            PollOutcome::Closed => Seq::empty(),
        }
    }
}

/// Law: the deadline aggregate is exactly the deliveries before the stop.
/// For a trace of `delivered` items followed by a stopping outcome -- the
/// deadline expiring, or every producer handle dropped -- and then
/// anything at all, the aggregate equals `delivered`: all items received
/// strictly before the stop, in arrival order, and none received after.
pub proof fn lemma_aggregate_is_deliveries_before_stop<T>(
    delivered: Seq<T>,
    stop: PollOutcome<T>,
    tail: Seq<PollOutcome<T>>,
    max_items: nat,
)
    requires
        delivered.len() <= max_items,
        stop is TimedOut || stop is Closed,
    ensures
        aggregate_spec(
            delivered.map_values(|t: T| PollOutcome::Item(t)) + seq![stop] + tail,
            max_items,
        ) == delivered,
    decreases delivered.len(),
{
    let script = delivered.map_values(|t: T| PollOutcome::Item(t)) + seq![stop] + tail;
    if delivered.len() == 0 {
        assert(script =~= seq![stop] + tail);
        assert(script.first() == stop);
        assert(aggregate_spec(script, max_items) =~= Seq::<T>::empty());
    } else {
        assert(script.first() == PollOutcome::Item(delivered.first()));
        assert(script.drop_first() =~= delivered.drop_first().map_values(
            |t: T| PollOutcome::Item(t),
        ) + seq![stop] + tail);
        lemma_aggregate_is_deliveries_before_stop(
            delivered.drop_first(),
            stop,
            tail,
            (max_items - 1) as nat,
        );
        assert(aggregate_spec(script, max_items) =~= seq![delivered.first()]
            + delivered.drop_first());
        assert(seq![delivered.first()] + delivered.drop_first() =~= delivered);
    }
}

/// Appending one more receive outcome to a trace of deliveries: one more
/// delivery within the cap extends the aggregate by its item; an expired
/// deadline or a closure leaves the aggregate as it stands.
pub proof fn lemma_aggregate_snoc<T>(polls: Seq<PollOutcome<T>>, p: PollOutcome<T>, max_items: nat)
    requires
        forall|i: int| 0 <= i < polls.len() ==> polls[i] is Item,
        polls.len() <= max_items,
    ensures
        polls.len() < max_items ==> (p matches PollOutcome::Item(t)
            ==> aggregate_spec(polls.push(p), max_items) == aggregate_spec(
                polls,
                max_items,
            ).push(t)),
        p is TimedOut || p is Closed ==> aggregate_spec(polls.push(p), max_items)
            == aggregate_spec(polls, max_items),
    decreases polls.len(),
{
    if polls.len() == 0 {
        assert(polls.push(p) =~= seq![p]);
        if max_items > 0 {
            assert(seq![p].first() == p);
            assert(seq![p].drop_first() =~= Seq::<PollOutcome<T>>::empty());
            match p {
                PollOutcome::Item(t) => {
                    assert(aggregate_spec(seq![p], max_items) == seq![t] + aggregate_spec(
                        Seq::<PollOutcome<T>>::empty(),
                        (max_items - 1) as nat,
                    ));
                    assert(seq![t] + Seq::<T>::empty() =~= Seq::<T>::empty().push(t));
                },
                _ => {},
            }
        }
    } else {
        assert(polls[0] is Item);
        assert(polls.push(p).first() == polls.first());
        assert(polls.push(p).drop_first() =~= polls.drop_first().push(p));
        assert forall|i: int| 0 <= i < polls.drop_first().len() implies polls.drop_first()[i]
            is Item by {
            assert(polls.drop_first()[i] == polls[i + 1]);
        }
        lemma_aggregate_snoc(polls.drop_first(), p, (max_items - 1) as nat);
        match polls.first() {
            PollOutcome::Item(t0) => {
                assert(aggregate_spec(polls, max_items) == seq![t0] + aggregate_spec(
                    polls.drop_first(),
                    (max_items - 1) as nat,
                ));
                assert(aggregate_spec(polls.push(p), max_items) == seq![t0] + aggregate_spec(
                    polls.drop_first().push(p),
                    (max_items - 1) as nat,
                ));
                match p {
                    PollOutcome::Item(t) => {
                        if polls.len() < max_items {
                            assert(aggregate_spec(polls.drop_first().push(p), (max_items - 1) as nat)
                                == aggregate_spec(polls.drop_first(), (max_items - 1) as nat).push(
                                t,
                            ));
                            assert((seq![t0] + aggregate_spec(
                                polls.drop_first(),
                                (max_items - 1) as nat,
                            )).push(t) =~= seq![t0] + aggregate_spec(
                                polls.drop_first(),
                                (max_items - 1) as nat,
                            ).push(t));
                        }
                    },
                    _ => {
                        assert(aggregate_spec(polls.drop_first().push(p), (max_items - 1) as nat)
                            == aggregate_spec(polls.drop_first(), (max_items - 1) as nat));
                    },
                }
            },
            _ => {
                assert(polls.first() == polls[0]);
                assert(false);
            },
        }
    }
}

/// Replays one deadline-aggregate run through the collector's decision
/// rule: the output is exactly [`aggregate_spec`] of the trace.
pub fn aggregate_replay<T>(polls: Vec<PollOutcome<T>>, max_items: usize) -> (out: Vec<T>)
    ensures
        out@ == aggregate_spec(polls@, max_items as nat),
{
    let ghost s0 = polls@;
    let mut rest = polls;
    let mut out: Vec<T> = Vec::new();
    while rest.len() > 0 && out.len() < max_items
        invariant
            s0 == polls@,
            out@.len() <= max_items,
            aggregate_spec(s0, max_items as nat) == out@ + aggregate_spec(
                rest@,
                (max_items - out@.len()) as nat,
            ),
        decreases rest.len(),
    {
        let ghost before = rest@;
        let ghost outv = out@;
        let p = rest.remove(0);
        proof {
            assert(rest@ =~= before.drop_first());
            assert(before.first() == p);
        }
        match aggregate_step(p) {
            AggregateDecision::Append(t) => {
                out.push(t);
                proof {
                    assert(outv + aggregate_spec(before, (max_items - outv.len()) as nat)
                        =~= out@ + aggregate_spec(rest@, (max_items - out@.len()) as nat));
                }
            },
            AggregateDecision::Finish => {
                proof {
                    assert(out@ =~= aggregate_spec(s0, max_items as nat));
                }
                return out;
            },
        }
    }
    proof {
        assert(aggregate_spec(rest@, (max_items - out@.len()) as nat) =~= Seq::<T>::empty());
        assert(out@ =~= aggregate_spec(s0, max_items as nat));
    }
    out
}

} // verus!
