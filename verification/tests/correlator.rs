//! Scripted runs of the correlation state machine.

use nu_zenoh::correlator::{BridgeState, Correlator, DrainOutcome, IdleOutcome, Reply, UpstreamItem};
use nu_zenoh::channel::PollOutcome;
use nu_zenoh::replay::{
    aggregate_replay, correlate, correlate_cancelled, stream_replay, BridgeEvent, DrainEvent,
};
use nu_zenoh::OutputValue;

fn data(s: &str) -> OutputValue {
    OutputValue::Data(s.to_string())
}

fn err(s: &str) -> OutputValue {
    OutputValue::Error(s.to_string())
}

fn usable(s: &str) -> UpstreamItem {
    UpstreamItem::Usable(s.to_string())
}

fn reply(s: &str) -> DrainEvent {
    DrainEvent::Reply(Reply::Data(s.to_string()))
}

#[test]
fn two_requests_one_empty_batch() {
    // Requests ["a","b"]; "a" yields [x1,x2] then closes; "b" yields []
    // then closes. The output is [[x1,x2],[]], the empty batch included.
    let requests = vec![usable("a"), usable("b")];
    let scripts = vec![vec![reply("x1"), reply("x2")], vec![]];
    let out = correlate(requests, scripts);
    assert_eq!(out, vec![vec![data("x1"), data("x2")], vec![]]);
}

#[test]
fn one_batch_per_request_in_order() {
    let requests = vec![usable("a"), usable("b"), usable("c")];
    let scripts = vec![
        vec![reply("a1")],
        vec![],
        vec![reply("c1"), reply("c2"), reply("c3")],
    ];
    let out = correlate(requests, scripts);
    assert_eq!(out.len(), 3);
    assert_eq!(out[0].len(), 1);
    assert_eq!(out[1].len(), 0);
    assert_eq!(out[2], vec![data("c1"), data("c2"), data("c3")]);
}

#[test]
fn expired_waits_change_nothing() {
    let requests = vec![usable("a")];
    let scripts = vec![vec![
        DrainEvent::Wait,
        reply("x1"),
        DrainEvent::Wait,
        DrainEvent::Wait,
        reply("x2"),
        DrainEvent::Wait,
    ]];
    let out = correlate(requests, scripts);
    assert_eq!(out, vec![vec![data("x1"), data("x2")]]);
}

#[test]
fn unusable_items_skipped_without_reordering() {
    // The unusable items alter neither the batch count nor the order of
    // the valid requests' batches.
    let requests = vec![
        UpstreamItem::Unusable,
        usable("a"),
        UpstreamItem::Unusable,
        UpstreamItem::Unusable,
        usable("b"),
    ];
    let scripts = vec![
        vec![reply("junk")],
        vec![reply("a1")],
        vec![],
        vec![],
        vec![reply("b1")],
    ];
    let out = correlate(requests, scripts);
    assert_eq!(out, vec![vec![data("a1")], vec![data("b1")]]);
}

#[test]
fn all_unusable_yields_nothing() {
    let requests = vec![UpstreamItem::Unusable, UpstreamItem::Unusable];
    let scripts = vec![vec![], vec![]];
    let out = correlate(requests, scripts);
    assert!(out.is_empty());
}

#[test]
fn no_requests_yield_no_batches() {
    let out = correlate(vec![], vec![]);
    assert!(out.is_empty());
}

#[test]
fn reply_errors_ride_inside_the_batch() {
    // A reply-level error is converted to an error-shaped value in place;
    // it aborts nothing.
    let requests = vec![usable("a")];
    let scripts = vec![vec![
        reply("x1"),
        DrainEvent::Reply(Reply::Error("boom".to_string())),
        reply("x2"),
    ]];
    let out = correlate(requests, scripts);
    assert_eq!(out, vec![vec![data("x1"), err("boom"), data("x2")]]);
}

#[test]
fn cancellation_discards_the_draining_batch() {
    // Cancellation while batch 1 drains: batch 0 was already emitted,
    // batch 1's partial buffer is discarded, nothing follows.
    let requests = vec![usable("a"), usable("b"), usable("c")];
    let scripts = vec![
        vec![reply("a1"), reply("a2")],
        vec![reply("b1"), reply("b2")],
        vec![reply("c1")],
    ];
    let out = correlate_cancelled(requests, scripts, 1, 1);
    assert_eq!(out, vec![vec![data("a1"), data("a2")]]);
}

#[test]
fn cancellation_before_any_batch_yields_nothing() {
    let requests = vec![usable("a")];
    let scripts = vec![vec![reply("a1")]];
    let out = correlate_cancelled(requests, scripts, 0, 0);
    assert!(out.is_empty());
}

#[test]
fn cancellation_after_all_batches_keeps_them_all() {
    // Cancellation observed only at the idle pull after the last batch:
    // the whole uncancelled output stands.
    let requests = vec![usable("a"), usable("b")];
    let scripts = vec![vec![reply("a1")], vec![reply("b1"), reply("b2")]];
    let out = correlate_cancelled(requests, scripts, 2, 0);
    assert_eq!(out, vec![vec![data("a1")], vec![data("b1"), data("b2")]]);
}

#[test]
fn aggregate_keeps_deliveries_before_the_deadline() {
    // Items delivered before the deadline expires are returned in arrival
    // order; one delivered after it contributes nothing.
    let polls = vec![
        PollOutcome::Item("early-1"),
        PollOutcome::Item("early-2"),
        PollOutcome::TimedOut,
        PollOutcome::Item("late"),
    ];
    assert_eq!(aggregate_replay(polls, 16), vec!["early-1", "early-2"]);
}

#[test]
fn aggregate_stops_at_closure_keeping_prior_deliveries() {
    let polls = vec![
        PollOutcome::Item(1u64),
        PollOutcome::Closed,
        PollOutcome::Item(2u64),
    ];
    assert_eq!(aggregate_replay(polls, 16), vec![1]);
}

#[test]
fn aggregate_of_immediate_closure_is_empty() {
    let polls: Vec<PollOutcome<u64>> = vec![PollOutcome::Closed];
    assert!(aggregate_replay(polls, 16).is_empty());
}

#[test]
fn aggregate_honors_the_item_cap() {
    let polls = vec![
        PollOutcome::Item(1u64),
        PollOutcome::Item(2u64),
        PollOutcome::Item(3u64),
        PollOutcome::TimedOut,
    ];
    assert_eq!(aggregate_replay(polls, 2), vec![1, 2]);
}

#[test]
fn stream_yields_until_cancellation() {
    // Events e1, e2 are delivered, then cancellation is observed before
    // any e3: the stream is exactly [e1, e2], then termination.
    let script = vec![
        BridgeEvent::Deliver("e1"),
        BridgeEvent::Wait,
        BridgeEvent::Deliver("e2"),
        BridgeEvent::Cancel,
        BridgeEvent::Deliver("e3"),
    ];
    assert_eq!(stream_replay(script), vec!["e1", "e2"]);
}

#[test]
fn stream_of_immediately_closed_producer_is_empty() {
    let script: Vec<BridgeEvent<&str>> = vec![BridgeEvent::Close, BridgeEvent::Deliver("late")];
    assert!(stream_replay(script).is_empty());
}

#[test]
fn stream_ends_at_closure_keeping_prior_events() {
    let script = vec![
        BridgeEvent::Deliver(1u64),
        BridgeEvent::Deliver(2u64),
        BridgeEvent::Close,
        BridgeEvent::Deliver(3u64),
    ];
    assert_eq!(stream_replay(script), vec![1, 2]);
}

#[test]
fn machine_emits_empty_batch_on_immediate_close() {
    let mut c = Correlator::new();
    assert_eq!(c.current_state(), BridgeState::Idle);
    let r = c.step_idle(false, Some(usable("q")));
    assert!(matches!(r, IdleOutcome::Issue(p) if p == "q"));
    assert_eq!(c.current_state(), BridgeState::Draining);
    match c.step_draining(false, PollOutcome::Closed) {
        DrainOutcome::Emitted(b) => assert!(b.is_empty()),
        _ => panic!("closing the reply channel must emit the batch"),
    }
    assert_eq!(c.current_state(), BridgeState::Idle);
}

#[test]
fn machine_terminates_on_exhausted_upstream() {
    let mut c = Correlator::new();
    let r = c.step_idle(false, None);
    assert!(matches!(r, IdleOutcome::Finished));
    assert_eq!(c.current_state(), BridgeState::Terminal);
}

#[test]
fn machine_skips_unusable_item() {
    let mut c = Correlator::new();
    let r = c.step_idle(false, Some(UpstreamItem::Unusable));
    assert!(matches!(r, IdleOutcome::Skipped));
    assert_eq!(c.current_state(), BridgeState::Idle);
}

#[test]
fn machine_cancelled_while_idle_terminates() {
    let mut c = Correlator::new();
    let r = c.step_idle(true, Some(usable("q")));
    assert!(matches!(r, IdleOutcome::Finished));
    assert_eq!(c.current_state(), BridgeState::Terminal);
}
