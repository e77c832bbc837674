//! Trusted boundary to the bounded delivery channel (flume) and to
//! monotonic time.
//!
//! A delivery channel carries events of one item type from producer
//! callbacks, running on threads this crate does not control, to a single
//! poll-driven consumer. What a receive attempt returns therefore depends on
//! those other threads: no contract here relates the outcome to the
//! arguments. Instead [`classify`] turns the raw result into a
//! [`PollOutcome`], and the state machines built on top take that outcome as
//! an argument and are verified for every value of it.

use vstd::prelude::*;

verus! {

/// Outcome of one bounded-wait receive attempt on a delivery channel.
#[derive(Debug)]
pub enum PollOutcome<T> {
    /// An event was delivered.
    Item(T),
    /// The wait expired with nothing delivered; the channel may still
    /// deliver events later.
    TimedOut,
    /// All producer handles were dropped and the queue is empty; no event
    /// will ever be delivered again.
    Closed,
}

/// Relies on flume's `Receiver`: the consumer side of one bounded
/// multi-producer single-consumer channel. Opaque here; only the receive
/// calls below touch it.
#[verifier::external_type_specification]
#[verifier::external_body]
#[verifier::reject_recursive_types(T)]
pub struct ExReceiver<T>(flume::Receiver<T>);

/// Relies on flume's `RecvTimeoutError`: `Timeout` when the wait expired,
/// `Disconnected` when all senders are gone and the queue is empty.
#[verifier::external_type_specification]
pub struct ExRecvTimeoutError(flume::RecvTimeoutError);

/// Relies on flume's `Receiver::recv_timeout`: waits up to `dur` for an
/// event. The result depends on producers on other threads, so nothing is
/// promised of it.
pub assume_specification<T>[ flume::Receiver::<T>::recv_timeout ](
    rx: &flume::Receiver<T>,
    dur: core::time::Duration,
) -> Result<T, flume::RecvTimeoutError>;

/// Relies on flume's `Receiver::recv_deadline`: waits until an absolute
/// instant for an event. As above, nothing is promised of the result.
pub assume_specification<T>[ flume::Receiver::<T>::recv_deadline ](
    rx: &flume::Receiver<T>,
    deadline: std::time::Instant,
) -> Result<T, flume::RecvTimeoutError>;

/// Relies on std's `Instant`: an opaque point of the monotonic clock.
#[verifier::external_type_specification]
#[verifier::external_body]
pub struct ExInstant(std::time::Instant);

/// Relies on `Instant::now`: the current instant. It depends on the clock,
/// so nothing is promised of it.
pub assume_specification[ std::time::Instant::now ]() -> std::time::Instant;

/// Relies on `Instant::checked_add`: per its documentation, `None` exactly
/// when the sum cannot be represented; nothing further is promised.
pub assume_specification[ std::time::Instant::checked_add ](
    t: &std::time::Instant,
    d: core::time::Duration,
) -> Option<std::time::Instant>;

/// Relies on `Duration::from_millis`: the duration of that many
/// milliseconds.
pub assume_specification[ core::time::Duration::from_millis ](
    millis: u64,
) -> core::time::Duration;

/// Classifies the raw result of a bounded-wait receive.
pub fn classify<T>(r: Result<T, flume::RecvTimeoutError>) -> (p: PollOutcome<T>)
    ensures
        (match r {
            Ok(t) => p == PollOutcome::Item(t),
            Err(flume::RecvTimeoutError::Timeout) => p is TimedOut,
            Err(flume::RecvTimeoutError::Disconnected) => p is Closed,
        }),
{
    match r {
        Ok(t) => PollOutcome::Item(t),
        Err(flume::RecvTimeoutError::Timeout) => PollOutcome::TimedOut,
        Err(flume::RecvTimeoutError::Disconnected) => PollOutcome::Closed,
    }
}

/// One bounded-wait receive attempt of at most `wait_millis` milliseconds,
/// classified.
pub fn poll_recv<T>(rx: &flume::Receiver<T>, wait_millis: u64) -> PollOutcome<T> {
    classify(rx.recv_timeout(core::time::Duration::from_millis(wait_millis)))
}

/// One receive attempt bounded by an absolute deadline, classified. A
/// deadline already in the past degenerates to a non-blocking attempt.
pub fn poll_recv_deadline<T>(
    rx: &flume::Receiver<T>,
    deadline: std::time::Instant,
) -> PollOutcome<T> {
    classify(rx.recv_deadline(deadline))
}

/// The absolute instant `millis` milliseconds from now. In the
/// unrepresentable case it falls back to now, an already expired deadline.
pub fn deadline_after_millis(millis: u64) -> std::time::Instant {
    let now = std::time::Instant::now();
    match now.checked_add(core::time::Duration::from_millis(millis)) {
        Some(d) => d,
        None => now,
    }
}

} // verus!
