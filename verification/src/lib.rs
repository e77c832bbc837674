//! Push-to-pull bridging for a publish/subscribe networking stack.
//!
//! Network events arrive on callback threads the consumer does not control.
//! This crate turns them into lazily pulled, cooperatively cancellable
//! sequences: a live event bridge, a deadline-bounded aggregate collector,
//! and a batched request/reply correlator that pairs each outbound request
//! with exactly one ordered batch of replies.

pub mod bridge;
pub mod channel;
pub mod cmd;
pub mod correlator;
pub mod decode;
pub mod replay;
pub mod signal;

use vstd::prelude::*;

verus! {

/// Converted value handed to the downstream consumer: either ordinary data
/// or an error-shaped item carried inside the stream without aborting it.
#[derive(Clone, Debug, PartialEq, Eq)]
pub enum OutputValue {
    Data(String),
    Error(String),
}

} // verus!
