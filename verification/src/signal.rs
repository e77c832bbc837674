//! Cooperative cancellation: a shared, pollable stop flag.

use vstd::prelude::*;

verus! {

/// Shared stop flag polled by every bridge between bounded waits.
///
/// The flag is owned jointly by whoever raises it (the host environment) and
/// the bridges that poll it. Nothing in this crate blocks on it, and the only
/// mutation offered is raising it, so within one bridge's lifetime it never
/// reverts from set to unset.
///
/// Two polls of a shared flag may disagree (another owner may raise it in
/// between), so `is_set` promises nothing about its result; the decision
/// logic of the bridges takes the polled value as an explicit argument and is
/// verified for either value.
#[derive(Clone)]
pub struct CancellationSignal {
    flag: std::sync::Arc<std::sync::atomic::AtomicBool>,
}

impl CancellationSignal {
    /// A fresh signal, initially unset.
    pub fn new() -> (s: CancellationSignal) {
        CancellationSignal {
            flag: std::sync::Arc::new(std::sync::atomic::AtomicBool::new(false)),
        }
    }

    /// Non-blocking poll of the flag.
    pub fn is_set(&self) -> bool {
        self.flag.load(std::sync::atomic::Ordering::SeqCst)
    }

    /// Raise the flag. All clones of this signal observe it.
    pub fn set(&self) {
        self.flag.store(true, std::sync::atomic::Ordering::SeqCst);
    }
}

} // verus!
