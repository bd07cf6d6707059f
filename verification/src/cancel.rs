//! The shared cancellation flag.
//!
//! One token is shared (behind an `Arc`, by the driver) between every
//! traversal worker and whoever may request a cancel. It is reset at the
//! start of every scan, so a cancel requested during an earlier scan
//! cannot suppress a new one, and requesting a cancel is idempotent.
//!
//! A concurrently-mutated flag has no value that a contract could pin
//! down: another thread may flip it between any two observations. The
//! verified traversal therefore never reads the flag itself; the driver
//! reads it and passes the observed value into each worker step, and the
//! workers' contracts state what happens for either value.

use core::sync::atomic::AtomicBool;
use core::sync::atomic::Ordering;
use vstd::prelude::*;

verus! {

pub struct CancelToken {
    flag: AtomicBool,
}

impl CancelToken {
    /// A fresh token, with no cancel requested.
    pub fn new() -> CancelToken {
        CancelToken { flag: AtomicBool::new(false) }
    }

    /// Clear the flag at the start of a new scan.
    pub fn reset(&self) {
        self.flag.store(false, Ordering::SeqCst);
    }

    /// Ask everything in flight to stop at its next check.
    pub fn request_cancel(&self) {
        self.flag.store(true, Ordering::SeqCst);
    }

    /// The flag's value at this instant; it may change at any time.
    pub fn is_cancelled(&self) -> bool {
        self.flag.load(Ordering::SeqCst)
    }
}

} // verus!
