//! The shared active-worker gauge.
//!
//! The gauge counts the tasks currently in the `Running` state. It is a
//! plain shared counter: every handle created by [`ActiveWorkerGauge::clone`]
//! reaches the same count, so the pool, the workers and the pool's panic
//! handler all move one number. The worker-side code moves it exactly as
//! [`crate::lifecycle::event_gauge_move`] says, so over any full task life
//! the moves pair up and the gauge shows no net drift.

use std::sync::atomic::AtomicI64;
use std::sync::atomic::Ordering;
use std::sync::Arc;
use vstd::prelude::*;

verus! {

/// A shared counter of the tasks currently running on the pool's workers.
///
/// Cloning yields another handle to the same counter.
#[derive(Clone)]
pub struct ActiveWorkerGauge {
    inner: Arc<AtomicI64>,
}

impl ActiveWorkerGauge {
    /// A fresh gauge, standing at zero, not yet shared with anyone.
    pub fn new() -> ActiveWorkerGauge {
        ActiveWorkerGauge { inner: Arc::new(AtomicI64::new(0)) }
    }

    /// Relies on `core::sync::atomic::AtomicI64::fetch_add`, reached through
    /// the shared `Arc` handle: moves the shared count by `delta`, atomically,
    /// wrapping on overflow. The count is shared between threads, so nothing
    /// can be stated about the value any one handle observes.
    #[verifier::external_body]
    pub(crate) fn adjust(&self, delta: i64) {
        self.inner.fetch_add(delta, Ordering::SeqCst);
    }

    /// Relies on `core::sync::atomic::AtomicI64::load`, reached through the
    /// shared `Arc` handle: reads the shared count at some moment. Other
    /// threads may move it concurrently, so nothing can be stated about the
    /// value read.
    #[verifier::external_body]
    pub(crate) fn current(&self) -> i64 {
        self.inner.load(Ordering::SeqCst)
    }
}

} // verus!
