//! A process-wide facility for running CPU-intensive work on a fixed pool of
//! worker threads, off the caller's own threads.
//!
//! The pool isolates callers from panics inside a submitted computation (a
//! panic is delivered as the [`Panicked`] error and the worker survives), and
//! cancels queued work cooperatively: a task whose caller has stopped waiting
//! for the result is skipped before it ever starts running.

use vstd::prelude::*;

pub mod gauge;
pub mod lifecycle;
pub mod pool;
pub mod submit;

pub use gauge::ActiveWorkerGauge;
pub use pool::WorkerPool;
pub use submit::dispatch;
pub use submit::run_cpu_intensive;
pub use submit::Delivery;
pub use submit::PendingResult;

verus! {

/// Marker error: the submitted computation panicked while a worker ran it.
///
/// It carries no payload beyond its identity; [`Panicked::message`] renders
/// the fixed human-readable description.
#[derive(Clone, Copy, Debug, Eq, PartialEq, Structural)]
pub struct Panicked;

impl Panicked {
    /// The fixed human-readable description of this error.
    pub fn message(&self) -> (s: &'static str)
        ensures
            s@ == "Scheduled job panicked"@,
    {
        "Scheduled job panicked"
    }
}

} // verus!
