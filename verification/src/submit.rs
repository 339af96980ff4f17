//! Submitting a task and receiving its outcome.
//!
//! A submission wires a fresh single-use completion channel between the
//! submitter and a worker-side task body queued on the pool. The worker
//! drives the task through the lifecycle of [`crate::lifecycle`]: it first
//! checks whether the submitter still holds the receiving end (check, then
//! act), runs the computation only then, and delivers the outcome through
//! the channel. A panic in the computation never crosses back raw: the
//! sender is dropped without sending, and the delivery side turns that into
//! the [`Panicked`] error.
//!
//! The computation's postcondition travels with the channel, the way
//! `vstd::thread::spawn` passes a closure's postcondition through its join
//! handle: [`dispatch`] wraps both halves of the channel with one predicate
//! — "a possible return value of the computation" — the sending side admits
//! only values satisfying it, and the receiving side yields only such
//! values. So a successful [`PendingResult::wait`] or [`run_cpu_intensive`]
//! provably carries the computation's own result.

use vstd::prelude::*;

use crate::gauge::ActiveWorkerGauge;
use crate::lifecycle::step;
use crate::lifecycle::TaskEvent;
use crate::lifecycle::TaskState;
use crate::pool::WorkerPool;
use crate::Panicked;

verus! {

#[verifier::external_type_specification]
#[verifier::external_body]
#[verifier::reject_recursive_types(T)]
pub struct ExOneshotSender<T>(futures::channel::oneshot::Sender<T>);

#[verifier::external_type_specification]
#[verifier::external_body]
#[verifier::reject_recursive_types(T)]
pub struct ExOneshotReceiver<T>(futures::channel::oneshot::Receiver<T>);

#[verifier::external_type_specification]
#[verifier::external_body]
pub struct ExOneshotCanceled(futures::channel::oneshot::Canceled);

/// The worker's half of one submitted task: the sending end of its
/// completion channel, together with the task's result predicate — every
/// value this half is allowed to send satisfies it.
///
/// Created only by [`dispatch`], which gives this half and the paired
/// [`PendingResult`] the same predicate.
#[verifier::reject_recursive_types(R)]
struct TaskSender<R> {
    tx: futures::channel::oneshot::Sender<R>,
    on: Ghost<spec_fn(R) -> bool>,
}

/// Relies on `futures::channel::oneshot::channel`: the two halves of one
/// fresh single-use completion channel. A value sent on the sender is what
/// the receiver yields; dropping one half is what the other half's
/// cancellation queries observe.
#[verifier::external_body]
fn completion_channel<T>() -> (
    futures::channel::oneshot::Sender<T>,
    futures::channel::oneshot::Receiver<T>,
) {
    futures::channel::oneshot::channel()
}

/// Relies on `futures::channel::oneshot::Sender::is_canceled`: whether the
/// paired receiver had been dropped at the moment of the call. The receiver
/// side moves concurrently, so nothing is promised of the answer; the worker
/// body acts correctly on either.
#[verifier::external_body]
fn receiver_gone<R>(tx: &TaskSender<R>) -> bool {
    tx.tx.is_canceled()
}

/// Relies on `futures::channel::oneshot::Sender::send`: delivers the value
/// to the paired receiver, or — when the receiver was dropped meanwhile —
/// hands it back, and this completion is simply discarded. Only a value
/// satisfying the sender's result predicate may pass here; that is what
/// lets [`receive_blocking`] promise the predicate of whatever it receives.
#[verifier::external_body]
fn deliver_completion<R>(tx: TaskSender<R>, value: R)
    requires
        (tx.on@)(value),
{
    let _ = tx.tx.send(value);
}

/// The worker-side body of one task, run on a pool worker thread.
///
/// Check, then act: the task is picked up, and the computation runs only
/// when the submitter still holds the receiving end. Every transition and
/// every gauge move is the one [`step`] prescribes, and the only value ever
/// delivered is the computation's own result. If the computation panics,
/// control never returns here — the pool's panic handler records the
/// finish, and dropping `tx` tells the submitter.
fn worker_task<F, R>(f: F, tx: TaskSender<R>, gauge: ActiveWorkerGauge) where
    F: FnOnce() -> R + Send + 'static,
    R: Send + 'static,

    requires
        call_requires(f, ()),
        forall|v: R| call_ensures(f, (), v) ==> (tx.on@)(v),
{
    let interested = !receiver_gone(&tx);
    let (state, gauge_move) = step(TaskState::Queued, TaskEvent::Pickup { interested });
    if gauge_move != 0 {
        gauge.adjust(gauge_move);
    }
    match state {
        TaskState::Running => {
            let value = f();
            let (end, end_move) = step(state, TaskEvent::Finish { panicked: false });
            assert(end == TaskState::Completed);
            gauge.adjust(end_move);
            deliver_completion(tx, value);
        },
        _ => {
            // The submitter stopped waiting while the task was queued: it
            // ends `Cancelled`, the computation never runs, the gauge never
            // moved, and dropping `tx` resolves the abandoned channel.
            assert(state == TaskState::Cancelled);
        },
    }
}

/// Relies on `rayon::ThreadPool::spawn`: queues the given job and runs it
/// exactly once on one of the pool's worker threads, without blocking the
/// caller. The job queued here is the verified worker-side task body
/// [`worker_task`]; this item's own `requires` restates that body's, so the
/// queued call meets them.
#[verifier::external_body]
fn spawn_worker<F, R>(pool: &WorkerPool, tx: TaskSender<R>, f: F) where
    F: FnOnce() -> R + Send + 'static,
    R: Send + 'static,

    requires
        call_requires(f, ()),
        forall|v: R| call_ensures(f, (), v) ==> (tx.on@)(v),
{
    let gauge = pool.gauge.clone();
    pool.pool.spawn(move || worker_task(f, tx, gauge));
}

/// What the completion channel yielded to the waiting submitter.
pub enum Delivery<R> {
    /// The worker delivered the computation's value.
    Received(R),
    /// The sending half was dropped without a value: the worker body was
    /// interrupted by a panic in the computation.
    SenderDropped,
}

/// The submitter's result for each thing the completion channel can yield:
/// a received value passes through unchanged, and a dropped sender — a
/// computation that panicked — is the `Panicked` error, exactly then.
pub open spec fn delivered_result<R>(d: Delivery<R>) -> Result<R, Panicked> {
    match d {
        Delivery::Received(value) => Ok(value),
        Delivery::SenderDropped => Err(Panicked),
    }
}

/// Turns what the completion channel yielded into the submitter's result —
/// the single decision of the delivery side, stated exactly by
/// [`delivered_result`].
pub fn deliver<R>(d: Delivery<R>) -> (r: Result<R, Panicked>)
    ensures
        r == delivered_result(d),
{
    match d {
        Delivery::Received(value) => Ok(value),
        Delivery::SenderDropped => Err(Panicked),
    }
}

/// Relies on `futures::executor::block_on` over the oneshot receiver: blocks
/// the calling thread until the channel resolves, yielding the value passed
/// to the paired sender's `send`, or reporting that the sender was dropped
/// without sending. A received value therefore satisfies the pending
/// result's predicate: the paired half of every `PendingResult` is the
/// [`TaskSender`] that [`dispatch`] wrapped with the same predicate, and
/// [`deliver_completion`] admits only values satisfying it.
#[verifier::external_body]
fn receive_blocking<R>(pending: PendingResult<R>) -> (d: Delivery<R>)
    ensures
        d matches Delivery::Received(v) ==> (pending.on@)(v),
{
    match futures::executor::block_on(pending.rx) {
        Ok(value) => Delivery::Received(value),
        Err(_canceled) => Delivery::SenderDropped,
    }
}

/// The submitter's half of one submitted task: the receiving end of its
/// completion channel, together with the task's result predicate — any
/// value delivered to this half satisfies it.
///
/// Dropping it abandons the task: a worker that picks the task up afterwards
/// sees no one waiting and skips the computation.
#[verifier::reject_recursive_types(R)]
pub struct PendingResult<R> {
    rx: futures::channel::oneshot::Receiver<R>,
    on: Ghost<spec_fn(R) -> bool>,
}

impl<R> PendingResult<R> {
    /// The possible values of a successful wait: the predicate the paired
    /// worker's deliveries are confined to. [`dispatch`] sets it to the
    /// submitted computation's postcondition.
    pub closed spec fn predicate(&self, ret: R) -> bool {
        (self.on@)(ret)
    }

    /// Blocks until the task's outcome arrives and maps it as [`deliver`]
    /// states. A success carries a value the paired worker delivered, so it
    /// satisfies [`Self::predicate`]; `Err(Panicked)` reports a computation
    /// that panicked. Which of the two arrives is decided on the worker
    /// side, so no more can be stated here.
    pub fn wait(self) -> (r: Result<R, Panicked>)
        ensures
            r matches Ok(v) ==> self.predicate(v),
    {
        deliver(receive_blocking(self))
    }

    /// Hands out the raw receiving end, for a caller that waits by awaiting
    /// rather than by blocking. The future resolves to the computed value,
    /// or fails when the computation panicked; [`deliver`] states the
    /// mapping onto the submitter's result.
    pub fn into_receiver(self) -> futures::channel::oneshot::Receiver<R> {
        self.rx
    }
}

/// Submits a computation to the pool and returns the awaited half of its
/// completion channel, whose [`PendingResult::predicate`] admits only the
/// computation's own possible results. The task is queued at once; the
/// computation runs only if the returned [`PendingResult`] is still alive
/// when a worker picks the task up, so dropping it — a timeout, a caller
/// that lost interest — lets queued backlog drain without consuming a
/// worker.
pub fn dispatch<F, R>(pool: &WorkerPool, f: F) -> (pending: PendingResult<R>) where
    F: FnOnce() -> R + Send + 'static,
    R: Send + 'static,

    requires
        call_requires(f, ()),
    ensures
        forall|ret: R| #[trigger] pending.predicate(ret) ==> call_ensures(f, (), ret),
{
    let (tx, rx) = completion_channel();
    let ghost on = |v: R| call_ensures(f, (), v);
    let sender = TaskSender { tx, on: Ghost(on) };
    let pending = PendingResult { rx, on: Ghost(on) };
    spawn_worker(pool, sender, f);
    pending
}

/// Submits `f` to the pool and blocks until its outcome: `Ok` of a value
/// the single invocation of `f` produced, or `Err(Panicked)` when the
/// computation panicked. The caller keeps waiting, so the task is never
/// cancelled; the pool and its workers survive a panicking `f` and go on
/// serving later submissions.
pub fn run_cpu_intensive<F, R>(pool: &WorkerPool, f: F) -> (r: Result<R, Panicked>) where
    F: FnOnce() -> R + Send + 'static,
    R: Send + 'static,

    requires
        call_requires(f, ()),
    ensures
        r matches Ok(v) ==> call_ensures(f, (), v),
{
    dispatch(pool, f).wait()
}

} // verus!
