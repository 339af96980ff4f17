use std::sync::atomic::AtomicU64;
use std::sync::atomic::Ordering;
use std::sync::Arc;
use std::sync::Barrier;

use cpu_pool::lifecycle::step;
use cpu_pool::lifecycle::TaskEvent;
use cpu_pool::lifecycle::TaskState;
use cpu_pool::pool::worker_thread_name;
use cpu_pool::submit::deliver;
use cpu_pool::dispatch;
use cpu_pool::run_cpu_intensive;
use cpu_pool::Delivery;
use cpu_pool::Panicked;
use cpu_pool::WorkerPool;

/// Spins until the pool's active-worker gauge shows `expected`, or fails.
/// The gauge moves a moment after an outcome is delivered (on a panic the
/// pool's handler runs after the channel already resolved), so tests wait
/// for it to settle instead of reading it right away.
fn await_gauge(pool: &WorkerPool, expected: i64) {
    for _ in 0..500_000_000u64 {
        if pool.active_workers() == expected {
            return;
        }
        std::hint::spin_loop();
    }
    panic!("active-worker gauge did not settle at {expected}");
}

#[test]
fn test_run_cpu_intensive() {
    let pool = WorkerPool::new().unwrap();
    assert_eq!(run_cpu_intensive(&pool, || 1), Ok(1));
}

#[test]
fn test_run_cpu_intensive_panicks() {
    let pool = WorkerPool::new().unwrap();
    assert!(run_cpu_intensive(&pool, || panic!("")).is_err());
}

#[test]
fn test_run_cpu_intensive_panicks_do_not_shrink_thread_pool() {
    let pool = WorkerPool::new().unwrap();
    for _ in 0..100 {
        assert!(run_cpu_intensive(&pool, || panic!("")).is_err());
    }
    // Every worker survived its panics: later submissions still succeed.
    assert_eq!(run_cpu_intensive(&pool, || 7), Ok(7));
    await_gauge(&pool, 0);
}

#[test]
fn test_run_cpu_intensive_abort() {
    let pool = WorkerPool::new().unwrap();
    let workers = pool.worker_count();

    // Occupy every worker with a task that blocks at the barrier.
    let barrier = Arc::new(Barrier::new(workers + 1));
    let mut blockers = Vec::new();
    for _ in 0..workers {
        let b = barrier.clone();
        blockers.push(dispatch(&pool, move || {
            b.wait();
            0u64
        }));
    }
    // Once every worker reports in on the gauge, all of them sit at the
    // barrier and nothing can pick up further queued tasks.
    await_gauge(&pool, workers as i64);

    // Queue a large backlog and abandon every entry at once: each receiving
    // half is dropped before any worker is free again.
    let counter: Arc<AtomicU64> = Default::default();
    for _ in 0..1_000 {
        let counter_clone = counter.clone();
        let _ = dispatch(&pool, move || counter_clone.fetch_add(1, Ordering::SeqCst));
    }

    // Release the workers; the abandoned backlog must drain without running.
    barrier.wait();
    for blocker in blockers {
        assert_eq!(blocker.wait(), Ok(0));
    }
    assert!(counter.load(Ordering::SeqCst) < 100);
    await_gauge(&pool, 0);
}

#[test]
fn test_gauge_pairing_no_drift() {
    let pool = WorkerPool::new().unwrap();
    for round in 0..30u64 {
        if round % 3 == 0 {
            assert!(run_cpu_intensive(&pool, || panic!("")).is_err());
        } else {
            assert_eq!(run_cpu_intensive(&pool, move || round * 2), Ok(round * 2));
        }
    }
    // Every task that ran incremented the gauge once and decremented it
    // once, panic or not: no net drift stays behind.
    await_gauge(&pool, 0);
}

#[test]
fn test_dispatch_then_wait() {
    let pool = WorkerPool::new().unwrap();
    let pending = dispatch(&pool, || 41 + 1);
    assert_eq!(pending.wait(), Ok(42));
}

#[test]
fn test_pool_reports_workers() {
    let pool = WorkerPool::new().unwrap();
    assert!(pool.worker_count() >= 1);
}

#[test]
fn test_step_transitions() {
    assert_eq!(
        step(TaskState::Queued, TaskEvent::Pickup { interested: true }),
        (TaskState::Running, 1)
    );
    assert_eq!(
        step(TaskState::Queued, TaskEvent::Pickup { interested: false }),
        (TaskState::Cancelled, 0)
    );
    assert_eq!(
        step(TaskState::Running, TaskEvent::Finish { panicked: false }),
        (TaskState::Completed, -1)
    );
    assert_eq!(
        step(TaskState::Running, TaskEvent::Finish { panicked: true }),
        (TaskState::Panicked, -1)
    );
}

#[test]
fn test_deliver_maps_outcomes() {
    assert_eq!(deliver(Delivery::Received(5u8)), Ok(5u8));
    assert_eq!(deliver(Delivery::<u8>::SenderDropped), Err(Panicked));
}

#[test]
fn test_worker_thread_names() {
    assert_eq!(worker_thread_name(0), "cpu-pool-0");
    assert_eq!(worker_thread_name(7), "cpu-pool-7");
    assert_eq!(worker_thread_name(42), "cpu-pool-42");
    assert_eq!(worker_thread_name(907), "cpu-pool-907");
    assert_eq!(worker_thread_name(1234567890), "cpu-pool-1234567890");
}

#[test]
fn test_panicked_message() {
    assert_eq!(Panicked.message(), "Scheduled job panicked");
}
