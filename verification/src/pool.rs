//! The worker pool: a fixed set of dedicated worker threads.
//!
//! The pool is built once, sized to the number of available CPU cores at
//! build time, with deterministically named worker threads. A panic escaping
//! a job is caught at pool level: the handler records the end of that task's
//! execution and the worker thread goes on serving the queue, so a panicking
//! task never shrinks the pool.

use std::io::Write;
use vstd::prelude::*;
use vstd::string::StringExecFns;

use crate::gauge::ActiveWorkerGauge;
use crate::lifecycle::step;
use crate::lifecycle::TaskEvent;
use crate::lifecycle::TaskState;

verus! {

#[verifier::external_type_specification]
#[verifier::external_body]
pub struct ExThreadPool(rayon::ThreadPool);

/// The character for one decimal digit.
pub open spec fn digit_char(d: nat) -> char {
    if d == 0 {
        '0'
    } else if d == 1 {
        '1'
    } else if d == 2 {
        '2'
    } else if d == 3 {
        '3'
    } else if d == 4 {
        '4'
    } else if d == 5 {
        '5'
    } else if d == 6 {
        '6'
    } else if d == 7 {
        '7'
    } else if d == 8 {
        '8'
    } else {
        '9'
    }
}

/// The decimal digit characters of `n`, most significant first.
pub open spec fn decimal_digits(n: nat) -> Seq<char>
    decreases n,
{
    if n < 10 {
        seq![digit_char(n)]
    } else {
        decimal_digits(n / 10).push(digit_char(n % 10))
    }
}

/// The deterministic name of the worker thread with the given index.
pub open spec fn worker_name(index: nat) -> Seq<char> {
    "cpu-pool-"@ + decimal_digits(index)
}

/// Appends one decimal digit character.
fn append_digit(s: &mut String, d: usize)
    requires
        d < 10,
    ensures
        final(s)@ == old(s)@ + seq![digit_char(d as nat)],
{
    proof {
        reveal_strlit("0");
        reveal_strlit("1");
        reveal_strlit("2");
        reveal_strlit("3");
        reveal_strlit("4");
        reveal_strlit("5");
        reveal_strlit("6");
        reveal_strlit("7");
        reveal_strlit("8");
        reveal_strlit("9");
    }
    if d == 0 {
        s.append("0");
    } else if d == 1 {
        s.append("1");
    } else if d == 2 {
        s.append("2");
    } else if d == 3 {
        s.append("3");
    } else if d == 4 {
        s.append("4");
    } else if d == 5 {
        s.append("5");
    } else if d == 6 {
        s.append("6");
    } else if d == 7 {
        s.append("7");
    } else if d == 8 {
        s.append("8");
    } else {
        s.append("9");
    }
    proof {
        assert(s@ =~= old(s)@ + seq![digit_char(d as nat)]);
    }
}

/// Appends the decimal rendering of `n`.
fn append_decimal(s: &mut String, n: usize)
    ensures
        final(s)@ == old(s)@ + decimal_digits(n as nat),
    decreases n,
{
    if n >= 10 {
        append_decimal(s, n / 10);
        append_digit(s, n % 10);
        proof {
            assert((n / 10) as nat == n as nat / 10);
            assert((n % 10) as nat == n as nat % 10);
            assert(s@ =~= old(s)@ + decimal_digits(n as nat));
        }
    } else {
        append_digit(s, n);
        proof {
            assert(s@ =~= old(s)@ + decimal_digits(n as nat));
        }
    }
}

/// The name of the worker thread with the given index: an index-suffixed
/// name, so a thread seen in diagnostics can be traced back to the pool.
pub fn worker_thread_name(index: usize) -> (s: String)
    ensures
        s@ == worker_name(index as nat),
{
    let mut s = String::from_str("cpu-pool-");
    append_decimal(&mut s, index);
    s
}

/// Relies on `std::io::Write::write_fmt`, through `writeln` on standard
/// error: records the pool-level panic diagnostic. The line is
/// fire-and-forget observability; the write's own outcome is ignored.
#[verifier::external_body]
fn log_worker_panic() {
    let _ = writeln!(std::io::stderr(), "task running in the cpu pool panicked");
}

/// The pool-level panic boundary, run by the pool on a worker thread whose
/// job panicked. The panic interrupted the worker body between the task's
/// move to `Running` and its finish, so the finish — with its gauge move —
/// is recorded here; the worker thread itself goes on serving the queue.
pub(crate) fn note_worker_panic(gauge: &ActiveWorkerGauge) {
    let (state, gauge_move) = step(TaskState::Running, TaskEvent::Finish { panicked: true });
    assert(state == TaskState::Panicked);
    gauge.adjust(gauge_move);
    log_worker_panic();
}

/// Relies on rayon's `ThreadPoolBuilder`: `build` returns a pool whose
/// worker count is the number of available CPU cores (rayon's default when
/// no count is set; the `RAYON_NUM_THREADS` environment variable can
/// override that default), whose threads are named by the given closure, and whose
/// panic handler receives every panic that escapes a job, after which the
/// worker thread serves the next queued job instead of unwinding further
/// (without a handler such a panic would end the process). Returns `None`
/// only when the threads could not be spawned.
#[verifier::external_body]
fn build_worker_pool(gauge: &ActiveWorkerGauge) -> Option<rayon::ThreadPool> {
    let g = gauge.clone();
    rayon::ThreadPoolBuilder::new()
        .thread_name(|index| worker_thread_name(index))
        .panic_handler(move |_panic| note_worker_panic(&g))
        .build()
        .ok()
}

/// Relies on `rayon::ThreadPool::current_num_threads`: called on a pool
/// handle it returns the pool's worker count, fixed at build time; a built
/// pool has at least one worker thread.
#[verifier::external_body]
fn pool_worker_count(pool: &rayon::ThreadPool) -> (n: usize)
    ensures
        n >= 1,
{
    pool.current_num_threads()
}

/// A fixed pool of worker threads for CPU-intensive tasks, with the shared
/// active-worker gauge that its tasks move.
///
/// Built once and then shared by every submitter; no caller mutates it.
pub struct WorkerPool {
    pub(crate) pool: rayon::ThreadPool,
    pub(crate) gauge: ActiveWorkerGauge,
    pub(crate) workers: usize,
}

impl WorkerPool {
    #[verifier::type_invariant]
    pub closed spec fn well_formed(&self) -> bool {
        self.workers >= 1
    }

    /// The pool's fixed worker count.
    pub closed spec fn spec_worker_count(&self) -> usize {
        self.workers
    }

    /// Builds the pool, sized to the number of available CPU cores, with one
    /// worker thread per core. Returns `None` only when the worker threads
    /// could not be spawned — a fatal startup condition for the process,
    /// since no task can run without the pool; the caller should abort
    /// startup rather than retry per submission.
    pub fn new() -> (r: Option<WorkerPool>)
        ensures
            r matches Some(p) ==> p.spec_worker_count() >= 1,
    {
        let gauge = ActiveWorkerGauge::new();
        match build_worker_pool(&gauge) {
            Some(pool) => {
                let workers = pool_worker_count(&pool);
                Some(WorkerPool { pool, gauge, workers })
            },
            None => None,
        }
    }

    /// The pool's fixed worker count: the number of tasks that can be in the
    /// `Running` state at once.
    pub fn worker_count(&self) -> (n: usize)
        ensures
            n == self.spec_worker_count(),
            n >= 1,
    {
        proof {
            use_type_invariant(self);
        }
        self.workers
    }

    /// A snapshot of the active-worker gauge: how many tasks are running at
    /// this moment. Other threads move the gauge concurrently, so the value
    /// is observability, not a contract.
    pub fn active_workers(&self) -> i64 {
        self.gauge.current()
    }
}

} // verus!
