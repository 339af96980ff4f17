//! The lifecycle of a submitted task, as an explicit state machine.
//!
//! A task starts `Queued`. The worker that picks it up first checks whether
//! the submitter still waits for the result: if not, the task ends
//! `Cancelled` and the computation never runs; otherwise it becomes
//! `Running`. A running task always runs to its end — `Completed`, or
//! `Panicked` when the computation panicked. The worker-side code drives
//! every task through [`step`], so the transitions it takes, and the moves it
//! makes on the active-worker gauge, are exactly the ones stated here.

use vstd::prelude::*;

verus! {

/// The state of one submitted task.
#[derive(Clone, Copy, Debug, PartialEq, Eq, Structural)]
pub enum TaskState {
    /// Submitted, not yet picked up by a worker.
    Queued,
    /// A worker is executing the computation.
    Running,
    /// The computation returned a value; terminal.
    Completed,
    /// The computation panicked; terminal.
    Panicked,
    /// The submitter stopped waiting before a worker picked the task up, so
    /// the computation was never run; terminal.
    Cancelled,
}

/// One observable step in a task's life: a worker picking the task off the
/// queue (`interested` tells whether the submitter still waits for the
/// result), or the end of its execution (`panicked` tells how it ended).
#[derive(Clone, Copy, Debug, PartialEq, Eq, Structural)]
pub enum TaskEvent {
    Pickup { interested: bool },
    Finish { panicked: bool },
}

/// Whether an event can happen to a task in the given state: only a queued
/// task is picked up, and only a running task finishes. Terminal states admit
/// no further event.
pub open spec fn applicable(s: TaskState, e: TaskEvent) -> bool {
    match e {
        TaskEvent::Pickup { .. } => s is Queued,
        TaskEvent::Finish { .. } => s is Running,
    }
}

/// The state after an applicable event.
pub open spec fn step_state(s: TaskState, e: TaskEvent) -> TaskState {
    match e {
        TaskEvent::Pickup { interested } => if interested {
            TaskState::Running
        } else {
            TaskState::Cancelled
        },
        TaskEvent::Finish { panicked } => if panicked {
            TaskState::Panicked
        } else {
            TaskState::Completed
        },
    }
}

/// How an event moves the active-worker gauge: up by one when a task starts
/// running, down by one when it stops (however it stops), not at all
/// otherwise.
pub open spec fn event_gauge_move(e: TaskEvent) -> int {
    match e {
        TaskEvent::Pickup { interested } => if interested {
            1int
        } else {
            0int
        },
        TaskEvent::Finish { .. } => -1int,
    }
}

pub open spec fn is_terminal(s: TaskState) -> bool {
    s is Completed || s is Panicked || s is Cancelled
}

/// Advance a task by one event; the second component says how the
/// active-worker gauge must move along with the transition.
pub fn step(s: TaskState, e: TaskEvent) -> (r: (TaskState, i64))
    requires
        applicable(s, e),
    ensures
        r.0 == step_state(s, e),
        r.1 as int == event_gauge_move(e),
{
    match e {
        TaskEvent::Pickup { interested } => {
            if interested {
                (TaskState::Running, 1i64)
            } else {
                (TaskState::Cancelled, 0i64)
            }
        },
        TaskEvent::Finish { panicked } => {
            if panicked {
                (TaskState::Panicked, -1i64)
            } else {
                (TaskState::Completed, -1i64)
            }
        },
    }
}

/// Whether a whole event sequence is applicable step by step from `s`.
pub open spec fn trace_ok(s: TaskState, evs: Seq<TaskEvent>) -> bool
    decreases evs.len(),
{
    evs.len() == 0 || (applicable(s, evs[0]) && trace_ok(step_state(s, evs[0]), evs.skip(1)))
}

/// The state a task reaches after the whole event sequence.
pub open spec fn trace_end(s: TaskState, evs: Seq<TaskEvent>) -> TaskState
    decreases evs.len(),
{
    if evs.len() == 0 {
        s
    } else {
        trace_end(step_state(s, evs[0]), evs.skip(1))
    }
}

/// The net move the event sequence makes on the active-worker gauge.
pub open spec fn gauge_total(evs: Seq<TaskEvent>) -> int
    decreases evs.len(),
{
    if evs.len() == 0 {
        0
    } else {
        event_gauge_move(evs[0]) + gauge_total(evs.skip(1))
    }
}

/// How many events of the sequence increment the gauge (a pickup of a task
/// whose submitter still waits).
pub open spec fn increment_count(evs: Seq<TaskEvent>) -> int
    decreases evs.len(),
{
    if evs.len() == 0 {
        0
    } else {
        (if event_gauge_move(evs[0]) == 1 {
            1int
        } else {
            0int
        }) + increment_count(evs.skip(1))
    }
}

/// How many events of the sequence decrement the gauge (the end of an
/// execution). Each such event is also one invocation of the computation, so
/// this doubles as the number of times the computation ran.
pub open spec fn decrement_count(evs: Seq<TaskEvent>) -> int
    decreases evs.len(),
{
    if evs.len() == 0 {
        0
    } else {
        (if evs[0] is Finish {
            1int
        } else {
            0int
        }) + decrement_count(evs.skip(1))
    }
}

/// Cancellation happens only before execution: an applicable event ends a
/// task in `Cancelled` only from `Queued`, and only because the submitter no
/// longer waits. In particular a `Running` task can never become `Cancelled`.
pub proof fn lemma_cancelled_only_from_queued(s: TaskState, e: TaskEvent)
    requires
        applicable(s, e),
        step_state(s, e) is Cancelled,
    ensures
        s is Queued,
        e == (TaskEvent::Pickup { interested: false }),
{
}

/// Once a task runs, it runs to its end: from `Running` the only reachable
/// states are `Completed` and `Panicked`.
pub proof fn lemma_running_runs_to_completion(e: TaskEvent)
    requires
        applicable(TaskState::Running, e),
    ensures
        is_terminal(step_state(TaskState::Running, e)),
        !(step_state(TaskState::Running, e) is Cancelled),
{
}

/// Gauge pairing over a full task life — any applicable event sequence that
/// takes a task from `Queued` to a terminal state:
/// - the gauge shows no net drift;
/// - a task that was not cancelled incremented the gauge exactly once and
///   decremented it exactly once, and its computation ran exactly once;
/// - a cancelled task never moved the gauge and its computation never ran.
pub proof fn lemma_gauge_pairing(evs: Seq<TaskEvent>)
    requires
        trace_ok(TaskState::Queued, evs),
        is_terminal(trace_end(TaskState::Queued, evs)),
    ensures
        gauge_total(evs) == 0,
        !(trace_end(TaskState::Queued, evs) is Cancelled) ==> increment_count(evs) == 1
            && decrement_count(evs) == 1,
        trace_end(TaskState::Queued, evs) is Cancelled ==> increment_count(evs) == 0
            && decrement_count(evs) == 0,
{
    if evs.len() == 0 {
        assert(trace_end(TaskState::Queued, evs) == TaskState::Queued);
        assert(false);
    }
    let e0 = evs[0];
    let rest = evs.skip(1);
    assert(applicable(TaskState::Queued, e0) && trace_ok(step_state(TaskState::Queued, e0), rest));
    assert(trace_end(TaskState::Queued, evs) == trace_end(step_state(TaskState::Queued, e0), rest));
    match e0 {
        TaskEvent::Pickup { interested } => {
            if !interested {
                // The task is cancelled at pickup; nothing can follow.
                assert(step_state(TaskState::Queued, e0) == TaskState::Cancelled);
                assert(trace_ok(TaskState::Cancelled, rest));
                if rest.len() != 0 {
                    assert(applicable(TaskState::Cancelled, rest[0]));
                    assert(false);
                }
                assert(trace_end(TaskState::Cancelled, rest) == TaskState::Cancelled);
                assert(gauge_total(rest) == 0);
                assert(increment_count(rest) == 0);
                assert(decrement_count(rest) == 0);
            } else {
                // The task runs; exactly one finish event must follow.
                assert(step_state(TaskState::Queued, e0) == TaskState::Running);
                assert(trace_ok(TaskState::Running, rest));
                assert(trace_end(TaskState::Running, rest) == trace_end(TaskState::Queued, evs));
                if rest.len() == 0 {
                    assert(trace_end(TaskState::Running, rest) == TaskState::Running);
                    assert(false);
                }
                let e1 = rest[0];
                let tail = rest.skip(1);
                assert(applicable(TaskState::Running, e1) && trace_ok(
                    step_state(TaskState::Running, e1),
                    tail,
                ));
                assert(e1 is Finish);
                let after = step_state(TaskState::Running, e1);
                assert(is_terminal(after) && !(after is Cancelled));
                assert(trace_end(TaskState::Running, rest) == trace_end(after, tail));
                if tail.len() != 0 {
                    assert(applicable(after, tail[0]));
                    assert(false);
                }
                assert(trace_end(after, tail) == after);
                assert(gauge_total(tail) == 0);
                assert(increment_count(tail) == 0);
                assert(decrement_count(tail) == 0);
                assert(gauge_total(rest) == -1);
                assert(increment_count(rest) == 0);
                assert(decrement_count(rest) == 1);
                assert(!(trace_end(TaskState::Queued, evs) is Cancelled));
            }
        },
        TaskEvent::Finish { .. } => {
            assert(false);
        },
    }
}

} // verus!
