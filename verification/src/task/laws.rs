//! What every operation on a task's state keeps, and how operations compose.
use vstd::prelude::*;
use crate::task::state::{
    cancel_step, closed_step, closed_step_allowed, closing_view, completed_step, idle_step,
    initial_view, join_drop_allowed, join_drop_step, join_poll_step,
    panic_close_step, ref_added, ref_removed, running_step, scheduled_step, task_drop_step,
    waker_drop_step, DropJoinHandle, DropWaker, PollJoinHandle, StateView, TransitionToClosed, TransitionToIdle,
    TransitionToCompleted, TransitionToRunning, TransitionToScheduled, REF_COUNT_MAX,
};

verus! {

/// The operations on a task's state word.
pub enum StateOp {
    ToRunning,
    ToIdle,
    ToScheduled,
    ToCompleted,
    ToClosed,
    DropJoinHandle,
    PollJoinHandle,
    SetClosed,
    IncrRef,
    Cancel,
    DropWaker,
    DropTask,
    DecrRef,
}

/// The inputs each operation accepts (its `requires`).
pub open spec fn op_allowed(s: StateView, op: StateOp) -> bool {
    match op {
        StateOp::ToClosed => closed_step_allowed(s),
        StateOp::DropJoinHandle => join_drop_allowed(s),
        StateOp::IncrRef => s.refs <= REF_COUNT_MAX / 2,
        StateOp::DropWaker => s.refs >= 1,
        StateOp::DecrRef => s.refs >= 1,
        _ => true,
    }
}

/// The state after an operation.
pub open spec fn apply(s: StateView, op: StateOp) -> StateView {
    match op {
        StateOp::ToRunning => running_step(s).0,
        StateOp::ToIdle => idle_step(s).0,
        StateOp::ToScheduled => scheduled_step(s).0,
        StateOp::ToCompleted => completed_step(s).0,
        StateOp::ToClosed => closed_step(s).0,
        StateOp::DropJoinHandle => join_drop_step(s).0,
        StateOp::PollJoinHandle => join_poll_step(s).0,
        StateOp::SetClosed => panic_close_step(s),
        StateOp::IncrRef => ref_added(s),
        StateOp::Cancel => cancel_step(s),
        StateOp::DropWaker => waker_drop_step(s).0,
        StateOp::DropTask => task_drop_step(s),
        StateOp::DecrRef => ref_removed(s),
    }
}

/// A completed task is neither running nor scheduled.
pub open spec fn completion_consistent(s: StateView) -> bool {
    s.completed ==> !s.running && !s.scheduled
}

/// Once a task is completed it stays completed, whatever operation follows.
pub proof fn lemma_completed_is_permanent(s: StateView, op: StateOp)
    requires
        op_allowed(s, op),
        s.completed,
    ensures
        apply(s, op).completed,
{
}

/// Once a task is closed it stays closed, whatever operation follows.
pub proof fn lemma_closed_is_permanent(s: StateView, op: StateOp)
    requires
        op_allowed(s, op),
        s.closed,
    ensures
        apply(s, op).closed,
{
}

/// Every operation keeps a completed task off the run queue and not running,
/// except running a completed task that is not closed.
pub proof fn lemma_completion_consistent_preserved(s: StateView, op: StateOp)
    requires
        completion_consistent(s),
        op_allowed(s, op),
        !(op is ToRunning && s.completed && !s.closed),
    ensures
        completion_consistent(apply(s, op)),
{
}

/// A fresh task is completion-consistent.
pub proof fn lemma_initial_consistent()
    ensures
        completion_consistent(initial_view()),
{
}

/// Dropping a reference undoes adding one.
pub proof fn lemma_ref_added_then_removed(s: StateView)
    requires
        s.refs < REF_COUNT_MAX,
    ensures
        ref_removed(ref_added(s)) == s,
{
}

/// Waking a task twice is waking it once: the second wake-up does nothing.
pub proof fn lemma_wake_is_idempotent(s: StateView)
    ensures
        scheduled_step(scheduled_step(s).0) == (scheduled_step(s).0, TransitionToScheduled::DoNothing),
{
}

/// Cancelling twice is cancelling once: the second cancellation does nothing.
pub proof fn lemma_cancel_is_idempotent(s: StateView)
    ensures
        closed_step(closed_step(s).0) == (closed_step(s).0, TransitionToClosed::DoNothing),
{
}

/// A wake-up while the future is being polled is not lost: when the poll
/// returns `Pending`, the task is rescheduled.
pub proof fn lemma_wake_while_running_reschedules(s: StateView)
    requires
        s.running,
        !s.closed,
        !s.completed,
    ensures
        scheduled_step(s).1 == TransitionToScheduled::DoNothing,
        idle_step(scheduled_step(s).0).1 == TransitionToIdle::Schedule,
{
}

/// A closed task's future is never polled again: running it reports `Closed`
/// and does not mark it running.
pub proof fn lemma_closed_task_is_not_polled(s: StateView)
    requires
        s.closed,
    ensures
        running_step(s) == (StateView { scheduled: false, ..s }, TransitionToRunning::Closed),
{
}

/// The join handle yields "no output" only once the future is no longer
/// scheduled or running, and yields the output only for a completed task that
/// nobody closed.
pub proof fn lemma_join_handle_completes_after_future(s: StateView)
    ensures
        join_poll_step(s).1 == PollJoinHandle::Complete(true) ==> s.closed && !s.scheduled
            && !s.running,
        join_poll_step(s).1 == PollJoinHandle::Complete(false) ==> s.completed && !s.closed
            && join_poll_step(s).0.closed,
{
}

/// The ways a task becomes closed: cancellation through the join handle
/// (unless it already completed), the join handle taking the output, a
/// panicking poll, dropping the join handle of a completed task, and dropping
/// the task reference.
pub proof fn lemma_ways_to_close(s: StateView)
    ensures
        closed_step(s).0.closed || s.completed,
        join_poll_step(s).1 == PollJoinHandle::Complete(false) ==> join_poll_step(s).0.closed,
        panic_close_step(s).closed,
        s != initial_view() && s.completed ==> join_drop_step(s).0.closed,
        task_drop_step(s).closed,
{
}

/// Dropping the join handle of a task that has started and not completed
/// cancels it.
pub proof fn lemma_dropping_join_handle_cancels(s: StateView)
    requires
        join_drop_allowed(s),
        s != initial_view(),
        !s.completed,
    ensures
        join_drop_step(s).0.closed,
{
}

/// A task is freed only once no reference to it is left (or, for a task whose
/// join handle is dropped before it ever started, when that handle was the
/// only reference).
pub proof fn lemma_freed_only_when_unreferenced(s: StateView)
    requires
        s.refs >= 1,
    ensures
        join_drop_step(s).1 == DropJoinHandle::Destroy ==> s == initial_view() || join_drop_step(
            s,
        ).0.refs == 0,
        join_drop_step(s).1 == DropJoinHandle::DropOutput(true) ==> join_drop_step(s).0.refs == 0,
        waker_drop_step(s).1 == DropWaker::Destroy ==> waker_drop_step(s).0.refs == 0,
        ref_removed(s).refs == 0 <==> s.refs == 1,
{
}

/// Cancelling a started task that sits idle (neither queued nor running)
/// closes it and schedules it once more, with one more reference, so that its
/// future gets dropped.
pub proof fn lemma_cancel_idle_task_schedules_it(s: StateView)
    requires
        !s.need_start,
        !s.completed,
        !s.closed,
        !s.scheduled,
        !s.running,
    ensures
        closed_step(s) == (closing_view((s.refs + 1) as usize), TransitionToClosed::Closed(true)),
{
}


/// Running a task always clears its scheduled flag, so that a wake-up during
/// the poll can be told apart; it marks the task running exactly when it is
/// not closed, and changes nothing else. Hence a task that is run and then
/// goes idle with no wake-up in between is left alone (`DoNothing`), neither
/// running nor scheduled.
pub proof fn lemma_run_clears_scheduled(s: StateView)
    ensures
        !running_step(s).0.scheduled,
        running_step(s).1 == TransitionToRunning::Running <==> !s.closed,
        !s.closed ==> running_step(s).0.running,
        s.closed ==> running_step(s).0.running == s.running,
        running_step(s).0.need_start == s.need_start,
        running_step(s).0.completed == s.completed,
        running_step(s).0.closed == s.closed,
        running_step(s).0.refs == s.refs,
        !s.closed ==> idle_step(running_step(s).0).1 == TransitionToIdle::DoNothing,
        !s.closed ==> !idle_step(running_step(s).0).0.running && !idle_step(
            running_step(s).0,
        ).0.scheduled,
{
}

/// A completed or closed task cannot be woken: the wake-up changes nothing.
/// A wake-up submits the task exactly when it is live, not yet scheduled and
/// not running; on a live task it always leaves the scheduled flag set, and it
/// never touches anything but that flag.
pub proof fn lemma_wake_submits_only_idle_live_tasks(s: StateView)
    ensures
        s.closed || s.completed ==> scheduled_step(s) == (s, TransitionToScheduled::DoNothing),
        scheduled_step(s).1 == TransitionToScheduled::Submit <==> !s.completed && !s.closed
            && !s.scheduled && !s.running,
        !s.completed && !s.closed ==> scheduled_step(s).0.scheduled,
        scheduled_step(s).0.running == s.running,
        scheduled_step(s).0.need_start == s.need_start,
        scheduled_step(s).0.completed == s.completed,
        scheduled_step(s).0.closed == s.closed,
        scheduled_step(s).0.refs == s.refs,
{
}

/// Cancellation asks for one more run (`Closed(true)`) only for a started,
/// live task that is neither queued nor running. A started, live task that is
/// queued or running is only marked closed and answers `Closed(false)`: it
/// will be run (or finishes its run) anyway.
pub proof fn lemma_cancel_schedules_only_idle_tasks(s: StateView)
    ensures
        closed_step(s).1 == TransitionToClosed::Closed(true) <==> !s.need_start && !s.completed
            && !s.closed && !s.scheduled && !s.running,
        !s.need_start && !s.completed && !s.closed && (s.scheduled || s.running) ==> {
            &&& closed_step(s).1 == TransitionToClosed::Closed(false)
            &&& closed_step(s).0.closed
            &&& closed_step(s).0.scheduled == s.scheduled
            &&& closed_step(s).0.running == s.running
            &&& closed_step(s).0.need_start == s.need_start
            &&& closed_step(s).0.completed == s.completed
            &&& closed_step(s).0.refs == s.refs
        },
{
}


/// Going idle after a `Pending` poll stops the task running. It asks for
/// another run exactly when the task was woken during the poll and is not
/// closed; a closed task reports `Closed` and leaves the queue. Nothing but
/// the running and scheduled flags changes.
pub proof fn lemma_idle_reschedules_only_woken_tasks(s: StateView)
    ensures
        !idle_step(s).0.running,
        idle_step(s).1 == TransitionToIdle::Schedule <==> !s.closed && s.scheduled,
        idle_step(s).1 == TransitionToIdle::Closed <==> s.closed,
        idle_step(s).0.scheduled == (s.scheduled && !s.closed),
        idle_step(s).0.need_start == s.need_start,
        idle_step(s).0.completed == s.completed,
        idle_step(s).0.closed == s.closed,
        idle_step(s).0.refs == s.refs,
{
}

/// Completing a task leaves it completed, neither running nor scheduled. It
/// is closed (and its output is to be dropped, `Closed`) exactly when it was
/// closed before or no reference is left; references are unchanged.
pub proof fn lemma_completion_outcome(s: StateView)
    ensures
        completed_step(s).0.completed,
        !completed_step(s).0.running,
        !completed_step(s).0.scheduled,
        completed_step(s).1 == TransitionToCompleted::Closed <==> s.closed || s.refs == 0,
        completed_step(s).0.closed == (s.closed || s.refs == 0),
        completed_step(s).0.need_start == s.need_start,
        completed_step(s).0.refs == s.refs,
{
}

/// What polling the join handle answers: `Start` for a fresh task that is not
/// closed; the output (`Complete(false)`) for a started, completed task nobody
/// closed, which becomes closed; "no output" (`Complete(true)`) for a closed
/// task whose future is neither queued nor running; `Register` otherwise.
/// Only the start and closed flags may change.
pub proof fn lemma_join_poll_answers(s: StateView)
    ensures
        join_poll_step(s).1 == PollJoinHandle::Start <==> !s.closed && s.need_start,
        join_poll_step(s).1 == PollJoinHandle::Complete(false) <==> !s.closed && !s.need_start
            && s.completed,
        join_poll_step(s).1 == PollJoinHandle::Complete(true) <==> s.closed && !s.scheduled
            && !s.running,
        join_poll_step(s).1 == PollJoinHandle::Register <==> (s.closed && (s.scheduled
            || s.running)) || (!s.closed && !s.need_start && !s.completed),
        join_poll_step(s).0.scheduled == s.scheduled,
        join_poll_step(s).0.running == s.running,
        join_poll_step(s).0.completed == s.completed,
        join_poll_step(s).0.refs == s.refs,
        join_poll_step(s).0.closed == (s.closed || (!s.need_start && s.completed)),
{
}

/// Dropping a waker drops one reference. The last reference frees a task that
/// is completed or closed (`Destroy`); for any other task it closes it and
/// asks for one more run (`Schedule`) unless it is already queued.
pub proof fn lemma_waker_drop_outcome(s: StateView)
    requires
        s.refs >= 1,
    ensures
        waker_drop_step(s).0.refs == s.refs - 1,
        waker_drop_step(s).1 == DropWaker::Destroy <==> s.refs == 1 && (s.completed || s.closed),
        waker_drop_step(s).1 == DropWaker::Schedule <==> s.refs == 1 && !s.completed && !s.closed
            && !s.scheduled,
        s.refs == 1 && !s.completed && !s.closed ==> waker_drop_step(s).0.closed
            && waker_drop_step(s).0.scheduled,
        s.refs > 1 ==> waker_drop_step(s).0 == ref_removed(s),
{
}


/// Dropping the join handle of a started task gives up its reference. The
/// output of a completed task nobody closed is then dropped (and the task is
/// freed with it when that was the last reference); a task left with no
/// reference that has not finished is closed and scheduled once more, holding
/// one reference; a closed task left with none is freed; in every other case
/// the task is only marked closed.
pub proof fn lemma_join_drop_outcome(s: StateView)
    requires
        join_drop_allowed(s),
        s != initial_view(),
    ensures
        s.completed && !s.closed ==> join_drop_step(s).1 == DropJoinHandle::DropOutput(s.refs == 1)
            && join_drop_step(s).0.closed && join_drop_step(s).0.refs == s.refs - 1,
        !s.completed && !s.closed && s.refs == 1 ==> join_drop_step(s).1 == DropJoinHandle::Schedule
            && join_drop_step(s).0.closed && join_drop_step(s).0.scheduled && join_drop_step(
            s,
        ).0.refs == 1,
        s.closed ==> join_drop_step(s).1 == DropJoinHandle::Destroy && join_drop_step(s).0.refs
            == 0,
        !s.completed && !s.closed && s.refs > 1 ==> join_drop_step(s).1 == DropJoinHandle::DoNothing
            && join_drop_step(s).0.closed && join_drop_step(s).0.refs == s.refs - 1,
        join_drop_step(s).1 is Destroy ==> join_drop_step(s).0.refs == 0,
{
}

} // verus!
