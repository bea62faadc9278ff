use blizzard::task::state::{
    DropJoinHandle, DropWaker, PollJoinHandle, State, TransitionToClosed, TransitionToCompleted,
    TransitionToIdle, TransitionToRunning, TransitionToScheduled,
};

fn text(state: &State) -> String {
    state.to_compact_string()
}

#[test]
fn new_task_has_one_reference_and_needs_start() {
    let state = State::new();
    assert_eq!(text(&state), "b:1|s:0|r:0|c:0|x:0|refs:1");
    assert_eq!(state.load().ref_count(), 1);
    assert!(state.load().need_start());
}

#[test]
fn full_lifecycle_of_an_awaited_task() {
    let mut state = State::new();
    assert_eq!(state.poll_join_handle(), PollJoinHandle::Start);
    assert_eq!(text(&state), "b:0|s:0|r:0|c:0|x:0|refs:1");
    // The task reference handed to the scheduler.
    state.incr_ref();
    assert_eq!(state.transition_to_running(), TransitionToRunning::Running);
    assert_eq!(text(&state), "b:0|s:0|r:1|c:0|x:0|refs:2");
    assert_eq!(state.transition_to_completed(), TransitionToCompleted::DoNothing);
    assert_eq!(text(&state), "b:0|s:0|r:0|c:1|x:0|refs:2");
    assert!(!state.decr_ref());
    assert_eq!(state.poll_join_handle(), PollJoinHandle::Complete(false));
    assert_eq!(text(&state), "b:0|s:0|r:0|c:1|x:1|refs:1");
    assert_eq!(state.drop_join_handle(), DropJoinHandle::Destroy);
    assert_eq!(text(&state), "b:0|s:0|r:0|c:1|x:1|refs:0");
}

#[test]
fn wake_while_running_reschedules_after_pending() {
    let mut state = State::new();
    let _ = state.poll_join_handle();
    state.incr_ref();
    assert_eq!(state.transition_to_running(), TransitionToRunning::Running);
    assert_eq!(state.transition_to_scheduled(), TransitionToScheduled::DoNothing);
    assert!(state.load().is_scheduled());
    assert_eq!(state.transition_to_idle(), TransitionToIdle::Schedule);
    assert_eq!(text(&state), "b:0|s:1|r:0|c:0|x:0|refs:2");
}

#[test]
fn pending_without_wake_goes_idle() {
    let mut state = State::new();
    let _ = state.poll_join_handle();
    assert_eq!(state.transition_to_running(), TransitionToRunning::Running);
    assert_eq!(state.transition_to_idle(), TransitionToIdle::DoNothing);
    assert_eq!(text(&state), "b:0|s:0|r:0|c:0|x:0|refs:1");
}

#[test]
fn waking_an_idle_task_submits_it_once() {
    let mut state = State::new();
    let _ = state.poll_join_handle();
    assert_eq!(state.transition_to_scheduled(), TransitionToScheduled::Submit);
    assert_eq!(state.transition_to_scheduled(), TransitionToScheduled::DoNothing);
    assert_eq!(text(&state), "b:0|s:1|r:0|c:0|x:0|refs:1");
}

#[test]
fn completed_task_is_not_woken() {
    let mut state = State::new();
    let _ = state.poll_join_handle();
    let _ = state.transition_to_running();
    let _ = state.transition_to_completed();
    assert_eq!(state.transition_to_scheduled(), TransitionToScheduled::DoNothing);
    assert!(!state.load().is_scheduled());
}

#[test]
fn cancelling_an_idle_task_schedules_it_once_more() {
    let mut state = State::new();
    let _ = state.poll_join_handle();
    assert_eq!(state.transition_to_closed(), TransitionToClosed::Closed(true));
    assert_eq!(text(&state), "b:0|s:1|r:0|c:0|x:1|refs:2");
    assert_eq!(state.transition_to_closed(), TransitionToClosed::DoNothing);
    assert_eq!(text(&state), "b:0|s:1|r:0|c:0|x:1|refs:2");
    // Running a closed task drops its future instead of polling it.
    assert_eq!(state.transition_to_running(), TransitionToRunning::Closed);
    assert_eq!(text(&state), "b:0|s:0|r:0|c:0|x:1|refs:2");
}

#[test]
fn cancelling_a_running_task_only_closes_it() {
    let mut state = State::new();
    let _ = state.poll_join_handle();
    let _ = state.transition_to_running();
    assert_eq!(state.transition_to_closed(), TransitionToClosed::Closed(false));
    assert_eq!(state.transition_to_idle(), TransitionToIdle::Closed);
    assert_eq!(text(&state), "b:0|s:0|r:0|c:0|x:1|refs:1");
    // The join handle then sees no output.
    assert_eq!(state.poll_join_handle(), PollJoinHandle::Complete(true));
}

#[test]
fn cancelling_before_start_closes_without_scheduling() {
    let mut state = State::new();
    assert_eq!(state.transition_to_closed(), TransitionToClosed::DoNothing);
    assert_eq!(text(&state), "b:1|s:0|r:0|c:0|x:1|refs:1");
    assert_eq!(state.poll_join_handle(), PollJoinHandle::Complete(true));
    assert_eq!(text(&state), "b:0|s:0|r:0|c:0|x:1|refs:1");
}

#[test]
fn join_handle_registers_while_task_is_queued_after_cancel() {
    let mut state = State::new();
    let _ = state.poll_join_handle();
    let _ = state.transition_to_closed();
    assert_eq!(state.poll_join_handle(), PollJoinHandle::Register);
}

#[test]
fn join_handle_registers_until_completion() {
    let mut state = State::new();
    let _ = state.poll_join_handle();
    assert_eq!(state.poll_join_handle(), PollJoinHandle::Register);
}

#[test]
fn dropping_a_fresh_join_handle_destroys_the_task() {
    let mut state = State::new();
    assert_eq!(state.drop_join_handle(), DropJoinHandle::Destroy);
    assert_eq!(text(&state), "b:1|s:0|r:0|c:0|x:0|refs:1");
}

#[test]
fn dropping_the_join_handle_of_a_completed_task_drops_the_output() {
    let mut state = State::new();
    let _ = state.poll_join_handle();
    let _ = state.transition_to_running();
    let _ = state.transition_to_completed();
    assert_eq!(state.drop_join_handle(), DropJoinHandle::DropOutput(true));
    assert_eq!(text(&state), "b:0|s:0|r:0|c:1|x:1|refs:0");
}

#[test]
fn dropping_the_last_reference_to_a_live_task_schedules_it_closed() {
    let mut state = State::new();
    let _ = state.poll_join_handle();
    assert_eq!(state.drop_join_handle(), DropJoinHandle::Schedule);
    assert_eq!(text(&state), "b:0|s:1|r:0|c:0|x:1|refs:1");
}

#[test]
fn dropping_the_join_handle_of_a_queued_task_closes_it() {
    let mut state = State::new();
    let _ = state.poll_join_handle();
    state.incr_ref();
    let _ = state.transition_to_scheduled();
    assert_eq!(state.drop_join_handle(), DropJoinHandle::DoNothing);
    assert_eq!(text(&state), "b:0|s:1|r:0|c:0|x:1|refs:1");
}

#[test]
fn dropping_the_join_handle_of_a_closed_task_destroys_it() {
    let mut state = State::new();
    let _ = state.poll_join_handle();
    let _ = state.transition_to_running();
    state.set_closed();
    assert_eq!(state.drop_join_handle(), DropJoinHandle::Destroy);
}

#[test]
fn dropping_the_last_waker_of_an_idle_task_schedules_it_closed() {
    let mut state = State::new();
    let _ = state.poll_join_handle();
    assert_eq!(state.drop_waker(), DropWaker::Schedule);
    assert_eq!(text(&state), "b:0|s:1|r:0|c:0|x:1|refs:0");
}

#[test]
fn dropping_the_last_waker_of_a_queued_task_only_closes_it() {
    let mut state = State::new();
    let _ = state.poll_join_handle();
    let _ = state.transition_to_scheduled();
    assert_eq!(state.drop_waker(), DropWaker::DoNothing);
    assert_eq!(text(&state), "b:0|s:1|r:0|c:0|x:1|refs:0");
}

#[test]
fn dropping_the_last_waker_of_a_finished_task_destroys_it() {
    let mut state = State::new();
    let _ = state.poll_join_handle();
    let _ = state.transition_to_running();
    let _ = state.transition_to_completed();
    assert_eq!(state.drop_waker(), DropWaker::Destroy);
}

#[test]
fn dropping_a_waker_that_is_not_the_last_does_nothing() {
    let mut state = State::new();
    state.incr_ref();
    assert_eq!(state.drop_waker(), DropWaker::DoNothing);
    assert_eq!(text(&state), "b:1|s:0|r:0|c:0|x:0|refs:1");
}

#[test]
fn completing_a_closed_task_reports_closed() {
    let mut state = State::new();
    let _ = state.poll_join_handle();
    let _ = state.transition_to_running();
    let _ = state.transition_to_closed();
    assert_eq!(state.transition_to_completed(), TransitionToCompleted::Closed);
    assert_eq!(text(&state), "b:0|s:0|r:0|c:1|x:1|refs:1");
}

#[test]
fn completing_without_references_closes() {
    let mut state = State::new();
    let _ = state.poll_join_handle();
    assert!(state.decr_ref());
    assert_eq!(state.transition_to_completed(), TransitionToCompleted::Closed);
}

#[test]
fn set_closed_stops_running_and_scheduling() {
    let mut state = State::new();
    let _ = state.poll_join_handle();
    let _ = state.transition_to_running();
    let _ = state.transition_to_scheduled();
    state.set_closed();
    assert_eq!(text(&state), "b:0|s:0|r:0|c:0|x:1|refs:1");
}

#[test]
fn cancel_closes_and_schedules_a_live_task() {
    let mut state = State::new();
    state.cancel();
    assert_eq!(text(&state), "b:1|s:1|r:0|c:0|x:1|refs:1");
    let mut done = State::new();
    let _ = done.poll_join_handle();
    let _ = done.transition_to_running();
    let _ = done.transition_to_completed();
    done.cancel();
    assert_eq!(text(&done), "b:0|s:0|r:0|c:1|x:0|refs:1");
}

#[test]
fn drop_task_unschedules_and_closes() {
    let mut state = State::new();
    let _ = state.transition_to_scheduled();
    state.drop_task();
    assert_eq!(text(&state), "b:1|s:0|r:0|c:0|x:1|refs:1");
}

#[test]
fn references_count_up_and_down() {
    let mut state = State::new();
    for _ in 0..40 {
        state.incr_ref();
    }
    assert_eq!(state.load().ref_count(), 41);
    assert_eq!(text(&state), "b:1|s:0|r:0|c:0|x:0|refs:41");
    for _ in 0..40 {
        assert!(!state.decr_ref());
    }
    assert!(state.decr_ref());
    assert_eq!(state.load().ref_count(), 0);
}

#[test]
fn snapshot_edits_only_the_named_flag() {
    let state = State::new();
    let mut snap = state.load();
    snap.set_running();
    assert!(snap.is_running());
    snap.set_completed();
    snap.unset_running();
    assert!(!snap.is_running() && snap.is_completed());
    snap.set_state(0b1100);
    assert_eq!(snap.to_compact_string(), "b:0|s:1|r:0|c:0|x:1|refs:1");
    snap.incr_ref();
    snap.decr_ref();
    snap.unset_need_start();
    snap.unset_scheduled();
    assert_eq!(snap.to_compact_string(), "b:0|s:0|r:0|c:0|x:1|refs:1");
    let mut other = state.load();
    other.set_scheduled();
    other.set_closed();
    assert!(other.is_scheduled() && other.is_closed() && other.need_start());
}

#[test]
fn store_writes_back_a_snapshot() {
    let mut state = State::new();
    let mut snap = state.load();
    snap.set_closed();
    state.store(snap);
    assert_eq!(text(&state), "b:1|s:0|r:0|c:0|x:1|refs:1");
}

#[test]
fn join_handle_of_a_dropped_idle_task_sees_no_output() {
    let mut state = State::new();
    assert_eq!(state.poll_join_handle(), PollJoinHandle::Start);
    state.drop_task();
    assert_eq!(state.poll_join_handle(), PollJoinHandle::Complete(true));
    assert_eq!(text(&state), "b:0|s:0|r:0|c:0|x:1|refs:1");
}
