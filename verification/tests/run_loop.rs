use blizzard::executor::proxy::executor;
use blizzard::executor::run_loop::{LoopAction, LoopEvent, LoopState, RunLoop};

#[test]
fn round_runs_at_most_twice_the_queue_plus_one() {
    let (mut lp, first) = RunLoop::new();
    assert_eq!(first, LoopAction::MeasureQueue);
    assert_eq!(lp.step(LoopEvent::QueueLength(1)), LoopAction::RunNextTask);
    assert_eq!(lp.state(), LoopState::Draining(2));
    assert_eq!(lp.step(LoopEvent::TaskRan), LoopAction::RunNextTask);
    assert_eq!(lp.step(LoopEvent::TaskRan), LoopAction::RunNextTask);
    assert_eq!(lp.step(LoopEvent::TaskRan), LoopAction::CheckPollFlag);
    assert_eq!(lp.state(), LoopState::CheckingPollFlag);
}

#[test]
fn idle_loop_parks_then_starts_over() {
    let (mut lp, _) = RunLoop::new();
    assert_eq!(lp.step(LoopEvent::QueueLength(0)), LoopAction::RunNextTask);
    assert_eq!(lp.step(LoopEvent::QueueDrained), LoopAction::CheckPollFlag);
    assert_eq!(lp.step(LoopEvent::PollFlag(false)), LoopAction::CheckIdle);
    assert_eq!(lp.step(LoopEvent::QueueEmpty(true)), LoopAction::Park);
    assert_eq!(lp.step(LoopEvent::Parked), LoopAction::MeasureQueue);
    assert_eq!(lp.state(), LoopState::Measuring);
}

#[test]
fn busy_loop_submits_instead_of_parking() {
    let (mut lp, _) = RunLoop::new();
    let _ = lp.step(LoopEvent::QueueLength(0));
    let _ = lp.step(LoopEvent::QueueDrained);
    assert_eq!(lp.step(LoopEvent::PollFlag(true)), LoopAction::PollRoot);
    assert_eq!(lp.step(LoopEvent::RootPending), LoopAction::CheckIdle);
    assert_eq!(lp.step(LoopEvent::QueueEmpty(false)), LoopAction::Submit);
    assert_eq!(lp.step(LoopEvent::Submitted), LoopAction::MeasureQueue);
}

#[test]
fn loop_ends_when_root_is_ready() {
    let (mut lp, _) = RunLoop::new();
    let _ = lp.step(LoopEvent::QueueLength(3));
    let _ = lp.step(LoopEvent::QueueDrained);
    let _ = lp.step(LoopEvent::PollFlag(true));
    assert_eq!(lp.step(LoopEvent::RootReady), LoopAction::ReturnOutput);
    assert_eq!(lp.state(), LoopState::Finished);
}

#[test]
fn executor_proxy_is_available() {
    let _proxy = executor();
}
