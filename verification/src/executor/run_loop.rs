//! The decisions of the executor's run loop.
//!
//! The loop alternates between running queued tasks, polling the future that
//! `run` was given, and driving the I/O driver. Each round first measures the
//! queue and runs at most twice as many tasks plus one, so that a task that
//! keeps rescheduling itself cannot starve I/O. The root future is polled only
//! when it was woken. When the queue is empty the driver parks until I/O
//! completes; otherwise pending submissions are flushed and a new round starts.
use vstd::prelude::*;

verus! {

/// Where the run loop is.
#[derive(Debug, Clone, Copy, PartialEq, Eq)]
pub enum LoopState {
    /// Waiting for the queue's length to start a round.
    Measuring,
    /// Running queued tasks; after this many more tasks the round stops.
    Draining(usize),
    /// Waiting to learn whether the root future was woken.
    CheckingPollFlag,
    /// Waiting for the root future's poll result.
    PollingRoot,
    /// Waiting to learn whether the queue is empty.
    CheckingIdle,
    /// Waiting for the driver's submission.
    Submitting,
    /// Waiting for the driver to return from parking.
    Parking,
    /// The root future is ready; the loop is over.
    Finished,
}

/// What the caller observed after performing the last action.
#[derive(Debug, Clone, Copy, PartialEq, Eq)]
pub enum LoopEvent {
    /// The queue holds this many tasks.
    QueueLength(usize),
    /// A task was popped and run.
    TaskRan,
    /// The queue had no task to pop.
    QueueDrained,
    /// Whether the root future was woken since it was last polled.
    PollFlag(bool),
    /// The root future returned `Pending`.
    RootPending,
    /// The root future returned `Ready`.
    RootReady,
    /// Whether the queue is empty.
    QueueEmpty(bool),
    /// The driver submitted pending operations.
    Submitted,
    /// The driver returned from parking.
    Parked,
}

/// What the caller does next.
#[derive(Debug, Clone, Copy, PartialEq, Eq)]
pub enum LoopAction {
    /// Report the queue's length.
    MeasureQueue,
    /// Pop a task and run it, or report that the queue is empty.
    RunNextTask,
    /// Report (and reset) whether the root future was woken.
    CheckPollFlag,
    /// Poll the root future.
    PollRoot,
    /// Report whether the queue is empty.
    CheckIdle,
    /// Flush pending submissions to the driver.
    Submit,
    /// Block in the driver until I/O completes.
    Park,
    /// Return the root future's output.
    ReturnOutput,
}

/// The events that can follow the action taken in a state.
pub open spec fn event_expected(s: LoopState, e: LoopEvent) -> bool {
    match s {
        LoopState::Measuring => e matches LoopEvent::QueueLength(n) && n <= usize::MAX / 2,
        LoopState::Draining(_) => e is TaskRan || e is QueueDrained,
        LoopState::CheckingPollFlag => e is PollFlag,
        LoopState::PollingRoot => e is RootPending || e is RootReady,
        LoopState::CheckingIdle => e is QueueEmpty,
        LoopState::Submitting => e is Submitted,
        LoopState::Parking => e is Parked,
        LoopState::Finished => false,
    }
}

/// One step of the loop: the next state and the next action.
pub open spec fn loop_step(s: LoopState, e: LoopEvent) -> (LoopState, LoopAction) {
    match (s, e) {
        (LoopState::Measuring, LoopEvent::QueueLength(n)) => (
            LoopState::Draining((n * 2) as usize),
            LoopAction::RunNextTask,
        ),
        (LoopState::Draining(budget), LoopEvent::TaskRan) => if budget == 0 {
            (LoopState::CheckingPollFlag, LoopAction::CheckPollFlag)
        } else {
            (LoopState::Draining((budget - 1) as usize), LoopAction::RunNextTask)
        },
        (LoopState::Draining(_), LoopEvent::QueueDrained) => (
            LoopState::CheckingPollFlag,
            LoopAction::CheckPollFlag,
        ),
        (LoopState::CheckingPollFlag, LoopEvent::PollFlag(woken)) => if woken {
            (LoopState::PollingRoot, LoopAction::PollRoot)
        } else {
            (LoopState::CheckingIdle, LoopAction::CheckIdle)
        },
        (LoopState::PollingRoot, LoopEvent::RootReady) => (
            LoopState::Finished,
            LoopAction::ReturnOutput,
        ),
        (LoopState::PollingRoot, LoopEvent::RootPending) => (
            LoopState::CheckingIdle,
            LoopAction::CheckIdle,
        ),
        (LoopState::CheckingIdle, LoopEvent::QueueEmpty(empty)) => if empty {
            (LoopState::Parking, LoopAction::Park)
        } else {
            (LoopState::Submitting, LoopAction::Submit)
        },
        (LoopState::Submitting, LoopEvent::Submitted) => (
            LoopState::Measuring,
            LoopAction::MeasureQueue,
        ),
        (LoopState::Parking, LoopEvent::Parked) => (LoopState::Measuring, LoopAction::MeasureQueue),
        _ => (s, LoopAction::ReturnOutput),
    }
}

/// The run loop's decisions, fed one event at a time.
pub struct RunLoop {
    state: LoopState,
}

impl View for RunLoop {
    type V = LoopState;

    closed spec fn view(&self) -> LoopState {
        self.state
    }
}

impl RunLoop {
    /// A loop about to start its first round; its first action is
    /// `MeasureQueue`.
    pub fn new() -> (r: (Self, LoopAction))
        ensures
            r.0@ == LoopState::Measuring,
            r.1 == LoopAction::MeasureQueue,
    {
        (RunLoop { state: LoopState::Measuring }, LoopAction::MeasureQueue)
    }

    /// The current state.
    pub fn state(&self) -> (r: LoopState)
        ensures
            r == self@,
    {
        self.state
    }

    /// Takes the event that followed the last action and decides the next one.
    pub fn step(&mut self, event: LoopEvent) -> (r: LoopAction)
        requires
            event_expected(old(self)@, event),
        ensures
            (final(self)@, r) == loop_step(old(self)@, event),
    {
        let (next, action) = match (self.state, event) {
            (LoopState::Measuring, LoopEvent::QueueLength(n)) => (
                LoopState::Draining(n * 2),
                LoopAction::RunNextTask,
            ),
            (LoopState::Draining(budget), LoopEvent::TaskRan) => {
                if budget == 0 {
                    // Maybe a task keeps rescheduling itself: let I/O run.
                    (LoopState::CheckingPollFlag, LoopAction::CheckPollFlag)
                } else {
                    (LoopState::Draining(budget - 1), LoopAction::RunNextTask)
                }
            },
            (LoopState::Draining(_), LoopEvent::QueueDrained) => (
                LoopState::CheckingPollFlag,
                LoopAction::CheckPollFlag,
            ),
            (LoopState::CheckingPollFlag, LoopEvent::PollFlag(woken)) => {
                if woken {
                    (LoopState::PollingRoot, LoopAction::PollRoot)
                } else {
                    (LoopState::CheckingIdle, LoopAction::CheckIdle)
                }
            },
            (LoopState::PollingRoot, LoopEvent::RootReady) => (
                LoopState::Finished,
                LoopAction::ReturnOutput,
            ),
            (LoopState::PollingRoot, LoopEvent::RootPending) => (
                LoopState::CheckingIdle,
                LoopAction::CheckIdle,
            ),
            (LoopState::CheckingIdle, LoopEvent::QueueEmpty(empty)) => {
                if empty {
                    // Nothing to run: wait for I/O.
                    (LoopState::Parking, LoopAction::Park)
                } else {
                    (LoopState::Submitting, LoopAction::Submit)
                }
            },
            (LoopState::Submitting, LoopEvent::Submitted) => (
                LoopState::Measuring,
                LoopAction::MeasureQueue,
            ),
            (LoopState::Parking, LoopEvent::Parked) => (
                LoopState::Measuring,
                LoopAction::MeasureQueue,
            ),
            _ => (self.state, LoopAction::ReturnOutput),
        };
        self.state = next;
        action
    }
}

/// Within a round the budget only shrinks: running a task either ends the
/// round or leaves one task less to run, so a round runs at most
/// `2 * len + 1` tasks for a queue of `len` tasks.
pub proof fn lemma_round_is_bounded(budget: usize)
    ensures
        budget == 0 ==> loop_step(LoopState::Draining(budget), LoopEvent::TaskRan).0
            == LoopState::CheckingPollFlag,
        budget > 0 ==> loop_step(LoopState::Draining(budget), LoopEvent::TaskRan).0
            == LoopState::Draining((budget - 1) as usize),
{
}

/// A round over a queue of `len` tasks starts with a budget of `2 * len`.
pub proof fn lemma_round_budget(len: usize)
    requires
        len <= usize::MAX / 2,
    ensures
        loop_step(LoopState::Measuring, LoopEvent::QueueLength(len)) == (
            LoopState::Draining((2 * len) as usize),
            LoopAction::RunNextTask,
        ),
{
}

/// The loop ends exactly when a poll of the root future returns `Ready`;
/// the root future is polled only after it was woken; the loop parks only
/// when the queue is empty.
pub proof fn lemma_loop_outcomes(s: LoopState, e: LoopEvent)
    requires
        event_expected(s, e),
    ensures
        loop_step(s, e).1 == LoopAction::ReturnOutput <==> (s is PollingRoot && e is RootReady),
        loop_step(s, e).1 == LoopAction::PollRoot <==> e == LoopEvent::PollFlag(true),
        loop_step(s, e).1 == LoopAction::Park <==> e == LoopEvent::QueueEmpty(true),
{
}


/// The events that answer an action: what the caller can report after
/// performing it. Returning the output is answered by nothing.
pub open spec fn answers(a: LoopAction, e: LoopEvent) -> bool {
    match a {
        LoopAction::MeasureQueue => e is QueueLength,
        LoopAction::RunNextTask => e is TaskRan || e is QueueDrained,
        LoopAction::CheckPollFlag => e is PollFlag,
        LoopAction::PollRoot => e is RootPending || e is RootReady,
        LoopAction::CheckIdle => e is QueueEmpty,
        LoopAction::Submit => e is Submitted,
        LoopAction::Park => e is Parked,
        LoopAction::ReturnOutput => false,
    }
}

/// Each step leaves the loop waiting for exactly the events that answer the
/// action it returned (a queue length only up to the bound that keeps the
/// budget in range), so the caller can always go on by performing the action
/// and reporting what came of it, until the output is returned.
pub proof fn lemma_step_expects_answer(s: LoopState, e: LoopEvent, next: LoopEvent)
    requires
        event_expected(s, e),
    ensures
        event_expected(loop_step(s, e).0, next) ==> answers(loop_step(s, e).1, next),
        answers(loop_step(s, e).1, next) && !(next matches LoopEvent::QueueLength(n) && n
            > usize::MAX / 2) ==> event_expected(loop_step(s, e).0, next),
        loop_step(s, e).1 == LoopAction::ReturnOutput ==> loop_step(s, e).0 == LoopState::Finished,
{
}

} // verus!
