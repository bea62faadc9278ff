//! The io-uring driver: the book-keeping of in-flight operations.
pub mod op;

use vstd::prelude::*;

verus! {

/// `user_data` of cancellation requests.
pub const CANCEL_USERDATA: u64 = 0xffff_ffff_ffff_ffff;

/// `user_data` of timeout requests.
pub const TIMEOUT_USERDATA: u64 = 0xffff_ffff_ffff_fffe;

/// The smallest `user_data` reserved for the driver's own requests.
pub const MIN_REVERSED_USERDATA: u64 = 0xffff_ffff_ffff_fffd;

/// Whether a completion belongs to one of the driver's own requests
/// (a cancellation or a timeout) rather than to an operation.
pub fn is_reserved_user_data(user_data: u64) -> (r: bool)
    ensures
        r == (user_data >= MIN_REVERSED_USERDATA),
{
    user_data >= MIN_REVERSED_USERDATA
}

/// Whether `need` more entries do not fit in a submission queue holding `len`
/// of `capacity` entries, so that it must be flushed first. `need` must fit in
/// an empty queue.
pub fn submission_needs_flush(len: usize, need: usize, capacity: usize) -> (r: bool)
    requires
        need <= capacity,
    ensures
        r == (len + need > capacity),
{
    len > capacity - need
}

/// How a submission to the kernel came back.
#[derive(Debug, Clone, Copy, PartialEq, Eq)]
pub enum SubmitOutcome {
    /// The entries were submitted.
    Submitted,
    /// An error of kind `Other`.
    OtherError,
    /// An error of kind `ResourceBusy`.
    Busy,
    /// Any other error.
    Failed,
}

/// What the driver does after a submission.
#[derive(Debug, Clone, Copy, PartialEq, Eq)]
pub enum SubmitAction {
    /// Sync the submission queue and report success.
    Finish,
    /// Reap completions to make room, then submit again.
    ReapAndRetry,
    /// Report the error.
    Fail,
}

/// Submitting stops on success or on an error other than `Other` and
/// `ResourceBusy`; on those two the completion queue is reaped and the
/// submission retried.
pub open spec fn submit_action_spec(outcome: SubmitOutcome) -> SubmitAction {
    match outcome {
        SubmitOutcome::Submitted => SubmitAction::Finish,
        SubmitOutcome::OtherError => SubmitAction::ReapAndRetry,
        SubmitOutcome::Busy => SubmitAction::ReapAndRetry,
        SubmitOutcome::Failed => SubmitAction::Fail,
    }
}

/// Decides what follows a submission.
pub fn submit_action(outcome: SubmitOutcome) -> (r: SubmitAction)
    ensures
        r == submit_action_spec(outcome),
{
    match outcome {
        SubmitOutcome::Submitted => SubmitAction::Finish,
        SubmitOutcome::OtherError | SubmitOutcome::Busy => SubmitAction::ReapAndRetry,
        SubmitOutcome::Failed => SubmitAction::Fail,
    }
}

} // verus!
