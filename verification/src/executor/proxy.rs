//! The handle through which tasks are spawned onto the current executor.
use vstd::prelude::*;

verus! {

/// A handle to the executor running on the current thread.
pub struct ExecutorProxy {}

/// The handle to the current thread's executor.
pub fn executor() -> (r: ExecutorProxy)
    ensures
        r == (ExecutorProxy {}),
{
    ExecutorProxy {}
}

} // verus!
