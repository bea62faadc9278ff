//! A single-threaded task runtime: the packed task state machine, task headers,
//! owned I/O buffer slices, the local run queue and the executor's run loop.
pub mod buf;
pub mod driver;
pub mod executor;
pub mod task;

use vstd::prelude::*;

verus! {

} // verus!
