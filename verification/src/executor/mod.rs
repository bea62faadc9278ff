//! The local executor: its run queue, the decisions of its run loop, and the
//! proxy that spawns onto it.
pub mod proxy;
pub mod queue;
pub mod run_loop;
