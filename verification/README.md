# blizzard

A single-threaded async runtime on io-uring, with its decisions verified by
Verus.

- `src/task/state.rs` — the task state word: five flags and a reference count
  packed into a `usize`, its meaning (`StateView`), and every transition
  (running, idle, scheduled, completed, closed, join-handle poll and drop,
  waker drop, …) stated exactly over that meaning.
- `src/task/laws.rs` — what every transition keeps (completion and closing are
  permanent, a completed task is neither running nor scheduled) and how
  transitions compose (waking and cancelling are idempotent, wake-ups during a
  poll are not lost, a closed task is never polled again, …).
- `src/task/header.rs`, `src/task/layout.rs`, `src/task/debugging.rs` — the task
  header with its awaiter, the layout of a task allocation, and task tracing.
- `src/buf/` — buffers handed to the kernel and owned slices of them.
- `src/executor/` — the run queue, the decisions of the run loop, and the
  executor handle.
- `src/driver/` — the life cycle of in-flight operations and the table that
  holds them (slotmap's `SlotMap`, behind trusted wrappers).
- `app/` — the unverified runtime around the library: task allocations,
  wakers and join handles, the executor's thread-local context, the io-uring
  system calls and the trace log.
