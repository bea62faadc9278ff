//! Buffers handed to the kernel by ownership, and owned slices of them.
pub mod io_buf;
pub mod slice_mut;
