//! Tasks: the state word that every task header carries, what the operations
//! on it keep, and the header itself.
pub mod debugging;
pub mod header;
pub mod laws;
pub mod layout;
pub mod state;
