//! A completion device: one shared completion object that readers wait on and
//! writers signal.
//!
//! The crate is the decision logic of the device, written as a state machine
//! that never blocks. A host keeps the [`device::CompletionDevice`] behind its
//! lock, calls one method per file operation while it holds the lock, and
//! suspends or wakes execution contexts as the returned values tell it to,
//! after it has released the lock.
//!
//! * [`object`] is the wait/signal primitive: a sticky `done` flag and the
//!   queue of parked contexts.
//! * [`cell`] owns at most one such object and is filled exactly once.
//! * [`device`] maps `open`, `read` and `write` onto the cell and sequences
//!   registration and teardown.
//! * [`history`] states what holds of whole runs of reads and writes.
pub mod error;
pub mod object;
pub mod cell;
pub mod device;
pub mod history;
