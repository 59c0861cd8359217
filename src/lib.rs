//! State machine replica of the overlord consensus protocol.
//!
//! The replica holds `(height, round, step, block_hash, lock)` and advances it
//! on validated triggers, returning the events that the surrounding system must
//! publish. Every transition is stated as a spec function and proved.

/// Error taxonomy of the state machine.
pub mod error;
/// State machine replica.
pub mod smr;
/// Message types of the overlord consensus protocol.
pub mod types;
