//! Verified core of a bidirectional byte relay.
//!
//! The crate holds the two pieces whose correctness the relay depends on:
//! a fixed-capacity circular byte buffer with exact occupancy and content
//! contracts, and the relay engine's state machine, which decides how much
//! may be read from a source, what is offered to a destination, and how
//! partial writes and readiness events change the per-direction state.
//! Socket I/O and event polling live outside this crate and hand the engine
//! plain values: the bytes a read produced, the count a write accepted.

pub mod circular_buffer;
pub mod data_output;
pub mod relay_engine;
