//! A verified client core for a push-based real-time gateway protocol.
//!
//! The heart of the library is the [`shard::Shard`] state machine: it owns
//! the session and heartbeat bookkeeping for one gateway connection and
//! decides, for every event the connection driver reports, which state to
//! move to and which action the driver must perform next.  Every transition
//! is specified by the spec function [`shard::Shard::step_spec`] and the
//! executable [`shard::Shard::step`] is proved to implement it exactly.

pub mod client;
pub mod error;
pub mod heartbeat;
pub mod intents;
pub mod laws;
pub mod session;
pub mod shard;
