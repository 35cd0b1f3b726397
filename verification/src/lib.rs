//! A fixed-membership, weighted multi-signature governance engine.
//!
//! A fixed set of voters, each with an integer weight, jointly authorizes
//! execution of batched opaque actions by voting on proposals. A proposal
//! passes once the accumulated yes-weight satisfies the configured threshold
//! policy before its deadline; a passed proposal's action batch is handed to
//! the surrounding execution sandbox exactly once.
//!
//! The engine itself is pure state-machine logic: it never reads a clock,
//! performs no I/O and never interprets an action payload. The surrounding
//! runtime supplies the current block to every operation and carries out the
//! dispatch of a passed proposal's batch.

pub mod engine;
pub mod error;
pub mod queries;
pub mod registry;
pub mod threshold;
pub mod types;
