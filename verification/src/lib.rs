//! A governance-proposal lifecycle engine.
//!
//! Registered participants create time-boxed proposals, cast one vote each
//! among a bounded set of options, and deterministically resolve each
//! proposal to passed or rejected based on quorum and vote tallies, finally
//! gating a delayed execution step.
//!
//! The hosting environment supplies the caller identity and the current time
//! with every mutating call, persists the state object between calls, and
//! serializes access to it; this crate holds the state machine itself.

pub mod errors;
pub mod events;
pub mod types;
pub mod text;
pub mod tally;
pub mod model;
pub mod governance;
pub mod laws;
