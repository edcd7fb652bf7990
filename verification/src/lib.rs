//! Batched access-control evaluation over a declarative policy set.
//!
//! The crate turns loosely-typed request, policy, entity and schema inputs
//! into typed evaluation requests, asks the policy engine for a decision,
//! and composes one serialized response per request, isolating failures
//! per item and poisoning a whole batch only on fatal shared errors.

pub mod engine;
pub mod error;
pub mod laws;
pub mod pipeline;
pub mod request;
pub mod response;
pub mod text;
