//! A feature-flag evaluation engine.
//!
//! The library decides, per request, whether a named feature is active for a
//! given caller. Evaluation strategies are pluggable: a deterministic
//! percentage rollout keyed on the caller's identity, and user-segment
//! targeting. A [`manager::FeatureFlagManager`] owns one strategy together
//! with a concurrently mutable flag override table behind a reader-writer
//! lock. Configuration types, a builder, and the pure parts of configuration
//! loading and merging round the engine out.

pub mod builder;
pub mod errors;
pub mod evaluator;
pub mod loader;
pub mod logging;
pub mod manager;
pub mod strategies;
pub mod tables;
pub mod types;
