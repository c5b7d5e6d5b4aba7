//! Incremental folding-proof accumulator for federated-learning gradient
//! aggregation.
//!
//! An aggregator folds a sequence of gradient contributions into a running
//! model-weight accumulator, one proof step per contribution, and finalizes
//! a proof artifact whose verification cost is independent of the number of
//! folded steps.  Values are carried as fixed-point integers (micro-units);
//! the cryptographic folding engine is reached through the
//! [`engine::FoldingEngine`] trait.

pub mod circuit;
pub mod encoder;
pub mod engine;
pub mod errors;
pub mod plain;
pub mod session;

pub use encoder::FieldRepr;
pub use errors::BatchError;
pub use errors::EngineError;
