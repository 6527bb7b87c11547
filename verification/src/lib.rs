//! A verified engine that resolves a manifest of remote blob references into
//! local files, backed by a shared content-addressed cache.
//!
//! The library holds the decision logic: manifest validation, the per-entry
//! download state machine, the atomic cache-commit protocol, cache eviction
//! planning, and first-error aggregation. The surrounding process (file and
//! network I/O, the async runtime) drives these functions and performs the
//! actions they request.

pub mod cache;
pub mod config;
pub mod coordinator;
pub mod error;
pub mod manifest;
pub mod orchestrator;

pub use error::TransferError;
