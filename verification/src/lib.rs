//! Ephemeral backing-service lifecycle orchestration for integration tests.
//!
//! The crate provisions short-lived, isolated service stacks (a relational
//! catalog store and an object-storage endpoint), hands out uniform endpoint
//! descriptors for the clients bound to them, and guarantees deterministic
//! teardown. The lifecycle rules themselves — unique stack naming, the
//! up / readiness / port-discovery / client-construction / down ordering,
//! exactly-once teardown, and one-time diagnostics initialization — are
//! verified here; the surrounding process and network calls are performed by
//! the embedding harness against the contracts of this crate.

pub mod bootstrap;
pub mod context;
pub mod endpoint;
pub mod error;
pub mod identity;
pub mod session;
pub mod text;
