//! Error taxonomy of the lifecycle orchestrator.

use vstd::prelude::*;

verus! {

/// What went wrong while provisioning or using an ephemeral stack.
///
/// Provisioning and client-construction failures abort the whole factory
/// call; teardown never reports through this type, since a cleanup failure
/// must not mask the outcome of the work the stack was provisioned for.
#[derive(Clone, Copy, Debug, PartialEq, Eq, Structural)]
pub enum StackError {
    /// The container runtime is unavailable, the service description is
    /// malformed, or a required image could not be obtained.
    Provision,
    /// A port query or teardown was addressed to a stack that never came up
    /// or is already down.
    NotRunning,
    /// The stack came up but a service did not become usable within the
    /// readiness window.
    NotReady,
    /// The endpoint was reachable but the client library rejected the
    /// configuration built for it.
    ClientConstruction,
}

} // verus!
