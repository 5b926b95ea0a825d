//! The scoped handle pairing a running stack with the typed client built
//! from its discovered address.
//!
//! A [`ServiceContext`] exclusively owns one [`StackSession`] and one
//! client. It exists only for a stack that is up, past the readiness gate,
//! and whose client was constructed; releasing it settles the session and
//! tells the caller to issue the runtime's down operation, exactly once per
//! stack, on every exit path the caller routes through it.

use vstd::prelude::*;
use crate::identity::StackIdentity;
use crate::session::StackSession;

verus! {

/// A running stack coupled to the typed client bound to it. The client is
/// the sole working surface; the context's only job is tying the stack's
/// lifetime to the client's.
pub struct ServiceContext<C> {
    session: StackSession,
    client: C,
}

impl<C> ServiceContext<C> {
    /// The session the context owns.
    pub closed spec fn session(self) -> StackSession {
        self.session
    }

    /// The client the context owns.
    pub closed spec fn spec_client(self) -> C {
        self.client
    }

    /// A live context: its stack is up and its client is bound.
    pub open spec fn wf(self) -> bool {
        &&& self.session().wf()
        &&& self.session().lifecycle is Up
        &&& self.session().client_bound
    }

    /// Couples a constructed client to the session it was built under. The
    /// session must have run the whole provisioning order: up, readiness
    /// gate, port discovery, client construction.
    pub fn new(session: StackSession, client: C) -> (r: ServiceContext<C>)
        requires
            session.wf(),
            session.lifecycle is Up,
            session.client_bound,
        ensures
            r.session() == session,
            r.spec_client() == client,
            r.wf(),
    {
        ServiceContext { session, client }
    }

    /// The typed client bound to the stack's discovered address.
    pub fn client(&self) -> (r: &C)
        ensures
            *r == self.spec_client(),
    {
        &self.client
    }

    /// The identity of the stack the context keeps up.
    pub fn identity(&self) -> (r: &StackIdentity)
        ensures
            *r == self.session().identity,
    {
        &self.session.identity
    }

    /// Releases the context: afterwards its stack counts as down and no
    /// client is bound. Returns whether the caller must issue the runtime's
    /// down operation — true on a live context, false ever after, so the
    /// teardown of one stack is issued at most once however the owning scope
    /// exits or how often it releases.
    pub fn release(&mut self) -> (issue_down: bool)
        ensures
            final(self).session() == old(self).session().closed_state(),
            final(self).spec_client() == old(self).spec_client(),
            !final(self).session().up_live(),
            issue_down == old(self).session().close_issues(),
            old(self).wf() ==> issue_down,
    {
        self.session.close()
    }
}

/// A live context always owes its stack a teardown, and owes it exactly
/// once: releasing it issues the runtime's down operation, after which the
/// model holds no running stack for the identity and a repeated release
/// issues nothing.
pub proof fn lemma_release_tears_down(s: StackSession)
    requires
        s.wf(),
        s.lifecycle is Up,
        s.client_bound,
    ensures
        s.close_issues(),
        !s.closed_state().up_live(),
        !s.closed_state().close_issues(),
{
}

} // verus!
