//! The lifecycle of one ephemeral stack, from provisioning to teardown.
//!
//! A [`StackSession`] records what has been established about a stack: was
//! it brought up, did the readiness gate complete, which host port was
//! discovered, was the typed client constructed. The embedding harness
//! performs the actual runtime operations (start the containers, sleep or
//! probe, query the port mapping, build the client) and reports each outcome
//! here; the contracts force the orchestration order — up precedes port
//! discovery, which precedes client construction, which precedes teardown —
//! and make teardown exactly-once.

use vstd::prelude::*;
use crate::error::StackError;
use crate::identity::StackIdentity;

verus! {

/// Seconds the readiness gate waits after the stack came up, before the
/// stack is handed to the client constructor. A deliberately simple policy:
/// an active probe with a bounded retry may replace the fixed delay without
/// changing any contract here.
pub const READINESS_DELAY_SECS: u64 = 2;

/// Where one stack stands in its life.
#[derive(Clone, Copy, Debug, PartialEq, Eq, Structural)]
pub enum Lifecycle {
    /// The identity exists; nothing was started yet.
    Pending,
    /// The stack came up; its containers exist on the host.
    Up,
    /// Bringing the stack up failed; partial resources may exist on the
    /// host, so teardown is still owed.
    Failed,
    /// The stack was torn down, or released before anything was started.
    Closed,
}

/// One reported outcome of a runtime operation, in the order the embedding
/// harness feeds them to the session: the stack start, the readiness gate,
/// a port-mapping query, the client construction, a release.
pub enum SessionEvent {
    /// The stack start ended; the payload is whether it succeeded.
    Up(bool),
    /// The readiness gate ended; the payload is whether the service became
    /// ready within the window.
    Gate(bool),
    /// A mapping query ended; the payload is the host port the runtime
    /// reported, if it listed the service.
    Port(Option<u16>),
    /// The client construction ended; the payload is whether the client
    /// library accepted the configuration.
    Client(bool),
    /// The session was released.
    Close,
}

/// The recorded state of one stack's provisioning run.
pub struct StackSession {
    /// The identity every runtime resource of the stack is namespaced by.
    pub identity: StackIdentity,
    /// Where the stack stands in its life.
    pub lifecycle: Lifecycle,
    /// Whether the readiness gate completed.
    pub warmed: bool,
    /// The discovered host port, once a mapping query succeeded.
    pub host_port: Option<u16>,
    /// Whether the typed client was constructed for the discovered port.
    pub client_bound: bool,
}

impl StackSession {
    /// The stack is up: its containers run and a teardown is owed.
    pub open spec fn up_live(self) -> bool {
        self.lifecycle is Up
    }

    /// A teardown must still be issued for the stack: its containers exist,
    /// wholly (up) or possibly partially (failed start).
    pub open spec fn teardown_required(self) -> bool {
        self.lifecycle is Up || self.lifecycle is Failed
    }

    /// What every session the orchestrator hands around satisfies: nothing
    /// later in the order is recorded before everything earlier in it.
    pub open spec fn wf(self) -> bool {
        &&& (self.warmed ==> !(self.lifecycle is Pending))
        &&& (self.host_port is Some ==> !(self.lifecycle is Pending))
        &&& (self.client_bound ==> self.lifecycle is Up && self.warmed && self.host_port is Some)
    }

    /// The session a close leaves behind: the stack is down, no client is
    /// bound any more.
    pub open spec fn closed_state(self) -> StackSession {
        StackSession { lifecycle: Lifecycle::Closed, client_bound: false, ..self }
    }

    /// Whether a close of this session issues the runtime's down operation.
    pub open spec fn close_issues(self) -> bool {
        self.teardown_required()
    }

    /// Whether the session accepts the event now: the precondition of the
    /// method that records it.
    pub open spec fn accepts(self, event: SessionEvent) -> bool {
        match event {
            SessionEvent::Up(_) => self.lifecycle is Pending,
            SessionEvent::Gate(_) => self.lifecycle is Up,
            SessionEvent::Port(_) => self.lifecycle is Up,
            SessionEvent::Client(_) => self.lifecycle is Up && self.warmed && self.host_port
                is Some,
            SessionEvent::Close => true,
        }
    }

    /// The session the recording method of the event leaves behind.
    pub open spec fn apply(self, event: SessionEvent) -> StackSession {
        match event {
            SessionEvent::Up(started) => StackSession {
                lifecycle: if started {
                    Lifecycle::Up
                } else {
                    Lifecycle::Failed
                },
                ..self
            },
            SessionEvent::Gate(became_ready) => StackSession {
                warmed: self.warmed || became_ready,
                ..self
            },
            SessionEvent::Port(reported) => StackSession {
                host_port: if reported is Some {
                    reported
                } else {
                    self.host_port
                },
                ..self
            },
            SessionEvent::Client(constructed) => StackSession { client_bound: constructed, ..self },
            SessionEvent::Close => self.closed_state(),
        }
    }

    /// A new session for a freshly created identity.
    pub fn new(identity: StackIdentity) -> (r: StackSession)
        ensures
            r.identity == identity,
            r.lifecycle is Pending,
            !r.warmed,
            r.host_port is None,
            !r.client_bound,
            r.wf(),
    {
        StackSession {
            identity,
            lifecycle: Lifecycle::Pending,
            warmed: false,
            host_port: None,
            client_bound: false,
        }
    }

    /// Records the outcome of bringing the stack up. On failure the whole
    /// factory call aborts with `Provision`; teardown is still owed for
    /// whatever partially came into existence.
    pub fn note_up(&mut self, started: bool) -> (r: Result<(), StackError>)
        requires
            old(self).lifecycle is Pending,
            old(self).wf(),
        ensures
            final(self).identity == old(self).identity,
            final(self).warmed == old(self).warmed,
            final(self).host_port == old(self).host_port,
            final(self).client_bound == old(self).client_bound,
            final(self).wf(),
            *final(self) == old(self).apply(SessionEvent::Up(started)),
            started ==> final(self).lifecycle is Up && r is Ok,
            !started ==> final(self).lifecycle is Failed && r == Err::<(), StackError>(
                StackError::Provision,
            ),
    {
        if started {
            self.lifecycle = Lifecycle::Up;
            Ok(())
        } else {
            self.lifecycle = Lifecycle::Failed;
            Err(StackError::Provision)
        }
    }

    /// Records the outcome of the readiness gate: `true` after the fixed
    /// delay elapsed (the delay policy never fails), `false` when an active
    /// probe exhausted its window, which aborts the factory call with
    /// `NotReady`. Either way the stack stays up and teardown stays owed.
    pub fn note_ready(&mut self, became_ready: bool) -> (r: Result<(), StackError>)
        requires
            old(self).lifecycle is Up,
            old(self).wf(),
        ensures
            final(self).identity == old(self).identity,
            final(self).lifecycle == old(self).lifecycle,
            final(self).host_port == old(self).host_port,
            final(self).client_bound == old(self).client_bound,
            final(self).wf(),
            *final(self) == old(self).apply(SessionEvent::Gate(became_ready)),
            became_ready ==> final(self).warmed && r is Ok,
            !became_ready ==> final(self).warmed == old(self).warmed && r == Err::<
                (),
                StackError,
            >(StackError::NotReady),
    {
        if became_ready {
            self.warmed = true;
            Ok(())
        } else {
            Err(StackError::NotReady)
        }
    }

    /// Whether a port-mapping query may be addressed to the stack now: yes
    /// exactly while it is up. Readiness plays no part — a host port is
    /// assigned when the containers start, not when the service finishes
    /// initializing.
    pub fn port_query_allowed(&self) -> (r: bool)
        ensures
            r == self.up_live(),
    {
        match self.lifecycle {
            Lifecycle::Up => true,
            _ => false,
        }
    }

    /// Records what the runtime's mapping table reported for (service,
    /// internal port): the current host port, or nothing when the stack or
    /// service is not listed, which aborts with `NotRunning`. Callable as
    /// soon as the stack is up, before or after the readiness gate, and
    /// repeatedly — the runtime is re-queried each time, never cached.
    pub fn note_port(&mut self, reported: Option<u16>) -> (r: Result<u16, StackError>)
        requires
            old(self).lifecycle is Up,
            old(self).wf(),
        ensures
            final(self).identity == old(self).identity,
            final(self).lifecycle == old(self).lifecycle,
            final(self).warmed == old(self).warmed,
            final(self).client_bound == old(self).client_bound,
            final(self).wf(),
            *final(self) == old(self).apply(SessionEvent::Port(reported)),
            match reported {
                Some(p) => final(self).host_port == Some(p) && r == Ok::<u16, StackError>(p),
                None => final(self).host_port == old(self).host_port && r == Err::<
                    u16,
                    StackError,
                >(StackError::NotRunning),
            },
    {
        match reported {
            Some(p) => {
                self.host_port = Some(p);
                Ok(p)
            },
            None => Err(StackError::NotRunning),
        }
    }

    /// Records whether the client library accepted the configuration built
    /// for the discovered port. Rejection — a wrong bucket or catalog name
    /// among others — aborts the factory call with `ClientConstruction`; no
    /// partially-initialized handle is ever recorded as bound. Requires the
    /// full order before it: up, readiness gate, port discovered.
    pub fn bind_client(&mut self, constructed: bool) -> (r: Result<(), StackError>)
        requires
            old(self).lifecycle is Up,
            old(self).warmed,
            old(self).host_port is Some,
            old(self).wf(),
        ensures
            final(self).identity == old(self).identity,
            final(self).lifecycle == old(self).lifecycle,
            final(self).warmed == old(self).warmed,
            final(self).host_port == old(self).host_port,
            final(self).wf(),
            *final(self) == old(self).apply(SessionEvent::Client(constructed)),
            constructed ==> final(self).client_bound && r is Ok,
            !constructed ==> !final(self).client_bound && r == Err::<(), StackError>(
                StackError::ClientConstruction,
            ),
    {
        if constructed {
            self.client_bound = true;
            Ok(())
        } else {
            self.client_bound = false;
            Err(StackError::ClientConstruction)
        }
    }

    /// Ends the session: afterwards the stack counts as down. Returns
    /// whether the caller must issue the runtime's down operation — true
    /// exactly when containers may exist on the host (the stack was up, or
    /// its start failed partway), false on a session that never started and
    /// always false on one already closed. A failure of the issued operation
    /// is for the caller to log, never to propagate.
    pub fn close(&mut self) -> (issue_down: bool)
        ensures
            *final(self) == old(self).closed_state(),
            *final(self) == old(self).apply(SessionEvent::Close),
            final(self).wf(),
            issue_down == old(self).close_issues(),
    {
        let issue_down = match self.lifecycle {
            Lifecycle::Up => true,
            Lifecycle::Failed => true,
            _ => false,
        };
        self.lifecycle = Lifecycle::Closed;
        self.client_bound = false;
        issue_down
    }
}

/// The session a run of events leaves behind, each applied in turn.
pub open spec fn run(s: StackSession, events: Seq<SessionEvent>) -> StackSession
    decreases events.len(),
{
    if events.len() == 0 {
        s
    } else {
        run(s.apply(events[0]), events.drop_first())
    }
}

/// Whether every event of the run is accepted in the state it meets.
pub open spec fn run_accepted(s: StackSession, events: Seq<SessionEvent>) -> bool
    decreases events.len(),
{
    events.len() == 0 || (s.accepts(events[0]) && run_accepted(
        s.apply(events[0]),
        events.drop_first(),
    ))
}

/// Every accepted run preserves the session's well-formedness: the order
/// invariant cannot be talked out of the state, whatever the runtime
/// reports.
pub proof fn lemma_run_preserves_wf(s: StackSession, events: Seq<SessionEvent>)
    requires
        s.wf(),
        run_accepted(s, events),
    ensures
        run(s, events).wf(),
    decreases events.len(),
{
    if events.len() > 0 {
        lemma_run_preserves_wf(s.apply(events[0]), events.drop_first());
    }
}

/// Down is final: a closed session accepts nothing but further releases,
/// every one of which changes nothing and issues no teardown. Whatever
/// happens after the first close, the runtime's down operation is never
/// owed again for the stack.
pub proof fn lemma_closed_stays_closed(s: StackSession, events: Seq<SessionEvent>)
    requires
        s.lifecycle is Closed,
        run_accepted(s, events),
    ensures
        run(s, events).lifecycle is Closed,
        !run(s, events).close_issues(),
        forall|i: int| 0 <= i < events.len() ==> events[i] is Close,
    decreases events.len(),
{
    if events.len() > 0 {
        lemma_closed_stays_closed(s.apply(events[0]), events.drop_first());
        assert forall|i: int| 0 <= i < events.len() implies events[i] is Close by {
            if i > 0 {
                assert(events.drop_first()[i - 1] == events[i]);
            }
        }
    }
}

/// A bound client comes only from an accepted client construction: no run
/// binds one without the event that reports the client library's success.
pub proof fn lemma_bound_client_needs_client_event(s: StackSession, events: Seq<SessionEvent>)
    requires
        !s.client_bound,
        run_accepted(s, events),
        run(s, events).client_bound,
    ensures
        exists|i: int|
            0 <= i < events.len() && events[i] == SessionEvent::Client(true),
    decreases events.len(),
{
    if events.len() > 0 {
        if events[0] == SessionEvent::Client(true) {
            assert(0 <= 0 < events.len() && events[0] == SessionEvent::Client(true));
        } else {
            lemma_bound_client_needs_client_event(s.apply(events[0]), events.drop_first());
            let j = choose|j: int|
                0 <= j < events.drop_first().len() && events.drop_first()[j]
                    == SessionEvent::Client(true);
            assert(events[j + 1] == SessionEvent::Client(true));
        }
    }
}

/// A completed readiness gate comes only from the event that reports it.
pub proof fn lemma_warmed_needs_gate_event(s: StackSession, events: Seq<SessionEvent>)
    requires
        !s.warmed,
        run_accepted(s, events),
        run(s, events).warmed,
    ensures
        exists|i: int| 0 <= i < events.len() && events[i] == SessionEvent::Gate(true),
    decreases events.len(),
{
    if events.len() > 0 {
        if events[0] == SessionEvent::Gate(true) {
            assert(0 <= 0 < events.len() && events[0] == SessionEvent::Gate(true));
        } else {
            lemma_warmed_needs_gate_event(s.apply(events[0]), events.drop_first());
            let j = choose|j: int|
                0 <= j < events.drop_first().len() && events.drop_first()[j]
                    == SessionEvent::Gate(true);
            assert(events[j + 1] == SessionEvent::Gate(true));
        }
    }
}

/// A recorded host port comes only from a mapping the runtime reported.
pub proof fn lemma_port_needs_port_event(s: StackSession, events: Seq<SessionEvent>)
    requires
        s.host_port is None,
        run_accepted(s, events),
        run(s, events).host_port is Some,
    ensures
        exists|i: int|
            0 <= i < events.len() && ((#[trigger] events[i]) matches SessionEvent::Port(Some(_))),
    decreases events.len(),
{
    if events.len() > 0 {
        if events[0] matches SessionEvent::Port(Some(_)) {
            assert(0 <= 0 < events.len() && (events[0] matches SessionEvent::Port(Some(_))));
        } else {
            lemma_port_needs_port_event(s.apply(events[0]), events.drop_first());
            let j = choose|j: int|
                0 <= j < events.drop_first().len() && ((#[trigger] events.drop_first()[j]) matches
                    SessionEvent::Port(Some(_)));
            assert(events[j + 1] matches SessionEvent::Port(Some(_)));
        }
    }
}

/// An up stack comes only from a successful start.
pub proof fn lemma_up_needs_up_event(s: StackSession, events: Seq<SessionEvent>)
    requires
        !(s.lifecycle is Up),
        run_accepted(s, events),
        run(s, events).lifecycle is Up,
    ensures
        exists|i: int| 0 <= i < events.len() && events[i] == SessionEvent::Up(true),
    decreases events.len(),
{
    if events.len() > 0 {
        if events[0] == SessionEvent::Up(true) {
            assert(0 <= 0 < events.len() && events[0] == SessionEvent::Up(true));
        } else {
            lemma_up_needs_up_event(s.apply(events[0]), events.drop_first());
            let j = choose|j: int|
                0 <= j < events.drop_first().len() && events.drop_first()[j]
                    == SessionEvent::Up(true);
            assert(events[j + 1] == SessionEvent::Up(true));
        }
    }
}

/// The client is never exposed early: an accepted run of a fresh session
/// that ends with a bound client contains a successful start, a completed
/// readiness gate, a reported host port and an accepted client
/// construction — no sequence of runtime reports can smuggle a client past
/// the provisioning order.
pub proof fn lemma_client_needs_full_provisioning(s: StackSession, events: Seq<SessionEvent>)
    requires
        s.lifecycle is Pending,
        !s.warmed,
        s.host_port is None,
        !s.client_bound,
        run_accepted(s, events),
        run(s, events).client_bound,
    ensures
        exists|i: int| 0 <= i < events.len() && events[i] == SessionEvent::Up(true),
        exists|i: int| 0 <= i < events.len() && events[i] == SessionEvent::Gate(true),
        exists|i: int|
            0 <= i < events.len() && ((#[trigger] events[i]) matches SessionEvent::Port(Some(_))),
        exists|i: int|
            0 <= i < events.len() && events[i] == SessionEvent::Client(true),
{
    lemma_run_preserves_wf(s, events);
    lemma_bound_client_needs_client_event(s, events);
    lemma_warmed_needs_gate_event(s, events);
    lemma_port_needs_port_event(s, events);
    lemma_up_needs_up_event(s, events);
}

/// Teardown is idempotent: the first close settles the session, and the
/// second of two consecutive closes issues no down operation and changes
/// nothing — per identity, the runtime's down runs at most once through a
/// session, however often close is called.
pub proof fn lemma_close_idempotent(s: StackSession)
    ensures
        !s.closed_state().close_issues(),
        s.closed_state().closed_state() == s.closed_state(),
{
}

/// Port discovery is independent of readiness: whether a port query is
/// allowed depends on the stack being up alone, so a query between `up` and
/// the end of the readiness gate is as valid as one after it.
pub proof fn lemma_port_allowed_before_readiness(s: StackSession)
    requires
        s.lifecycle is Up,
        !s.warmed,
    ensures
        s.up_live(),
{
}

} // verus!
