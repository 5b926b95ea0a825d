//! One-time diagnostics initialization.
//!
//! Many independent tests in one process may each ask for logging to be set
//! up; exactly the first request must take effect and every later one must
//! observe the already-initialized state and succeed without doing anything.
//! [`DiagnosticsBootstrap`] is that process-wide flag: the embedding harness
//! keeps one instance behind its once-guard and routes every request through
//! [`DiagnosticsBootstrap::acquire`], whose contract makes the first caller
//! the single winner.

use vstd::prelude::*;

verus! {

/// The process-wide "diagnostics are initialized" flag.
pub struct DiagnosticsBootstrap {
    /// Whether some earlier request already initialized diagnostics.
    pub initialized: bool,
}

impl DiagnosticsBootstrap {
    /// The flag at process start: nothing initialized yet.
    pub fn new() -> (r: DiagnosticsBootstrap)
        ensures
            !r.initialized,
    {
        DiagnosticsBootstrap { initialized: false }
    }

    /// One initialization request. The caller wins — and must perform the
    /// actual initialization — exactly when no earlier request did; either
    /// way the request succeeds and the flag is set afterwards.
    pub fn acquire(&mut self) -> (winner: bool)
        ensures
            final(self).initialized,
            winner == !old(self).initialized,
    {
        let winner = !self.initialized;
        self.initialized = true;
        winner
    }
}

/// How many of `calls` successive initialization requests win, starting
/// from a flag that reads `initialized`.
pub open spec fn winners_among(initialized: bool, calls: nat) -> nat
    decreases calls,
{
    if calls == 0 {
        0
    } else {
        (if initialized {
            0nat
        } else {
            1nat
        }) + winners_among(true, (calls - 1) as nat)
    }
}

/// Once diagnostics are initialized, no later request wins: reinitialization
/// never happens.
pub proof fn lemma_no_reinitialization(calls: nat)
    ensures
        winners_among(true, calls) == 0,
    decreases calls,
{
    if calls > 0 {
        lemma_no_reinitialization((calls - 1) as nat);
    }
}

/// However many callers request initialization of a fresh process — one or
/// a thousand, in whatever arrival order the scheduler gives concurrent
/// callers — exactly one wins, and none fails.
pub proof fn lemma_one_effective_initialization(calls: nat)
    requires
        calls >= 1,
    ensures
        winners_among(false, calls) == 1,
{
    lemma_no_reinitialization((calls - 1) as nat);
}

/// The default diagnostic verbosity profile: detailed for the system under
/// test and its catalog backends, coarse for everything else.
pub fn verbosity_profile() -> (r: String)
    ensures
        r@
            == "info,indexlake=debug,indexlake_catalog_postgres=debug,indexlake_catalog_sqlite=debug,indexlake_index_rstar=debug"@,
{
    "info,indexlake=debug,indexlake_catalog_postgres=debug,indexlake_catalog_sqlite=debug,indexlake_index_rstar=debug".to_owned()
}

/// Whether the default profile is to be applied: only where no verbosity
/// configuration exists yet — existing configuration wins.
pub fn should_apply_profile(already_configured: bool) -> (r: bool)
    ensures
        r == !already_configured,
{
    !already_configured
}

} // verus!
