//! One-time diagnostics initialization: a single winner, no failures.

use ephemeral_stack::bootstrap::should_apply_profile;
use ephemeral_stack::bootstrap::verbosity_profile;
use ephemeral_stack::bootstrap::DiagnosticsBootstrap;

#[test]
fn exactly_one_caller_wins_initialization() {
    let mut flag = DiagnosticsBootstrap::new();
    let mut winners: usize = 0;
    for _ in 0..50 {
        if flag.acquire() {
            winners += 1;
        }
    }
    assert_eq!(winners, 1);
    assert!(flag.initialized);
}

#[test]
fn first_caller_is_the_winner() {
    let mut flag = DiagnosticsBootstrap::new();
    assert!(flag.acquire());
    assert!(!flag.acquire());
    assert!(!flag.acquire());
}

#[test]
fn verbosity_profile_elevates_the_system_under_test() {
    assert_eq!(
        verbosity_profile(),
        "info,indexlake=debug,indexlake_catalog_postgres=debug,indexlake_catalog_sqlite=debug,indexlake_index_rstar=debug"
    );
}

#[test]
fn existing_configuration_wins() {
    assert!(should_apply_profile(false));
    assert!(!should_apply_profile(true));
}
