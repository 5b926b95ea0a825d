//! The provisioning order, the error taxonomy, and exactly-once teardown.

use ephemeral_stack::context::ServiceContext;
use ephemeral_stack::error::StackError;
use ephemeral_stack::identity::fresh_postgres_identity;
use ephemeral_stack::session::Lifecycle;
use ephemeral_stack::session::StackSession;
use ephemeral_stack::session::READINESS_DELAY_SECS;

#[test]
fn happy_path_runs_in_order() {
    let identity = fresh_postgres_identity("/scratch");
    let mut session = StackSession::new(identity);
    assert_eq!(session.lifecycle, Lifecycle::Pending);

    assert_eq!(session.note_up(true), Ok(()));
    assert_eq!(session.lifecycle, Lifecycle::Up);

    assert_eq!(session.note_ready(true), Ok(()));
    assert!(session.warmed);

    assert_eq!(session.note_port(Some(5432)), Ok(5432));
    assert_eq!(session.host_port, Some(5432));

    assert_eq!(session.bind_client(true), Ok(()));
    assert!(session.client_bound);

    let mut context = ServiceContext::new(session, "catalog client".to_owned());
    assert_eq!(context.client().as_str(), "catalog client");
    assert!(context.identity().name.starts_with("pg-"));

    assert!(context.release());
    assert!(!context.release());
}

#[test]
fn down_is_idempotent() {
    let identity = fresh_postgres_identity("/scratch");
    let mut session = StackSession::new(identity);
    assert_eq!(session.note_up(true), Ok(()));

    assert!(session.close());
    assert!(!session.close());
    assert_eq!(session.lifecycle, Lifecycle::Closed);
}

#[test]
fn released_context_holds_no_running_stack() {
    let identity = fresh_postgres_identity("/scratch");
    let mut session = StackSession::new(identity);
    assert_eq!(session.note_up(true), Ok(()));
    assert_eq!(session.note_ready(true), Ok(()));
    assert_eq!(session.note_port(Some(5432)), Ok(5432));
    assert_eq!(session.bind_client(true), Ok(()));

    let mut context = ServiceContext::new(session, "catalog client".to_owned());
    // A live context owes exactly one teardown, whatever path releases it.
    assert!(context.release());
    assert!(!context.release());
    assert!(!context.release());
}

#[test]
fn port_is_valid_before_readiness_gate() {
    let identity = fresh_postgres_identity("/scratch");
    let mut session = StackSession::new(identity);
    assert_eq!(session.note_up(true), Ok(()));

    // The readiness gate has not completed, yet the mapping query is
    // allowed and returns the host port the runtime reported.
    assert!(!session.warmed);
    assert!(session.port_query_allowed());
    assert_eq!(session.note_port(Some(9000)), Ok(9000));

    assert!(session.close());
}

#[test]
fn port_query_reflects_current_mapping() {
    let identity = fresh_postgres_identity("/scratch");
    let mut session = StackSession::new(identity);
    assert_eq!(session.note_up(true), Ok(()));

    assert_eq!(session.note_port(Some(49100)), Ok(49100));
    // A second query re-reads the runtime's table rather than a cache.
    assert_eq!(session.note_port(Some(49200)), Ok(49200));
    assert_eq!(session.host_port, Some(49200));

    assert!(session.close());
}

#[test]
fn failed_up_aborts_with_provision_error() {
    let identity = fresh_postgres_identity("/scratch");
    let mut session = StackSession::new(identity);
    assert_eq!(session.note_up(false), Err(StackError::Provision));
    assert_eq!(session.lifecycle, Lifecycle::Failed);

    // Teardown is still owed for whatever partially came up.
    assert!(session.close());
    assert!(!session.close());
}

#[test]
fn missing_mapping_aborts_with_not_running_error() {
    let identity = fresh_postgres_identity("/scratch");
    let mut session = StackSession::new(identity);
    assert_eq!(session.note_up(true), Ok(()));

    assert_eq!(session.note_port(None), Err(StackError::NotRunning));
    assert_eq!(session.host_port, None);

    assert!(session.close());
}

#[test]
fn exhausted_gate_aborts_with_not_ready_error() {
    let identity = fresh_postgres_identity("/scratch");
    let mut session = StackSession::new(identity);
    assert_eq!(session.note_up(true), Ok(()));

    assert_eq!(session.note_ready(false), Err(StackError::NotReady));
    assert!(!session.warmed);

    // The stack itself is still up and owes a teardown.
    assert!(session.close());
}

#[test]
fn rejected_client_aborts_with_client_construction_error() {
    let identity = fresh_postgres_identity("/scratch");
    let mut session = StackSession::new(identity);
    assert_eq!(session.note_up(true), Ok(()));
    assert_eq!(session.note_ready(true), Ok(()));
    assert_eq!(session.note_port(Some(9000)), Ok(9000));

    // A wrong bucket or catalog name surfaces as a construction error;
    // no partially-initialized handle is recorded.
    assert_eq!(session.bind_client(false), Err(StackError::ClientConstruction));
    assert!(!session.client_bound);

    assert!(session.close());
}

#[test]
fn readiness_delay_is_two_seconds() {
    assert_eq!(READINESS_DELAY_SECS, 2);
}
