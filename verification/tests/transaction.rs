//! The transaction state machine, driven with stubbed raw-connection
//! outcomes.

use pgpool::error::ExecutionError;
use pgpool::sql::{Parameter, Statement};
use pgpool::transaction::{Transaction, TransactionErr};

fn fail(msg: &str) -> Result<u64, ExecutionError> {
    Err(ExecutionError { msg: msg.to_string() })
}

/// Drives `BEGIN` and the isolation statement with successful outcomes.
fn start_active(tx: &mut Transaction) {
    assert_eq!(tx.next_sql().unwrap(), "BEGIN;");
    assert!(tx.on_result(Ok(0)).is_none());
    assert_eq!(
        tx.next_sql().unwrap(),
        "set transaction isolation level read committed"
    );
    assert!(matches!(tx.on_result(Ok(0)), Some(Ok(()))));
    assert!(tx.is_active());
}

fn insert_statement() -> Statement {
    Statement::new(
        "insert into t values(?)".to_string(),
        Some(vec![Parameter::Int(1)]),
    )
}

#[test]
fn commit_flow_runs_statements_in_order() {
    let mut tx = Transaction::begin(None, pgpool::client::ClientWrapper::new(0));
    start_active(&mut tx);

    assert!(tx.execute(&insert_statement()).is_ok());
    assert_eq!(tx.next_sql().unwrap(), "insert into t values(1)");
    assert!(matches!(tx.on_result(Ok(1)), Some(Ok(()))));
    assert!(tx.is_active());

    assert!(tx.commit().is_ok());
    assert_eq!(tx.next_sql().unwrap(), "commit;");
    assert!(matches!(tx.on_result(Ok(0)), Some(Ok(()))));
    assert!(tx.is_committed());
    assert!(tx.is_finished());
    assert!(tx.next_sql().is_none());
}

#[test]
fn failing_execute_rolls_back_and_keeps_its_message() {
    let mut tx = Transaction::begin(None, pgpool::client::ClientWrapper::new(0));
    start_active(&mut tx);

    assert!(tx.execute(&insert_statement()).is_ok());
    assert!(tx.on_result(fail("duplicate key")).is_none());
    assert_eq!(tx.next_sql().unwrap(), "rollback;");
    match tx.on_result(Ok(0)) {
        Some(Err(TransactionErr::Execute(e))) => {
            assert_eq!(e.msg, "duplicate key");
            assert!(e.rollback_failure.is_none());
        }
        other => panic!("unexpected step result: {:?}", other),
    }
    assert!(tx.is_rolled_back());
}

#[test]
fn no_statement_is_attempted_after_a_failure() {
    let mut tx = Transaction::begin(None, pgpool::client::ClientWrapper::new(0));
    start_active(&mut tx);

    assert!(tx.execute(&insert_statement()).is_ok());
    assert!(tx.on_result(fail("boom")).is_none());
    assert!(tx.on_result(Ok(0)).is_some());
    assert!(tx.is_rolled_back());
    assert!(tx.next_sql().is_none());
    match tx.execute(&insert_statement()) {
        Err(TransactionErr::Execute(e)) => {
            assert_eq!(e.msg, "transaction is not active");
        }
        other => panic!("unexpected result: {:?}", other),
    }
    assert!(tx.next_sql().is_none());
}

#[test]
fn unrenderable_statement_fails_the_transaction() {
    let mut tx = Transaction::begin(None, pgpool::client::ClientWrapper::new(0));
    start_active(&mut tx);

    let bad = Statement::new("insert into t values(?)".to_string(), None);
    assert!(tx.execute(&bad).is_ok());
    assert_eq!(tx.next_sql().unwrap(), "rollback;");
    match tx.on_result(Ok(0)) {
        Some(Err(TransactionErr::Execute(e))) => {
            assert_eq!(e.msg, "invalid sql with extra placeholder ?");
            assert!(e.rollback_failure.is_none());
        }
        other => panic!("unexpected step result: {:?}", other),
    }
    assert!(tx.is_rolled_back());
}

#[test]
fn commit_failure_attempts_rollback_and_reports_both() {
    let mut tx = Transaction::begin(None, pgpool::client::ClientWrapper::new(0));
    start_active(&mut tx);

    assert!(tx.commit().is_ok());
    assert_eq!(tx.next_sql().unwrap(), "commit;");
    assert!(tx.on_result(fail("commit refused")).is_none());
    assert_eq!(tx.next_sql().unwrap(), "rollback;");
    match tx.on_result(fail("rollback refused")) {
        Some(Err(TransactionErr::Commit(e))) => {
            assert_eq!(e.msg, "commit refused");
            assert_eq!(e.rollback_failure.as_deref(), Some("rollback refused"));
        }
        other => panic!("unexpected step result: {:?}", other),
    }
    assert!(tx.is_rolled_back());
}

#[test]
fn commit_failure_with_clean_rollback_keeps_commit_identity() {
    let mut tx = Transaction::begin(None, pgpool::client::ClientWrapper::new(0));
    start_active(&mut tx);

    assert!(tx.commit().is_ok());
    assert!(tx.on_result(fail("commit refused")).is_none());
    match tx.on_result(Ok(0)) {
        Some(Err(TransactionErr::Commit(e))) => {
            assert_eq!(e.msg, "commit refused");
            assert!(e.rollback_failure.is_none());
        }
        other => panic!("unexpected step result: {:?}", other),
    }
    assert!(tx.is_rolled_back());
}

#[test]
fn explicit_rollback_succeeds_and_finishes() {
    let mut tx = Transaction::begin(None, pgpool::client::ClientWrapper::new(0));
    start_active(&mut tx);

    assert!(tx.rollback().is_ok());
    assert_eq!(tx.next_sql().unwrap(), "rollback;");
    assert!(matches!(tx.on_result(Ok(0)), Some(Ok(()))));
    assert!(tx.is_rolled_back());
}

#[test]
fn explicit_rollback_failure_is_reported_and_still_resolves() {
    let mut tx = Transaction::begin(None, pgpool::client::ClientWrapper::new(0));
    start_active(&mut tx);

    assert!(tx.rollback().is_ok());
    match tx.on_result(fail("rollback refused")) {
        Some(Err(TransactionErr::RollBack(e))) => {
            assert_eq!(e.msg, "rollback refused");
        }
        other => panic!("unexpected step result: {:?}", other),
    }
    assert!(tx.is_rolled_back());
    assert!(tx.is_finished());
    assert!(tx.next_sql().is_none());
}

#[test]
fn begin_failure_reports_begin_error() {
    let mut tx = Transaction::begin(None, pgpool::client::ClientWrapper::new(0));
    assert_eq!(tx.next_sql().unwrap(), "BEGIN;");
    match tx.on_result(fail("no connection")) {
        Some(Err(TransactionErr::Begin(e))) => {
            assert_eq!(e.msg, "no connection");
        }
        other => panic!("unexpected step result: {:?}", other),
    }
    assert!(tx.is_finished());
    assert!(!tx.is_committed());
    assert!(!tx.is_rolled_back());
}

#[test]
fn isolation_statement_failure_reports_begin_error() {
    let mut tx = Transaction::begin(None, pgpool::client::ClientWrapper::new(0));
    assert!(tx.on_result(Ok(0)).is_none());
    match tx.on_result(fail("bad isolation")) {
        Some(Err(TransactionErr::Begin(e))) => {
            assert_eq!(e.msg, "bad isolation");
        }
        other => panic!("unexpected step result: {:?}", other),
    }
    assert!(tx.is_finished());
}

#[test]
fn commit_is_rejected_before_the_transaction_is_active() {
    let mut tx = Transaction::begin(None, pgpool::client::ClientWrapper::new(0));
    match tx.commit() {
        Err(TransactionErr::Commit(e)) => {
            assert_eq!(e.msg, "transaction is not active");
        }
        other => panic!("unexpected result: {:?}", other),
    }
    assert_eq!(tx.next_sql().unwrap(), "BEGIN;");
}
