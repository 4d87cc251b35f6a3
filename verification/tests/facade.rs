//! The database facade: one client per call, released on every path.

use pgpool::client::{SqlCell, SqlMessage};
use pgpool::database::DatabaseManager;
use pgpool::error::{DatabaseError, ExecutionError};
use pgpool::pool::ConnectionPool;
use pgpool::sql::{ColumnValue, Parameter, Statement};
use pgpool::transaction::TransactionErr;

fn manager(size: usize) -> DatabaseManager {
    DatabaseManager::new(ConnectionPool::new(size).unwrap())
}

fn one_row_response() -> Vec<SqlMessage> {
    vec![
        SqlMessage::RowData(vec![SqlCell {
            value: Some("1".to_string()),
            name: Some("?column?".to_string()),
        }]),
        SqlMessage::CommandComplete(1),
    ]
}

#[test]
fn query_renders_and_decodes_one_row() {
    let mut dm = manager(1);
    let stmt = Statement::new("select 1".to_string(), None);
    let (client, sql) = dm.query(&stmt).unwrap();
    assert_eq!(sql, "select 1");
    assert_eq!(dm.idle_count(), 0);
    assert_eq!(dm.outstanding_count(), 1);

    let rows = dm.finish_query(client, Ok(one_row_response())).unwrap();
    assert_eq!(rows.len(), 1);
    assert_eq!(rows[0].columns.len(), 1);
    match &rows[0].columns[0].value {
        Some(ColumnValue::String(v)) => assert_eq!(v, "1"),
        other => panic!("unexpected cell value: {:?}", other),
    }
    assert_eq!(rows[0].columns[0].meta.as_ref().unwrap().name, "?column?");
    assert_eq!(dm.idle_count(), 1);
    assert_eq!(dm.outstanding_count(), 0);
}

#[test]
fn query_with_empty_response_returns_no_rows() {
    let mut dm = manager(1);
    let stmt = Statement::new("select 1".to_string(), None);
    let (client, _) = dm.query(&stmt).unwrap();
    let rows = dm.finish_query(client, Ok(Vec::new())).unwrap();
    assert!(rows.is_empty());
    assert_eq!(dm.idle_count(), 1);
}

#[test]
fn query_execution_failure_still_releases_the_client() {
    let mut dm = manager(1);
    let stmt = Statement::new("select 1".to_string(), None);
    let (client, _) = dm.query(&stmt).unwrap();
    let err = dm
        .finish_query(
            client,
            Err(ExecutionError { msg: "connection reset".to_string() }),
        )
        .unwrap_err();
    match err {
        DatabaseError::ExecutionError(e) => assert_eq!(e.msg, "connection reset"),
        other => panic!("unexpected error: {:?}", other),
    }
    assert_eq!(dm.idle_count(), 1);
    assert_eq!(dm.outstanding_count(), 0);
}

#[test]
fn rejected_statement_never_reaches_the_wire_and_releases() {
    let mut dm = manager(1);
    let stmt = Statement::new("select ?".to_string(), None);
    match dm.query(&stmt) {
        Err(DatabaseError::InvalidSql(e)) => {
            assert_eq!(e.msg, "invalid sql with extra placeholder ?");
        }
        other => panic!("unexpected result kind: {:?}", other.is_ok()),
    }
    assert_eq!(dm.idle_count(), 1);
    assert_eq!(dm.outstanding_count(), 0);
}

#[test]
fn exhausted_pool_reports_client_not_found() {
    let mut dm = manager(1);
    let stmt = Statement::new("select 1".to_string(), None);
    let (held, _) = dm.query(&stmt).unwrap();
    match dm.query(&stmt) {
        Err(DatabaseError::ClientNotFound(e)) => {
            assert_eq!(e.msg, "client not available");
        }
        other => panic!("unexpected result kind: {:?}", other.is_ok()),
    }
    let rows = dm.finish_query(held, Ok(Vec::new())).unwrap();
    assert!(rows.is_empty());
    assert!(dm.query(&stmt).is_ok());
}

#[test]
fn execute_returns_the_acknowledged_count() {
    let mut dm = manager(1);
    let stmt = Statement::new(
        "insert into t values(?)".to_string(),
        Some(vec![Parameter::Int(7)]),
    );
    let (client, sql) = dm.execute(&stmt).unwrap();
    assert_eq!(sql, "insert into t values(7)");
    let count = dm
        .finish_execute(client, Ok(vec![SqlMessage::CommandComplete(3)]))
        .unwrap();
    assert_eq!(count, 3);
    assert_eq!(dm.idle_count(), 1);
}

#[test]
fn execute_without_acknowledgment_defaults_to_zero() {
    let mut dm = manager(1);
    let stmt = Statement::new("insert into t select * from s".to_string(), None);
    let (client, _) = dm.execute(&stmt).unwrap();
    let count = dm.finish_execute(client, Ok(one_row_response())).unwrap();
    assert_eq!(count, 0);
}

#[test]
fn batch_drops_unrenderable_statements_and_joins_the_rest() {
    let mut dm = manager(1);
    let statements = vec![
        Statement::new("delete from a".to_string(), None),
        Statement::new("delete from b where x = ?".to_string(), None),
        Statement::new(
            "delete from c where y = ?".to_string(),
            Some(vec![Parameter::Int(2)]),
        ),
    ];
    let (client, sql) = dm.batch_execute(&statements).unwrap();
    assert_eq!(sql, "delete from a;delete from c where y = 2;");
    assert!(dm.finish_batch(client, Ok(())).is_ok());
    assert_eq!(dm.idle_count(), 1);
}

#[test]
fn batch_execution_failure_fails_the_whole_batch() {
    let mut dm = manager(1);
    let statements = vec![Statement::new("delete from a".to_string(), None)];
    let (client, _) = dm.batch_execute(&statements).unwrap();
    let err = dm
        .finish_batch(client, Err(ExecutionError { msg: "server gone".to_string() }))
        .unwrap_err();
    match err {
        DatabaseError::ExecutionError(e) => assert_eq!(e.msg, "server gone"),
        other => panic!("unexpected error: {:?}", other),
    }
    assert_eq!(dm.idle_count(), 1);
}

#[test]
fn failed_transaction_returns_its_client_exactly_once() {
    let mut dm = manager(1);
    let mut tx = dm.begin_transaction(None).unwrap();
    assert_eq!(dm.idle_count(), 0);
    assert_eq!(dm.outstanding_count(), 1);

    assert_eq!(tx.next_sql().unwrap(), "BEGIN;");
    assert!(tx.on_result(Ok(0)).is_none());
    assert!(matches!(tx.on_result(Ok(0)), Some(Ok(()))));
    assert!(tx.is_active());

    let stmt = Statement::new(
        "insert into t values(?)".to_string(),
        Some(vec![Parameter::Int(1)]),
    );
    assert!(dm.execute_transaction(&mut tx, &stmt).is_ok());
    assert!(tx
        .on_result(Err(ExecutionError { msg: "constraint violated".to_string() }))
        .is_none());
    assert_eq!(tx.next_sql().unwrap(), "rollback;");
    match tx.on_result(Ok(0)) {
        Some(Err(TransactionErr::Execute(e))) => {
            assert_eq!(e.msg, "constraint violated");
        }
        other => panic!("unexpected step result: {:?}", other),
    }
    assert!(tx.is_rolled_back());

    dm.finish_transaction(tx);
    assert_eq!(dm.idle_count(), 1);
    assert_eq!(dm.outstanding_count(), 0);
}

#[test]
fn committed_transaction_returns_its_client() {
    let mut dm = manager(2);
    let mut tx = dm.begin_transaction(None).unwrap();
    assert!(tx.on_result(Ok(0)).is_none());
    assert!(matches!(tx.on_result(Ok(0)), Some(Ok(()))));

    assert!(dm.commit(&mut tx).is_ok());
    assert_eq!(tx.next_sql().unwrap(), "commit;");
    assert!(matches!(tx.on_result(Ok(0)), Some(Ok(()))));
    assert!(tx.is_committed());

    dm.finish_transaction(tx);
    assert_eq!(dm.idle_count(), 2);
    assert_eq!(dm.outstanding_count(), 0);
}

#[test]
fn transaction_that_never_started_still_returns_its_client() {
    let mut dm = manager(1);
    let mut tx = dm.begin_transaction(None).unwrap();
    match tx.on_result(Err(ExecutionError { msg: "refused".to_string() })) {
        Some(Err(TransactionErr::Begin(e))) => assert_eq!(e.msg, "refused"),
        other => panic!("unexpected step result: {:?}", other),
    }
    assert!(tx.is_finished());
    dm.finish_transaction(tx);
    assert_eq!(dm.idle_count(), 1);
}

#[test]
fn begin_transaction_on_exhausted_pool_reports_client_not_found() {
    let mut dm = manager(1);
    let mut tx = dm.begin_transaction(None).unwrap();
    match dm.begin_transaction(None) {
        Err(DatabaseError::ClientNotFound(_)) => {}
        other => panic!("unexpected result kind: {:?}", other.is_ok()),
    }
    assert!(tx
        .on_result(Err(ExecutionError { msg: "refused".to_string() }))
        .is_some());
    assert!(tx.is_finished());
    dm.finish_transaction(tx);
    assert_eq!(dm.idle_count(), 1);
}

#[test]
fn failed_rollback_still_returns_the_client() {
    let mut dm = manager(1);
    let mut tx = dm.begin_transaction(None).unwrap();
    assert!(tx.on_result(Ok(0)).is_none());
    assert!(matches!(tx.on_result(Ok(0)), Some(Ok(()))));

    assert!(dm.rollback_transaction(&mut tx).is_ok());
    assert_eq!(tx.next_sql().unwrap(), "rollback;");
    match tx.on_result(Err(ExecutionError { msg: "rollback refused".to_string() })) {
        Some(Err(TransactionErr::RollBack(e))) => assert_eq!(e.msg, "rollback refused"),
        other => panic!("unexpected step result: {:?}", other),
    }
    assert!(tx.is_finished());
    dm.finish_transaction(tx);
    assert_eq!(dm.idle_count(), 1);
    assert_eq!(dm.outstanding_count(), 0);
}

#[test]
fn error_messages_are_exposed_by_the_variants() {
    let db_err = DatabaseError::ClientNotFound(pgpool::error::ClientNotFound {
        msg: "client not available".to_string(),
    });
    assert_eq!(db_err.message(), "client not available");
    let tx_err = TransactionErr::Commit(pgpool::transaction::ErrCommit {
        msg: "commit refused".to_string(),
        rollback_failure: None,
    });
    assert_eq!(tx_err.message(), "commit refused");
}

#[test]
fn rollback_through_the_facade() {
    let mut dm = manager(1);
    let mut tx = dm.begin_transaction(None).unwrap();
    assert!(tx.on_result(Ok(0)).is_none());
    assert!(matches!(tx.on_result(Ok(0)), Some(Ok(()))));

    assert!(dm.rollback_transaction(&mut tx).is_ok());
    assert_eq!(tx.next_sql().unwrap(), "rollback;");
    assert!(matches!(tx.on_result(Ok(0)), Some(Ok(()))));
    assert!(tx.is_rolled_back());
    dm.finish_transaction(tx);
    assert_eq!(dm.idle_count(), 1);
}
