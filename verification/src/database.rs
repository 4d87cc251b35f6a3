//! The database facade: one client per call, acquired before the work
//! and released after it, on every path.
//!
//! Each single-shot operation is split around the wire exchange that
//! the embedding application performs: the request half acquires a
//! client and renders the SQL — releasing the client at once when the
//! statement is rejected — and the matching `finish_*` half decodes the
//! outcome and releases the client, success or failure. The facade
//! exists purely to guarantee that acquire/use/release discipline; the
//! contracts say that the pool comes back well formed and rebalanced
//! after every completed call.
//!
//! Transactions borrow their client for longer: [`DatabaseManager::begin_transaction`]
//! checks one out into the [`Transaction`] state machine, and
//! [`DatabaseManager::finish_transaction`] takes it back once the
//! transaction is finished.

use vstd::prelude::*;

use crate::client::{batch_text, completion_count, rows_match_messages, ClientWrapper, SqlMessage};
use crate::error::{ClientNotFound, DatabaseError, ExecutionError};
use crate::pool::{
    pool_acquire, pool_release, pool_release_enabled, pool_wf, ConnectionPool, PoolState,
};
use crate::sql::{
    params_or_empty, render_error_text, render_ok, rendered, Row, Statement,
};
use crate::transaction::{tx_finished, IsolationLevel, Transaction, TransactionErr, TxPhase};

verus! {

/// The facade over one connection pool.
pub struct DatabaseManager {
    pool: ConnectionPool,
}

impl DatabaseManager {
    /// The pool's abstract state.
    pub closed spec fn pool_state(self) -> PoolState {
        self.pool@
    }

    /// Wraps a pool.
    pub fn new(pool: ConnectionPool) -> (d: Self)
        ensures
            d.pool_state() == pool@,
    {
        Self { pool }
    }

    /// How many handles sit idle.
    pub fn idle_count(&self) -> (r: usize)
        ensures
            r == self.pool_state().idle.len(),
    {
        self.pool.idle_count()
    }

    /// How many handles are checked out.
    pub fn outstanding_count(&self) -> (r: usize)
        ensures
            r == self.pool_state().outstanding,
    {
        self.pool.outstanding_count()
    }

    /// The request half of a query: acquires a client and renders the
    /// statement. A statement that does not render releases the client
    /// at once and leaves the pool as it was; with no client idle the
    /// call reports that no client was found, touching nothing. On
    /// success the caller runs the SQL on the client's raw connection
    /// and hands the response to [`Self::finish_query`].
    pub fn query(&mut self, query: &Statement) -> (r: Result<
        (ClientWrapper, String),
        DatabaseError,
    >)
        requires
            pool_wf(old(self).pool_state()),
        ensures
            pool_wf(final(self).pool_state()),
            match r {
                Ok((client, sql)) => old(self).pool_state().idle.len() > 0 && render_ok(
                    query.template(),
                    query.params_view(),
                ) && sql@ == rendered(query.template(), params_or_empty(query.params_view()))
                    && Some(client.key()) == pool_acquire(old(self).pool_state()).1 && final(self).pool_state() == pool_acquire(old(self).pool_state()).0,
                Err(DatabaseError::ClientNotFound(_)) => old(self).pool_state().idle.len() == 0
                    && final(self).pool_state() == old(self).pool_state(),
                Err(DatabaseError::InvalidSql(e)) => old(self).pool_state().idle.len() > 0
                    && !render_ok(query.template(), query.params_view()) && e.msg@
                    == render_error_text(query.template(), query.params_view()) && final(self).pool_state() == old(self).pool_state(),
                Err(DatabaseError::ExecutionError(_)) => false,
            },
    {
        self.checkout(query)
    }

    /// The response half of a query: decodes the messages into rows —
    /// or passes the execution failure through — and releases the
    /// client, either way.
    pub fn finish_query(
        &mut self,
        client: ClientWrapper,
        outcome: Result<Vec<SqlMessage>, ExecutionError>,
    ) -> (r: Result<Vec<Row>, DatabaseError>)
        requires
            pool_wf(old(self).pool_state()),
            pool_release_enabled(old(self).pool_state(), client.key()),
        ensures
            pool_wf(final(self).pool_state()),
            final(self).pool_state() == pool_release(old(self).pool_state(), client.key()),
            match r {
                Ok(rows) => outcome matches Ok(ms) && rows_match_messages(rows@, ms@),
                Err(DatabaseError::ExecutionError(e)) => outcome matches Err(x) && e == x,
                Err(DatabaseError::InvalidSql(_)) => false,
                Err(DatabaseError::ClientNotFound(_)) => false,
            },
    {
        let result = match outcome {
            Ok(messages) => Ok(client.collect_rows(&messages)),
            Err(e) => Err(DatabaseError::ExecutionError(e)),
        };
        self.pool.release_connection(client);
        result
    }

    /// The request half of an execute: the same acquire-and-render path
    /// as [`Self::query`]; the response goes to [`Self::finish_execute`].
    pub fn execute(&mut self, statement: &Statement) -> (r: Result<
        (ClientWrapper, String),
        DatabaseError,
    >)
        requires
            pool_wf(old(self).pool_state()),
        ensures
            pool_wf(final(self).pool_state()),
            match r {
                Ok((client, sql)) => old(self).pool_state().idle.len() > 0 && render_ok(
                    statement.template(),
                    statement.params_view(),
                ) && sql@ == rendered(
                    statement.template(),
                    params_or_empty(statement.params_view()),
                ) && Some(client.key()) == pool_acquire(old(self).pool_state()).1 && final(self).pool_state() == pool_acquire(old(self).pool_state()).0,
                Err(DatabaseError::ClientNotFound(_)) => old(self).pool_state().idle.len() == 0
                    && final(self).pool_state() == old(self).pool_state(),
                Err(DatabaseError::InvalidSql(e)) => old(self).pool_state().idle.len() > 0
                    && !render_ok(statement.template(), statement.params_view()) && e.msg@
                    == render_error_text(statement.template(), statement.params_view()) && final(self).pool_state() == old(self).pool_state(),
                Err(DatabaseError::ExecutionError(_)) => false,
            },
    {
        self.checkout(statement)
    }

    /// The response half of an execute: summarizes the affected-row
    /// count — or passes the execution failure through — and releases
    /// the client, either way.
    pub fn finish_execute(
        &mut self,
        client: ClientWrapper,
        outcome: Result<Vec<SqlMessage>, ExecutionError>,
    ) -> (r: Result<u64, DatabaseError>)
        requires
            pool_wf(old(self).pool_state()),
            pool_release_enabled(old(self).pool_state(), client.key()),
        ensures
            pool_wf(final(self).pool_state()),
            final(self).pool_state() == pool_release(old(self).pool_state(), client.key()),
            match r {
                Ok(count) => outcome matches Ok(ms) && count == completion_count(ms@),
                Err(DatabaseError::ExecutionError(e)) => outcome matches Err(x) && e == x,
                Err(DatabaseError::InvalidSql(_)) => false,
                Err(DatabaseError::ClientNotFound(_)) => false,
            },
    {
        let result = match outcome {
            Ok(messages) => Ok(client.affected_count(&messages)),
            Err(e) => Err(DatabaseError::ExecutionError(e)),
        };
        self.pool.release_connection(client);
        result
    }

    /// The request half of a batch: acquires a client and concatenates
    /// every statement that renders, dropping the ones that do not. The
    /// submission's outcome goes to [`Self::finish_batch`].
    pub fn batch_execute(&mut self, statements: &Vec<Statement>) -> (r: Result<
        (ClientWrapper, String),
        DatabaseError,
    >)
        requires
            pool_wf(old(self).pool_state()),
        ensures
            pool_wf(final(self).pool_state()),
            match r {
                Ok((client, sql)) => old(self).pool_state().idle.len() > 0 && sql@ == batch_text(
                    statements@,
                ) && Some(client.key()) == pool_acquire(old(self).pool_state()).1 && final(self).pool_state() == pool_acquire(old(self).pool_state()).0,
                Err(DatabaseError::ClientNotFound(_)) => old(self).pool_state().idle.len() == 0
                    && final(self).pool_state() == old(self).pool_state(),
                Err(DatabaseError::InvalidSql(_)) => false,
                Err(DatabaseError::ExecutionError(_)) => false,
            },
    {
        match self.pool.get_connection() {
            Some(client) => {
                let sql = client.batch_execute(statements);
                Ok((client, sql))
            },
            None => Err(
                DatabaseError::ClientNotFound(
                    ClientNotFound { msg: String::from_str("client not available") },
                ),
            ),
        }
    }

    /// The response half of a batch: passes the outcome through and
    /// releases the client, either way.
    pub fn finish_batch(
        &mut self,
        client: ClientWrapper,
        outcome: Result<(), ExecutionError>,
    ) -> (r: Result<(), DatabaseError>)
        requires
            pool_wf(old(self).pool_state()),
            pool_release_enabled(old(self).pool_state(), client.key()),
        ensures
            pool_wf(final(self).pool_state()),
            final(self).pool_state() == pool_release(old(self).pool_state(), client.key()),
            match r {
                Ok(_) => outcome is Ok,
                Err(DatabaseError::ExecutionError(e)) => outcome matches Err(x) && e == x,
                Err(DatabaseError::InvalidSql(_)) => false,
                Err(DatabaseError::ClientNotFound(_)) => false,
            },
    {
        let result = match outcome {
            Ok(_) => Ok(()),
            Err(e) => Err(DatabaseError::ExecutionError(e)),
        };
        self.pool.release_connection(client);
        result
    }

    /// Checks a client out of the pool into a new transaction; with no
    /// client idle, reports that no client was found. The embedding
    /// application drives the machine's statements on the client's raw
    /// connection, and [`Self::finish_transaction`] takes the client
    /// back once the transaction is finished.
    pub fn begin_transaction(&mut self, isolation_level: Option<IsolationLevel>) -> (r: Result<
        Transaction,
        DatabaseError,
    >)
        requires
            pool_wf(old(self).pool_state()),
        ensures
            pool_wf(final(self).pool_state()),
            match r {
                Ok(tx) => old(self).pool_state().idle.len() > 0 && tx.phase() is Uninitialized
                    && Some(tx.client_key()) == pool_acquire(old(self).pool_state()).1 && final(self).pool_state() == pool_acquire(old(self).pool_state()).0,
                Err(DatabaseError::ClientNotFound(_)) => old(self).pool_state().idle.len() == 0
                    && final(self).pool_state() == old(self).pool_state(),
                Err(DatabaseError::InvalidSql(_)) => false,
                Err(DatabaseError::ExecutionError(_)) => false,
            },
    {
        match self.pool.get_connection() {
            Some(client) => Ok(Transaction::begin(isolation_level, client)),
            None => Err(
                DatabaseError::ClientNotFound(
                    ClientNotFound { msg: String::from_str("client not available") },
                ),
            ),
        }
    }

    /// Runs a statement inside the transaction, immediately: the
    /// rendered SQL becomes the statement in flight, and a statement
    /// that does not render counts as a failed one — the machine stages
    /// the compensating rollback. On a transaction that is not active
    /// and idle, nothing happens and the call is rejected.
    pub fn execute_transaction(
        &self,
        transaction: &mut Transaction,
        statement: &Statement,
    ) -> (r: Result<(), TransactionErr>)
        ensures
            final(transaction).client_key() == old(transaction).client_key(),
            match r {
                Ok(_) => old(transaction).phase() is Active && (if render_ok(
                    statement.template(),
                    statement.params_view(),
                ) {
                    final(transaction).phase() matches TxPhase::Executing(sql) && sql@ == rendered(
                        statement.template(),
                        params_or_empty(statement.params_view()),
                    )
                } else {
                    final(transaction).phase() matches TxPhase::AutoRollingBack(m) && m@
                        == render_error_text(statement.template(), statement.params_view())
                }),
                Err(e) => !(old(transaction).phase() is Active) && final(transaction).phase()
                    == old(transaction).phase() && (e matches TransactionErr::Execute(x) && x.msg@
                    == "transaction is not active"@ && x.rollback_failure is None),
            },
    {
        transaction.execute(statement)
    }

    /// Requests the commit of the transaction; on a commit failure the
    /// machine attempts the compensating rollback by itself.
    pub fn commit(&self, transaction: &mut Transaction) -> (r: Result<(), TransactionErr>)
        ensures
            final(transaction).client_key() == old(transaction).client_key(),
            match r {
                Ok(_) => old(transaction).phase() is Active && final(transaction).phase()
                    is Committing,
                Err(e) => !(old(transaction).phase() is Active) && final(transaction).phase()
                    == old(transaction).phase() && (e matches TransactionErr::Commit(x) && x.msg@
                    == "transaction is not active"@ && x.rollback_failure is None),
            },
    {
        transaction.commit()
    }

    /// Requests a rollback of the transaction; whatever the `ROLLBACK`
    /// statement's outcome, the machine resolves into the rolled-back
    /// terminal phase and the held client is due back through
    /// [`Self::finish_transaction`].
    pub fn rollback_transaction(&self, transaction: &mut Transaction) -> (r: Result<
        (),
        TransactionErr,
    >)
        ensures
            final(transaction).client_key() == old(transaction).client_key(),
            match r {
                Ok(_) => old(transaction).phase() is Active && final(transaction).phase()
                    is RollingBack,
                Err(e) => !(old(transaction).phase() is Active) && final(transaction).phase()
                    == old(transaction).phase() && (e matches TransactionErr::RollBack(x) && x.msg@
                    == "transaction is not active"@),
            },
    {
        transaction.rollback()
    }

    /// Takes the client of a finished transaction back into the pool —
    /// the one release that pairs with the transaction's terminal
    /// transition.
    pub fn finish_transaction(&mut self, transaction: Transaction)
        requires
            pool_wf(old(self).pool_state()),
            tx_finished(transaction.phase()),
            pool_release_enabled(old(self).pool_state(), transaction.client_key()),
        ensures
            pool_wf(final(self).pool_state()),
            final(self).pool_state() == pool_release(
                old(self).pool_state(),
                transaction.client_key(),
            ),
    {
        self.pool.release_connection(transaction.into_client());
    }

    /// The shared acquire-and-render path of [`Self::query`] and
    /// [`Self::execute`]: a client is checked out, and checked straight
    /// back in when the statement is rejected.
    fn checkout(&mut self, statement: &Statement) -> (r: Result<
        (ClientWrapper, String),
        DatabaseError,
    >)
        requires
            pool_wf(old(self).pool_state()),
        ensures
            pool_wf(final(self).pool_state()),
            match r {
                Ok((client, sql)) => old(self).pool_state().idle.len() > 0 && render_ok(
                    statement.template(),
                    statement.params_view(),
                ) && sql@ == rendered(
                    statement.template(),
                    params_or_empty(statement.params_view()),
                ) && Some(client.key()) == pool_acquire(old(self).pool_state()).1 && final(self).pool_state() == pool_acquire(old(self).pool_state()).0,
                Err(DatabaseError::ClientNotFound(_)) => old(self).pool_state().idle.len() == 0
                    && final(self).pool_state() == old(self).pool_state(),
                Err(DatabaseError::InvalidSql(e)) => old(self).pool_state().idle.len() > 0
                    && !render_ok(statement.template(), statement.params_view()) && e.msg@
                    == render_error_text(statement.template(), statement.params_view()) && final(self).pool_state() == old(self).pool_state(),
                Err(DatabaseError::ExecutionError(_)) => false,
            },
    {
        let ghost s0 = self.pool@;
        match self.pool.get_connection() {
            Some(client) => {
                match client.execute(statement) {
                    Ok(sql) => Ok((client, sql)),
                    Err(e) => {
                        proof {
                            assert(pool_release_enabled(self.pool@, client.key()));
                        }
                        self.pool.release_connection(client);
                        proof {
                            assert(self.pool@.idle =~= s0.idle);
                            assert(self.pool@ =~= s0);
                        }
                        Err(e)
                    },
                }
            },
            None => Err(
                DatabaseError::ClientNotFound(
                    ClientNotFound { msg: String::from_str("client not available") },
                ),
            ),
        }
    }
}

} // verus!
