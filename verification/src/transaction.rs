//! The transaction state machine: begin, execute, commit, rollback,
//! with automatic compensating rollback on failure.
//!
//! A transaction holds one borrowed client handle for its whole
//! lifetime and sequences `BEGIN`, the isolation statement, the user's
//! statements, and `COMMIT` or `ROLLBACK` on it. Statements execute
//! immediately: a failing statement triggers a best-effort rollback at
//! once and leaves the transaction rolled back, and a commit failure
//! does the same while keeping the commit failure's identity.
//!
//! The machine itself performs no I/O. [`Transaction::next_sql`] names
//! the statement that must be run next, the embedding application runs
//! it on the raw connection, and [`Transaction::on_result`] consumes the
//! outcome: transitions are the pure functions [`tx_step`] and
//! [`tx_step_result`]. The terminal phases are committed and rolled
//! back; the orchestrating layer pairs every terminal transition with
//! exactly one release of the held client — the transaction does not
//! own the pool and cannot release on its own.

use vstd::prelude::*;

use crate::client::ClientWrapper;
use crate::error::ExecutionError;
use crate::sql::{params_or_empty, render_error_text, render_ok, rendered, Statement};

verus! {

/// The consistency mode requested at begin time; only read-committed is
/// modeled, and an absent level defaults to it.
#[derive(Debug, Clone)]
pub enum IsolationLevel {
    ReadCommited,
}

/// The transaction could not be started: `BEGIN` or the isolation
/// statement failed.
#[derive(Debug, Clone)]
pub struct ErrBegin {
    pub msg: String,
}

/// A statement failed inside the transaction. The compensating rollback
/// was attempted; if it failed too, its message is recorded without
/// masking the statement's own failure.
#[derive(Debug, Clone)]
pub struct ErrExecute {
    pub msg: String,
    pub rollback_failure: Option<String>,
}

/// The commit failed. The compensating rollback was attempted; if it
/// failed too, its message is recorded without masking the commit's own
/// failure.
#[derive(Debug, Clone)]
pub struct ErrCommit {
    pub msg: String,
    pub rollback_failure: Option<String>,
}

/// An explicitly requested rollback failed.
#[derive(Debug, Clone)]
pub struct ErrRollback {
    pub msg: String,
}

/// Any failure of a transaction operation, keeping the identity of the
/// operation that failed first.
#[derive(Debug, Clone)]
pub enum TransactionErr {
    Begin(ErrBegin),
    RollBack(ErrRollback),
    Commit(ErrCommit),
    Execute(ErrExecute),
}

impl TransactionErr {
    /// The human-readable message of whichever operation failed first.
    pub fn message(&self) -> (r: &String)
        ensures
            r@ == self.message_view(),
    {
        match self {
            TransactionErr::Begin(e) => &e.msg,
            TransactionErr::RollBack(e) => &e.msg,
            TransactionErr::Commit(e) => &e.msg,
            TransactionErr::Execute(e) => &e.msg,
        }
    }

    /// The message of whichever operation failed first, as a sequence
    /// of characters.
    pub open spec fn message_view(self) -> Seq<char> {
        match self {
            TransactionErr::Begin(e) => e.msg@,
            TransactionErr::RollBack(e) => e.msg@,
            TransactionErr::Commit(e) => e.msg@,
            TransactionErr::Execute(e) => e.msg@,
        }
    }
}

/// Where the transaction stands, including which statement is in
/// flight on the raw connection.
#[derive(Debug, Clone)]
pub enum TxPhase {
    /// Created; `BEGIN` is the next statement to run.
    Uninitialized,
    /// `BEGIN` succeeded; the isolation statement is next.
    Preparing,
    /// Started and idle: ready for a statement, a commit or a rollback.
    Active,
    /// The carried user statement is in flight.
    Executing(String),
    /// A statement failed with the carried message; the compensating
    /// rollback is in flight.
    AutoRollingBack(String),
    /// `COMMIT` is in flight.
    Committing,
    /// The commit failed with the carried message; the compensating
    /// rollback is in flight.
    CommitRollingBack(String),
    /// An explicitly requested rollback is in flight.
    RollingBack,
    /// Terminal: the transaction committed.
    Committed,
    /// Terminal: the rollback resolved, successfully or not — the
    /// transaction is over and its client is due back in the pool; a
    /// failed `ROLLBACK` statement is reported through the operation's
    /// result.
    RolledBack,
    /// Terminal: the transaction never started; the caller still holds
    /// the client and must release it.
    BeginFailed(String),
}

/// Whether a statement is in flight: the phases in which the embedding
/// application owes the machine one outcome.
pub open spec fn tx_pending(p: TxPhase) -> bool {
    ||| p is Uninitialized
    ||| p is Preparing
    ||| p is Executing
    ||| p is AutoRollingBack
    ||| p is Committing
    ||| p is CommitRollingBack
    ||| p is RollingBack
}

/// Whether no further operation is valid: the terminal phases, plus the
/// failed start in which the caller takes the client back.
pub open spec fn tx_finished(p: TxPhase) -> bool {
    ||| p is Committed
    ||| p is RolledBack
    ||| p is BeginFailed
}

/// The phase after one outcome arrives from the raw connection. An
/// outcome in a phase with nothing in flight changes nothing.
pub open spec fn tx_step(p: TxPhase, outcome: Result<u64, ExecutionError>) -> TxPhase {
    match p {
        TxPhase::Uninitialized => match outcome {
            Ok(_) => TxPhase::Preparing,
            Err(e) => TxPhase::BeginFailed(e.msg),
        },
        TxPhase::Preparing => match outcome {
            Ok(_) => TxPhase::Active,
            Err(e) => TxPhase::BeginFailed(e.msg),
        },
        TxPhase::Executing(_) => match outcome {
            Ok(_) => TxPhase::Active,
            Err(e) => TxPhase::AutoRollingBack(e.msg),
        },
        TxPhase::AutoRollingBack(_) => TxPhase::RolledBack,
        TxPhase::Committing => match outcome {
            Ok(_) => TxPhase::Committed,
            Err(e) => TxPhase::CommitRollingBack(e.msg),
        },
        TxPhase::CommitRollingBack(_) => TxPhase::RolledBack,
        TxPhase::RollingBack => TxPhase::RolledBack,
        _ => p,
    }
}

/// What the outcome concludes: `None` while the operation still has a
/// compensating statement to run, and otherwise the operation's result,
/// handed back to the caller that started it.
pub open spec fn tx_step_result(p: TxPhase, outcome: Result<u64, ExecutionError>) -> Option<
    Result<(), TransactionErr>,
> {
    match p {
        TxPhase::Uninitialized => match outcome {
            Ok(_) => None,
            Err(e) => Some(Err(TransactionErr::Begin(ErrBegin { msg: e.msg }))),
        },
        TxPhase::Preparing => match outcome {
            Ok(_) => Some(Ok(())),
            Err(e) => Some(Err(TransactionErr::Begin(ErrBegin { msg: e.msg }))),
        },
        TxPhase::Executing(_) => match outcome {
            Ok(_) => Some(Ok(())),
            Err(_) => None,
        },
        TxPhase::AutoRollingBack(m) => match outcome {
            Ok(_) => Some(
                Err(TransactionErr::Execute(ErrExecute { msg: m, rollback_failure: None })),
            ),
            Err(r) => Some(
                Err(
                    TransactionErr::Execute(
                        ErrExecute { msg: m, rollback_failure: Some(r.msg) },
                    ),
                ),
            ),
        },
        TxPhase::Committing => match outcome {
            Ok(_) => Some(Ok(())),
            Err(_) => None,
        },
        TxPhase::CommitRollingBack(m) => match outcome {
            Ok(_) => Some(Err(TransactionErr::Commit(ErrCommit { msg: m, rollback_failure: None }))),
            Err(r) => Some(
                Err(TransactionErr::Commit(ErrCommit { msg: m, rollback_failure: Some(r.msg) })),
            ),
        },
        TxPhase::RollingBack => match outcome {
            Ok(_) => Some(Ok(())),
            Err(e) => Some(Err(TransactionErr::RollBack(ErrRollback { msg: e.msg }))),
        },
        _ => None,
    }
}

/// One user statement run from the active phase with a successful
/// outcome; from any other phase nothing happens.
pub open spec fn tx_successful_round(p: TxPhase, sql: String, count: u64) -> TxPhase {
    if p is Active {
        tx_step(TxPhase::Executing(sql), Result::<u64, ExecutionError>::Ok(count))
    } else {
        p
    }
}

/// A sequence of user statements, each run with a successful outcome.
pub open spec fn tx_successful_rounds(p: TxPhase, rounds: Seq<(String, u64)>) -> TxPhase
    decreases rounds.len(),
{
    if rounds.len() == 0 {
        p
    } else {
        tx_successful_rounds(tx_successful_round(p, rounds[0].0, rounds[0].1), rounds.skip(1))
    }
}

/// Any sequence of successfully executed statements keeps an active
/// transaction active.
pub proof fn lemma_successful_executes_stay_active(rounds: Seq<(String, u64)>)
    ensures
        tx_successful_rounds(TxPhase::Active, rounds) == TxPhase::Active,
    decreases rounds.len(),
{
    if rounds.len() > 0 {
        lemma_successful_executes_stay_active(rounds.skip(1));
    }
}

/// A failing statement ends the transaction: the failure makes the
/// compensating rollback the next step, any rollback outcome lands in
/// the rolled-back terminal phase, and the terminal phase absorbs every
/// further outcome — no statement after the failure point is attempted.
pub proof fn lemma_failed_execute_rolls_back(
    sql: String,
    failure: ExecutionError,
    rollback_outcome: Result<u64, ExecutionError>,
    later: Result<u64, ExecutionError>,
)
    ensures
        tx_step(TxPhase::Executing(sql), Err(failure)) == TxPhase::AutoRollingBack(failure.msg),
        tx_step(TxPhase::AutoRollingBack(failure.msg), rollback_outcome) == TxPhase::RolledBack,
        tx_step_result(TxPhase::AutoRollingBack(failure.msg), rollback_outcome) matches Some(
            Err(TransactionErr::Execute(e)),
        ) && e.msg == failure.msg && (match rollback_outcome {
            Ok(_) => e.rollback_failure is None,
            Err(r) => e.rollback_failure == Some(r.msg),
        }),
        tx_step(TxPhase::RolledBack, later) == TxPhase::RolledBack,
        !tx_pending(TxPhase::RolledBack),
{
}

/// A commit failure implies an attempted rollback, and the reported
/// error keeps the commit failure's identity and message while
/// recording the rollback's own failure when there is one.
pub proof fn lemma_commit_failure_reports_both(
    commit_failure: ExecutionError,
    rollback_outcome: Result<u64, ExecutionError>,
)
    ensures
        tx_step(TxPhase::Committing, Err(commit_failure)) == TxPhase::CommitRollingBack(
            commit_failure.msg,
        ),
        tx_step(TxPhase::CommitRollingBack(commit_failure.msg), rollback_outcome)
            == TxPhase::RolledBack,
        tx_step_result(TxPhase::CommitRollingBack(commit_failure.msg), rollback_outcome)
            matches Some(Err(TransactionErr::Commit(e))) && e.msg == commit_failure.msg && (
        match rollback_outcome {
            Ok(_) => e.rollback_failure is None,
            Err(r) => e.rollback_failure == Some(r.msg),
        }),
{
}

/// An explicitly requested rollback resolves the transaction whatever
/// its outcome: the machine lands in the rolled-back terminal phase
/// whether the `ROLLBACK` statement succeeded or failed — a failure is
/// reported, and either way the held client is due back in the pool.
pub proof fn lemma_rollback_resolves(outcome: Result<u64, ExecutionError>)
    ensures
        tx_step(TxPhase::RollingBack, outcome) == TxPhase::RolledBack,
        tx_finished(tx_step(TxPhase::RollingBack, outcome)),
        tx_step_result(TxPhase::RollingBack, outcome) matches Some(r) && (match outcome {
            Ok(_) => r is Ok,
            Err(e) => r matches Err(TransactionErr::RollBack(x)) && x.msg == e.msg,
        }),
{
}

/// A multi-statement unit of work over one borrowed client handle.
pub struct Transaction {
    isolation_level: IsolationLevel,
    client: ClientWrapper,
    state: TxPhase,
}

impl Transaction {
    /// Where the transaction stands.
    pub closed spec fn phase(self) -> TxPhase {
        self.state
    }

    /// The pool slot of the held client handle.
    pub closed spec fn client_key(self) -> nat {
        self.client.key()
    }

    /// Borrows a client into a new transaction. Nothing has run yet:
    /// `BEGIN` and the isolation statement (an absent level defaults to
    /// read committed) are the machine's first two steps.
    pub fn begin(isolation_level: Option<IsolationLevel>, client: ClientWrapper) -> (tx:
        Transaction)
        ensures
            tx.phase() is Uninitialized,
            tx.client_key() == client.key(),
    {
        let isolation = match isolation_level {
            Some(level) => level,
            None => IsolationLevel::ReadCommited,
        };
        Transaction { isolation_level: isolation, client, state: TxPhase::Uninitialized }
    }

    /// The statement the embedding application must run next on the raw
    /// connection, if one is in flight.
    pub fn next_sql(&self) -> (r: Option<String>)
        ensures
            r is Some <==> tx_pending(self.phase()),
            match self.phase() {
                TxPhase::Uninitialized => r matches Some(s) && s@ == "BEGIN;"@,
                TxPhase::Preparing => r matches Some(s) && s@
                    == "set transaction isolation level read committed"@,
                TxPhase::Executing(sql) => r matches Some(s) && s@ == sql@,
                TxPhase::AutoRollingBack(_) => r matches Some(s) && s@ == "rollback;"@,
                TxPhase::Committing => r matches Some(s) && s@ == "commit;"@,
                TxPhase::CommitRollingBack(_) => r matches Some(s) && s@ == "rollback;"@,
                TxPhase::RollingBack => r matches Some(s) && s@ == "rollback;"@,
                _ => r is None,
            },
    {
        match &self.state {
            TxPhase::Uninitialized => Some(String::from_str("BEGIN;")),
            TxPhase::Preparing => Some(
                String::from_str("set transaction isolation level read committed"),
            ),
            TxPhase::Executing(sql) => Some(sql.clone()),
            TxPhase::AutoRollingBack(_) => Some(String::from_str("rollback;")),
            TxPhase::Committing => Some(String::from_str("commit;")),
            TxPhase::CommitRollingBack(_) => Some(String::from_str("rollback;")),
            TxPhase::RollingBack => Some(String::from_str("rollback;")),
            TxPhase::Active => None,
            TxPhase::Committed => None,
            TxPhase::RolledBack => None,
            TxPhase::BeginFailed(_) => None,
        }
    }

    /// Consumes the outcome of the statement in flight: the machine
    /// moves to `tx_step` of its phase, and the operation's result, when
    /// the outcome concludes one, is `tx_step_result` of it.
    pub fn on_result(&mut self, outcome: Result<u64, ExecutionError>) -> (r: Option<
        Result<(), TransactionErr>,
    >)
        ensures
            final(self).phase() == tx_step(old(self).phase(), outcome),
            r == tx_step_result(old(self).phase(), outcome),
            final(self).client_key() == old(self).client_key(),
    {
        let (next, r): (TxPhase, Option<Result<(), TransactionErr>>) = match (
            &self.state,
            outcome,
        ) {
            (TxPhase::Uninitialized, Ok(_)) => (TxPhase::Preparing, None),
            (TxPhase::Uninitialized, Err(e)) => (
                TxPhase::BeginFailed(e.msg.clone()),
                Some(Err(TransactionErr::Begin(ErrBegin { msg: e.msg }))),
            ),
            (TxPhase::Preparing, Ok(_)) => (TxPhase::Active, Some(Ok(()))),
            (TxPhase::Preparing, Err(e)) => (
                TxPhase::BeginFailed(e.msg.clone()),
                Some(Err(TransactionErr::Begin(ErrBegin { msg: e.msg }))),
            ),
            (TxPhase::Executing(_), Ok(_)) => (TxPhase::Active, Some(Ok(()))),
            (TxPhase::Executing(_), Err(e)) => (TxPhase::AutoRollingBack(e.msg), None),
            (TxPhase::AutoRollingBack(m), Ok(_)) => (
                TxPhase::RolledBack,
                Some(
                    Err(
                        TransactionErr::Execute(
                            ErrExecute { msg: m.clone(), rollback_failure: None },
                        ),
                    ),
                ),
            ),
            (TxPhase::AutoRollingBack(m), Err(r)) => (
                TxPhase::RolledBack,
                Some(
                    Err(
                        TransactionErr::Execute(
                            ErrExecute { msg: m.clone(), rollback_failure: Some(r.msg) },
                        ),
                    ),
                ),
            ),
            (TxPhase::Committing, Ok(_)) => (TxPhase::Committed, Some(Ok(()))),
            (TxPhase::Committing, Err(e)) => (TxPhase::CommitRollingBack(e.msg), None),
            (TxPhase::CommitRollingBack(m), Ok(_)) => (
                TxPhase::RolledBack,
                Some(
                    Err(
                        TransactionErr::Commit(ErrCommit { msg: m.clone(), rollback_failure: None }),
                    ),
                ),
            ),
            (TxPhase::CommitRollingBack(m), Err(r)) => (
                TxPhase::RolledBack,
                Some(
                    Err(
                        TransactionErr::Commit(
                            ErrCommit { msg: m.clone(), rollback_failure: Some(r.msg) },
                        ),
                    ),
                ),
            ),
            (TxPhase::RollingBack, Ok(_)) => (TxPhase::RolledBack, Some(Ok(()))),
            (TxPhase::RollingBack, Err(e)) => (
                TxPhase::RolledBack,
                Some(Err(TransactionErr::RollBack(ErrRollback { msg: e.msg }))),
            ),
            (TxPhase::Active, _) => (TxPhase::Active, None),
            (TxPhase::Committed, _) => (TxPhase::Committed, None),
            (TxPhase::RolledBack, _) => (TxPhase::RolledBack, None),
            (TxPhase::BeginFailed(m), _) => (TxPhase::BeginFailed(m.clone()), None),
        };
        self.state = next;
        r
    }

    /// Runs a statement inside the active transaction, immediately: the
    /// rendered SQL becomes the statement in flight. A statement whose
    /// template and parameters do not pair up counts as a failed
    /// statement — the compensating rollback becomes the next step and
    /// the eventual result reports the render failure. On a transaction
    /// that is not active and idle, nothing happens and the call is
    /// rejected.
    pub fn execute(&mut self, statement: &Statement) -> (r: Result<(), TransactionErr>)
        ensures
            final(self).client_key() == old(self).client_key(),
            match r {
                Ok(_) => old(self).phase() is Active && (if render_ok(
                    statement.template(),
                    statement.params_view(),
                ) {
                    final(self).phase() matches TxPhase::Executing(sql) && sql@ == rendered(
                        statement.template(),
                        params_or_empty(statement.params_view()),
                    )
                } else {
                    final(self).phase() matches TxPhase::AutoRollingBack(m) && m@
                        == render_error_text(statement.template(), statement.params_view())
                }),
                Err(e) => !(old(self).phase() is Active) && final(self).phase() == old(
                    self,
                ).phase() && (e matches TransactionErr::Execute(x) && x.msg@
                    == "transaction is not active"@ && x.rollback_failure is None),
            },
    {
        match &self.state {
            TxPhase::Active => {
                match statement.tosql() {
                    Ok(sql) => {
                        self.state = TxPhase::Executing(sql);
                        Ok(())
                    },
                    Err(e) => {
                        self.state = TxPhase::AutoRollingBack(e.msg);
                        Ok(())
                    },
                }
            },
            _ => Err(
                TransactionErr::Execute(
                    ErrExecute {
                        msg: String::from_str("transaction is not active"),
                        rollback_failure: None,
                    },
                ),
            ),
        }
    }

    /// Requests the commit of the active transaction: `COMMIT` becomes
    /// the statement in flight. On a transaction that is not active and
    /// idle, nothing happens and the call is rejected.
    pub fn commit(&mut self) -> (r: Result<(), TransactionErr>)
        ensures
            final(self).client_key() == old(self).client_key(),
            match r {
                Ok(_) => old(self).phase() is Active && final(self).phase() is Committing,
                Err(e) => !(old(self).phase() is Active) && final(self).phase() == old(
                    self,
                ).phase() && (e matches TransactionErr::Commit(x) && x.msg@
                    == "transaction is not active"@ && x.rollback_failure is None),
            },
    {
        match &self.state {
            TxPhase::Active => {
                self.state = TxPhase::Committing;
                Ok(())
            },
            _ => Err(
                TransactionErr::Commit(
                    ErrCommit {
                        msg: String::from_str("transaction is not active"),
                        rollback_failure: None,
                    },
                ),
            ),
        }
    }

    /// Requests a rollback of the active transaction: `ROLLBACK` becomes
    /// the statement in flight. Whatever the statement's outcome, the
    /// rollback resolves the transaction into the rolled-back terminal
    /// phase — a failure is reported, and either way the held client is
    /// due back in the pool. On a transaction that is not active and
    /// idle, nothing happens and the call is rejected.
    pub fn rollback(&mut self) -> (r: Result<(), TransactionErr>)
        ensures
            final(self).client_key() == old(self).client_key(),
            match r {
                Ok(_) => old(self).phase() is Active && final(self).phase() is RollingBack,
                Err(e) => !(old(self).phase() is Active) && final(self).phase() == old(
                    self,
                ).phase() && (e matches TransactionErr::RollBack(x) && x.msg@
                    == "transaction is not active"@),
            },
    {
        match &self.state {
            TxPhase::Active => {
                self.state = TxPhase::RollingBack;
                Ok(())
            },
            _ => Err(
                TransactionErr::RollBack(
                    ErrRollback { msg: String::from_str("transaction is not active") },
                ),
            ),
        }
    }

    /// Whether the transaction is started, idle and ready for a
    /// statement, a commit or a rollback.
    pub fn is_active(&self) -> (r: bool)
        ensures
            r == self.phase() is Active,
    {
        matches!(&self.state, TxPhase::Active)
    }

    /// Whether the transaction committed.
    pub fn is_committed(&self) -> (r: bool)
        ensures
            r == self.phase() is Committed,
    {
        matches!(&self.state, TxPhase::Committed)
    }

    /// Whether the transaction rolled back.
    pub fn is_rolled_back(&self) -> (r: bool)
        ensures
            r == self.phase() is RolledBack,
    {
        matches!(&self.state, TxPhase::RolledBack)
    }

    /// The pool slot of the held client handle, for the embedding
    /// application to find the raw connection the machine's statements
    /// must run on.
    pub fn client_id(&self) -> (r: usize)
        ensures
            r == self.client_key(),
    {
        self.client.id()
    }

    /// Hands the held client back, consuming the transaction; the
    /// orchestrating layer releases it to the pool.
    pub fn into_client(self) -> (c: ClientWrapper)
        ensures
            c.key() == self.client_key(),
    {
        self.client
    }

    /// Whether no further operation is valid and the held client is due
    /// back in the pool.
    pub fn is_finished(&self) -> (r: bool)
        ensures
            r == tx_finished(self.phase()),
    {
        match &self.state {
            TxPhase::Committed => true,
            TxPhase::RolledBack => true,
            TxPhase::BeginFailed(_) => true,
            _ => false,
        }
    }
}

} // verus!
