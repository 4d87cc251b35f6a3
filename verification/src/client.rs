//! The pooled client: one handle on a live raw connection, and the
//! interpretation of the server's response messages.
//!
//! The raw connection itself is an external collaborator: given a SQL
//! string it yields a sequence of response messages or a transport
//! error. The embedding application performs that exchange and hands the
//! messages back as [`SqlMessage`] values; everything on either side of
//! the wire — rendering the statement and decoding the response — is
//! verified here.

use vstd::prelude::*;

use crate::error::{DatabaseError, InvalidSql};
use crate::sql::{
    params_or_empty, push_char, render_error_text, render_ok, rendered, Column, ColumnMeta,
    ColumnValue, Row, Statement,
};

verus! {

/// One cell of a row message: the extracted text, if any, and the
/// column's name, if known. An absent value stands for a cell the
/// runtime could not extract — the lenient-decode policy turns such a
/// cell into nothing rather than an error.
#[derive(Debug, Clone)]
pub struct SqlCell {
    pub value: Option<String>,
    pub name: Option<String>,
}

/// One server response message: a data row, or the command-completion
/// acknowledgment carrying an affected-row count.
#[derive(Debug, Clone)]
pub enum SqlMessage {
    RowData(Vec<SqlCell>),
    CommandComplete(u64),
}

/// A handle on one live raw connection, identified by the slot it
/// occupies in the pool. The embedding application maps the key to the
/// actual connection. A handle is never duplicated: at any instant it is
/// owned by exactly one of the pool's idle set, one in-flight caller, or
/// one open transaction.
#[derive(Debug)]
pub struct ClientWrapper {
    id: usize,
}

/// Whether a decoded column reproduces one response cell: the value is
/// carried over as a string when present, absent when absent, and the
/// metadata carries the column name when one was reported.
pub open spec fn column_matches_cell(col: Column, cell: SqlCell) -> bool {
    &&& match (col.value, cell.value) {
        (Some(v), Some(s)) => v matches ColumnValue::String(t) && t@ == s@,
        (None, None) => true,
        _ => false,
    }
    &&& match (col.meta, cell.name) {
        (Some(m), Some(n)) => m.name@ == n@,
        (None, None) => true,
        _ => false,
    }
}

/// Whether a decoded row reproduces one row message, cell by cell.
pub open spec fn row_matches_cells(row: Row, cells: Seq<SqlCell>) -> bool {
    &&& row.columns@.len() == cells.len()
    &&& forall|j: int|
        0 <= j < cells.len() ==> column_matches_cell(#[trigger] row.columns@[j], cells[j])
}

/// The row messages of a response, in order, each as its cells.
pub open spec fn data_rows(ms: Seq<SqlMessage>) -> Seq<Seq<SqlCell>>
    decreases ms.len(),
{
    if ms.len() == 0 {
        Seq::empty()
    } else {
        let front = data_rows(ms.drop_last());
        match ms.last() {
            SqlMessage::RowData(cells) => front.push(cells@),
            SqlMessage::CommandComplete(_) => front,
        }
    }
}

/// Whether decoded rows reproduce every row message of a response.
pub open spec fn rows_match_messages(rows: Seq<Row>, ms: Seq<SqlMessage>) -> bool {
    &&& rows.len() == data_rows(ms).len()
    &&& forall|i: int|
        0 <= i < rows.len() ==> row_matches_cells(#[trigger] rows[i], data_rows(ms)[i])
}

/// The affected-row count of a response: the count of a leading
/// command-completion acknowledgment, or zero when the response does not
/// begin with one — the lenient default.
pub open spec fn completion_count(ms: Seq<SqlMessage>) -> u64 {
    if ms.len() > 0 && ms[0] is CommandComplete {
        ms[0]->CommandComplete_0
    } else {
        0
    }
}

/// The concatenated SQL of a batch: each statement that renders, in
/// order, followed by a statement terminator; statements that fail to
/// render are dropped from the batch.
pub open spec fn batch_text(sts: Seq<Statement>) -> Seq<char>
    decreases sts.len(),
{
    if sts.len() == 0 {
        Seq::empty()
    } else {
        let front = batch_text(sts.drop_last());
        let last = sts.last();
        if render_ok(last.template(), last.params_view()) {
            front + rendered(last.template(), params_or_empty(last.params_view())) + seq![';']
        } else {
            front
        }
    }
}

/// One decoded column of a response cell.
fn decode_cell(cell: &SqlCell) -> (col: Column)
    ensures
        column_matches_cell(col, *cell),
{
    let value = match &cell.value {
        Some(s) => Some(ColumnValue::String(s.clone())),
        None => None,
    };
    let meta = match &cell.name {
        Some(n) => Some(ColumnMeta { name: n.clone() }),
        None => None,
    };
    Column { value, meta }
}

impl ClientWrapper {
    /// The pool slot this handle occupies.
    pub closed spec fn key(self) -> nat {
        self.id as nat
    }

    /// Wraps the raw connection in the given pool slot.
    pub fn new(id: usize) -> (c: Self)
        ensures
            c.key() == id,
    {
        Self { id }
    }

    /// The pool slot this handle occupies.
    pub fn id(&self) -> (r: usize)
        ensures
            r == self.key(),
    {
        self.id
    }

    /// Renders a query for this connection: the returned SQL is what the
    /// raw connection must be asked to run; a statement whose template
    /// and parameters do not pair up is rejected before any network
    /// call. The response messages are decoded by [`Self::collect_rows`].
    pub fn query(&self, query: &Statement) -> (r: Result<String, DatabaseError>)
        ensures
            match r {
                Ok(sql) => render_ok(query.template(), query.params_view()) && sql@ == rendered(
                    query.template(),
                    params_or_empty(query.params_view()),
                ),
                Err(e) => !render_ok(query.template(), query.params_view()) && (e
                    matches DatabaseError::InvalidSql(x) && x.msg@ == render_error_text(
                    query.template(),
                    query.params_view(),
                )),
            },
    {
        match query.tosql() {
            Ok(sql) => Ok(sql),
            Err(e) => Err(DatabaseError::InvalidSql(e)),
        }
    }

    /// Renders a non-row-returning statement; the same render path as
    /// [`Self::query`]. The response messages are summarized by
    /// [`Self::affected_count`].
    pub fn execute(&self, statement: &Statement) -> (r: Result<String, DatabaseError>)
        ensures
            match r {
                Ok(sql) => render_ok(statement.template(), statement.params_view()) && sql@
                    == rendered(statement.template(), params_or_empty(statement.params_view())),
                Err(e) => !render_ok(statement.template(), statement.params_view()) && (e
                    matches DatabaseError::InvalidSql(x) && x.msg@ == render_error_text(
                    statement.template(),
                    statement.params_view(),
                )),
            },
    {
        match statement.tosql() {
            Ok(sql) => Ok(sql),
            Err(e) => Err(DatabaseError::InvalidSql(e)),
        }
    }

    /// Decodes a query response: every row message becomes a row, in
    /// order, each cell carried over by the lenient policy.
    pub fn collect_rows(&self, messages: &Vec<SqlMessage>) -> (rows: Vec<Row>)
        ensures
            rows_match_messages(rows@, messages@),
    {
        let mut rows: Vec<Row> = Vec::new();
        let mut i: usize = 0;
        proof {
            assert(messages@.take(0) =~= Seq::<SqlMessage>::empty());
        }
        while i < messages.len()
            invariant
                i <= messages@.len(),
                rows_match_messages(rows@, messages@.take(i as int)),
            decreases messages@.len() - i,
        {
            let ghost prefix = messages@.take(i as int);
            proof {
                assert(messages@.take(i as int + 1).drop_last() =~= prefix);
                assert(messages@.take(i as int + 1).last() == messages@[i as int]);
            }
            match &messages[i] {
                SqlMessage::RowData(cells) => {
                    let mut columns: Vec<Column> = Vec::new();
                    let mut j: usize = 0;
                    while j < cells.len()
                        invariant
                            j <= cells@.len(),
                            columns@.len() == j,
                            forall|k: int|
                                0 <= k < j ==> column_matches_cell(
                                    #[trigger] columns@[k],
                                    cells@[k],
                                ),
                        decreases cells@.len() - j,
                    {
                        columns.push(decode_cell(&cells[j]));
                        j = j + 1;
                    }
                    rows.push(Row { columns });
                },
                SqlMessage::CommandComplete(_) => {},
            }
            i = i + 1;
        }
        proof {
            assert(messages@.take(messages@.len() as int) =~= messages@);
        }
        rows
    }

    /// Summarizes an execute response: the count of a leading
    /// command-completion acknowledgment, or zero when there is none.
    pub fn affected_count(&self, messages: &Vec<SqlMessage>) -> (r: u64)
        ensures
            r == completion_count(messages@),
    {
        if messages.len() > 0 {
            match &messages[0] {
                SqlMessage::CommandComplete(count) => *count,
                SqlMessage::RowData(_) => 0,
            }
        } else {
            0
        }
    }

    /// Renders a batch: every statement that renders is appended, in
    /// order, each followed by a statement terminator, and submitted as
    /// one multi-statement execution by the embedding application.
    /// Statements that fail to render are silently dropped from the
    /// batch — a risky but deliberate policy of this layer.
    pub fn batch_execute(&self, statements: &Vec<Statement>) -> (r: String)
        ensures
            r@ == batch_text(statements@),
    {
        let mut out = String::new();
        let mut i: usize = 0;
        proof {
            assert(statements@.take(0) =~= Seq::<Statement>::empty());
        }
        while i < statements.len()
            invariant
                i <= statements@.len(),
                out@ == batch_text(statements@.take(i as int)),
            decreases statements@.len() - i,
        {
            let ghost prefix = statements@.take(i as int);
            proof {
                assert(statements@.take(i as int + 1).drop_last() =~= prefix);
                assert(statements@.take(i as int + 1).last() == statements@[i as int]);
            }
            match statements[i].tosql() {
                Ok(sql) => {
                    out.append(sql.as_str());
                    push_char(&mut out, ';');
                    proof {
                        assert((batch_text(prefix) + sql@).push(';') =~= batch_text(prefix) + sql@
                            + seq![';']);
                    }
                },
                Err(_) => {},
            }
            i = i + 1;
        }
        proof {
            assert(statements@.take(statements@.len() as int) =~= statements@);
        }
        out
    }
}

} // verus!
