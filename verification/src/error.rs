//! Error values returned by the access layer.
//!
//! Statement rendering problems are detected before any network call and
//! reported as [`InvalidSql`]; transport or server failures reported by the
//! raw connection are carried verbatim in [`ExecutionError`]; a pool that
//! cannot supply a handle yields [`ClientNotFound`].

use vstd::prelude::*;

verus! {

/// Placeholder/parameter mismatch or an unsupported parameter variant,
/// detected before any network call.
#[derive(Debug, Clone)]
pub struct InvalidSql {
    pub msg: String,
}

/// The raw connection reported a transport or server-side failure; the
/// underlying message is carried verbatim.
#[derive(Debug, Clone)]
pub struct ExecutionError {
    pub msg: String,
}

/// The pool could not supply a client handle.
#[derive(Debug, Clone)]
pub struct ClientNotFound {
    pub msg: String,
}

/// Any failure of a single-shot query/execute/batch operation.
#[derive(Debug, Clone)]
pub enum DatabaseError {
    InvalidSql(InvalidSql),
    ExecutionError(ExecutionError),
    ClientNotFound(ClientNotFound),
}

impl DatabaseError {
    /// The human-readable message carried by whichever variant this is.
    pub fn message(&self) -> (r: &String)
        ensures
            r@ == self.message_view(),
    {
        match self {
            DatabaseError::InvalidSql(e) => &e.msg,
            DatabaseError::ExecutionError(e) => &e.msg,
            DatabaseError::ClientNotFound(e) => &e.msg,
        }
    }

    /// The message of whichever variant this is, as a sequence of characters.
    pub open spec fn message_view(self) -> Seq<char> {
        match self {
            DatabaseError::InvalidSql(e) => e.msg@,
            DatabaseError::ExecutionError(e) => e.msg@,
            DatabaseError::ClientNotFound(e) => e.msg@,
        }
    }
}

} // verus!
