//! A lightweight access layer in front of a relational database server:
//! a bounded pool of connection handles, a minimal SQL statement builder
//! that substitutes positional placeholders with literal values, and an
//! explicit transaction lifecycle with automatic compensating rollback
//! on failure.
//!
//! The pool, the statement builder, the response decoding and the
//! transaction state machine are verified here; the embedding
//! application supplies the raw connections and drives the I/O.

pub mod client;
pub mod database;
pub mod error;
pub mod pool;
pub mod sql;
pub mod transaction;
