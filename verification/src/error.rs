//! Runtime errors: failures reported by the store engine, by a single
//! connection, or by the pool, with the engine's "no matching row" report
//! kept apart so call sites can treat absence as a normal outcome.

use vstd::prelude::*;
use vstd::string::StringExecFns;

verus! {

/// What this layer reads of an error reported by the store engine: whether
/// it is the "no matching row" report, or any other failure with its
/// display text.
#[derive(Debug, Clone)]
pub enum StoreError {
    /// The statement matched no row.
    NotFound,
    /// Any other engine failure, carrying its display text.
    Other(String),
}

/// A runtime failure of a statement, a connection or the pool.
#[derive(Debug, Clone)]
pub enum Error {
    /// A failure reported by the store engine while executing a statement.
    Diesel(StoreError),
    /// A failure of a single connection.
    Connection(String),
    /// A failure to acquire a connection from the pool.
    Pool(String),
}

impl StoreError {
    /// This error's display text.
    pub fn message(&self) -> (r: String)
        ensures
            match self {
                StoreError::NotFound => r@ == "Record not found"@,
                StoreError::Other(m) => r@ == m@,
            },
    {
        match self {
            StoreError::NotFound => String::from_str("Record not found"),
            StoreError::Other(m) => m.clone(),
        }
    }
}

impl Error {
    /// This error's display text: the failing layer, then the underlying
    /// report.
    pub fn message(&self) -> (r: String)
        ensures
            match self {
                Error::Diesel(e) => r@ == "Diesel: "@ + e.message_spec(),
                Error::Connection(m) => r@ == "Connection: "@ + m@,
                Error::Pool(m) => r@ == "Database pool: "@ + m@,
            },
    {
        match self {
            Error::Diesel(e) => {
                let mut s = String::from_str("Diesel: ");
                let inner = e.message();
                s.append(inner.as_str());
                s
            },
            Error::Connection(m) => {
                let mut s = String::from_str("Connection: ");
                s.append(m.as_str());
                s
            },
            Error::Pool(m) => {
                let mut s = String::from_str("Database pool: ");
                s.append(m.as_str());
                s
            },
        }
    }
}

impl StoreError {
    /// What [`StoreError::message`] returns.
    pub open spec fn message_spec(&self) -> Seq<char> {
        match self {
            StoreError::NotFound => "Record not found"@,
            StoreError::Other(m) => m@,
        }
    }
}

impl Error {
    /// What [`Error::message`] returns.
    pub open spec fn message_spec(&self) -> Seq<char> {
        match self {
            Error::Diesel(e) => "Diesel: "@ + e.message_spec(),
            Error::Connection(m) => "Connection: "@ + m@,
            Error::Pool(m) => "Database pool: "@ + m@,
        }
    }
}

} // verus!
