//! Failures specific to pool construction.

use vstd::prelude::*;
use vstd::string::StringExecFns;

use crate::error::Error;

verus! {

/// A failure while building the pool: constructing the pool object,
/// probing the first connection, or a configuration problem.
#[derive(Debug, Clone)]
pub enum BuildError {
    /// The pool object could not be constructed, with the builder's report.
    Pool(String),
    /// The liveness probe on a freshly acquired connection failed.
    Connection(Error),
    /// A free-form configuration or migration problem.
    Other(String),
}

impl BuildError {
    /// Wraps a free-form message as a configuration error.
    pub fn other(s: String) -> (r: Self)
        ensures
            r == BuildError::Other(s),
    {
        BuildError::Other(s)
    }

    /// This error's display text.
    pub fn message(&self) -> (r: String)
        ensures
            match self {
                BuildError::Pool(m) => r@ == m@,
                BuildError::Connection(e) => r@ == "testing connection: "@ + e.message_spec(),
                BuildError::Other(m) => r@ == m@,
            },
    {
        match self {
            BuildError::Pool(m) => m.clone(),
            BuildError::Connection(e) => {
                let mut s = String::from_str("testing connection: ");
                let inner = e.message();
                s.append(inner.as_str());
                s
            },
            BuildError::Other(m) => m.clone(),
        }
    }
}

} // verus!
