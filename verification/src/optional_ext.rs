//! Reclassifies the engine's "no matching row" report as an absent value,
//! for call sites that treat absence as a normal outcome.

use vstd::prelude::*;

use crate::error::Error;
use crate::error::StoreError;

verus! {

/// Turns "no matching row" into `Ok(None)` and leaves every other outcome
/// unchanged.
pub trait OptionalExt<T>: Sized {
    /// What [`OptionalExt::optional`] returns.
    spec fn optional_spec(self) -> Result<Option<T>, Error>;

    /// Reclassifies the "no matching row" error of `self` as `Ok(None)`;
    /// a present value becomes `Ok(Some(value))`, and any other error
    /// passes through unchanged.
    fn optional(self) -> (r: Result<Option<T>, Error>)
        ensures
            r == self.optional_spec(),
    ;
}

impl<T> OptionalExt<T> for Result<T, Error> {
    open spec fn optional_spec(self) -> Result<Option<T>, Error> {
        match self {
            Ok(v) => Ok(Some(v)),
            Err(Error::Diesel(StoreError::NotFound)) => Ok(None),
            Err(err) => Err(err),
        }
    }

    fn optional(self) -> (r: Result<Option<T>, Error>) {
        match self {
            Ok(v) => Ok(Some(v)),
            Err(Error::Diesel(StoreError::NotFound)) => Ok(None),
            Err(err) => Err(err),
        }
    }
}

} // verus!
