//! A switch for test harnesses: toggles the destructive-reset flag on a
//! builder.

use vstd::prelude::*;

use crate::PoolBuilder;

verus! {

/// Toggles the destructive-reset flag; meant for test harnesses only.
pub trait Testing: Sized {
    /// What [`Testing::reset_db`] returns.
    spec fn with_reset_db(self, b: bool) -> Self;

    /// Sets the destructive-reset flag to `b`.
    fn reset_db(self, b: bool) -> (r: Self)
        ensures
            r == self.with_reset_db(b),
    ;
}

impl Testing for PoolBuilder {
    open spec fn with_reset_db(self, b: bool) -> PoolBuilder {
        PoolBuilder { reset_db: b, ..self }
    }

    fn reset_db(self, b: bool) -> (r: Self) {
        PoolBuilder { reset_db: b, ..self }
    }
}

} // verus!
