//! The ways in which an operation on a reducer can fail.

use vstd::prelude::*;

verus! {

/// Why an operation on a reducer or on one of its handles did not go through.
#[derive(Clone, Copy, Debug, PartialEq, Eq, Structural)]
pub enum ReducerError {
    /// A holder of the lock around the global value failed while it held the
    /// lock, so the global value can no longer be relied on.
    PoisonedLock,
    /// The global value was asked for while handles that have not yet merged
    /// their local values were still around.
    OutstandingHandles,
}

} // verus!
