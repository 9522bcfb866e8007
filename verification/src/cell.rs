//! The global cell: the accumulated value and the count of live handles.
//!
//! Everything that a reducer or a handle does to the shared state is one of
//! the steps below, taken while the lock around the cell is held. A step that
//! can fail is told whether the lock was found poisoned.

use vstd::prelude::*;
use crate::error::ReducerError;

verus! {

/// The state that all handles of one reducer share: the global value and the
/// number of handles that have been leased and not yet released.
///
/// A cell knows nothing of locks. Whoever shares it between threads guards it
/// with one, takes every step with the lock held, and says with `poisoned`
/// whether an earlier holder of the lock failed while holding it.
#[derive(Debug)]
pub struct GlobalCell<G> {
    value: G,
    live: usize,
}

/// The mathematical content of a [`GlobalCell`].
pub ghost struct CellState<G> {
    /// The global value.
    pub value: G,
    /// How many handles are live.
    pub live: nat,
}

impl<G> View for GlobalCell<G> {
    type V = CellState<G>;

    closed spec fn view(&self) -> CellState<G> {
        CellState { value: self.value, live: self.live as nat }
    }
}

impl<G> GlobalCell<G> {
    /// A cell that holds `init` and has no live handle.
    pub fn new(init: G) -> (cell: Self)
        ensures
            cell@ == (CellState { value: init, live: 0 }),
    {
        GlobalCell { value: init, live: 0 }
    }

    /// The number of live handles.
    pub fn count(&self) -> (n: usize)
        ensures
            n == self@.live,
    {
        self.live
    }

    /// Counts one more live handle and leaves the global value alone.
    ///
    /// The count does not go beyond `usize::MAX`.
    pub fn lease(&mut self)
        ensures
            final(self)@.value == old(self)@.value,
            final(self)@.live == if old(self)@.live < usize::MAX {
                old(self)@.live + 1
            } else {
                old(self)@.live
            },
    {
        if self.live < usize::MAX {
            self.live = self.live + 1;
        }
    }

    /// A copy of the global value, made by `G::clone`. The cell is not
    /// changed, and local values that have not been released are not in the
    /// copy.
    ///
    /// Fails with [`ReducerError::PoisonedLock`] exactly when `poisoned`.
    pub fn peek(&self, poisoned: bool) -> (r: Result<G, ReducerError>) where G: Clone
        ensures
            poisoned ==> r == Err::<G, ReducerError>(ReducerError::PoisonedLock),
            !poisoned ==> (r matches Ok(g) && cloned(self@.value, g)),
    {
        if poisoned {
            Err(ReducerError::PoisonedLock)
        } else {
            Ok(self.value.clone())
        }
    }

    /// One release, as a handle performs it under the lock at its end.
    ///
    /// Whether or not the lock is poisoned, one live handle less is counted
    /// (the count does not go below zero). `local` itself is left alone: the
    /// handle puts a default value in its place once the lock is free again.
    ///
    /// With a sound lock, `local` is first folded into the global value by a
    /// single call of `reduce`: the new global value is one that this call may
    /// leave behind when it starts from the old global value and `local`. With
    /// a poisoned lock `reduce` is not called, the global value stays as it
    /// is, and the result is [`ReducerError::PoisonedLock`].
    pub fn release<L, F: Fn(&mut G, &L)>(&mut self, poisoned: bool, reduce: &F, local: &L) -> (r:
        Result<(), ReducerError>)
        requires
            !poisoned ==> forall|g: &mut G|
                *g == old(self)@.value ==> call_requires(*reduce, (g, local)),
        ensures
            final(self)@.live == if old(self)@.live > 0 {
                old(self)@.live - 1
            } else {
                0
            },
            poisoned ==> r == Err::<(), ReducerError>(ReducerError::PoisonedLock)
                && final(self)@.value == old(self)@.value,
            !poisoned ==> r == Ok::<(), ReducerError>(()) && exists|g: &mut G|
                *g == old(self)@.value && *final(g) == final(self)@.value && call_ensures(
                    *reduce,
                    (g, local),
                    (),
                ),
    {
        if !poisoned {
            reduce(&mut self.value, local);
        }
        if self.live > 0 {
            self.live = self.live - 1;
        }
        if poisoned {
            Err(ReducerError::PoisonedLock)
        } else {
            Ok(())
        }
    }

    /// Hands out the global value if the lock is sound and no handle is live.
    ///
    /// With a poisoned lock the result is [`ReducerError::PoisonedLock`], and
    /// with a sound lock and a live handle it is
    /// [`ReducerError::OutstandingHandles`]; in both cases the cell stays as it
    /// is. Otherwise the result is the global value, and a default value takes
    /// its place in the cell.
    pub fn take(&mut self, poisoned: bool) -> (r: Result<G, ReducerError>) where G: Default
        ensures
            poisoned ==> r == Err::<G, ReducerError>(ReducerError::PoisonedLock) && final(self)@
                == old(self)@,
            !poisoned && old(self)@.live > 0 ==> r == Err::<G, ReducerError>(
                ReducerError::OutstandingHandles,
            ) && final(self)@ == old(self)@,
            !poisoned && old(self)@.live == 0 ==> r == Ok::<G, ReducerError>(old(self)@.value)
                && final(self)@.live == 0 && call_ensures(G::default, (), final(self)@.value),
    {
        if poisoned {
            Err(ReducerError::PoisonedLock)
        } else if self.live > 0 {
            Err(ReducerError::OutstandingHandles)
        } else {
            let mut out = G::default();
            core::mem::swap(&mut self.value, &mut out);
            Ok(out)
        }
    }
}

} // verus!
