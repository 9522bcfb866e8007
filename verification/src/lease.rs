//! The lease: what a handle holds for itself.
//!
//! A lease is the private side of a handle, as [`GlobalCell`] is the shared
//! side: the local value and the one bit of state that says whether the local
//! value has been handed in. Like the cell, a lease knows nothing of locks.

use vstd::prelude::*;
use crate::cell::GlobalCell;
use crate::error::ReducerError;

verus! {

/// The local value of a handle, and whether the handle has been released.
///
/// A lease starts out active, with a default local value. Its holder reads
/// and changes the local value freely. It is released once, by
/// [`release_into`](Lease::release_into), and stays released.
#[derive(Debug)]
pub struct Lease<L> {
    local: L,
    released: bool,
}

/// The mathematical content of a [`Lease`].
pub ghost struct LeaseState<L> {
    /// The local value.
    pub local: L,
    /// Whether the lease has been released.
    pub released: bool,
}

impl<L> View for Lease<L> {
    type V = LeaseState<L>;

    closed spec fn view(&self) -> LeaseState<L> {
        LeaseState { local: self.local, released: self.released }
    }
}

impl<L> Lease<L> {
    /// An active lease whose local value is a default value of `L`.
    pub fn new() -> (lease: Self) where L: Default
        ensures
            !lease@.released,
            call_ensures(L::default, (), lease@.local),
    {
        Lease { local: L::default(), released: false }
    }

    /// Whether the lease has been released.
    pub fn is_released(&self) -> (released: bool)
        ensures
            released == self@.released,
    {
        self.released
    }

    /// The local value, for reading.
    pub fn local(&self) -> (local: &L)
        ensures
            *local == self@.local,
    {
        &self.local
    }

    /// The local value, for changing in place. Whatever is written through the
    /// reference becomes the local value, and nothing else changes.
    pub fn local_mut(&mut self) -> (local: &mut L)
        ensures
            *local == old(self)@.local,
            final(self)@.local == *final(local),
            final(self)@.released == old(self)@.released,
    {
        &mut self.local
    }

    /// Releases the lease into `cell`, as a handle does under the lock at its
    /// end, and does so at most once.
    ///
    /// A lease that is released already stays as it is and leaves the cell as
    /// it is. An active lease becomes released, and the cell goes through one
    /// [`GlobalCell::release`] with the local value as it stands at this
    /// moment: whatever was written to it earlier and overwritten since plays
    /// no part. The local value itself is left alone.
    pub fn release_into<G, F: Fn(&mut G, &L)>(
        &mut self,
        cell: &mut GlobalCell<G>,
        poisoned: bool,
        reduce: &F,
    ) -> (r: Result<(), ReducerError>)
        requires
            !old(self)@.released && !poisoned ==> forall|g: &mut G|
                *g == old(cell)@.value ==> call_requires(*reduce, (g, &old(self)@.local)),
        ensures
            final(self)@.released,
            final(self)@.local == old(self)@.local,
            old(self)@.released ==> r == Ok::<(), ReducerError>(()) && final(cell)@ == old(cell)@,
            !old(self)@.released ==> final(cell)@.live == if old(cell)@.live > 0 {
                old(cell)@.live - 1
            } else {
                0
            },
            !old(self)@.released && poisoned ==> r == Err::<(), ReducerError>(
                ReducerError::PoisonedLock,
            ) && final(cell)@.value == old(cell)@.value,
            !old(self)@.released && !poisoned ==> r == Ok::<(), ReducerError>(()) && exists|
                g: &mut G,
            |
                *g == old(cell)@.value && *final(g) == final(cell)@.value && call_ensures(
                    *reduce,
                    (g, &old(self)@.local),
                    (),
                ),
    {
        if self.released {
            return Ok(());
        }
        self.released = true;
        cell.release(poisoned, reduce, &self.local)
    }

    /// Puts a default value of `L` in the place of the local value.
    ///
    /// A handle does this after its release, once the lock is free again, so
    /// that the old local value is not dropped with the lock held.
    pub fn clear(&mut self) where L: Default
        ensures
            final(self)@.released == old(self)@.released,
            call_ensures(L::default, (), final(self)@.local),
    {
        self.local = L::default();
    }
}

} // verus!
