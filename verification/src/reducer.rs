//! The reducer and the handles it leases.
//!
//! A [`Reducer`] owns a global value behind a lock, together with the function
//! that merges a local value into it. It leases [`SharedReducer`] handles, each
//! with a local value of its own that its holder changes freely and without
//! any locking. When a handle ends, its local value is merged into the global
//! value, under the lock and exactly once.
//!
//! The global cell sits behind a mutex, so between any two operations other
//! threads may have changed it, and no contract here can say what an operation
//! finds in it. What each operation does with the cell it finds is stated, and
//! proved, on [`GlobalCell`] and on [`Lease`], whose methods are the steps
//! taken under the lock.

use vstd::prelude::*;
use std::marker::PhantomData;
use std::sync::Arc;
use std::sync::LockResult;
use std::sync::Mutex;
use std::sync::MutexGuard;
use crate::cell::GlobalCell;
use crate::error::ReducerError;
use crate::lease::Lease;
use crate::sync::guarded;
use crate::sync::guarded_mut;

verus! {

/// What a reducer and all of its handles hold in common: the locked global
/// cell and the merge function.
#[derive(Debug)]
#[verifier::reject_recursive_types(G)]
struct Inner<G, L, F: Fn(&mut G, &L)> {
    cell: Mutex<GlobalCell<G>>,
    reduce: F,
    marker: PhantomData<L>,
}

impl<G, L, F: Fn(&mut G, &L)> Inner<G, L, F> {
    /// The merge function accepts every global value and every local value.
    #[verifier::type_invariant]
    spec fn merge_is_total(&self) -> bool {
        forall|g: &mut G, l: &L| call_requires(self.reduce, (g, l))
    }

    /// Sorts out what `lock` gave: the guard, which a poisoned lock hands out
    /// inside its error, and whether the lock was poisoned.
    fn recover<'a>(locked: LockResult<MutexGuard<'a, GlobalCell<G>>>) -> (held: (
        MutexGuard<'a, GlobalCell<G>>,
        bool,
    ))
        ensures
            held.1 == (locked is Err),
            locked matches Ok(guard) ==> held.0 == guard,
    {
        match locked {
            Ok(guard) => (guard, false),
            Err(poison) => (poison.into_inner(), true),
        }
    }

    /// Takes the lock. Gives the guard, and whether the lock was found
    /// poisoned: the guard is handed out either way.
    ///
    /// Which of the two comes back is up to the lock, at the moment of the
    /// call; `recover` says what is made of either.
    fn acquire(&self) -> (held: (MutexGuard<'_, GlobalCell<G>>, bool)) {
        Self::recover(self.cell.lock())
    }

    /// Counts one more live handle, whether or not the lock is poisoned.
    fn lease(&self) {
        let (mut guard, _) = self.acquire();
        guarded_mut(&mut guard).lease()
    }

    /// The number of live handles, whether or not the lock is poisoned.
    fn count(&self) -> usize {
        let (guard, _) = self.acquire();
        guarded(&guard).count()
    }

    /// A copy of the global value, unless the lock is poisoned.
    fn peek(&self) -> (r: Result<G, ReducerError>) where G: Clone
        ensures
            r matches Err(e) ==> e == ReducerError::PoisonedLock,
    {
        let (guard, poisoned) = self.acquire();
        guarded(&guard).peek(poisoned)
    }
}

/// The owner of a global value that many handles reduce into.
///
/// The global value has type `G`, the local value of each handle has type `L`,
/// and `F` is the type of the function that merges a local value into the
/// global one. Where `L` is not given it is `G`, and where `F` is not given it
/// is a plain function pointer, so that `Reducer::<usize>::new(5, |g, l| ..)`
/// names a reducer of `usize` values. Verified callers pass a closure or a
/// named function, whose contract Verus can see.
#[derive(Debug)]
#[verifier::reject_recursive_types(G)]
pub struct Reducer<G, L = G, F: Fn(&mut G, &L) = fn(&mut G, &L)> {
    inner: Arc<Inner<G, L, F>>,
}

impl<G, L, F: Fn(&mut G, &L)> Reducer<G, L, F> {
    /// The merge function that the reducer was made with.
    pub closed spec fn merge_fn(&self) -> F {
        self.inner.reduce
    }

    /// The lock around the global cell. A handle refers to the same global
    /// cell as the reducer when the two agree on this lock.
    pub closed spec fn cell(&self) -> Mutex<GlobalCell<G>> {
        self.inner.cell
    }

    /// Makes a reducer whose global value starts as `init` and which merges
    /// local values into it with `reduce`.
    ///
    /// `reduce(global, local)` must fold `local` into `global`. It is called
    /// with the lock held, on whatever global value the cell holds at that
    /// moment, so it has to accept every pair of values, and it must not use
    /// the reducer that it belongs to. For the final result to be independent
    /// of the order in which handles end, the outcome of merging two local
    /// values must not depend on which of them is merged first.
    pub fn new(init: G, reduce: F) -> (reducer: Self)
        requires
            forall|g: &mut G, l: &L| call_requires(reduce, (g, l)),
        ensures
            reducer.merge_fn() == reduce,
    {
        let inner = Inner { cell: Mutex::new(GlobalCell::new(init)), reduce, marker: PhantomData };
        Reducer { inner: Arc::new(inner) }
    }

    /// Leases a new handle on this reducer.
    ///
    /// The handle refers to this reducer's global cell, is not released, and
    /// its local value is a default value of `L`. Under the lock, the cell's
    /// count of live handles goes up by [`GlobalCell::lease`].
    pub fn share(&self) -> (handle: SharedReducer<G, L, F>) where L: Default
        ensures
            handle.cell() == self.cell(),
            handle.merge_fn() == self.merge_fn(),
            !handle.released(),
            call_ensures(L::default, (), handle.local()),
    {
        SharedReducer::lease(&self.inner)
    }

    /// The number of handles that are live, that is, leased and not yet
    /// released: what [`GlobalCell::count`] finds under the lock.
    pub fn count(&self) -> usize {
        self.inner.count()
    }

    /// A copy of the current global value: what [`GlobalCell::peek`] finds
    /// under the lock. Local values of handles that are still live are not in
    /// it.
    ///
    /// Fails with [`ReducerError::PoisonedLock`], and with nothing else, when
    /// the lock is poisoned.
    pub fn peek(&self) -> (r: Result<G, ReducerError>) where G: Clone
        ensures
            r matches Err(e) ==> e == ReducerError::PoisonedLock,
    {
        self.inner.peek()
    }

    /// Consumes the reducer and hands out the global value.
    ///
    /// Fails with [`ReducerError::PoisonedLock`] when the lock is poisoned.
    /// Otherwise the outcome is that of [`GlobalCell::take`] on the cell found
    /// under the lock: the global value if no handle is live, and
    /// [`ReducerError::OutstandingHandles`] if one is.
    pub fn get(self) -> (r: Result<G, ReducerError>) where G: Default
        ensures
            r matches Err(e) ==> e == ReducerError::PoisonedLock || e
                == ReducerError::OutstandingHandles,
    {
        let (mut guard, poisoned) = self.inner.acquire();
        guarded_mut(&mut guard).take(poisoned)
    }
}

/// A handle leased from a [`Reducer`], with a local value of its own.
///
/// The local value is reached through [`as_ref`](SharedReducer::as_ref) and
/// [`as_mut`](SharedReducer::as_mut). When the handle is released, by
/// [`release`](SharedReducer::release) or by going out of scope, the local
/// value is merged into the global value.
#[derive(Debug)]
#[verifier::reject_recursive_types(G)]
pub struct SharedReducer<G, L: Default, F: Fn(&mut G, &L) = fn(&mut G, &L)> {
    inner: Arc<Inner<G, L, F>>,
    lease: Lease<L>,
}

impl<G, L: Default, F: Fn(&mut G, &L)> SharedReducer<G, L, F> {
    /// The local value.
    pub closed spec fn local(&self) -> L {
        self.lease@.local
    }

    /// Whether the handle has been released.
    pub closed spec fn released(&self) -> bool {
        self.lease@.released
    }

    /// The merge function of the reducer that the handle was leased from.
    pub closed spec fn merge_fn(&self) -> F {
        self.inner.reduce
    }

    /// The lock around the global cell that the handle refers to.
    pub closed spec fn cell(&self) -> Mutex<GlobalCell<G>> {
        self.inner.cell
    }

    /// A fresh handle on `inner`, counted in its cell.
    fn lease(inner: &Arc<Inner<G, L, F>>) -> (handle: Self)
        ensures
            handle.inner == *inner,
            !handle.lease@.released,
            call_ensures(L::default, (), handle.lease@.local),
    {
        let lease = Lease::new();
        inner.lease();
        SharedReducer { inner: inner.clone(), lease }
    }

    /// A copy of the current global value, as [`Reducer::peek`] gives it.
    pub fn peek(&self) -> (r: Result<G, ReducerError>) where G: Clone
        ensures
            r matches Err(e) ==> e == ReducerError::PoisonedLock,
    {
        self.inner.peek()
    }

    /// Releases the handle if that has not happened yet.
    ///
    /// A handle that is already released is left as it is, and the lock is not
    /// taken. Otherwise the lease is released into the cell found under the
    /// lock, by one [`Lease::release_into`] with the merge function of the
    /// reducer. Once the lock is free again, a default value takes the place
    /// of the local value, so that the old one is not dropped with the lock
    /// held.
    fn settle(&mut self) -> (r: Result<(), ReducerError>)
        ensures
            final(self).released(),
            final(self).cell() == old(self).cell(),
            final(self).merge_fn() == old(self).merge_fn(),
            r matches Err(e) ==> e == ReducerError::PoisonedLock,
            old(self).released() ==> r == Ok::<(), ReducerError>(()) && final(self).local() == old(
                self,
            ).local(),
            !old(self).released() ==> call_ensures(L::default, (), final(self).local()),
    {
        if self.lease.is_released() {
            return Ok(());
        }
        proof {
            use_type_invariant(&*self.inner);
        }
        let r = {
            let (mut guard, poisoned) = self.inner.acquire();
            self.lease.release_into(guarded_mut(&mut guard), poisoned, &self.inner.reduce)
        };
        self.lease.clear();
        r
    }

    /// Ends the handle now: merges its local value into the global value and
    /// gives up its lease.
    ///
    /// Under the lock this is one [`Lease::release_into`]. Fails with
    /// [`ReducerError::PoisonedLock`], and with nothing else, when the lock is
    /// poisoned; the local value is then not merged. A handle that has been
    /// released already does not ask for the lock: nothing is merged again,
    /// and the result is `Ok`.
    pub fn release(self) -> (r: Result<(), ReducerError>)
        ensures
            self.released() ==> r == Ok::<(), ReducerError>(()),
            r matches Err(e) ==> e == ReducerError::PoisonedLock,
    {
        let mut handle = self;
        handle.settle()
    }
}

impl<G, L: Default, F: Fn(&mut G, &L)> Clone for SharedReducer<G, L, F> {
    /// Leases another handle on the same reducer.
    ///
    /// The new handle does not take over the local value of this one: its
    /// local value is a default value of `L`, whatever this handle holds. This
    /// handle is not changed.
    fn clone(&self) -> (twin: Self)
        ensures
            twin.cell() == self.cell(),
            twin.merge_fn() == self.merge_fn(),
            !twin.released(),
            call_ensures(L::default, (), twin.local()),
    {
        SharedReducer::lease(&self.inner)
    }
}

impl<G, L: Default, F: Fn(&mut G, &L)> Drop for SharedReducer<G, L, F> {
    /// `Drop::drop`, which runs when a handle goes out of scope, releases the
    /// handle unless [`release`](SharedReducer::release) has done so already.
    ///
    /// The body is a single call of `settle`, which is verified, and is itself
    /// not checked: Verus asks of a destructor that it never unwinds, which it
    /// cannot know of a call of the merge function. Nothing is claimed of the
    /// handle afterwards.
    ///
    /// A destructor has nobody to report to: where the lock is poisoned, the
    /// local value is not merged and the failure goes unnoticed here. A caller
    /// that wants to hear of it ends the handle with
    /// [`release`](SharedReducer::release).
    #[verifier::external_body]
    fn drop(&mut self)
        opens_invariants none
        no_unwind
    {
        let _ = self.settle();
    }
}

impl<G, L: Default, F: Fn(&mut G, &L)> AsRef<L> for SharedReducer<G, L, F> {
    /// The local value, for reading.
    fn as_ref(&self) -> (local: &L)
        ensures
            *local == self.local(),
    {
        self.lease.local()
    }
}

impl<G, L: Default, F: Fn(&mut G, &L)> AsMut<L> for SharedReducer<G, L, F> {
    /// The local value, for changing in place. Whatever is written through the
    /// reference becomes the local value; nothing else about the handle
    /// changes, and no other handle is touched.
    fn as_mut(&mut self) -> (local: &mut L)
        ensures
            *local == old(self).local(),
            final(self).local() == *final(local),
            final(self).released() == old(self).released(),
            final(self).cell() == old(self).cell(),
            final(self).merge_fn() == old(self).merge_fn(),
    {
        self.lease.local_mut()
    }
}

} // verus!
