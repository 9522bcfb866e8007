//! What Verus is told about the standard library's mutex.
//!
//! Nothing in this file is proved. What sits behind a mutex can change between
//! any two looks at it, so none of the items below says anything about the
//! value that a guard gives access to: verified code has to be right for every
//! value it may find there.

use vstd::prelude::*;
use std::sync::LockResult;
use std::sync::Mutex;
use std::sync::MutexGuard;
use std::sync::PoisonError;

verus! {

/// `std::sync::Mutex`, as a type whose inside Verus does not look into.
#[verifier::external_type_specification]
#[verifier::external_body]
#[verifier::reject_recursive_types(T)]
pub struct ExMutex<T: ?Sized>(Mutex<T>);

/// `std::sync::MutexGuard`, as a type whose inside Verus does not look into.
#[verifier::external_type_specification]
#[verifier::external_body]
#[verifier::reject_recursive_types(T)]
pub struct ExMutexGuard<'a, T: ?Sized + 'a>(MutexGuard<'a, T>);

/// `std::sync::PoisonError`, as a type whose inside Verus does not look into.
#[verifier::external_type_specification]
#[verifier::external_body]
#[verifier::reject_recursive_types(T)]
pub struct ExPoisonError<T>(PoisonError<T>);

/// `Mutex::new` wraps a value in a fresh, unlocked mutex. Nothing is claimed
/// of the result: the value is out of Verus's sight from here on.
pub assume_specification<T>[ Mutex::<T>::new ](t: T) -> (m: Mutex<T>)
;

/// `Mutex::lock` waits for the mutex and returns its guard, or, if an earlier
/// holder panicked, a poison error that still carries the guard. Nothing is
/// claimed of which of the two comes back, nor of the guarded value.
///
/// The standard library leaves open what happens when a thread locks a mutex
/// that it already holds (it may panic or never return), and no `requires`
/// can rule that out. This library never asks for the lock while it holds a
/// guard. With a guard held it runs code of its caller in three places only:
/// the merge function, `G::clone` when the global value is copied, and
/// `G::default` when it is handed out. None of them may reach back into the
/// same reducer, and neither may the destructor of anything that the merge
/// function drops. A local value is never dropped with a guard held: a
/// handle replaces it only after the guard is gone.
pub assume_specification<'a, T: ?Sized>[ Mutex::<T>::lock ](m: &'a Mutex<T>) -> (r: LockResult<
    MutexGuard<'a, T>,
>)
;

/// `PoisonError::into_inner` gives back what the error carries: for a failed
/// `lock`, the guard. Nothing is claimed of it.
pub assume_specification<T>[ PoisonError::<T>::into_inner ](e: PoisonError<T>) -> (t: T)
;

/// `Deref::deref` of a `MutexGuard`: shared access to the guarded value.
/// Nothing is claimed of the value found.
#[verifier::external_body]
pub(crate) fn guarded<'a, 'b, T>(guard: &'a MutexGuard<'b, T>) -> (value: &'a T) {
    std::ops::Deref::deref(guard)
}

/// `DerefMut::deref_mut` of a `MutexGuard`: exclusive access to the guarded
/// value. Nothing is claimed of the value found, and what is written through
/// the reference is what the next holder of the lock finds.
#[verifier::external_body]
pub(crate) fn guarded_mut<'a, 'b, T>(guard: &'a mut MutexGuard<'b, T>) -> (value: &'a mut T) {
    std::ops::DerefMut::deref_mut(guard)
}

} // verus!
