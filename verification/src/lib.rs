//! A reducer in the style of OpenMP.
//!
//! Many threads accumulate into private local values, without any locking,
//! and fold them into one shared global value when they are done. The cost of
//! synchronisation is paid once in the life of a handle, not once for each
//! update.
//!
//! A [`Reducer`] owns the global value, behind a lock, and the function that
//! merges a local value into it. [`Reducer::share`] leases a
//! [`SharedReducer`], a handle with a local value of its own; cloning a handle
//! leases another one, with a fresh local value. A handle merges its local
//! value into the global value when it is released, explicitly or by going out
//! of scope, and it does so exactly once. [`Reducer::peek`] copies the global
//! value as it stands, and [`Reducer::get`] consumes the reducer and hands the
//! global value out, provided that no handle is still live.
//!
//! # What is proved
//!
//! - [`cell`] holds the state that is shared, [`GlobalCell`], and the steps
//!   that are taken on it under the lock. Each step has an exact contract.
//! - [`lease`] holds the state that a handle has for itself, [`Lease`]: the
//!   local value and whether it has been handed in. Its release step merges
//!   the local value as it stands, and does so at most once.
//! - [`laws`] holds what follows for runs of many releases: each release adds
//!   its local value to the result exactly once, and the order of the
//!   releases does not matter when the merge function does not care about it.
//! - [`reducer`] holds the reducer and its handles. They keep the cell behind
//!   a mutex of the standard library and take one step of [`cell`] or of
//!   [`lease`] each time they hold the lock. What a handle's local value is, is known exactly.
//!   What is found behind the lock is not: other threads may have been there.
//! - [`sync`] holds what is assumed, without proof, of the standard library's
//!   mutex. Nothing is assumed of the values it guards.

pub mod cell;
pub mod error;
pub mod laws;
pub mod lease;
pub mod reducer;
pub mod sync;

pub use crate::cell::GlobalCell;
pub use crate::error::ReducerError;
pub use crate::lease::Lease;
pub use crate::reducer::Reducer;
pub use crate::reducer::SharedReducer;
