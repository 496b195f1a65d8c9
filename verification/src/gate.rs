//! Mutual exclusion for the calls of the integration routine.
//!
//! The routine keeps state of its own between the steps of one call and must
//! not be entered by two threads at once. A [`Gate`] owns a lock and lends it
//! for the length of one closure; whoever shares one gate among all callers
//! of the routine has at most one call in flight.
//!
//! The lock guards no data of this library. A holder that panicked has
//! therefore left nothing behind that a later holder could see, and a
//! poisoned lock is taken over rather than reported.
//!
//! A gate is not reentrant: a closure that passes the same gate again
//! waits for itself.

use std::sync::{LockResult, Mutex, MutexGuard, PoisonError, TryLockError};
use vstd::prelude::*;

verus! {

/// `std::sync::Mutex`, carried as an opaque value.
#[verifier::external_type_specification]
#[verifier::external_body]
#[verifier::reject_recursive_types(T)]
pub struct ExMutex<T: ?Sized>(Mutex<T>);

/// `std::sync::MutexGuard`, carried as an opaque value. The mutex is free
/// again when its guard is dropped.
#[verifier::external_type_specification]
#[verifier::external_body]
#[verifier::reject_recursive_types(T)]
pub struct ExMutexGuard<'a, T: ?Sized + 'a>(MutexGuard<'a, T>);

/// `std::sync::PoisonError`, carried as an opaque value.
#[verifier::external_type_specification]
#[verifier::external_body]
#[verifier::reject_recursive_types(T)]
pub struct ExPoisonError<T>(PoisonError<T>);

/// `std::sync::Mutex::new` makes an unlocked mutex. It is taken to return;
/// nothing is claimed of the result.
pub assume_specification<T>[ Mutex::<T>::new ](t: T) -> (m: Mutex<T>)
;

/// `std::sync::Mutex::lock` blocks until the mutex is free and hands out its
/// guard, inside an error where an earlier holder panicked. Nothing is
/// claimed of the result. A thread that locks a mutex which it holds itself
/// may wait for ever or panic; no precondition can say that it does not, so
/// that case is left to the caller of [`Gate::with_exclusive_access`].
pub assume_specification<'a, T: ?Sized>[ Mutex::<T>::lock ](m: &'a Mutex<T>) -> (r: LockResult<
    MutexGuard<'a, T>,
>)
;

/// `std::sync::PoisonError::into_inner` hands out the guard that a poisoned
/// mutex gave. Nothing is claimed of the result.
pub assume_specification<T>[ PoisonError::<T>::into_inner ](e: PoisonError<T>) -> (t: T)
;

/// `std::sync::Mutex::try_lock` takes the mutex if it is free and fails with
/// `WouldBlock` if it is not. The answer is whether it failed so; a guard
/// that was handed out is dropped at once. Nothing is claimed of the
/// answer, which another thread may have made untrue by the time it is read.
#[verifier::external_body]
fn would_block(lock: &Mutex<()>) -> (taken: bool) {
    matches!(lock.try_lock(), Err(TryLockError::WouldBlock))
}

/// A lock that admits one caller at a time.
pub struct Gate {
    lock: Mutex<()>,
}

impl Gate {
    /// A gate that nobody holds. Whether a lock is held belongs to a moment
    /// and not to the value, which stays the same while the lock is taken
    /// and released, so no clause speaks of it.
    pub fn new() -> (gate: Gate) {
        Gate { lock: Mutex::new(()) }
    }

    /// Whether somebody held the lock at the moment of the call, for
    /// diagnosis: the answer may be out of date as soon as it is given.
    /// Other threads decide it, so either answer can come from any call and
    /// nothing is stated of it.
    pub fn is_held(&self) -> (held: bool) {
        would_block(&self.lock)
    }

    /// Runs `f` while holding the lock and returns what `f` returned. The
    /// lock is released when `f` is done, also where `f` panics. A lock that
    /// an earlier holder left poisoned is taken all the same.
    ///
    /// `f` must not pass this gate again: it would wait for itself.
    pub fn with_exclusive_access<R, F: FnOnce() -> R>(&self, f: F) -> (r: R)
        requires
            f.requires(()),
        ensures
            f.ensures((), r),
    {
        let _guard = match self.lock.lock() {
            Ok(guard) => guard,
            Err(poisoned) => poisoned.into_inner(),
        };
        f()
    }
}

} // verus!
