//! The mutex-protected holder of process-wide state.
//!
//! Every execution context — the thread inside `run()`, a signal handler, a
//! service control dispatcher — reaches the shared slot only through a
//! [`SingletonHolder`], so the lock is the single serialization point. The
//! holder is cheap to clone: clones share one protected value.

use vstd::prelude::*;

use std::sync::Arc;
use std::sync::Mutex;
use std::sync::MutexGuard;
use std::sync::PoisonError;

verus! {

#[verifier::external_type_specification]
#[verifier::external_body]
#[verifier::reject_recursive_types(T)]
pub struct ExMutex<T: ?Sized>(Mutex<T>);

#[verifier::external_type_specification]
#[verifier::external_body]
#[verifier::reject_recursive_types(T)]
pub struct ExMutexGuard<'a, T: ?Sized + 'a>(MutexGuard<'a, T>);

#[verifier::external_type_specification]
#[verifier::external_body]
#[verifier::reject_recursive_types(T)]
pub struct ExPoisonError<T>(PoisonError<T>);

/// A shared handle to one mutex-protected value.
///
/// Since the value is used from many execution contexts at once, all access
/// goes through the lock.
#[verifier::reject_recursive_types(T)]
pub struct SingletonHolder<T> {
    inner: Arc<Mutex<T>>,
}

impl<T> SingletonHolder<T> {
    /// The protected storage this holder shares.
    pub closed spec fn mutex(&self) -> Arc<Mutex<T>> {
        self.inner
    }

    /// Wraps the given protected storage.
    pub fn new(mutex: Arc<Mutex<T>>) -> (h: SingletonHolder<T>)
        ensures
            h.mutex() == mutex,
    {
        SingletonHolder { inner: mutex }
    }

    /// Takes the lock, blocking until it is held.
    ///
    /// Relies on `std::sync::Mutex::lock`: it returns a guard with exclusive
    /// access to the value, or reports the lock poisoned by a panic in an
    /// earlier holder. What the guard exposes changes between calls, so
    /// nothing can be promised of it here; a caller that finds the lock
    /// poisoned must treat the invariant as lost and abort rather than
    /// continue.
    #[verifier::external_body]
    pub fn lock<'a>(&'a self) -> Result<MutexGuard<'a, T>, PoisonError<MutexGuard<'a, T>>> {
        self.inner.lock()
    }
}

impl<T> Clone for SingletonHolder<T> {
    /// A clone shares the same protected storage.
    fn clone(&self) -> (h: SingletonHolder<T>)
        ensures
            h.mutex() == self.mutex(),
    {
        SingletonHolder { inner: self.inner.clone() }
    }
}

} // verus!
