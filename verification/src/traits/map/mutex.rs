//! Mapping for the mutexes of the standard library and of `parking_lot`.

use crate::traits::map::TryMap;
use vstd::prelude::*;

verus! {

/// Failed to lock the mutex.
#[derive(Debug, Clone, Copy, PartialEq, Eq, Structural)]
pub struct LockError;

impl LockError {
    /// What the failure reads as.
    pub fn message(&self) -> (text: &'static str)
        ensures
            text@ == "Failed to lock the mutex"@,
    {
        "Failed to lock the mutex"
    }
}

/// `std::sync::Mutex`, carried through as it is.
#[verifier::external_type_specification]
#[verifier::external_body]
#[verifier::reject_recursive_types(T)]
pub struct ExMutex<T: ?Sized>(std::sync::Mutex<T>);

/// `std::sync::MutexGuard`, carried through as it is.
#[verifier::external_type_specification]
#[verifier::external_body]
#[verifier::reject_recursive_types(T)]
pub struct ExMutexGuard<'a, T: ?Sized + 'a>(std::sync::MutexGuard<'a, T>);

/// `std::sync::TryLockError`, carried through as it is.
#[verifier::external_type_specification]
#[verifier::external_body]
#[verifier::reject_recursive_types(T)]
pub struct ExTryLockError<T>(std::sync::TryLockError<T>);

/// `lock_api::Mutex`, which `parking_lot::Mutex` is an alias of, carried
/// through as it is.
#[verifier::external_type_specification]
#[verifier::external_body]
#[verifier::reject_recursive_types(R)]
#[verifier::reject_recursive_types(T)]
pub struct ExParkingMutex<R, T: ?Sized>(parking_lot::lock_api::Mutex<R, T>);

/// `parking_lot::RawMutex`, carried through as it is.
#[verifier::external_type_specification]
#[verifier::external_body]
pub struct ExRawMutex(parking_lot::RawMutex);

/// The guard of a locked `parking_lot` mutex: a `parking_lot::MutexGuard`
/// and nothing else. The lock is released when the guard is dropped. The
/// verifier sees nothing inside it.
#[verifier::external_body]
#[verifier::reject_recursive_types(T)]
pub struct Guard<'a, T> {
    inner: parking_lot::MutexGuard<'a, T>,
}

impl<'a, T> core::ops::Deref for Guard<'a, T> {
    type Target = T;

    /// Borrows the value that the mutex protects, through
    /// `parking_lot::MutexGuard`'s own `deref`. What the value is depends on
    /// the other threads, so nothing is stated of it.
    #[verifier::external_body]
    fn deref(&self) -> &T {
        &self.inner
    }
}

impl<'a, T> core::ops::DerefMut for Guard<'a, T> {
    /// Borrows the value that the mutex protects for writing, through
    /// `parking_lot::MutexGuard`'s own `deref_mut`.
    #[verifier::external_body]
    fn deref_mut(&mut self) -> &mut T {
        &mut self.inner
    }
}

/// What becomes of an attempt to take a lock: the function is applied to
/// the guard where there is one, and the failure is handed on where there
/// is none.
pub fn map_attempt<G, U, E, F: FnOnce(G) -> U>(attempt: Result<G, E>, f: F) -> (mapped: Result<
    U,
    E,
>)
    requires
        attempt matches Ok(guard) ==> f.requires((guard,)),
    ensures
        attempt matches Ok(guard) ==> mapped matches Ok(value) && f.ensures((guard,), value),
        attempt matches Err(error) ==> mapped == Err::<U, E>(error),
{
    match attempt {
        Ok(guard) => Ok(f(guard)),
        Err(error) => Err(error),
    }
}

/// Calls `Mutex::try_lock` of the standard library, which never blocks: it
/// hands back the guard where the lock was free, and an error where it was
/// held or poisoned. Which of these happens depends on the other threads,
/// so nothing is stated of the result.
#[verifier::external_body]
fn try_lock<'a, T>(mutex: &'a std::sync::Mutex<T>) -> (attempt: Result<
    std::sync::MutexGuard<'a, T>,
    std::sync::TryLockError<std::sync::MutexGuard<'a, T>>,
>) {
    mutex.try_lock()
}

/// Calls `Mutex::try_lock` of `parking_lot`, which never blocks: it hands
/// back the guard where the lock was free, and nothing where it was held.
/// Which of the two happens depends on the other threads, so nothing is
/// stated of the result.
#[verifier::external_body]
fn try_lock_parking<'a, T>(mutex: &'a parking_lot::Mutex<T>) -> (attempt: Option<Guard<'a, T>>) {
    mutex.try_lock().map(|inner| Guard { inner })
}

/// The outcome of an attempt that hands back no reason for its failure.
pub fn or_lock_error<G>(attempt: Option<G>) -> (outcome: Result<G, LockError>)
    ensures
        outcome == match attempt {
            Some(guard) => Ok::<G, LockError>(guard),
            None => Err::<G, LockError>(LockError),
        },
{
    match attempt {
        Some(guard) => Ok(guard),
        None => Err(LockError),
    }
}

impl<'a, 'g, T> TryMap<
    'a,
    'g,
    T,
    std::sync::MutexGuard<'g, T>,
    std::sync::TryLockError<std::sync::MutexGuard<'g, T>>,
> for std::sync::Mutex<T> {
    fn try_map<F, U>(&'a self, f: F) -> (mapped: Result<
        U,
        std::sync::TryLockError<std::sync::MutexGuard<'g, T>>,
    >) where F: FnOnce(std::sync::MutexGuard<'g, T>) -> U, 'a: 'g {
        map_attempt(try_lock(self), f)
    }
}

impl<'a, 'g, T> TryMap<'a, 'g, T, Guard<'g, T>, LockError> for parking_lot::Mutex<T> {
    fn try_map<F, U>(&'a self, f: F) -> (mapped: Result<U, LockError>) where
        F: FnOnce(Guard<'g, T>) -> U,
        'a: 'g,
     {
        map_attempt(or_lock_error(try_lock_parking(self)), f)
    }
}

} // verus!
