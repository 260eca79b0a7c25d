//! Provides a generalized map function.
//!
//! This is primarily designed for mapping mutex types: a function is
//! applied to the guard of a lock, and its result handed back.

use vstd::prelude::*;

pub mod mutex;

verus! {

/// Attempts to map a mutex lock.
pub trait TryMap<'a, 'g, T: ?Sized, G: 'g, E = G> {
    /// Maps the guard of the lock to a value of `U`, where the lock can be
    /// taken. The function is called at most once, and only on a guard of
    /// the lock.
    ///
    /// # Errors
    /// - Locking the mutex failed
    fn try_map<F, U>(&'a self, f: F) -> (mapped: Result<U, E>) where F: FnOnce(G) -> U + 'g, 'a: 'g
        requires
            forall|guard: G| f.requires((guard,)),
        ensures
            mapped matches Ok(value) ==> exists|guard: G| f.ensures((guard,), value),
    ;
}

} // verus!
