//! Windows specific functionality.
//!
//! What is here is the part that decides. The calls into the operating
//! system are made by the program around the library, which hands the
//! library what the system answered.

use vstd::prelude::*;

pub mod network;

verus! {

/// Tracks whether the COM library has been initialized for the process, so
/// that it is initialized once and torn down once.
#[derive(Debug)]
pub struct ComInit {
    initialized: bool,
}

impl ComInit {
    /// Whether the COM library counts as initialized.
    pub closed spec fn is_initialized(&self) -> bool {
        self.initialized
    }

    /// A guard for a process in which the COM library is not initialized.
    pub fn new() -> (guard: Self)
        ensures
            !guard.is_initialized(),
    {
        ComInit { initialized: false }
    }

    /// Whether the COM library still has to be initialized.
    pub fn needs_init(&self) -> (needed: bool)
        ensures
            needed == !self.is_initialized(),
    {
        !self.initialized
    }

    /// Records how an attempt to initialize the COM library ended. Once
    /// the library counts as initialized, later outcomes change nothing.
    pub fn init(&mut self, succeeded: bool)
        ensures
            final(self).is_initialized() == (old(self).is_initialized() || succeeded),
    {
        if !self.initialized {
            self.initialized = succeeded;
        }
    }

    /// Ends the guard's life. Tells whether the COM library has to be
    /// uninitialized now; after the call it counts as not initialized, so
    /// a second call asks for nothing.
    pub fn teardown(&mut self) -> (uninitialize: bool)
        ensures
            uninitialize == old(self).is_initialized(),
            !final(self).is_initialized(),
    {
        let uninitialize = self.initialized;
        self.initialized = false;
        uninitialize
    }
}

} // verus!
