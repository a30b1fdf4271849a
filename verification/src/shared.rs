//! The process-wide home of the Backend Handle: one lock-protected cell,
//! shared between the startup thread that fills it and the event thread that
//! takes it. The lock is the sole concurrency control in the shell: it
//! serializes every take, so concurrent close events see some sequence of
//! single `on_close` steps — and such a sequence issues at most one kill.

use vstd::prelude::*;
use vstd::rwlock::RwLock;
use vstd::rwlock::RwLockPredicate;

use crate::lifecycle::BackendHandle;

verus! {

/// The lock's content predicate: every state of the Backend Handle — present
/// or absent — is a legal thing to hold, so the predicate is trivially true.
pub struct HandlePred;

impl<T> RwLockPredicate<BackendHandle<T>> for HandlePred {
    open spec fn inv(self, v: BackendHandle<T>) -> bool {
        true
    }
}

/// The shared state holding the Backend Handle, created once at startup and
/// handed to both the startup routine and the close-event handler.
#[verifier::reject_recursive_types(T)]
pub struct SharedBackendState<T> {
    lock: RwLock<BackendHandle<T>, HandlePred>,
}

impl<T> SharedBackendState<T> {
    /// Creates the shared state around the handle the start step produced.
    pub fn new(h: BackendHandle<T>) -> (s: SharedBackendState<T>) {
        SharedBackendState { lock: RwLock::new(h, Ghost(HandlePred)) }
    }

    /// The close handler's take, atomic with respect to the lock: whichever
    /// caller's take finds the handle present receives the child to kill;
    /// every later — or concurrently serialized — take finds it absent and
    /// receives nothing.
    pub fn on_close(&self) -> (kill: Option<(u32, T)>) {
        let (mut h, write_handle) = self.lock.acquire_write();
        let kill: Option<(u32, T)> = h.on_close();
        write_handle.release_write(h);
        kill
    }
}

} // verus!
