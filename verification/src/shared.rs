//! The supervisor as shared state.
//!
//! A [`BackendProcess`] can be reached from any thread. It keeps its
//! [`ProcessSupervisor`] behind a lock, and each of its operations holds the
//! lock for one operation of the supervisor and no longer: a handle that is
//! taken out is torn down by its new owner after the lock is free again.

use crate::supervisor::{install_outcome, InstallOutcome, ProcessSupervisor, Slot};
use std::sync::{Mutex, MutexGuard, PoisonError};
use vstd::prelude::*;

verus! {

#[verifier::external_type_specification]
#[verifier::external_body]
#[verifier::reject_recursive_types(T)]
pub struct ExMutex<T: ?Sized>(Mutex<T>);

#[verifier::external_type_specification]
#[verifier::external_body]
#[verifier::reject_recursive_types(T)]
pub struct ExMutexGuard<'a, T: ?Sized + 'a>(MutexGuard<'a, T>);

#[verifier::external_type_specification]
#[verifier::external_body]
#[verifier::reject_recursive_types(T)]
pub struct ExPoisonError<T>(PoisonError<T>);

/// `Mutex::new`: a lock around `value`. Nothing is claimed of it: what a lock
/// holds is seen only by whoever has acquired it.
#[verifier::external_body]
fn lock_around<T>(value: T) -> (lock: Mutex<T>) {
    Mutex::new(value)
}

/// `Mutex::lock`: blocks until the lock is free and hands out its guard, or,
/// if a holder panicked, an error that carries the guard. Nothing is claimed
/// of either. The call may not return if the calling thread holds the lock
/// already; this module never calls it while it holds a guard.
#[verifier::external_body]
fn acquire<'a, T>(lock: &'a Mutex<T>) -> (acquired: Result<
    MutexGuard<'a, T>,
    PoisonError<MutexGuard<'a, T>>,
>) {
    lock.lock()
}

/// `PoisonError::into_inner`: the guard that the error carries.
#[verifier::external_body]
fn recover<'a, T>(poisoned: PoisonError<MutexGuard<'a, T>>) -> (guard: MutexGuard<'a, T>) {
    poisoned.into_inner()
}

/// `DerefMut::deref_mut` of a guard: the value behind the lock, for as long
/// as the guard is borrowed. Nothing is claimed of the value found there.
#[verifier::external_body]
fn guarded<'a, 'b, T>(guard: &'a mut MutexGuard<'b, T>) -> (value: &'a mut T) {
    &mut **guard
}

/// The backend process of the application: a supervisor that any thread may
/// call.
#[verifier::reject_recursive_types(H)]
pub struct BackendProcess<H> {
    lock: Mutex<ProcessSupervisor<H>>,
}

impl<H> BackendProcess<H> {
    /// The state of an application that has not launched its backend yet.
    pub fn new() -> (state: Self) {
        BackendProcess { lock: lock_around(ProcessSupervisor::new()) }
    }

    /// Installs the result of a launch into the slot as it is found once the
    /// lock is held; see [`ProcessSupervisor::install`].
    ///
    /// Whatever other threads did before, a handle in `launched` is either
    /// in the slot now or back with the caller, and a launch error is
    /// handed back.
    pub fn install<E>(&self, launched: Result<H, E>) -> (outcome: InstallOutcome<H, E>)
        ensures
            exists|found: Slot<H>| outcome == install_outcome(found, launched),
    {
        let mut guard = match acquire(&self.lock) {
            Ok(guard) => guard,
            Err(poisoned) => recover(poisoned),
        };
        let supervisor = guarded(&mut guard);
        let ghost found = supervisor@;
        let outcome = supervisor.install(launched);
        assert(outcome == install_outcome(found, launched));
        outcome
    }

    /// Takes the handle out of the slot as it is found once the lock is
    /// held; see [`ProcessSupervisor::shutdown`].
    ///
    /// The lock is free again when this returns: the caller tears the
    /// process down without holding it.
    pub fn shutdown(&self) -> (taken: Option<H>) {
        let mut guard = match acquire(&self.lock) {
            Ok(guard) => guard,
            Err(poisoned) => recover(poisoned),
        };
        let supervisor = guarded(&mut guard);
        supervisor.shutdown()
    }
}

} // verus!
