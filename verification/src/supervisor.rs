//! Exclusive ownership of the one backend process handle.
//!
//! A [`ProcessSupervisor`] is the slot that owns the handle of the backend
//! process for the lifetime of the application. Every operation takes the
//! supervisor by `&mut`, is short and never blocks. To share one between
//! threads, use [`crate::shared::BackendProcess`], which keeps it behind a
//! lock.

use vstd::prelude::*;

verus! {

/// What the supervisor's slot holds.
#[derive(Debug, PartialEq, Eq)]
pub enum Slot<H> {
    /// No process was installed yet.
    Empty,
    /// A process was spawned and its handle has not been taken out yet.
    Running(H),
    /// The handle was taken out for shutdown. Nothing leaves this state.
    Stopped,
}

/// How a [`ProcessSupervisor::install`] ended.
#[derive(Debug, PartialEq, Eq)]
pub enum InstallOutcome<H, E> {
    /// The launch had succeeded and the slot now owns the handle.
    Started,
    /// The launch had failed. The slot stays empty and the application goes on
    /// without a backend; the error is handed back to be reported.
    Degraded(E),
    /// The slot was not empty, so it was left as it was. The launch result is
    /// handed back untouched, a handle in it still owned by the caller.
    Rejected(Result<H, E>),
}

/// The slot after `launched` is installed into `slot`.
pub open spec fn after_install<H, E>(slot: Slot<H>, launched: Result<H, E>) -> Slot<H> {
    match (slot, launched) {
        (Slot::Empty, Ok(handle)) => Slot::Running(handle),
        _ => slot,
    }
}

/// What installing `launched` into `slot` reports.
pub open spec fn install_outcome<H, E>(slot: Slot<H>, launched: Result<H, E>) -> InstallOutcome<
    H,
    E,
> {
    match slot {
        Slot::Empty => match launched {
            Ok(_) => InstallOutcome::Started,
            Err(error) => InstallOutcome::Degraded(error),
        },
        _ => InstallOutcome::Rejected(launched),
    }
}

/// The slot after a shutdown.
pub open spec fn after_shutdown<H>(slot: Slot<H>) -> Slot<H> {
    match slot {
        Slot::Running(_) => Slot::Stopped,
        _ => slot,
    }
}

/// The handle that a shutdown takes out of `slot`.
pub open spec fn released<H>(slot: Slot<H>) -> Option<H> {
    match slot {
        Slot::Running(handle) => Some(handle),
        _ => None,
    }
}

/// Owner of the backend process handle.
pub struct ProcessSupervisor<H> {
    slot: Slot<H>,
}

impl<H> View for ProcessSupervisor<H> {
    type V = Slot<H>;

    closed spec fn view(&self) -> Slot<H> {
        self.slot
    }
}

impl<H> ProcessSupervisor<H> {
    /// A supervisor with an empty slot.
    pub fn new() -> (supervisor: Self)
        ensures
            supervisor@ == Slot::<H>::Empty,
    {
        ProcessSupervisor { slot: Slot::Empty }
    }

    /// Whether the slot holds the handle of a running process.
    pub fn is_running(&self) -> (running: bool)
        ensures
            running == (self@ is Running),
    {
        match self.slot {
            Slot::Running(_) => true,
            _ => false,
        }
    }

    /// Whether a handle was taken out of the slot for shutdown.
    pub fn is_stopped(&self) -> (stopped: bool)
        ensures
            stopped == (self@ is Stopped),
    {
        match self.slot {
            Slot::Stopped => true,
            _ => false,
        }
    }

    /// Whether the slot holds no handle, be it that none was installed or
    /// that it was taken out.
    pub fn is_empty(&self) -> (empty: bool)
        ensures
            empty == !(self@ is Running),
    {
        !self.is_running()
    }

    /// The handle in the slot, to look at.
    pub fn handle(&self) -> (handle: Option<&H>)
        ensures
            handle == match self@ {
                Slot::Running(held) => Some(&held),
                _ => None,
            },
    {
        match &self.slot {
            Slot::Running(held) => Some(held),
            _ => None,
        }
    }

    /// Installs the result of a launch.
    ///
    /// A handle enters the slot only if the slot is empty; a failed launch
    /// changes nothing and is no error of this call.
    pub fn install<E>(&mut self, launched: Result<H, E>) -> (outcome: InstallOutcome<H, E>)
        ensures
            final(self)@ == after_install(old(self)@, launched),
            outcome == install_outcome(old(self)@, launched),
    {
        match self.slot {
            Slot::Empty => match launched {
                Ok(handle) => {
                    self.slot = Slot::Running(handle);
                    InstallOutcome::Started
                },
                Err(error) => InstallOutcome::Degraded(error),
            },
            _ => InstallOutcome::Rejected(launched),
        }
    }

    /// Takes the handle out of the slot, if there is one, and hands it to the
    /// caller, who then owns the process and has to tear it down.
    ///
    /// Afterwards the slot holds no handle. A slot that held none is left as
    /// it was.
    pub fn shutdown(&mut self) -> (taken: Option<H>)
        ensures
            final(self)@ == after_shutdown(old(self)@),
            taken == released(old(self)@),
    {
        let mut previous = Slot::Stopped;
        core::mem::swap(&mut self.slot, &mut previous);
        match previous {
            Slot::Running(handle) => Some(handle),
            Slot::Empty => {
                self.slot = Slot::Empty;
                None
            },
            Slot::Stopped => None,
        }
    }
}

} // verus!
