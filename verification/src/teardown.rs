//! Tearing down a process whose handle was taken out of the slot.
//!
//! The owner of the handle signals the process to terminate, then waits until
//! it has exited. Both steps are best effort: a step that fails is reported
//! and the teardown goes on as if it had succeeded. The caller performs each
//! step on the handle and tells the phase how it went.

use vstd::prelude::*;

verus! {

/// How far a teardown has come.
#[derive(Clone, Copy, Debug, PartialEq, Eq, Structural)]
pub enum TeardownPhase {
    /// The termination signal is still to be sent.
    Signalling,
    /// The signal was attempted; the exit is still to be waited for.
    Reaping,
    /// Nothing is left to do.
    Finished,
}

/// A step that the owner of the handle performs on it.
#[derive(Clone, Copy, Debug, PartialEq, Eq, Structural)]
pub enum TeardownAction {
    /// Send the termination signal.
    Terminate,
    /// Block until the process has exited, reaping it.
    Wait,
}

/// A failed step. It is reported and has no other consequence.
#[derive(Clone, Copy, Debug, PartialEq, Eq, Structural)]
pub enum TeardownFault {
    /// The termination signal was rejected, as for a process that is gone.
    SignalError,
    /// Waiting for the exit failed.
    WaitError,
}

/// The phase after a step, and what is to be reported of the step.
#[derive(Clone, Copy, Debug, PartialEq, Eq, Structural)]
pub struct TeardownStep {
    pub next: TeardownPhase,
    pub fault: Option<TeardownFault>,
}

/// The step to perform in `phase`, if any.
pub open spec fn pending_action(phase: TeardownPhase) -> Option<TeardownAction> {
    match phase {
        TeardownPhase::Signalling => Some(TeardownAction::Terminate),
        TeardownPhase::Reaping => Some(TeardownAction::Wait),
        TeardownPhase::Finished => None,
    }
}

/// The phase that follows `phase`, however its step went.
pub open spec fn next_phase(phase: TeardownPhase) -> TeardownPhase {
    match phase {
        TeardownPhase::Signalling => TeardownPhase::Reaping,
        TeardownPhase::Reaping => TeardownPhase::Finished,
        TeardownPhase::Finished => TeardownPhase::Finished,
    }
}

/// What is reported of the step of `phase` that ended with `succeeded`.
pub open spec fn fault_of(phase: TeardownPhase, succeeded: bool) -> Option<TeardownFault> {
    match phase {
        TeardownPhase::Signalling if !succeeded => Some(TeardownFault::SignalError),
        TeardownPhase::Reaping if !succeeded => Some(TeardownFault::WaitError),
        _ => None,
    }
}

/// The number of steps left from `phase`.
pub open spec fn steps_left(phase: TeardownPhase) -> nat {
    match phase {
        TeardownPhase::Signalling => 2,
        TeardownPhase::Reaping => 1,
        TeardownPhase::Finished => 0,
    }
}

/// The steps performed from `phase` until the teardown is finished, in order.
pub open spec fn script(phase: TeardownPhase) -> Seq<TeardownAction>
    decreases steps_left(phase),
{
    match pending_action(phase) {
        Some(action) => seq![action] + script(next_phase(phase)),
        None => Seq::empty(),
    }
}

impl TeardownPhase {
    /// The phase in which every teardown starts.
    pub fn begin() -> (phase: TeardownPhase)
        ensures
            phase == TeardownPhase::Signalling,
    {
        TeardownPhase::Signalling
    }

    /// The step to perform now; `None` once the teardown is finished.
    pub fn pending(self) -> (action: Option<TeardownAction>)
        ensures
            action == pending_action(self),
    {
        match self {
            TeardownPhase::Signalling => Some(TeardownAction::Terminate),
            TeardownPhase::Reaping => Some(TeardownAction::Wait),
            TeardownPhase::Finished => None,
        }
    }

    /// Records how the pending step went and moves on.
    ///
    /// The next phase does not depend on `succeeded`: a failure is only
    /// reported. On a finished teardown nothing changes.
    pub fn advance(self, succeeded: bool) -> (step: TeardownStep)
        ensures
            step.next == next_phase(self),
            step.fault == fault_of(self, succeeded),
    {
        match self {
            TeardownPhase::Signalling => TeardownStep {
                next: TeardownPhase::Reaping,
                fault: if succeeded {
                    None
                } else {
                    Some(TeardownFault::SignalError)
                },
            },
            TeardownPhase::Reaping => TeardownStep {
                next: TeardownPhase::Finished,
                fault: if succeeded {
                    None
                } else {
                    Some(TeardownFault::WaitError)
                },
            },
            TeardownPhase::Finished => TeardownStep { next: TeardownPhase::Finished, fault: None },
        }
    }
}

/// A teardown sends exactly one termination signal and then waits exactly
/// once, whether or not either step succeeds.
pub proof fn lemma_teardown_signals_once_then_waits_once()
    ensures
        script(TeardownPhase::Signalling) == seq![TeardownAction::Terminate, TeardownAction::Wait],
{
    reveal_with_fuel(script, 3);
    assert(script(TeardownPhase::Signalling) =~= seq![
        TeardownAction::Terminate,
        TeardownAction::Wait,
    ]);
}

/// Every step brings the teardown one step closer to its end, so it is
/// finished after two steps at most.
pub proof fn lemma_teardown_makes_progress(phase: TeardownPhase)
    ensures
        pending_action(phase) is Some ==> steps_left(next_phase(phase)) + 1 == steps_left(phase),
        pending_action(phase) is None <==> steps_left(phase) == 0,
        pending_action(next_phase(next_phase(phase))) is None,
{
}

} // verus!
