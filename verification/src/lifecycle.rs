//! What holds of a supervisor over its whole life.
//!
//! A history is the sequence of operations that reached the slot, in the
//! order in which they got hold of it. The statements below are about every
//! history, and so about every order in which racing callers are served.

use crate::supervisor::{after_install, after_shutdown, install_outcome, released};
use crate::supervisor::{InstallOutcome, Slot};
use crate::teardown::{script, TeardownAction, TeardownPhase};
use crate::teardown::lemma_teardown_signals_once_then_waits_once;
use vstd::prelude::*;

verus! {

/// One operation on the slot.
pub enum Operation<H, E> {
    /// An install of this launch result.
    Install(Result<H, E>),
    /// A shutdown.
    Shutdown,
}

/// The slot after `operation`.
pub open spec fn apply<H, E>(slot: Slot<H>, operation: Operation<H, E>) -> Slot<H> {
    match operation {
        Operation::Install(launched) => after_install(slot, launched),
        Operation::Shutdown => after_shutdown(slot),
    }
}

/// The slot after every operation of `history`, first to last.
pub open spec fn replay<H, E>(slot: Slot<H>, history: Seq<Operation<H, E>>) -> Slot<H>
    decreases history.len(),
{
    if history.len() == 0 {
        slot
    } else {
        apply(replay(slot, history.drop_last()), history.last())
    }
}

/// How many operations of `history` took a handle out of the slot.
pub open spec fn releases<H, E>(slot: Slot<H>, history: Seq<Operation<H, E>>) -> nat
    decreases history.len(),
{
    if history.len() == 0 {
        0
    } else {
        let earlier = history.drop_last();
        let now: nat = if history.last() is Shutdown && replay(slot, earlier) is Running {
            1
        } else {
            0
        };
        releases(slot, earlier) + now
    }
}

/// Whether `merged` serves the operations of `left` and of `right`, each in
/// its own order.
pub open spec fn interleaves<T>(merged: Seq<T>, left: Seq<T>, right: Seq<T>) -> bool
    decreases merged.len(),
{
    if merged.len() == 0 {
        left.len() == 0 && right.len() == 0
    } else {
        ||| (left.len() > 0 && left.last() == merged.last() && interleaves(
            merged.drop_last(),
            left.drop_last(),
            right,
        ))
        ||| (right.len() > 0 && right.last() == merged.last() && interleaves(
            merged.drop_last(),
            left,
            right.drop_last(),
        ))
    }
}

/// The steps that the caller of a shutdown performs on the handle it got.
pub open spec fn shutdown_script<H>(slot: Slot<H>) -> Seq<TeardownAction> {
    if released(slot) is Some {
        script(TeardownPhase::Signalling)
    } else {
        Seq::empty()
    }
}

/// A second shutdown finds nothing to act on: it takes no handle out and
/// leaves the slot as the first one left it.
pub proof fn lemma_shutdown_is_idempotent<H>(slot: Slot<H>)
    ensures
        released(after_shutdown(slot)) is None,
        after_shutdown(after_shutdown(slot)) == after_shutdown(slot),
{
}

/// Two shutdowns in a row send one termination signal and wait once if a
/// process was running, and do nothing at all if none was.
pub proof fn lemma_repeated_shutdown_tears_down_once<H>(slot: Slot<H>)
    ensures
        shutdown_script(slot) + shutdown_script(after_shutdown(slot)) == if slot is Running {
            seq![TeardownAction::Terminate, TeardownAction::Wait]
        } else {
            Seq::<TeardownAction>::empty()
        },
{
    lemma_teardown_signals_once_then_waits_once();
    assert(shutdown_script(after_shutdown(slot)) =~= Seq::<TeardownAction>::empty());
    assert(shutdown_script(slot) + Seq::<TeardownAction>::empty() =~= shutdown_script(slot));
}

/// A shutdown of a slot that holds no handle changes nothing, takes nothing
/// out and asks for no step.
pub proof fn lemma_shutdown_without_process_is_noop<H>(slot: Slot<H>)
    requires
        !(slot is Running),
    ensures
        after_shutdown(slot) == slot,
        released(slot) is None,
        shutdown_script(slot) == Seq::<TeardownAction>::empty(),
{
}

/// A failed launch leaves an empty slot empty, and the install reports the
/// error without failing itself.
pub proof fn lemma_failed_launch_leaves_empty<H, E>(error: E)
    ensures
        after_install(Slot::<H>::Empty, Err::<H, E>(error)) == Slot::<H>::Empty,
        install_outcome(Slot::<H>::Empty, Err::<H, E>(error)) == InstallOutcome::<H, E>::Degraded(
            error,
        ),
{
}

/// As long as no launch has succeeded, the slot of a new supervisor stays
/// empty and no shutdown takes anything out, whatever else is called.
pub proof fn lemma_empty_until_a_launch_succeeds<H, E>(history: Seq<Operation<H, E>>)
    requires
        forall|i: int|
            0 <= i < history.len() ==> !(#[trigger] history[i] matches Operation::Install(Ok(_))),
    ensures
        replay(Slot::<H>::Empty, history) == Slot::<H>::Empty,
        releases(Slot::<H>::Empty, history) == 0,
    decreases history.len(),
{
    if history.len() > 0 {
        let earlier = history.drop_last();
        assert forall|i: int| 0 <= i < earlier.len() implies !(#[trigger] earlier[i] matches Operation::Install(
            Ok(_),
        )) by {
            assert(earlier[i] == history[i]);
        }
        lemma_empty_until_a_launch_succeeds(earlier);
        assert(history.last() == history[history.len() - 1]);
    }
}

/// Once a handle was taken out, the slot never holds one again.
pub proof fn lemma_stopped_is_terminal<H, E>(history: Seq<Operation<H, E>>)
    ensures
        replay(Slot::<H>::Stopped, history) == Slot::<H>::Stopped,
    decreases history.len(),
{
    if history.len() > 0 {
        lemma_stopped_is_terminal(history.drop_last());
    }
}

/// Whatever came before, the slot holds no handle when a shutdown was the
/// last to be served.
pub proof fn lemma_no_handle_after_shutdown<H, E>(slot: Slot<H>, history: Seq<Operation<H, E>>)
    requires
        history.len() > 0,
        history.last() is Shutdown,
    ensures
        !(replay(slot, history) is Running),
{
}

/// Callers that race, each ending with a shutdown, leave no handle in the
/// slot, in whichever order their operations are served.
pub proof fn lemma_racing_callers_leave_no_handle<H, E>(
    slot: Slot<H>,
    merged: Seq<Operation<H, E>>,
    left: Seq<Operation<H, E>>,
    right: Seq<Operation<H, E>>,
)
    requires
        interleaves(merged, left, right),
        left.len() > 0 && left.last() is Shutdown,
        right.len() > 0 && right.last() is Shutdown,
    ensures
        !(replay(slot, merged) is Running),
{
    lemma_no_handle_after_shutdown(slot, merged);
}

/// Two callers that each install and at once shut down, racing for a new
/// supervisor, leave no handle in its slot, and at most one of the two
/// shutdowns took one out.
pub proof fn lemma_racing_install_then_shutdown<H, E>(
    merged: Seq<Operation<H, E>>,
    first: Result<H, E>,
    second: Result<H, E>,
)
    requires
        interleaves(
            merged,
            seq![Operation::Install(first), Operation::Shutdown],
            seq![Operation::Install(second), Operation::Shutdown],
        ),
    ensures
        !(replay(Slot::<H>::Empty, merged) is Running),
        releases(Slot::<H>::Empty, merged) <= 1,
{
    let left = seq![Operation::Install(first), Operation::<H, E>::Shutdown];
    let right = seq![Operation::Install(second), Operation::<H, E>::Shutdown];
    assert(left.last() is Shutdown);
    assert(right.last() is Shutdown);
    lemma_racing_callers_leave_no_handle(Slot::<H>::Empty, merged, left, right);
    lemma_handle_leaves_at_most_once(merged);
}

/// Over the whole life of a supervisor at most one shutdown takes a handle
/// out, and one did if and only if the slot is stopped.
pub proof fn lemma_handle_leaves_at_most_once<H, E>(history: Seq<Operation<H, E>>)
    ensures
        releases(Slot::<H>::Empty, history) <= 1,
        releases(Slot::<H>::Empty, history) == 1 <==> replay(Slot::<H>::Empty, history) is Stopped,
    decreases history.len(),
{
    if history.len() > 0 {
        lemma_handle_leaves_at_most_once(history.drop_last());
    }
}

} // verus!
