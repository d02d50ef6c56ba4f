use backend_supervisor::teardown::{TeardownAction, TeardownFault, TeardownPhase, TeardownStep};

fn run_teardown(signal_ok: bool, wait_ok: bool) -> (Vec<TeardownAction>, Vec<TeardownFault>) {
    let mut actions = Vec::new();
    let mut faults = Vec::new();
    let mut phase = TeardownPhase::begin();
    let mut rounds: u32 = 0;
    while let Some(action) = phase.pending() {
        rounds += 1;
        assert!(rounds <= 2);
        let succeeded = match action {
            TeardownAction::Terminate => signal_ok,
            TeardownAction::Wait => wait_ok,
        };
        actions.push(action);
        let step = phase.advance(succeeded);
        if let Some(fault) = step.fault {
            faults.push(fault);
        }
        phase = step.next;
    }
    assert_eq!(phase, TeardownPhase::Finished);
    (actions, faults)
}

#[test]
fn teardown_begins_by_signalling() {
    assert_eq!(TeardownPhase::begin(), TeardownPhase::Signalling);
    assert_eq!(TeardownPhase::begin().pending(), Some(TeardownAction::Terminate));
}

#[test]
fn pending_step_of_each_phase() {
    assert_eq!(TeardownPhase::Signalling.pending(), Some(TeardownAction::Terminate));
    assert_eq!(TeardownPhase::Reaping.pending(), Some(TeardownAction::Wait));
    assert_eq!(TeardownPhase::Finished.pending(), None);
}

#[test]
fn clean_teardown_signals_then_waits() {
    let (actions, faults) = run_teardown(true, true);
    assert_eq!(actions, vec![TeardownAction::Terminate, TeardownAction::Wait]);
    assert!(faults.is_empty());
}

#[test]
fn rejected_signal_is_reported_and_the_wait_still_happens() {
    let (actions, faults) = run_teardown(false, true);
    assert_eq!(actions, vec![TeardownAction::Terminate, TeardownAction::Wait]);
    assert_eq!(faults, vec![TeardownFault::SignalError]);
}

#[test]
fn failed_wait_is_reported_and_the_teardown_ends() {
    let (actions, faults) = run_teardown(true, false);
    assert_eq!(actions, vec![TeardownAction::Terminate, TeardownAction::Wait]);
    assert_eq!(faults, vec![TeardownFault::WaitError]);
}

#[test]
fn both_failures_are_reported_in_order() {
    let (actions, faults) = run_teardown(false, false);
    assert_eq!(actions, vec![TeardownAction::Terminate, TeardownAction::Wait]);
    assert_eq!(faults, vec![TeardownFault::SignalError, TeardownFault::WaitError]);
}

#[test]
fn advance_from_signalling() {
    assert_eq!(
        TeardownPhase::Signalling.advance(true),
        TeardownStep { next: TeardownPhase::Reaping, fault: None }
    );
    assert_eq!(
        TeardownPhase::Signalling.advance(false),
        TeardownStep { next: TeardownPhase::Reaping, fault: Some(TeardownFault::SignalError) }
    );
}

#[test]
fn advance_from_reaping() {
    assert_eq!(
        TeardownPhase::Reaping.advance(true),
        TeardownStep { next: TeardownPhase::Finished, fault: None }
    );
    assert_eq!(
        TeardownPhase::Reaping.advance(false),
        TeardownStep { next: TeardownPhase::Finished, fault: Some(TeardownFault::WaitError) }
    );
}

#[test]
fn finished_teardown_stays_finished() {
    assert_eq!(
        TeardownPhase::Finished.advance(true),
        TeardownStep { next: TeardownPhase::Finished, fault: None }
    );
    assert_eq!(
        TeardownPhase::Finished.advance(false),
        TeardownStep { next: TeardownPhase::Finished, fault: None }
    );
}
