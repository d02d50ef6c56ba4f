use backend_supervisor::shared::BackendProcess;
use backend_supervisor::supervisor::InstallOutcome;
use std::sync::Arc;

#[test]
fn shared_state_starts_empty() {
    let state: BackendProcess<u32> = BackendProcess::new();
    assert_eq!(state.shutdown(), None);
}

#[test]
fn shared_install_then_shutdown() {
    let state: BackendProcess<u32> = BackendProcess::new();
    assert_eq!(state.install::<String>(Ok(4242)), InstallOutcome::Started);
    assert_eq!(state.shutdown(), Some(4242));
    assert_eq!(state.shutdown(), None);
}

#[test]
fn shared_failed_launch_is_handed_back() {
    let state: BackendProcess<u32> = BackendProcess::new();
    assert_eq!(
        state.install(Err("program not found".to_string())),
        InstallOutcome::Degraded("program not found".to_string())
    );
    assert_eq!(state.shutdown(), None);
}

#[test]
fn shared_second_install_is_rejected() {
    let state: BackendProcess<u32> = BackendProcess::new();
    assert_eq!(state.install::<u8>(Ok(1)), InstallOutcome::Started);
    assert_eq!(state.install::<u8>(Ok(2)), InstallOutcome::Rejected(Ok(2)));
    assert_eq!(state.shutdown(), Some(1));
    assert_eq!(state.install::<u8>(Ok(3)), InstallOutcome::Rejected(Ok(3)));
    assert_eq!(state.shutdown(), None);
}

#[test]
fn shared_state_keeps_what_was_installed() {
    let state: Arc<BackendProcess<u32>> = Arc::new(BackendProcess::new());
    let other = Arc::clone(&state);
    assert_eq!(other.install::<u8>(Ok(77)), InstallOutcome::Started);
    assert_eq!(state.shutdown(), Some(77));
    assert_eq!(other.shutdown(), None);
}
