use biyo_shell::lifecycle::handle_start;
use biyo_shell::lifecycle::termination_log;
use biyo_shell::lifecycle::BackendHandle;
use biyo_shell::lifecycle::LogLevel;
use biyo_shell::lifecycle::StartOutcome;
use biyo_shell::shared::SharedBackendState;

#[test]
fn successful_start_tracks_child() {
    let (handle, log) = handle_start(StartOutcome::Started(1234, ()));
    assert!(handle.is_present());
    assert_eq!(handle.current_pid(), Some(1234));
    assert_eq!(log.level, LogLevel::Info);
    assert_eq!(log.text, "Backend process started successfully");
}

#[test]
fn close_after_start_kills_once_then_never_again() {
    let (mut handle, _log) = handle_start(StartOutcome::Started(1234, ()));
    assert_eq!(handle.current_pid(), Some(1234));
    let kill = handle.on_close();
    assert_eq!(kill, Some((1234, ())));
    assert!(!handle.is_present());
    let again = handle.on_close();
    assert_eq!(again, None);
    assert!(!handle.is_present());
    let third = handle.on_close();
    assert_eq!(third, None);
    let line = termination_log();
    assert_eq!(line.level, LogLevel::Info);
    assert_eq!(line.text, "Backend process terminated");
}

#[test]
fn spawn_failure_leaves_handle_absent_and_warns() {
    let (handle, log) = handle_start::<()>(StartOutcome::SpawnFailure(String::from(
        "file not found",
    )));
    assert!(!handle.is_present());
    assert_eq!(handle.current_pid(), None);
    assert_eq!(log.level, LogLevel::Warn);
    assert_eq!(log.text, "Failed to start backend process: file not found");
}

#[test]
fn close_with_absent_handle_is_a_no_op() {
    let mut handle: BackendHandle<()> = BackendHandle::absent();
    assert!(!handle.is_present());
    assert_eq!(handle.on_close(), None);
    assert_eq!(handle.on_close(), None);
}

#[test]
fn close_after_failed_start_is_a_no_op() {
    let (mut handle, _log) =
        handle_start::<()>(StartOutcome::SpawnFailure(String::from("file not found")));
    assert_eq!(handle.on_close(), None);
    assert_eq!(handle.on_close(), None);
}

#[test]
fn shared_state_hands_out_the_kill_target_once() {
    let (handle, _log) = handle_start(StartOutcome::Started(77, String::from("child")));
    let shared = SharedBackendState::new(handle);
    assert_eq!(shared.on_close(), Some((77, String::from("child"))));
    assert_eq!(shared.on_close(), None);
    assert_eq!(shared.on_close(), None);
}

#[test]
fn shared_state_with_absent_handle_never_kills() {
    let shared: SharedBackendState<()> = SharedBackendState::new(BackendHandle::absent());
    assert_eq!(shared.on_close(), None);
    assert_eq!(shared.on_close(), None);
}
