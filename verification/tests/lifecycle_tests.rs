use nerd_backup::error::{CheckError, Error};
use nerd_backup::lifecycle::{LifecycleState, ProcessOutcome};
use nerd_backup::restic::RepoCommand;

fn exited(success: bool, code: i32, stderr: &str) -> ProcessOutcome {
    ProcessOutcome::Exited { success, code, stderr: stderr.to_string() }
}

#[test]
fn check_exit_codes_map_to_named_failures() {
    assert_eq!(CheckError::from(10), CheckError::NotFound);
    assert_eq!(CheckError::from(11), CheckError::Locked);
    assert_eq!(CheckError::from(12), CheckError::BadPassword);
    assert_eq!(CheckError::from(1), CheckError::Error(1));
    assert_eq!(CheckError::from(42), CheckError::Error(42));
    assert_eq!(CheckError::from(-7), CheckError::Error(-7));
}

#[test]
fn successful_check_is_ready_at_once() {
    let mut s = LifecycleState::start();
    assert_eq!(s.pending_command(), Some(RepoCommand::Check));
    s.on_outcome(exited(true, 0, ""));
    assert!(s.is_ready());
    assert_eq!(s.pending_command(), None);
    assert!(s.failure().is_none());
}

#[test]
fn missing_repository_is_initialized() {
    let mut s = LifecycleState::start();
    s.on_outcome(exited(false, 10, ""));
    assert_eq!(s.pending_command(), Some(RepoCommand::Init));
    s.on_outcome(exited(true, 0, ""));
    assert!(s.is_ready());
    assert_eq!(s.pending_command(), None);
}

#[test]
fn failed_initialization_is_fatal() {
    let mut s = LifecycleState::start();
    s.on_outcome(exited(false, 10, ""));
    s.on_outcome(exited(false, 1, "init went wrong"));
    assert!(!s.is_ready());
    assert_eq!(s.pending_command(), None);
    assert!(matches!(s.failure(), Some(Error::Init)));
}

#[test]
fn locked_repository_is_unlocked_exactly_once() {
    let mut s = LifecycleState::start();
    s.on_outcome(exited(false, 11, ""));
    assert_eq!(s.pending_command(), Some(RepoCommand::Unlock));
    s.on_outcome(exited(true, 0, ""));
    // A successful unlock proceeds without another check.
    assert!(s.is_ready());
    assert_eq!(s.pending_command(), None);
}

#[test]
fn failed_unlock_carries_captured_stderr() {
    let mut s = LifecycleState::start();
    s.on_outcome(exited(false, 11, ""));
    s.on_outcome(exited(false, 1, "repo still locked by host x"));
    assert_eq!(s.pending_command(), None);
    match s.failure() {
        Some(Error::Unlock(detail)) => assert_eq!(detail, "repo still locked by host x"),
        other => panic!("expected an unlock failure, got {:?}", other),
    }
}

#[test]
fn bad_password_is_unrecoverable() {
    let mut s = LifecycleState::start();
    s.on_outcome(exited(false, 12, ""));
    assert_eq!(s.pending_command(), None);
    assert!(matches!(s.failure(), Some(Error::Check(CheckError::BadPassword))));
}

#[test]
fn unknown_check_code_is_unrecoverable_and_kept() {
    let mut s = LifecycleState::start();
    s.on_outcome(exited(false, 77, ""));
    assert!(matches!(s.failure(), Some(Error::Check(CheckError::Error(77)))));
}

#[test]
fn spawn_failure_is_an_io_error() {
    let mut s = LifecycleState::start();
    s.on_outcome(ProcessOutcome::SpawnFailed("restic not on PATH".to_string()));
    match s.failure() {
        Some(Error::Io(detail)) => assert_eq!(detail, "restic not on PATH"),
        other => panic!("expected an I/O failure, got {:?}", other),
    }
}

#[test]
fn ready_state_absorbs_later_outcomes() {
    let mut s = LifecycleState::start();
    s.on_outcome(exited(true, 0, ""));
    s.on_outcome(exited(false, 12, ""));
    assert!(s.is_ready());
    assert_eq!(s.pending_command(), None);
}
