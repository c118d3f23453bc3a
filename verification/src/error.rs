//! Error taxonomy for the backup orchestrator.

use vstd::prelude::*;

verus! {

/// Failure classification for the repository `check` subcommand, derived
/// from the backup engine's exit code.
#[derive(Debug, PartialEq, Eq, Structural)]
pub enum CheckError {
    /// The repository does not exist yet (exit code 10).
    NotFound,
    /// The repository is locked and must be unlocked (exit code 11).
    Locked,
    /// The repository password is wrong (exit code 12).
    BadPassword,
    /// Any other non-zero exit code, carried verbatim.
    Error(i32),
}

impl From<i32> for CheckError {
    /// Maps a `check` exit code to its failure class: 10 is not-found,
    /// 11 is locked, 12 is bad-password, anything else is generic.
    fn from(code: i32) -> (r: Self) {
        match code {
            10 => CheckError::NotFound,
            11 => CheckError::Locked,
            12 => CheckError::BadPassword,
            _ => CheckError::Error(code),
        }
    }
}

impl Clone for CheckError {
    fn clone(&self) -> (r: Self)
        ensures
            r == *self,
    {
        match self {
            CheckError::NotFound => CheckError::NotFound,
            CheckError::Locked => CheckError::Locked,
            CheckError::BadPassword => CheckError::BadPassword,
            CheckError::Error(code) => CheckError::Error(*code),
        }
    }
}

/// The classification of a `check` exit code.
pub open spec fn check_error_of(code: i32) -> CheckError {
    if code == 10 {
        CheckError::NotFound
    } else if code == 11 {
        CheckError::Locked
    } else if code == 12 {
        CheckError::BadPassword
    } else {
        CheckError::Error(code)
    }
}

impl vstd::std_specs::convert::FromSpecImpl<i32> for CheckError {
    open spec fn obeys_from_spec() -> bool {
        true
    }

    open spec fn from_spec(code: i32) -> CheckError {
        check_error_of(code)
    }
}

/// Exit codes 10, 11 and 12 map to the named check failures, and every
/// other code maps to the generic failure carrying that code verbatim.
pub proof fn lemma_check_code_classification(code: i32)
    ensures
        check_error_of(10) == CheckError::NotFound,
        check_error_of(11) == CheckError::Locked,
        check_error_of(12) == CheckError::BadPassword,
        code != 10 && code != 11 && code != 12 ==> check_error_of(code) == CheckError::Error(code),
{
}

/// Everything a backup cycle or the repository lifecycle can fail with.
/// External failure detail (an I/O message, a runtime message, captured
/// standard error) is carried as plain text.
#[derive(Debug)]
pub enum Error {
    /// A process could not be spawned or waited on, or a file operation failed.
    Io(String),
    /// The repository `check` failed unrecoverably.
    Check(CheckError),
    /// Initializing a fresh repository failed.
    Init,
    /// Backing up one volume failed: volume name, then failure detail.
    Backup(String, String),
    /// Unlocking the repository failed, with the captured detail.
    Unlock(String),
    /// The container runtime reported a failure.
    Docker(String),
}

impl Clone for Error {
    fn clone(&self) -> (r: Self)
        ensures
            r == *self,
    {
        match self {
            Error::Io(d) => Error::Io(d.clone()),
            Error::Check(e) => Error::Check(e.clone()),
            Error::Init => Error::Init,
            Error::Backup(v, d) => Error::Backup(v.clone(), d.clone()),
            Error::Unlock(d) => Error::Unlock(d.clone()),
            Error::Docker(d) => Error::Docker(d.clone()),
        }
    }
}

} // verus!
