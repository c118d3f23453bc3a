//! Repository lifecycle: drive the repository from its state at startup
//! (absent, locked, or ready) to `Ready` before any backup cycle runs.
//!
//! The machine decides which engine subcommand to run next; the surrounding
//! service spawns it and reports how the process ended.

use vstd::prelude::*;

use crate::error::{check_error_of, CheckError, Error};
use crate::restic::RepoCommand;

verus! {

/// How one external process invocation ended.
#[derive(Debug, Clone)]
pub enum ProcessOutcome {
    /// The process ran to completion: whether it succeeded, its exit code
    /// (1 where the platform reported none), and captured standard error.
    Exited { success: bool, code: i32, stderr: String },
    /// The process could not be spawned or waited on.
    SpawnFailed(String),
}

/// The lifecycle state machine. `Ready` and `Failed` are terminal; each
/// other state names the subcommand whose result it is waiting for.
#[derive(Debug, Clone)]
pub enum LifecycleState {
    /// `check` must run next.
    CheckPending,
    /// `check` said the repository does not exist: `init` must run next.
    InitPending,
    /// `check` said the repository is locked: `unlock` must run next.
    UnlockPending,
    /// The repository is ready for backups.
    Ready,
    /// The repository cannot be made ready; scheduling must not start.
    Failed(Error),
}

/// The transition relation of the lifecycle machine: from the state that
/// awaits a subcommand's result and that result, to the next state.
///
/// A successful `check` means ready. A failed `check` is classified by exit
/// code: not-found proceeds to `init`, locked proceeds to `unlock`, and a
/// bad password or unknown code is fatal. `init` and `unlock` each make the
/// repository ready on success and are fatal on failure, `unlock` carrying
/// its captured standard error as the detail. A spawn failure is fatal in
/// every state.
pub open spec fn lifecycle_step(state: LifecycleState, outcome: ProcessOutcome) -> LifecycleState {
    match state {
        // Terminal states absorb any further outcome unchanged.
        LifecycleState::Ready => LifecycleState::Ready,
        LifecycleState::Failed(e) => LifecycleState::Failed(e),
        _ => match outcome {
            ProcessOutcome::SpawnFailed(detail) => LifecycleState::Failed(Error::Io(detail)),
            ProcessOutcome::Exited { success, code, stderr } => match state {
                LifecycleState::CheckPending => {
                    if success {
                        LifecycleState::Ready
                    } else {
                        match check_error_of(code) {
                            CheckError::NotFound => LifecycleState::InitPending,
                            CheckError::Locked => LifecycleState::UnlockPending,
                            e => LifecycleState::Failed(Error::Check(e)),
                        }
                    }
                },
                LifecycleState::InitPending => {
                    if success {
                        LifecycleState::Ready
                    } else {
                        LifecycleState::Failed(Error::Init)
                    }
                },
                LifecycleState::UnlockPending => {
                    if success {
                        LifecycleState::Ready
                    } else {
                        LifecycleState::Failed(Error::Unlock(stderr))
                    }
                },
                _ => state,
            },
        },
    }
}

impl LifecycleState {
    /// Where the lifecycle starts: nothing is known until `check` has run.
    pub fn start() -> (r: Self)
        ensures
            r == LifecycleState::CheckPending,
    {
        LifecycleState::CheckPending
    }

    /// The subcommand this state is waiting for, or `None` in a terminal
    /// state. In particular `Ready` asks for nothing more: a successful
    /// `unlock` is not followed by another `check`.
    pub fn pending_command(&self) -> (r: Option<RepoCommand>)
        ensures
            r == (match *self {
                LifecycleState::CheckPending => Some(RepoCommand::Check),
                LifecycleState::InitPending => Some(RepoCommand::Init),
                LifecycleState::UnlockPending => Some(RepoCommand::Unlock),
                LifecycleState::Ready => None::<RepoCommand>,
                LifecycleState::Failed(_) => None::<RepoCommand>,
            }),
    {
        match self {
            LifecycleState::CheckPending => Some(RepoCommand::Check),
            LifecycleState::InitPending => Some(RepoCommand::Init),
            LifecycleState::UnlockPending => Some(RepoCommand::Unlock),
            LifecycleState::Ready => None,
            LifecycleState::Failed(_) => None,
        }
    }

    /// Advance by one process result, exactly along the transition relation.
    pub fn on_outcome(&mut self, outcome: ProcessOutcome)
        ensures
            *final(self) == lifecycle_step(*old(self), outcome),
    {
        if matches!(self, LifecycleState::Ready | LifecycleState::Failed(_)) {
            return;
        }
        let next = match outcome {
            ProcessOutcome::SpawnFailed(detail) => LifecycleState::Failed(Error::Io(detail)),
            ProcessOutcome::Exited { success, code, stderr } => match &*self {
                LifecycleState::CheckPending => {
                    if success {
                        LifecycleState::Ready
                    } else {
                        match CheckError::from(code) {
                            CheckError::NotFound => LifecycleState::InitPending,
                            CheckError::Locked => LifecycleState::UnlockPending,
                            e => LifecycleState::Failed(Error::Check(e)),
                        }
                    }
                },
                LifecycleState::InitPending => {
                    if success {
                        LifecycleState::Ready
                    } else {
                        LifecycleState::Failed(Error::Init)
                    }
                },
                LifecycleState::UnlockPending => {
                    if success {
                        LifecycleState::Ready
                    } else {
                        LifecycleState::Failed(Error::Unlock(stderr))
                    }
                },
                _ => {
                    return;
                },
            },
        };
        *self = next;
    }

    /// Whether the repository is ready for scheduling to begin.
    pub fn is_ready(&self) -> (r: bool)
        ensures
            r == (*self matches LifecycleState::Ready),
    {
        matches!(self, LifecycleState::Ready)
    }

    /// The fatal error of a failed lifecycle, if any.
    pub fn failure(&self) -> (r: Option<Error>)
        ensures
            match *self {
                LifecycleState::Failed(e) => r == Some(e),
                _ => r is None,
            },
    {
        match self {
            LifecycleState::Failed(e) => Some(e.clone()),
            _ => None,
        }
    }
}

/// A locked repository is unlocked exactly once: `check` reporting locked
/// asks for `unlock`, and a successful `unlock` asks for nothing further —
/// no second `check` precedes scheduling.
pub proof fn lemma_locked_repository_unlocked_once(stderr1: String, stderr2: String)
    ensures
        lifecycle_step(
            LifecycleState::CheckPending,
            ProcessOutcome::Exited { success: false, code: 11, stderr: stderr1 },
        ) == LifecycleState::UnlockPending,
        lifecycle_step(
            LifecycleState::UnlockPending,
            ProcessOutcome::Exited { success: true, code: 0, stderr: stderr2 },
        ) == LifecycleState::Ready,
{
}

/// Once ready, the lifecycle stays ready and issues no further command,
/// whatever outcomes are still reported: `ensureReady` is idempotent.
pub proof fn lemma_ready_is_terminal(outcome: ProcessOutcome)
    ensures
        lifecycle_step(LifecycleState::Ready, outcome) == LifecycleState::Ready,
{
}

} // verus!
