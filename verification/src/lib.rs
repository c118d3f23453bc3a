//! Volume backup orchestration: repository lifecycle, the stop/backup/start
//! transaction around each volume, and the persisted scheduling rules.
//!
//! The external backup engine and the container runtime are collaborators:
//! this crate decides what to run and in what order, and states the rules
//! those decisions obey.

pub mod config;
pub mod coordinator;
pub mod error;
pub mod lifecycle;
pub mod restic;
pub mod schedule;

pub use config::Config;
pub use error::CheckError;
pub use error::Error;
pub use restic::Backend;
pub use restic::CommandSpec;
pub use restic::Restic;
