//! Command construction for the external backup engine.
//!
//! Nothing here spawns a process: every function builds a plain description
//! of the invocation (program, environment bindings, arguments) that the
//! surrounding service runs.

use vstd::prelude::*;

verus! {

/// The storage backend behind the repository, as a closed set of variants.
/// Each variant knows which credential environment bindings it contributes.
#[derive(Debug, Clone)]
pub enum Backend {
    S3 { access_key_id: String, secret_access_key: String },
}

/// A fully prepared external invocation: the program to run, the environment
/// bindings to set, and the arguments, in order.
#[derive(Debug, Clone)]
pub struct CommandSpec {
    pub program: String,
    pub env: Vec<(String, String)>,
    pub args: Vec<String>,
}

/// The repository lifecycle subcommands.
#[derive(Debug, Clone, Copy, PartialEq, Eq, Structural)]
pub enum RepoCommand {
    Check,
    Init,
    Unlock,
}

/// Command-construction layer for the backup engine: repository location,
/// password, backend credentials and the tag prefix, fixed at startup.
#[derive(Debug)]
pub struct Restic {
    pub repository: String,
    pub password: String,
    pub backend: Backend,
    pub tag_prefix: String,
}

/// The fixed environment bindings every invocation carries: repository
/// location, repository password, then the backend's credentials.
pub open spec fn env_bindings_of(r: Restic, env: Seq<(String, String)>) -> bool {
    match r.backend {
        Backend::S3 { access_key_id, secret_access_key } => {
            &&& env.len() == 4
            &&& env[0].0@ == "RESTIC_REPOSITORY"@
            &&& env[0].1 == r.repository
            &&& env[1].0@ == "RESTIC_PASSWORD"@
            &&& env[1].1 == r.password
            &&& env[2].0@ == "AWS_ACCESS_KEY_ID"@
            &&& env[2].1 == access_key_id
            &&& env[3].0@ == "AWS_SECRET_ACCESS_KEY"@
            &&& env[3].1 == secret_access_key
        },
    }
}

/// A command spec that runs the engine with the fixed environment and the
/// given argument list.
pub open spec fn engine_command(r: Restic, cmd: CommandSpec, args: Seq<String>) -> bool {
    &&& cmd.program@ == "restic"@
    &&& env_bindings_of(r, cmd.env@)
    &&& cmd.args@ == args
}

impl Restic {
    pub fn new(repository: String, password: String, backend: Backend, tag_prefix: String) -> (r: Self)
        ensures
            r.repository == repository,
            r.password == password,
            r.backend == backend,
            r.tag_prefix == tag_prefix,
    {
        Restic { repository, password, backend, tag_prefix }
    }

    /// Prepares a bare engine invocation: program and environment bindings
    /// only, no subcommand yet.
    pub fn build_command(&self) -> (r: CommandSpec)
        ensures
            engine_command(*self, r, Seq::<String>::empty()),
    {
        let mut env: Vec<(String, String)> = Vec::new();
        env.push(("RESTIC_REPOSITORY".to_owned(), self.repository.clone()));
        env.push(("RESTIC_PASSWORD".to_owned(), self.password.clone()));
        match &self.backend {
            Backend::S3 { access_key_id, secret_access_key } => {
                env.push(("AWS_ACCESS_KEY_ID".to_owned(), access_key_id.clone()));
                env.push(("AWS_SECRET_ACCESS_KEY".to_owned(), secret_access_key.clone()));
            },
        }
        let r = CommandSpec { program: "restic".to_owned(), env, args: Vec::new() };
        proof {
            assert(r.args@ =~= Seq::<String>::empty());
        }
        r
    }

    /// The invocation for one repository lifecycle subcommand.
    pub fn lifecycle_command(&self, which: RepoCommand) -> (r: CommandSpec)
        ensures
            engine_command(*self, r, seq![r.args@[0]]),
            r.args@.len() == 1,
            which == RepoCommand::Check ==> r.args@[0]@ == "check"@,
            which == RepoCommand::Init ==> r.args@[0]@ == "init"@,
            which == RepoCommand::Unlock ==> r.args@[0]@ == "unlock"@,
    {
        let mut cmd = self.build_command();
        let sub: &str = match which {
            RepoCommand::Check => "check",
            RepoCommand::Init => "init",
            RepoCommand::Unlock => "unlock",
        };
        cmd.args.push(sub.to_owned());
        proof {
            assert(cmd.args@ =~= seq![cmd.args@[0]]);
        }
        cmd
    }

    /// The label attached to a volume's backups: the configured prefix
    /// followed by the volume name.
    pub fn backup_tag(&self, volume: &str) -> (r: String)
        ensures
            r@ == self.tag_prefix@ + volume@,
    {
        self.tag_prefix.clone().concat(volume)
    }

    /// The invocation that backs up one volume: tag it with the prefixed
    /// volume name and hand the engine the volume's mountpoint.
    pub fn backup_command(&self, volume: &str, mountpoint: &str) -> (r: CommandSpec)
        ensures
            r.program@ == "restic"@,
            env_bindings_of(*self, r.env@),
            r.args@.len() == 4,
            r.args@[0]@ == "backup"@,
            r.args@[1]@ == "--tag"@,
            r.args@[2]@ == self.tag_prefix@ + volume@,
            r.args@[3]@ == mountpoint@,
    {
        let mut cmd = self.build_command();
        cmd.args.push("backup".to_owned());
        cmd.args.push("--tag".to_owned());
        cmd.args.push(self.backup_tag(volume));
        cmd.args.push(mountpoint.to_owned());
        cmd
    }
}

} // verus!
