//! The stop/backup/start transaction around one volume, and the cycle that
//! walks the configured volumes in order.
//!
//! Each transaction decides one step at a time — which container to stop,
//! when to run the backup, which container to start — and the surrounding
//! service performs the step against the container runtime or the backup
//! engine and reports how it went. The machine guarantees that every
//! container it stopped is given a matching start attempt before the
//! transaction's result can be read, whatever the backup did.

use vstd::prelude::*;

use crate::error::Error;

verus! {

/// A container attached to a volume, as the runtime reports it: an
/// identifier (absent for some runtime entries) and display names.
#[derive(Debug, Clone)]
pub struct AttachedContainer {
    pub id: Option<String>,
    pub names: Vec<String>,
}

/// The identifiers of the containers a transaction manages: every attached
/// container that has an identifier, in enumeration order.
pub open spec fn managed_ids_spec(cs: Seq<AttachedContainer>) -> Seq<String>
    decreases cs.len(),
{
    if cs.len() == 0 {
        Seq::empty()
    } else {
        let rest = managed_ids_spec(cs.drop_last());
        match cs.last().id {
            Some(id) => rest.push(id),
            None => rest,
        }
    }
}

/// Collect the identifiers of the attached containers, in order, skipping
/// entries the runtime reported without an identifier.
pub fn managed_ids(cs: &Vec<AttachedContainer>) -> (r: Vec<String>)
    ensures
        r@ == managed_ids_spec(cs@),
{
    let mut r: Vec<String> = Vec::new();
    let mut i: usize = 0;
    while i < cs.len()
        invariant
            i <= cs@.len(),
            r@ == managed_ids_spec(cs@.take(i as int)),
        decreases cs@.len() - i,
    {
        match &cs[i].id {
            Some(id) => r.push(id.clone()),
            None => {},
        }
        proof {
            assert(cs@.take(i + 1).drop_last() =~= cs@.take(i as int));
            assert(cs@.take(i + 1).last() == cs@[i as int]);
        }
        i += 1;
    }
    proof {
        assert(cs@.take(cs@.len() as int) =~= cs@);
    }
    r
}

/// Where a volume transaction stands.
#[derive(Debug, Clone, Copy, PartialEq, Eq, Structural)]
pub enum Phase {
    /// Containers are still being stopped.
    Stopping,
    /// Every container is stopped; the backup runs now.
    BackingUp,
    /// The backup step is over; stopped containers are being started again.
    Starting,
    /// The transaction is finished and its result can be read.
    Done,
}

/// The next step the service must perform for a transaction.
#[derive(Debug)]
pub enum TransactionStep {
    /// Stop the container with this identifier.
    StopContainer(String),
    /// Run the backup of the volume's mountpoint.
    RunBackup,
    /// Start the container with this identifier again.
    StartContainer(String),
    /// Nothing is left to do; read the result.
    Finished,
}

/// One volume's stop/backup/start transaction. `stopped` counts the
/// containers stopped so far (always a prefix of `containers`), `started`
/// the start attempts made so far; the three failure slots record the first
/// failure of each kind.
#[derive(Debug)]
pub struct VolumeTransaction {
    pub volume: String,
    pub mountpoint: String,
    pub containers: Vec<String>,
    pub phase: Phase,
    pub stopped: usize,
    pub started: usize,
    pub stop_failure: Option<String>,
    pub backup_failure: Option<String>,
    pub start_failure: Option<String>,
}

/// The step the machine asks for in a given state: containers are stopped
/// in enumeration order, then the backup runs, then the same containers
/// are started again in the same order.
pub open spec fn step_of(t: VolumeTransaction) -> TransactionStep {
    match t.phase {
        Phase::Stopping => TransactionStep::StopContainer(t.containers@[t.stopped as int]),
        Phase::BackingUp => TransactionStep::RunBackup,
        Phase::Starting => TransactionStep::StartContainer(t.containers@[t.started as int]),
        Phase::Done => TransactionStep::Finished,
    }
}

/// The state after the service reports success for the pending step.
pub open spec fn step_ok(t: VolumeTransaction) -> VolumeTransaction {
    match t.phase {
        Phase::Stopping => (VolumeTransaction {
            stopped: (t.stopped + 1) as usize,
            phase: if t.stopped + 1 == t.containers@.len() {
                Phase::BackingUp
            } else {
                Phase::Stopping
            },
            ..t
        }),
        Phase::BackingUp => (VolumeTransaction {
            phase: if t.stopped == 0 {
                Phase::Done
            } else {
                Phase::Starting
            },
            ..t
        }),
        Phase::Starting => (VolumeTransaction {
            started: (t.started + 1) as usize,
            phase: if t.started + 1 == t.stopped {
                Phase::Done
            } else {
                Phase::Starting
            },
            ..t
        }),
        Phase::Done => t,
    }
}

/// The state after the backup step reports failure with this detail.
pub open spec fn step_backup_failed(t: VolumeTransaction, detail: String) -> VolumeTransaction {
    VolumeTransaction {
        backup_failure: Some(detail),
        phase: if t.stopped == 0 {
            Phase::Done
        } else {
            Phase::Starting
        },
        ..t
    }
}

impl VolumeTransaction {
    /// The machine's invariant. Starts never outrun stops; the backup only
    /// runs once every container is stopped; a finished transaction has
    /// balanced every stop with a start attempt.
    pub open spec fn wf(self) -> bool {
        &&& self.containers@.len() <= usize::MAX
        &&& self.started <= self.stopped <= self.containers@.len()
        &&& match self.phase {
            Phase::Stopping => {
                &&& self.stopped < self.containers@.len()
                &&& self.started == 0
                &&& self.stop_failure is None
                &&& self.backup_failure is None
                &&& self.start_failure is None
            },
            Phase::BackingUp => {
                &&& self.stopped == self.containers@.len()
                &&& self.started == 0
                &&& self.stop_failure is None
                &&& self.backup_failure is None
                &&& self.start_failure is None
            },
            Phase::Starting => {
                &&& self.started < self.stopped
                &&& (self.stop_failure is None ==> self.stopped == self.containers@.len())
                &&& (self.stop_failure is Some ==> self.backup_failure is None)
            },
            Phase::Done => {
                &&& self.started == self.stopped
                &&& (self.stop_failure is None ==> self.stopped == self.containers@.len())
                &&& (self.stop_failure is Some ==> self.backup_failure is None)
            },
        }
    }

    /// Open the transaction for one volume. With no attached containers the
    /// backup runs at once; otherwise the first container is stopped first.
    pub fn new(volume: String, mountpoint: String, containers: Vec<String>) -> (r: Self)
        ensures
            r.wf(),
            r.volume == volume,
            r.mountpoint == mountpoint,
            r.containers == containers,
            r.stopped == 0,
            r.started == 0,
            r.stop_failure is None,
            r.backup_failure is None,
            r.start_failure is None,
            r.phase == (if containers@.len() == 0 {
                Phase::BackingUp
            } else {
                Phase::Stopping
            }),
    {
        let phase = if containers.len() == 0 {
            Phase::BackingUp
        } else {
            Phase::Stopping
        };
        VolumeTransaction {
            volume,
            mountpoint,
            containers,
            phase,
            stopped: 0,
            started: 0,
            stop_failure: None,
            backup_failure: None,
            start_failure: None,
        }
    }

    /// The step the service must perform next: containers are stopped in
    /// enumeration order, then the backup runs, then the same containers
    /// are started again in the same order.
    pub fn next_step(&self) -> (r: TransactionStep)
        requires
            self.wf(),
        ensures
            r == step_of(*self),
    {
        match self.phase {
            Phase::Stopping => TransactionStep::StopContainer(self.containers[self.stopped].clone()),
            Phase::BackingUp => TransactionStep::RunBackup,
            Phase::Starting => TransactionStep::StartContainer(self.containers[self.started].clone()),
            Phase::Done => TransactionStep::Finished,
        }
    }

    /// Record how stopping the current container went. Success moves on to
    /// the next container, or to the backup once all are stopped. A stop
    /// failure abandons the backup, but the containers stopped so far are
    /// still started again before the transaction finishes.
    pub fn on_stop_result(&mut self, ok: bool, detail: String)
        requires
            old(self).wf(),
            old(self).phase == Phase::Stopping,
        ensures
            final(self).wf(),
            final(self).volume == old(self).volume,
            final(self).mountpoint == old(self).mountpoint,
            final(self).containers == old(self).containers,
            final(self).started == 0,
            final(self).backup_failure is None,
            final(self).start_failure is None,
            ok ==> *final(self) == step_ok(*old(self)),
            ok ==> {
                &&& final(self).stopped == old(self).stopped + 1
                &&& final(self).stop_failure is None
                &&& final(self).phase == (if old(self).stopped + 1 == old(self).containers@.len() {
                    Phase::BackingUp
                } else {
                    Phase::Stopping
                })
            },
            !ok ==> {
                &&& final(self).stopped == old(self).stopped
                &&& final(self).stop_failure == Some(detail)
                &&& final(self).phase == (if old(self).stopped == 0 {
                    Phase::Done
                } else {
                    Phase::Starting
                })
            },
    {
        if ok {
            let n = self.containers.len();
            self.stopped = self.stopped + 1;
            if self.stopped == n {
                self.phase = Phase::BackingUp;
            }
        } else {
            self.stop_failure = Some(detail);
            self.phase = if self.stopped == 0 {
                Phase::Done
            } else {
                Phase::Starting
            };
        }
    }

    /// Record how the backup step went. Whatever it did, every stopped
    /// container is started again next; only with no container stopped is
    /// the transaction finished at once.
    pub fn on_backup_result(&mut self, ok: bool, detail: String)
        requires
            old(self).wf(),
            old(self).phase == Phase::BackingUp,
        ensures
            final(self).wf(),
            final(self).volume == old(self).volume,
            final(self).mountpoint == old(self).mountpoint,
            final(self).containers == old(self).containers,
            final(self).stopped == old(self).stopped,
            final(self).started == 0,
            final(self).stop_failure is None,
            final(self).start_failure is None,
            ok ==> *final(self) == step_ok(*old(self)),
            !ok ==> *final(self) == step_backup_failed(*old(self), detail),
            final(self).backup_failure == (if ok {
                None::<String>
            } else {
                Some(detail)
            }),
            final(self).phase == (if old(self).stopped == 0 {
                Phase::Done
            } else {
                Phase::Starting
            }),
    {
        if !ok {
            self.backup_failure = Some(detail);
        }
        self.phase = if self.stopped == 0 {
            Phase::Done
        } else {
            Phase::Starting
        };
    }

    /// Record how starting the current container went. Every stopped
    /// container gets its start attempt, whether or not earlier attempts
    /// failed; the first start failure is kept as the detail.
    pub fn on_start_result(&mut self, ok: bool, detail: String)
        requires
            old(self).wf(),
            old(self).phase == Phase::Starting,
        ensures
            final(self).wf(),
            final(self).volume == old(self).volume,
            final(self).mountpoint == old(self).mountpoint,
            final(self).containers == old(self).containers,
            final(self).stopped == old(self).stopped,
            final(self).stop_failure == old(self).stop_failure,
            final(self).backup_failure == old(self).backup_failure,
            ok ==> *final(self) == step_ok(*old(self)),
            final(self).started == old(self).started + 1,
            final(self).start_failure == (if old(self).start_failure is Some {
                old(self).start_failure
            } else if ok {
                None::<String>
            } else {
                Some(detail)
            }),
            final(self).phase == (if old(self).started + 1 == old(self).stopped {
                Phase::Done
            } else {
                Phase::Starting
            }),
    {
        if !ok && self.start_failure.is_none() {
            self.start_failure = Some(detail);
        }
        self.started = self.started + 1;
        if self.started == self.stopped {
            self.phase = Phase::Done;
        }
    }

    /// Whether the transaction is finished.
    pub fn is_done(&self) -> (r: bool)
        ensures
            r == (self.phase == Phase::Done),
    {
        matches!(self.phase, Phase::Done)
    }

    /// The transaction's result, readable only once it is finished — that
    /// is, only after every stopped container has had its start attempt.
    /// A stop failure is a runtime failure; a backup failure names the
    /// volume and is not suppressed by a later start failure; a start
    /// failure alone is a runtime failure; otherwise the volume was backed
    /// up cleanly.
    pub fn outcome(&self) -> (r: Result<(), Error>)
        requires
            self.wf(),
            self.phase == Phase::Done,
        ensures
            self.stop_failure matches Some(d) ==> r == Err::<(), Error>(Error::Docker(d)),
            self.stop_failure is None ==> (self.backup_failure matches Some(d) ==> r
                == Err::<(), Error>(Error::Backup(self.volume, d))),
            self.stop_failure is None && self.backup_failure is None ==> (self.start_failure
                matches Some(d) ==> r == Err::<(), Error>(Error::Docker(d))),
            self.stop_failure is None && self.backup_failure is None && self.start_failure is None
                ==> r is Ok,
    {
        match &self.stop_failure {
            Some(d) => Err(Error::Docker(d.clone())),
            None => match &self.backup_failure {
                Some(d) => Err(Error::Backup(self.volume.clone(), d.clone())),
                None => match &self.start_failure {
                    Some(d) => Err(Error::Docker(d.clone())),
                    None => Ok(()),
                },
            },
        }
    }
}

/// In a transaction that finished with the backup step reporting success
/// and no stop failure, every attached container was stopped and each of
/// them was given its start attempt, starts balancing stops one for one.
pub proof fn lemma_successful_transaction_balanced(t: VolumeTransaction)
    requires
        t.wf(),
        t.phase == Phase::Done,
        t.stop_failure is None,
        t.backup_failure is None,
    ensures
        t.stopped == t.containers@.len(),
        t.started == t.stopped,
{
}

/// In a transaction whose backup step failed, every previously stopped
/// container — all of them, since the backup only runs once all are
/// stopped — was still given its start attempt before the result became
/// readable.
pub proof fn lemma_failed_backup_still_restarts(t: VolumeTransaction)
    requires
        t.wf(),
        t.phase == Phase::Done,
        t.backup_failure is Some,
    ensures
        t.stopped == t.containers@.len(),
        t.started == t.stopped,
{
}

/// How far the machine still has to go, for termination of `run_ok`.
pub open spec fn phase_rank(t: VolumeTransaction) -> int {
    match t.phase {
        Phase::Stopping => 3,
        Phase::BackingUp => 2,
        Phase::Starting => 1,
        Phase::Done => 0,
    }
}

/// Within one phase, how many steps of it remain.
pub open spec fn phase_rem(t: VolumeTransaction) -> int {
    match t.phase {
        Phase::Stopping => t.containers@.len() - t.stopped,
        Phase::Starting => t.stopped - t.started,
        _ => 0,
    }
}

/// A step reported as successful preserves the invariant.
pub proof fn lemma_step_ok_wf(t: VolumeTransaction)
    requires
        t.wf(),
    ensures
        step_ok(t).wf(),
{
}

/// The whole sequence of steps the machine asks for when the service
/// reports success for every one of them, ending with `Finished`.
pub open spec fn run_ok(t: VolumeTransaction) -> Seq<TransactionStep>
    decreases phase_rank(t), phase_rem(t),
        when t.wf()
{
    if t.phase == Phase::Done {
        seq![TransactionStep::Finished]
    } else {
        seq![step_of(t)] + run_ok(step_ok(t))
    }
}

/// Stop steps for these containers, in order.
pub open spec fn stop_steps(ids: Seq<String>) -> Seq<TransactionStep> {
    Seq::new(ids.len(), |i: int| TransactionStep::StopContainer(ids[i]))
}

/// Start steps for these containers, in order.
pub open spec fn start_steps(ids: Seq<String>) -> Seq<TransactionStep> {
    Seq::new(ids.len(), |i: int| TransactionStep::StartContainer(ids[i]))
}

/// The transaction protocol for a volume whose containers are `ids`: stop
/// each in order, run the backup, start each in the same order, finish.
pub open spec fn success_trace(ids: Seq<String>) -> Seq<TransactionStep> {
    stop_steps(ids) + seq![TransactionStep::RunBackup] + start_steps(ids) + seq![
        TransactionStep::Finished,
    ]
}

proof fn lemma_run_ok_starting(t: VolumeTransaction)
    requires
        t.wf(),
        t.phase == Phase::Starting,
    ensures
        run_ok(t) == start_steps(t.containers@.subrange(t.started as int, t.stopped as int))
            + seq![TransactionStep::Finished],
    decreases t.stopped - t.started,
{
    let u = step_ok(t);
    lemma_step_ok_wf(t);
    if t.started + 1 == t.stopped {
        assert(run_ok(u) == seq![TransactionStep::Finished]);
        assert(run_ok(t) =~= start_steps(
            t.containers@.subrange(t.started as int, t.stopped as int),
        ) + seq![TransactionStep::Finished]);
    } else {
        lemma_run_ok_starting(u);
        assert(run_ok(t) =~= start_steps(
            t.containers@.subrange(t.started as int, t.stopped as int),
        ) + seq![TransactionStep::Finished]);
    }
}

proof fn lemma_run_ok_backing_up(t: VolumeTransaction)
    requires
        t.wf(),
        t.phase == Phase::BackingUp,
    ensures
        run_ok(t) == seq![TransactionStep::RunBackup] + start_steps(t.containers@) + seq![
            TransactionStep::Finished,
        ],
{
    let u = step_ok(t);
    lemma_step_ok_wf(t);
    if t.stopped == 0 {
        assert(run_ok(u) == seq![TransactionStep::Finished]);
        assert(run_ok(t) =~= seq![TransactionStep::RunBackup] + start_steps(t.containers@)
            + seq![TransactionStep::Finished]);
    } else {
        lemma_run_ok_starting(u);
        assert(u.containers@.subrange(u.started as int, u.stopped as int) =~= t.containers@);
        assert(run_ok(t) =~= seq![TransactionStep::RunBackup] + start_steps(t.containers@)
            + seq![TransactionStep::Finished]);
    }
}

proof fn lemma_run_ok_stopping(t: VolumeTransaction)
    requires
        t.wf(),
        t.phase == Phase::Stopping,
    ensures
        run_ok(t) == stop_steps(t.containers@.skip(t.stopped as int)) + seq![
            TransactionStep::RunBackup,
        ] + start_steps(t.containers@) + seq![TransactionStep::Finished],
    decreases t.containers@.len() - t.stopped,
{
    let u = step_ok(t);
    lemma_step_ok_wf(t);
    if t.stopped + 1 == t.containers@.len() {
        lemma_run_ok_backing_up(u);
    } else {
        lemma_run_ok_stopping(u);
    }
    assert(run_ok(t) =~= stop_steps(t.containers@.skip(t.stopped as int)) + seq![
        TransactionStep::RunBackup,
    ] + start_steps(t.containers@) + seq![TransactionStep::Finished]);
}

/// Even when the backup step fails, the rest of the protocol is unchanged:
/// from that point the machine asks for exactly one start per stopped
/// container — all of them, since the backup only runs once all are
/// stopped — in enumeration order, before it finishes.
pub proof fn lemma_failed_backup_trace(t: VolumeTransaction, detail: String)
    requires
        t.wf(),
        t.phase == Phase::BackingUp,
    ensures
        run_ok(step_backup_failed(t, detail)) == start_steps(t.containers@) + seq![
            TransactionStep::Finished,
        ],
{
    let u = step_backup_failed(t, detail);
    if t.stopped == 0 {
        assert(run_ok(u) == seq![TransactionStep::Finished]);
        assert(run_ok(u) =~= start_steps(t.containers@) + seq![TransactionStep::Finished]);
    } else {
        lemma_run_ok_starting(u);
        assert(u.containers@.subrange(u.started as int, u.stopped as int) =~= t.containers@);
    }
}

/// The transaction theorem for a volume with any number of attached
/// containers: when every step the machine asks for succeeds, what it asks
/// for is exactly one stop per container in enumeration order, then the
/// backup, then exactly one start per container in the same order — each
/// container started once, and only containers that were stopped.
pub proof fn lemma_successful_run_is_the_protocol(t: VolumeTransaction)
    requires
        t.wf(),
        t.stopped == 0,
        t.started == 0,
        t.phase == (if t.containers@.len() == 0 {
            Phase::BackingUp
        } else {
            Phase::Stopping
        }),
    ensures
        run_ok(t) == success_trace(t.containers@),
{
    if t.containers@.len() == 0 {
        lemma_run_ok_backing_up(t);
        assert(run_ok(t) =~= success_trace(t.containers@));
    } else {
        lemma_run_ok_stopping(t);
        assert(t.containers@.skip(0) =~= t.containers@);
        assert(run_ok(t) =~= success_trace(t.containers@));
    }
}

/// One backup cycle over the configured volumes, strictly in order, with
/// the fail-fast policy: the first volume failure ends the cycle.
#[derive(Debug)]
pub struct BackupCycle {
    pub volumes: Vec<String>,
    pub next: usize,
    pub failure: Option<Error>,
}

/// The index of the volume the cycle processes next, if any: none once a
/// failure is recorded or every volume is done.
pub open spec fn cycle_current(c: BackupCycle) -> Option<int> {
    if c.failure is Some {
        None
    } else if c.next < c.volumes@.len() {
        Some(c.next as int)
    } else {
        None
    }
}

impl BackupCycle {
    pub open spec fn wf(self) -> bool {
        &&& self.next <= self.volumes@.len()
        &&& (self.failure is Some ==> self.next < self.volumes@.len())
    }

    /// Open a cycle over the given volumes.
    pub fn new(volumes: Vec<String>) -> (r: Self)
        ensures
            r.wf(),
            r.volumes == volumes,
            r.next == 0,
            r.failure is None,
    {
        BackupCycle { volumes, next: 0, failure: None }
    }

    /// The volume to process next, or none once the cycle is over —
    /// either exhausted or ended early by a failure.
    pub fn current_volume(&self) -> (r: Option<String>)
        requires
            self.wf(),
        ensures
            cycle_current(*self) is None ==> r is None,
            cycle_current(*self) matches Some(i) ==> r == Some(self.volumes@[i]),
    {
        if self.failure.is_some() {
            None
        } else if self.next < self.volumes.len() {
            Some(self.volumes[self.next].clone())
        } else {
            None
        }
    }

    /// Record the current volume's transaction result. Success moves to the
    /// next volume; a failure is kept and ends the cycle at this volume.
    pub fn on_volume_outcome(&mut self, outcome: Result<(), Error>)
        requires
            old(self).wf(),
            old(self).failure is None,
            old(self).next < old(self).volumes@.len(),
        ensures
            final(self).wf(),
            final(self).volumes == old(self).volumes,
            outcome is Ok ==> final(self).next == old(self).next + 1 && final(self).failure
                is None,
            outcome matches Err(e) ==> final(self).next == old(self).next && final(self).failure
                == Some(e),
    {
        match outcome {
            Ok(()) => {
                let n = self.volumes.len();
                if self.next < n {
                    self.next = self.next + 1;
                }
            },
            Err(e) => {
                self.failure = Some(e);
            },
        }
    }

    /// The cycle's overall result: its first failure, or success when every
    /// volume went through.
    pub fn outcome(&self) -> (r: Result<(), Error>)
        requires
            self.wf(),
        ensures
            self.failure matches Some(e) ==> r == Err::<(), Error>(e),
            self.failure is None ==> r is Ok,
    {
        match &self.failure {
            Some(e) => Err(e.clone()),
            None => Ok(()),
        }
    }
}

/// Fail-fast across volumes: once a cycle has recorded a failure, no
/// further volume is offered for processing in that cycle.
pub proof fn lemma_fail_fast(c: BackupCycle)
    requires
        c.wf(),
        c.failure is Some,
    ensures
        cycle_current(c) is None,
{
}

} // verus!
