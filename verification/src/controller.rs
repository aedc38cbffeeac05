//! The daemon controller: the launch path's state machine.
//!
//! A launch loads settings (falling back to the default on failure), opens
//! the lock/pid file, attempts a non-blocking exclusive lock, and forks only
//! after the lock is held. The parent abandons its handle on the still-held
//! lock and reports the child's pid; the child records its own pid in the
//! file and runs the workload. The runner performs those outside steps and
//! feeds their outcomes to this machine, which decides every step.

use vstd::prelude::*;

verus! {

/// Volume is carried as permille of full scale, so half volume is 500.
pub const DEFAULT_VOLUME_PERMILLE: u32 = 500;

/// The settings the workload needs: its playback volume.
#[derive(Clone, Copy, Debug, PartialEq, Eq, Structural)]
pub struct Settings {
    pub volume_permille: u32,
}

/// The settings actually used for a launch, and whether a warning is owed.
/// A load failure is recovered, never fatal: the default volume is used and
/// the launch goes ahead.
pub fn resolve_settings(loaded: Option<Settings>) -> (r: (Settings, bool))
    ensures
        loaded matches Option::Some(s) ==> r.0 == s && !r.1,
        loaded is None ==> r.0 == (Settings { volume_permille: DEFAULT_VOLUME_PERMILLE }) && r.1,
{
    match loaded {
        Option::Some(s) => (s, false),
        Option::None => (Settings { volume_permille: DEFAULT_VOLUME_PERMILLE }, true),
    }
}

/// Outcome of the non-blocking exclusive lock attempt on the lock/pid file.
#[derive(Clone, Copy, Debug, PartialEq, Eq, Structural)]
pub enum LockAttempt {
    /// The lock is now held by this process alone.
    Acquired,
    /// Another holder exists: a daemon is already running.
    Busy,
}

/// The two continuations of the fork, plus its failure.
#[derive(Clone, Copy, Debug, PartialEq, Eq, Structural)]
pub enum ForkOutcome {
    /// This process is the parent; the child has this pid.
    Parent { child: i32 },
    /// This process is the child.
    Child,
    /// The fork failed; no child exists.
    Failed,
}

/// What the launch does after the lock attempt.
#[derive(Clone, Copy, Debug, PartialEq, Eq, Structural)]
pub enum SpawnDecision {
    /// Sole ownership is established: fork now.
    DoFork,
    /// Expected contention: report "already running" and exit with the
    /// distinct contention code; no fork, not an error.
    ReportAlreadyRunning,
}

/// What each continuation of the fork must do.
#[derive(Clone, Copy, Debug, PartialEq, Eq, Structural)]
pub enum ForkFollowUp {
    /// Parent: abandon the lock handle without releasing the lock (the child
    /// inherits it), report the child's pid, and exit successfully.
    ParentDone { child: i32 },
    /// Child: overwrite the file with its own pid record, then run the
    /// workload at this volume; a failed record write aborts the child
    /// before the workload starts.
    ChildRun { volume_permille: u32 },
    /// Fork failure: propagate as a fatal setup error; the guard is still
    /// owned here and is released normally.
    PropagateError,
}

/// The launch path's states.
#[derive(Clone, Copy, Debug, PartialEq, Eq, Structural)]
pub enum SpawnState {
    /// Nothing attempted yet.
    Idle,
    /// The exclusive lock is held; the fork is next.
    LockAttempted,
    /// The fork happened; both continuations are under way.
    Forked,
    /// Another daemon holds the lock; this launch was turned away.
    Rejected,
    /// The fork failed; the launch aborts as a fatal setup error.
    SetupFailed,
}

/// The controller: `Idle -> LockAttempted -> { Forked, Rejected }`, with
/// `SetupFailed` for a fork that could not create a child.
pub struct SpawnController {
    pub state: SpawnState,
}

impl SpawnController {
    pub fn new() -> (c: SpawnController)
        ensures
            c.state is Idle,
    {
        SpawnController { state: SpawnState::Idle }
    }

    /// Decide from the lock attempt: fork exactly when the lock was
    /// acquired. Contention is never an error; it turns the launch away.
    pub fn lock_attempted(&mut self, attempt: LockAttempt) -> (d: SpawnDecision)
        requires
            old(self).state is Idle,
        ensures
            d is DoFork <==> attempt is Acquired,
            attempt is Acquired ==> final(self).state is LockAttempted,
            attempt is Busy ==> final(self).state is Rejected && d is ReportAlreadyRunning,
    {
        match attempt {
            LockAttempt::Acquired => {
                self.state = SpawnState::LockAttempted;
                SpawnDecision::DoFork
            },
            LockAttempt::Busy => {
                self.state = SpawnState::Rejected;
                SpawnDecision::ReportAlreadyRunning
            },
        }
    }

    /// Decide each continuation of the fork. The fork only ever happens from
    /// the lock-holding state, so a record is written only under the lock.
    pub fn forked(&mut self, outcome: ForkOutcome, settings: Settings) -> (f: ForkFollowUp)
        requires
            old(self).state is LockAttempted,
        ensures
            outcome matches ForkOutcome::Parent { child } ==> final(self).state is Forked && f
                == (ForkFollowUp::ParentDone { child }),
            outcome is Child ==> final(self).state is Forked && f == (ForkFollowUp::ChildRun {
                volume_permille: settings.volume_permille,
            }),
            outcome is Failed ==> final(self).state is SetupFailed && f is PropagateError,
    {
        match outcome {
            ForkOutcome::Parent { child } => {
                self.state = SpawnState::Forked;
                ForkFollowUp::ParentDone { child }
            },
            ForkOutcome::Child => {
                self.state = SpawnState::Forked;
                ForkFollowUp::ChildRun { volume_permille: settings.volume_permille }
            },
            ForkOutcome::Failed => {
                self.state = SpawnState::SetupFailed;
                ForkFollowUp::PropagateError
            },
        }
    }
}

} // verus!
