//! A verified model of the whole singleton protocol.
//!
//! One advisory exclusive lock on one well-known file serializes every
//! "is a daemon already running" decision. This module models that shared
//! state — who holds the lock, what the file says — and proves the protocol's
//! laws over it: among any number of simultaneous launch attempts exactly the
//! first to reach the lock wins; a successful launch leaves the child's exact
//! decimal pid in the file; stopping releases the lock (by the daemon's exit)
//! but never deletes the record.

use vstd::prelude::*;

use crate::pidfile::decimal_digits;
use crate::pidfile::pid_to_bytes;
use crate::pidfile::parse_pid;
use crate::stop::StopDecision;
use crate::stop::StopReport;
use crate::stop::stop_decision_spec;

verus! {

/// What a launch attempt reports.
#[derive(Clone, Copy, Debug, PartialEq, Eq, Structural)]
pub enum SpawnReport {
    /// The attempt took the lock and forked this child.
    Spawned { child: i32 },
    /// Another holder exists: expected contention, no fork.
    AlreadyRunning,
}

/// One launch attempt against the lock: the attempt wins exactly when the
/// lock is free, and a winner holds it from then on.
pub open spec fn spawn_transition(holder: Option<int>, child: int) -> (Option<int>, bool) {
    match holder {
        Option::Some(h) => (Option::Some(h), false),
        Option::None => (Option::Some(child), true),
    }
}

/// The success flags of a sequence of launch attempts made in some order
/// against the same lock, with no release in between.
pub open spec fn spawn_race_results(holder: Option<int>, pids: Seq<int>) -> Seq<bool>
    decreases pids.len(),
{
    if pids.len() == 0 {
        Seq::empty()
    } else {
        let step = spawn_transition(holder, pids.first());
        seq![step.1].add(spawn_race_results(step.0, pids.drop_first()))
    }
}

proof fn lemma_race_all_lose(holder: Option<int>, pids: Seq<int>)
    requires
        holder is Some,
    ensures
        spawn_race_results(holder, pids).len() == pids.len(),
        forall|k: int| 0 <= k < pids.len() ==> !spawn_race_results(holder, pids)[k],
    decreases pids.len(),
{
    if pids.len() > 0 {
        let step = spawn_transition(holder, pids.first());
        lemma_race_all_lose(step.0, pids.drop_first());
        let r = spawn_race_results(holder, pids);
        let rest = spawn_race_results(step.0, pids.drop_first());
        assert forall|k: int| 0 <= k < pids.len() implies !r[k] by {
            if k == 0 {
                assert(r[0] == false);
            } else {
                assert(r[k] == rest[k - 1]);
            }
        }
    }
}

/// Among any N simultaneous launch attempts on a clean system, exactly one —
/// the first to reach the lock — succeeds; every other attempt observes
/// "already running" and does not fork.
pub proof fn lemma_exactly_one_spawn_wins(pids: Seq<int>)
    requires
        pids.len() >= 1,
    ensures
        spawn_race_results(Option::None, pids).len() == pids.len(),
        spawn_race_results(Option::None, pids)[0],
        forall|k: int| 1 <= k < pids.len() ==> !spawn_race_results(Option::None, pids)[k],
{
    let step = spawn_transition(Option::None, pids.first());
    lemma_race_all_lose(step.0, pids.drop_first());
    let r = spawn_race_results(Option::None, pids);
    let rest = spawn_race_results(step.0, pids.drop_first());
    assert(r[0]);
    assert forall|k: int| 1 <= k < pids.len() implies !r[k] by {
        assert(r[k] == rest[k - 1]);
    }
}

/// The protocol's shared state: the lock's holder and the file's content.
/// The file outlives any daemon; only the lock says whether one is running.
pub struct DaemonWorld {
    /// The pid of the daemon holding the advisory lock, if one is running.
    pub lock_holder: Option<i32>,
    /// The lock/pid file's content; absent until the first launch.
    pub file: Option<Vec<u8>>,
}

impl DaemonWorld {
    pub open spec fn holder_view(self) -> Option<int> {
        match self.lock_holder {
            Option::Some(p) => Option::Some(p as int),
            Option::None => Option::None,
        }
    }

    pub open spec fn file_view(self) -> Option<Seq<u8>> {
        match self.file {
            Option::Some(c) => Option::Some(c@),
            Option::None => Option::None,
        }
    }

    /// While a daemon is alive, it holds the lock and the file holds exactly
    /// its decimal pid.
    pub open spec fn wf(self) -> bool {
        self.lock_holder matches Option::Some(p) ==> 0 < p && self.file_view()
            == Option::Some(decimal_digits(p as int))
    }

    /// A clean system: no daemon has ever run, no file exists.
    pub fn new() -> (w: DaemonWorld)
        ensures
            w.lock_holder is None,
            w.file is None,
            w.wf(),
    {
        DaemonWorld { lock_holder: Option::None, file: Option::None }
    }

    /// One launch attempt: atomically, take the lock if it is free, fork,
    /// and let the child overwrite the file with its own pid record.
    pub fn spawn_attempt(&mut self, child: i32) -> (r: SpawnReport)
        requires
            old(self).wf(),
            0 < child,
        ensures
            final(self).wf(),
            ({
                let step = spawn_transition(old(self).holder_view(), child as int);
                final(self).holder_view() == step.0 && ((r matches SpawnReport::Spawned { .. })
                    <==> step.1)
            }),
            old(self).lock_holder is Some ==> r is AlreadyRunning && final(self).lock_holder
                == old(self).lock_holder && final(self).file_view() == old(self).file_view(),
            old(self).lock_holder is None ==> r == (SpawnReport::Spawned { child })
                && final(self).lock_holder == Option::Some(child) && final(self).file_view()
                == Option::Some(decimal_digits(child as int)),
    {
        match self.lock_holder {
            Option::Some(_) => SpawnReport::AlreadyRunning,
            Option::None => {
                self.lock_holder = Option::Some(child);
                self.file = Option::Some(pid_to_bytes(child));
                SpawnReport::Spawned { child }
            },
        }
    }

    /// While a daemon is alive, any stop attempt by another process finds
    /// it: the record held under the lock validates to exactly the live
    /// holder's pid, so the termination signal goes to the right process.
    pub proof fn lemma_live_daemon_is_found(self, own: int)
        requires
            self.wf(),
            self.lock_holder is Some,
            0 < own,
            own != self.lock_holder.unwrap() as int,
        ensures
            stop_decision_spec(self.file_view(), own) == (StopDecision::Signal {
                pid: self.lock_holder.unwrap(),
            }),
    {
        let p = self.lock_holder.unwrap();
        crate::pidfile::lemma_pid_record_round_trip(p as int, own);
    }

    /// One stop attempt by a process whose own pid is `own`. The decision is
    /// exactly `stop_decision_spec` on the file's content; a signaled pid
    /// receives the termination signal exactly when it is the live holder,
    /// whose exit releases the lock; the file is never deleted.
    pub fn stop_attempt(&mut self, own: i32) -> (r: StopReport)
        requires
            old(self).wf(),
            0 < own,
        ensures
            final(self).wf(),
            final(self).file_view() == old(self).file_view(),
            ({
                let d = stop_decision_spec(old(self).file_view(), own as int);
                match d {
                    StopDecision::NotRunning => r is NotRunning && final(self).lock_holder
                        == old(self).lock_holder,
                    StopDecision::Corrupt { err } => r == (StopReport::Corrupt { err })
                        && final(self).lock_holder == old(self).lock_holder,
                    StopDecision::Signal { pid } => r == (StopReport::Stopped { pid })
                        && final(self).lock_holder == (if old(self).lock_holder
                        == Option::Some(pid) {
                        Option::<i32>::None
                    } else {
                        old(self).lock_holder
                    }),
                }
            }),
    {
        match &self.file {
            Option::None => StopReport::NotRunning,
            Option::Some(c) => {
                match parse_pid(c.as_slice(), own) {
                    Result::Err(e) => StopReport::Corrupt { err: e },
                    Result::Ok(p) => {
                        match self.lock_holder {
                            Option::Some(h) => {
                                if h == p {
                                    // the daemon gets the signal and exits;
                                    // the OS releases the lock with it
                                    self.lock_holder = Option::None;
                                    StopReport::Stopped { pid: p }
                                } else {
                                    // no such process: already gone
                                    StopReport::Stopped { pid: p }
                                }
                            },
                            Option::None => {
                                // no such process: already gone
                                StopReport::Stopped { pid: p }
                            },
                        }
                    },
                }
            },
        }
    }
}

} // verus!
