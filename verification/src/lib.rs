//! Singleton-daemon lifecycle library.
//!
//! At most one background daemon of this kind runs at a time on a machine.
//! The protocol rests on a single well-known lock/pid file: a launcher takes
//! an exclusive advisory lock on it, forks, and the child records its own pid
//! in the file; a stopper reads the file, validates the recorded pid, and
//! sends a termination signal. This crate holds the verified core of that
//! protocol: the pid record's text format, the validation rules, the spawn
//! and stop decision logic, and a model of the whole lock protocol.

pub mod controller;
pub mod pidfile;
pub mod protocol;
pub mod stop;
pub mod sys;

use vstd::prelude::*;

use crate::controller::SpawnState;
use crate::stop::StopReport;

verus! {

/// Success.
pub const EXIT_OK: i32 = 0;

/// A fatal setup or corrupt-state error.
pub const EXIT_FATAL: i32 = 1;

/// A daemon is already running: expected contention, not an error.
pub const EXIT_ALREADY_RUNNING: i32 = 2;

/// No daemon is running: expected outcome of a stop with no file.
pub const EXIT_NOT_RUNNING: i32 = 3;

/// The exit code of a launch, from the controller's final state. Contention
/// and fatal setup errors get distinct non-zero codes.
pub fn spawn_exit_code(state: &SpawnState) -> (c: i32)
    ensures
        state is Forked ==> c == EXIT_OK,
        state is Rejected ==> c == EXIT_ALREADY_RUNNING,
        state is SetupFailed ==> c == EXIT_FATAL,
        state is Idle || state is LockAttempted ==> c == EXIT_FATAL,
        c == EXIT_OK <==> state is Forked,
{
    match state {
        SpawnState::Forked => EXIT_OK,
        SpawnState::Rejected => EXIT_ALREADY_RUNNING,
        _ => EXIT_FATAL,
    }
}

/// The exit code of a stop. "Not running" gets its own distinct non-zero
/// code; a delivery failure is only warned about, so the invocation still
/// exits successfully; corrupt state is fatal.
pub fn stop_exit_code(report: &StopReport) -> (c: i32)
    ensures
        report is NotRunning ==> c == EXIT_NOT_RUNNING,
        report matches StopReport::Corrupt { .. } ==> c == EXIT_FATAL,
        report matches StopReport::Stopped { .. } ==> c == EXIT_OK,
        report matches StopReport::DeliveryFailed { .. } ==> c == EXIT_OK,
        c == EXIT_OK <==> (report matches StopReport::Stopped { .. } || report
            matches StopReport::DeliveryFailed { .. }),
{
    match report {
        StopReport::NotRunning => EXIT_NOT_RUNNING,
        StopReport::Corrupt { .. } => EXIT_FATAL,
        StopReport::Stopped { .. } => EXIT_OK,
        StopReport::DeliveryFailed { .. } => EXIT_OK,
    }
}

} // verus!
