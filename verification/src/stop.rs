//! The terminator: stopping the running daemon.
//!
//! The stop path reads the lock/pid file, validates its content, and only on
//! a validated pid sends a termination signal. A missing file is the expected
//! "not running" outcome; content that fails validation is corrupt state and
//! must never lead to a signal; a signal that finds no process means the
//! daemon was already gone, which counts as success (stop is idempotent).

use vstd::prelude::*;

use crate::pidfile::PidError;
use crate::pidfile::pid_parse_result;
use crate::pidfile::parse_pid;
use crate::pidfile::parsed_int;
use crate::sys::SignalOutcome;
use crate::sys::current_pid;
use crate::sys::send_sigterm;

verus! {

/// What the stop path decides from the file alone, before any signal is sent.
#[derive(Clone, Copy, Debug, PartialEq, Eq, Structural)]
pub enum StopDecision {
    /// No lock/pid file: no daemon has ever run here.
    NotRunning,
    /// The record failed validation: corrupt state, send nothing.
    Corrupt { err: PidError },
    /// The record validated to this pid: send it the termination signal.
    Signal { pid: i32 },
}

/// The final outcome the stop path reports to the user.
#[derive(Clone, Copy, Debug, PartialEq, Eq, Structural)]
pub enum StopReport {
    /// No lock/pid file: expected outcome, distinct non-zero exit code.
    NotRunning,
    /// The record failed validation: fatal, nothing was signaled.
    Corrupt { err: PidError },
    /// The signal was delivered, or the process was already gone.
    Stopped { pid: i32 },
    /// Delivery failed for another reason: warned, but the invocation
    /// still exits normally.
    DeliveryFailed { pid: i32 },
}

pub open spec fn content_view(c: Option<&[u8]>) -> Option<Seq<u8>> {
    match c {
        Option::None => Option::None,
        Option::Some(s) => Option::Some(s@),
    }
}

/// The complete decision rule of the stop path, over the file's content and
/// the reader's own pid.
pub open spec fn stop_decision_spec(content: Option<Seq<u8>>, own: int) -> StopDecision {
    match content {
        Option::None => StopDecision::NotRunning,
        Option::Some(c) => match pid_parse_result(c, own) {
            Result::Err(e) => StopDecision::Corrupt { err: e },
            Result::Ok(p) => StopDecision::Signal { pid: p as i32 },
        },
    }
}

/// Decide what stop does, from the file content alone. A missing file is
/// "not running"; invalid content is corrupt state; only a validated pid is
/// ever selected for signaling.
pub fn stop_decision(content: Option<&[u8]>, own: i32) -> (d: StopDecision)
    ensures
        d == stop_decision_spec(content_view(content), own as int),
        d is NotRunning <==> content is None,
        d matches StopDecision::Signal { pid } ==> content matches Option::Some(c)
            && pid_parse_result(c@, own as int) == Result::<int, PidError>::Ok(pid as int) && 0
            < pid,
{
    match content {
        Option::None => StopDecision::NotRunning,
        Option::Some(c) => match parse_pid(c, own) {
            Result::Err(e) => StopDecision::Corrupt { err: e },
            Result::Ok(p) => StopDecision::Signal { pid: p },
        },
    }
}

/// Classify the outcome of signal delivery. "No such process" counts as a
/// successful stop: the daemon was already gone, and stop is idempotent.
/// Any other failure is a warning, not an error.
pub fn classify_delivery(pid: i32, outcome: SignalOutcome) -> (r: StopReport)
    ensures
        outcome is Delivered ==> r == (StopReport::Stopped { pid }),
        outcome is NoSuchProcess ==> r == (StopReport::Stopped { pid }),
        outcome is Failed ==> r == (StopReport::DeliveryFailed { pid }),
{
    match outcome {
        SignalOutcome::Delivered => StopReport::Stopped { pid },
        SignalOutcome::NoSuchProcess => StopReport::Stopped { pid },
        SignalOutcome::Failed => StopReport::DeliveryFailed { pid },
    }
}

/// Whether `r` is a report the stop path may give for this content, read by
/// a process whose own pid is `own`. Which of the two delivery reports comes
/// back depends on the OS alone.
pub open spec fn stop_report_matches(content: Option<Seq<u8>>, own: int, r: StopReport) -> bool {
    match content {
        Option::None => r is NotRunning,
        Option::Some(c) => match pid_parse_result(c, own) {
            Result::Err(e) => r == (StopReport::Corrupt { err: e }),
            Result::Ok(p) => r == (StopReport::Stopped { pid: p as i32 }) || r == (
            StopReport::DeliveryFailed { pid: p as i32 }),
        },
    }
}

/// The whole stop path: validate the record read from the lock/pid file and,
/// only on a validated pid, send the termination signal. The reader's own
/// pid comes from the OS, so the contract holds for that (positive) pid.
pub fn kill_running(content: Option<&[u8]>) -> (r: StopReport)
    ensures
        r is NotRunning <==> content is None,
        exists|own: int| 0 < own && stop_report_matches(content_view(content), own, r),
        r matches StopReport::Stopped { pid } ==> content matches Option::Some(c)
            && parsed_int(c@) == Option::Some(pid as int) && 0 < pid,
        r matches StopReport::DeliveryFailed { pid } ==> content matches Option::Some(c)
            && parsed_int(c@) == Option::Some(pid as int) && 0 < pid,
{
    match content {
        Option::None => {
            let ghost own: int = 1;
            assert(0 < own && stop_report_matches(
                content_view(content),
                own,
                StopReport::NotRunning,
            ));
            StopReport::NotRunning
        },
        Option::Some(c) => {
            let own = current_pid();
            match parse_pid(c, own) {
                Result::Err(e) => {
                    assert(stop_report_matches(
                        content_view(content),
                        own as int,
                        StopReport::Corrupt { err: e },
                    ));
                    StopReport::Corrupt { err: e }
                },
                Result::Ok(p) => {
                    let outcome = send_sigterm(p);
                    let r = classify_delivery(p, outcome);
                    assert(stop_report_matches(content_view(content), own as int, r));
                    r
                },
            }
        },
    }
}

} // verus!
