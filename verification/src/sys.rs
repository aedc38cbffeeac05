//! Trusted boundary to the operating system's process primitives.
//!
//! The stop path needs two things from the OS: the calling process's own pid
//! (to refuse a record naming itself) and one-shot delivery of a termination
//! signal. Everything decided from their results is verified elsewhere.

use vstd::prelude::*;

verus! {

/// Outcome of attempting to deliver a termination signal.
#[derive(Clone, Copy, Debug, PartialEq, Eq, Structural)]
pub enum SignalOutcome {
    /// The signal was handed to the OS for the addressed process.
    Delivered,
    /// The OS reports that no such process exists.
    NoSuchProcess,
    /// Delivery failed for another reason (for instance, no permission).
    Failed,
}

/// Relies on nix::unistd::getpid: returns the calling process's pid; getpid
/// always succeeds and a pid is strictly positive.
#[verifier::external_body]
pub fn current_pid() -> (r: i32)
    ensures
        0 < r,
{
    nix::unistd::getpid().as_raw()
}

/// Relies on nix::sys::signal::kill: delivers SIGTERM to the process `pid`;
/// `Err(Errno::ESRCH)` means no process with that pid exists. A strictly
/// positive pid addresses one process, never a process group.
#[verifier::external_body]
pub fn send_sigterm(pid: i32) -> (r: SignalOutcome)
    requires
        0 < pid,
{
    match nix::sys::signal::kill(nix::unistd::Pid::from_raw(pid), nix::sys::signal::Signal::SIGTERM)
    {
        Ok(()) => SignalOutcome::Delivered,
        Err(nix::errno::Errno::ESRCH) => SignalOutcome::NoSuchProcess,
        Err(_) => SignalOutcome::Failed,
    }
}

} // verus!
