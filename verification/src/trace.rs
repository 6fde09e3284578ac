//! Trusted wrappers around the OS process-tracing facility.
//!
//! Each wrapper makes exactly one call into the `nix` crate on a plain
//! process id and converts the outcome to plain values. What the OS reports
//! depends on the state of the machine, so the wrappers promise nothing of
//! which outcome comes back; the verified callers state what holds for every
//! outcome.

use vstd::prelude::*;

use crate::status::WaitEvent;

verus! {

/// Relies on nix::sys::wait::waitpid: blocks (or, with `nohang`, polls) for
/// one status change of the child `pid` and reports it; termination reports
/// also reap the child. Each modeled variant of the report is carried over
/// with its signal number or exit code; the rest map to `Unmodeled`. An
/// error carries the OS error number.
#[verifier::external_body]
pub(crate) fn wait_for_event(pid: i32, nohang: bool) -> (r: Result<WaitEvent, i32>) {
    let options = if nohang {
        Some(nix::sys::wait::WaitPidFlag::WNOHANG)
    } else {
        None
    };
    match nix::sys::wait::waitpid(nix::unistd::Pid::from_raw(pid), options) {
        Ok(nix::sys::wait::WaitStatus::Exited(_, code)) => Ok(WaitEvent::Exited(code)),
        Ok(nix::sys::wait::WaitStatus::Signaled(_, signal, _)) => Ok(
            WaitEvent::Signaled(signal as i32),
        ),
        Ok(nix::sys::wait::WaitStatus::Stopped(_, signal)) => Ok(WaitEvent::Stopped(signal as i32)),
        Ok(_) => Ok(WaitEvent::Unmodeled),
        Err(e) => Err(e as i32),
    }
}

/// Relies on nix::sys::ptrace::getregs: reads the register state of the
/// ptrace-stopped tracee `pid` and hands out its instruction pointer. The
/// value is machine state, so nothing is promised of it. An error carries
/// the OS error number.
#[verifier::external_body]
pub(crate) fn read_instruction_pointer(pid: i32) -> (r: Result<usize, i32>) {
    match nix::sys::ptrace::getregs(nix::unistd::Pid::from_raw(pid)) {
        Ok(regs) => Ok(regs.rip as usize),
        Err(e) => Err(e as i32),
    }
}

/// Relies on nix::sys::ptrace::cont: asks the OS to let the ptrace-stopped
/// tracee `pid` resume execution, with no signal injected. Success means
/// only that the request was delivered; an error carries the OS error
/// number.
#[verifier::external_body]
pub(crate) fn resume_tracee(pid: i32) -> (r: Result<(), i32>) {
    match nix::sys::ptrace::cont(nix::unistd::Pid::from_raw(pid), None) {
        Ok(()) => Ok(()),
        Err(e) => Err(e as i32),
    }
}

/// Relies on nix::sys::signal::kill with SIGKILL: sends the uncatchable kill
/// signal to the process `pid`. Success means the signal was delivered (the
/// process existed); it does not by itself reap the process. An error
/// carries the OS error number.
#[verifier::external_body]
pub(crate) fn kill_process(pid: i32) -> (r: Result<(), i32>) {
    match nix::sys::signal::kill(
        nix::unistd::Pid::from_raw(pid),
        nix::sys::signal::Signal::SIGKILL,
    ) {
        Ok(()) => Ok(()),
        Err(e) => Err(e as i32),
    }
}

} // verus!
