//! The traced-process lifecycle manager.
//!
//! An [`Inferior`] owns one OS child process that runs under trace control.
//! It exists only while the underlying process is running-under-trace or
//! stopped-under-trace: once a wait reports a terminal status, no further
//! continue or kill operation is valid against it, and the owner must drop
//! the handle.

use vstd::prelude::*;

use crate::status::Status;
use crate::status::WaitError;
use crate::status::WaitEvent;
use crate::status::accepts_launch;
use crate::status::status_of_event;
use crate::trace;

verus! {

/// Option for one wait query.
#[derive(Clone, Copy, Debug, PartialEq, Eq, Structural)]
pub enum WaitFlag {
    /// Poll instead of blocking: report a no-change result at once.
    NoHang,
}

/// An owned OS child process under trace control, identified by its pid.
pub struct Inferior {
    pid: i32,
}

impl Inferior {
    /// The identifier of the owned OS process.
    pub closed spec fn pid_spec(&self) -> i32 {
        self.pid
    }

    /// Completes the launch of a child that was spawned with
    /// trace-enablement requested before its program image was loaded.
    ///
    /// Performs the initial wait on `pid`. The launch is accepted only when
    /// that wait reports a stop with the post-exec trace trap; any other
    /// stop, an immediate exit or termination, or a failed wait is a launch
    /// failure. On a failure that may leave the child running, the child is
    /// killed and reaped before returning, so that no OS process leaks.
    pub fn new(pid: i32) -> (r: Option<Inferior>)
        ensures
            r matches Some(inferior) ==> inferior.pid_spec() == pid,
    {
        let inferior = Inferior { pid };
        match inferior.wait(None) {
            Result::Ok(status) => {
                if accepts_launch(&status) {
                    Some(inferior)
                } else {
                    if !crate::status::is_terminal(&status) {
                        inferior.dispose();
                    }
                    None
                }
            },
            Result::Err(_) => {
                inferior.dispose();
                None
            },
        }
    }

    /// Best-effort cleanup of a child whose launch was not accepted: kill
    /// it, then reap it. Outcomes are ignored; the handle is given up either
    /// way.
    fn dispose(&self) {
        let killed = trace::kill_process(self.pid);
        if killed.is_ok() {
            let _reaped = trace::wait_for_event(self.pid, false);
        }
    }

    /// The pid of this inferior.
    pub fn pid(&self) -> (r: i32)
        ensures
            r == self.pid_spec(),
    {
        self.pid
    }

    /// Queries the OS for a change in the traced process's state, blocking
    /// by default or polling under [`WaitFlag::NoHang`], and maps the report
    /// to a [`Status`]. For a stop, additionally reads the process's
    /// register state to obtain the instruction pointer. Which status comes
    /// back is decided by the OS; [`status_of_event`] states exactly how
    /// each report is mapped.
    pub fn wait(&self, options: Option<WaitFlag>) -> (r: Result<Status, WaitError>) {
        let nohang = options.is_some();
        match trace::wait_for_event(self.pid, nohang) {
            Result::Ok(event) => {
                let instruction_pointer: usize = match &event {
                    WaitEvent::Stopped(_) => {
                        match trace::read_instruction_pointer(self.pid) {
                            Result::Ok(ip) => ip,
                            Result::Err(e) => {
                                return Result::Err(WaitError::Os(e));
                            },
                        }
                    },
                    _ => 0,
                };
                status_of_event(event, instruction_pointer)
            },
            Result::Err(e) => Result::Err(WaitError::Os(e)),
        }
    }

    /// Instructs the OS to let the traced process continue execution, then
    /// performs a blocking wait and returns its result. The caller is
    /// responsible for invoking this only while the process is stopped under
    /// trace. Fails with the OS error when the resume request itself cannot
    /// be delivered.
    pub fn cont_process(&self) -> (r: Result<Status, WaitError>) {
        match trace::resume_tracee(self.pid) {
            Result::Ok(()) => self.wait(None),
            Result::Err(e) => Result::Err(WaitError::Os(e)),
        }
    }

    /// Sends a forcible-kill request to the process, then performs a final
    /// blocking wait to reap it, returning the reaped status. Succeeds only
    /// while the process is still alive: on an already-reaped process the
    /// kill request fails with the OS error.
    pub fn kill(&self) -> (r: Result<Status, WaitError>) {
        match trace::kill_process(self.pid) {
            Result::Ok(()) => self.wait(None),
            Result::Err(e) => Result::Err(WaitError::Os(e)),
        }
    }

    /// Queries the current instruction pointer of the stopped process, for
    /// the caller to display. No state change.
    pub fn print_backtrace(&self) -> (r: Result<usize, WaitError>) {
        match trace::read_instruction_pointer(self.pid) {
            Result::Ok(ip) => Result::Ok(ip),
            Result::Err(e) => Result::Err(WaitError::Os(e)),
        }
    }
}

} // verus!
