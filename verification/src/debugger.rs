//! The debugger session state machine.
//!
//! A [`Debugger`] owns zero or one [`Inferior`] and serializes the
//! operator's commands against it. Each command handler returns a report
//! value for the caller to render; the handlers themselves perform no
//! input or output.
//!
//! A terminal status observed from the owned process (it exited or was
//! killed by a signal) clears the owned handle at once: the underlying OS
//! process no longer exists, so keeping the handle would invite operations
//! on a reaped process. A failed wait, by contrast, leaves the handle in
//! place as-is; the process's state is then unknown, and dropping the
//! handle would silently lose track of a possibly-still-running process.

use vstd::prelude::*;

use crate::inferior::Inferior;
use crate::status::Status;
use crate::status::WaitError;
use crate::status::status_is_terminal;

verus! {

/// Outcome of clearing the way for a new launch.
#[derive(Clone, Copy, Debug, PartialEq, Eq, Structural)]
pub enum RunPrep {
    /// No process was owned; the launch may proceed.
    Ready,
    /// The owned process with this pid was killed and reaped; the launch
    /// may proceed.
    ReplacedKilled(i32),
    /// Killing the owned process with this pid failed with this error; the
    /// handle is kept and the launch must not proceed.
    KillFailed(i32, WaitError),
}

/// Outcome of adopting a freshly spawned child.
#[derive(Clone, Copy, Debug, PartialEq, Eq, Structural)]
pub enum LaunchReport {
    /// The process was launched and resumed once; this is the first status
    /// it then reported. On a terminal status the handle was dropped again.
    Started(Status),
    /// The process was launched and is owned, but resuming it failed; its
    /// state is unknown.
    ResumeFailed(WaitError),
    /// The process could not be started; nothing is owned.
    Failed,
}

/// Outcome of the `continue` command.
#[derive(Clone, Copy, Debug, PartialEq, Eq, Structural)]
pub enum ContinueReport {
    /// The owned process was resumed and this is the status it then
    /// reported. On a terminal status the handle was dropped.
    Resumed(Status),
    /// Resuming or waiting failed; the handle is kept as-is.
    WaitFailed(WaitError),
    /// No process is owned: nothing to continue, no state change.
    NoProcess,
}

/// Outcome of the `quit` command.
#[derive(Clone, Copy, Debug, PartialEq, Eq, Structural)]
pub enum QuitReport {
    /// No process was owned; the session ends immediately.
    Ended,
    /// The owned process with this pid was killed and reaped; the session
    /// ends.
    EndedKilled(i32),
    /// Killing the owned process with this pid failed with this error; the
    /// handle is kept and the session continues.
    KillFailed(i32, WaitError),
}

/// True for the quit outcomes on which the session ends.
pub open spec fn quit_ends_session(report: QuitReport) -> bool {
    report is Ended || report is EndedKilled
}

/// A debugger session: an immutable target executable path and at most one
/// owned traced process.
pub struct Debugger {
    target: String,
    inferior: Option<Inferior>,
}

impl Debugger {
    /// The target executable path, fixed at construction.
    pub closed spec fn target_spec(&self) -> Seq<char> {
        self.target@
    }

    /// Whether the session currently owns a traced process.
    pub closed spec fn owns_process(&self) -> bool {
        self.inferior is Some
    }

    /// The pid of the owned traced process (meaningful only while one is
    /// owned).
    pub closed spec fn owned_pid(&self) -> i32 {
        self.inferior.unwrap().pid_spec()
    }

    /// Creates a session for the given target, owning no process.
    pub fn new(target: &str) -> (r: Debugger)
        ensures
            r.target_spec() == target@,
            !r.owns_process(),
    {
        broadcast use vstd::string::to_string_from_display_ensures_for_str;

        Debugger { target: target.to_string(), inferior: None }
    }

    /// The target executable path.
    pub fn target(&self) -> (r: &String)
        ensures
            r@ == self.target_spec(),
    {
        &self.target
    }

    /// Exec twin of [`Self::owns_process`].
    pub fn has_inferior(&self) -> (r: bool)
        ensures
            r == self.owns_process(),
    {
        self.inferior.is_some()
    }

    /// The `run` command, first half: clear the way for a new launch.
    ///
    /// If a process is owned, attempts to kill it. On success the handle is
    /// dropped and the launch may proceed; on failure the handle stays in
    /// place and the launch is blocked, so that the session does not lose
    /// track of a possibly-still-running process. With no owned process the
    /// launch may proceed at once.
    pub fn prepare_run(&mut self) -> (r: RunPrep)
        ensures
            final(self).target_spec() == old(self).target_spec(),
            r is Ready <==> !old(self).owns_process(),
            !old(self).owns_process() ==> r == RunPrep::Ready && *final(self) == *old(self),
            r matches RunPrep::ReplacedKilled(pid) ==> old(self).owns_process() && pid == old(self).owned_pid() && !final(self).owns_process(),
            r matches RunPrep::KillFailed(pid, _) ==> old(self).owns_process() && pid == old(self).owned_pid() && *final(self) == *old(self),
            r is Ready || r is ReplacedKilled ==> !final(self).owns_process(),
    {
        if self.inferior.is_some() {
            let inferior = self.inferior.take().unwrap();
            let pid = inferior.pid();
            match inferior.kill() {
                Result::Ok(_) => RunPrep::ReplacedKilled(pid),
                Result::Err(e) => {
                    self.inferior = Some(inferior);
                    RunPrep::KillFailed(pid, e)
                },
            }
        } else {
            RunPrep::Ready
        }
    }

    /// The `run` command, second half: adopt the outcome of spawning the
    /// target under trace control.
    ///
    /// `spawned` is the pid of the freshly spawned child, or `None` when
    /// the spawn itself failed. A spawned child is accepted through
    /// [`Inferior::new`] (initial wait, trap check) and, on acceptance,
    /// immediately resumed once, so that the operator sees it run until its
    /// first natural stop or exit rather than sitting at the entry trap.
    /// On any launch failure the session is left with no owned process.
    pub fn create_inferior(&mut self, spawned: Option<i32>) -> (r: LaunchReport)
        requires
            !old(self).owns_process(),
        ensures
            final(self).target_spec() == old(self).target_spec(),
            spawned is None ==> r == LaunchReport::Failed && *final(self) == *old(self),
            r == LaunchReport::Failed ==> !final(self).owns_process(),
            r matches LaunchReport::Started(status) ==> {
                &&& spawned is Some
                &&& status_is_terminal(status) <==> !final(self).owns_process()
                &&& !status_is_terminal(status) ==> final(self).owned_pid() == spawned.unwrap()
            },
            r matches LaunchReport::ResumeFailed(_) ==> spawned is Some && final(self).owns_process() && final(self).owned_pid() == spawned.unwrap(),
    {
        match spawned {
            None => LaunchReport::Failed,
            Some(pid) => {
                match Inferior::new(pid) {
                    None => LaunchReport::Failed,
                    Some(inferior) => {
                        let resumed = inferior.cont_process();
                        match resumed {
                            Result::Ok(status) => {
                                if !crate::status::is_terminal(&status) {
                                    self.inferior = Some(inferior);
                                }
                                LaunchReport::Started(status)
                            },
                            Result::Err(e) => {
                                self.inferior = Some(inferior);
                                LaunchReport::ResumeFailed(e)
                            },
                        }
                    },
                }
            },
        }
    }

    /// The `continue` command: resume the owned process and report the
    /// status it then delivers.
    ///
    /// With no owned process, reports [`ContinueReport::NoProcess`] and
    /// changes nothing, however often it is called. A terminal status drops
    /// the handle; a failed wait keeps it as-is.
    pub fn continue_execution(&mut self) -> (r: ContinueReport)
        ensures
            final(self).target_spec() == old(self).target_spec(),
            r is NoProcess <==> !old(self).owns_process(),
            !old(self).owns_process() ==> r == ContinueReport::NoProcess && *final(self) == *old(self),
            r matches ContinueReport::Resumed(status) ==> {
                &&& old(self).owns_process()
                &&& status_is_terminal(status) <==> !final(self).owns_process()
                &&& !status_is_terminal(status) ==> final(self).owned_pid() == old(self).owned_pid()
            },
            r matches ContinueReport::WaitFailed(_) ==> old(self).owns_process() && *final(self)
                == *old(self),
    {
        if self.inferior.is_some() {
            let inferior = self.inferior.take().unwrap();
            match inferior.cont_process() {
                Result::Ok(status) => {
                    if !crate::status::is_terminal(&status) {
                        self.inferior = Some(inferior);
                    }
                    ContinueReport::Resumed(status)
                },
                Result::Err(e) => {
                    self.inferior = Some(inferior);
                    ContinueReport::WaitFailed(e)
                },
            }
        } else {
            ContinueReport::NoProcess
        }
    }

    /// The `quit` command.
    ///
    /// With no owned process the session ends immediately, touching
    /// nothing. With an owned process, attempts to kill it: on success the
    /// handle is dropped and the session ends; on failure the handle and
    /// the session stay, for the operator to retry.
    pub fn quit(&mut self) -> (r: QuitReport)
        ensures
            final(self).target_spec() == old(self).target_spec(),
            !old(self).owns_process() ==> r == QuitReport::Ended && *final(self) == *old(self),
            r is Ended <==> !old(self).owns_process(),
            r matches QuitReport::EndedKilled(pid) ==> old(self).owns_process() && pid == old(self).owned_pid() && !final(self).owns_process(),
            r matches QuitReport::KillFailed(pid, _) ==> old(self).owns_process() && pid == old(self).owned_pid() && *final(self) == *old(self),
            quit_ends_session(r) ==> !final(self).owns_process(),
    {
        if self.inferior.is_some() {
            let inferior = self.inferior.take().unwrap();
            let pid = inferior.pid();
            match inferior.kill() {
                Result::Ok(_) => QuitReport::EndedKilled(pid),
                Result::Err(e) => {
                    self.inferior = Some(inferior);
                    QuitReport::KillFailed(pid, e)
                },
            }
        } else {
            QuitReport::Ended
        }
    }
}

} // verus!
