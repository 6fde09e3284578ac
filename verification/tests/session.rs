//! Session state-machine behavior that needs no live target process.

use deet::debugger::ContinueReport;
use deet::debugger::Debugger;
use deet::debugger::LaunchReport;
use deet::debugger::QuitReport;
use deet::debugger::RunPrep;
use deet::inferior::Inferior;
use deet::status::Status;
use deet::status::WaitError;
use deet::status::WaitEvent;
use deet::status::accepts_launch;
use deet::status::is_terminal;
use deet::status::status_of_event;

/// A pid that is far above any plausible live pid, so that wait and kill
/// requests against it fail cleanly.
const NO_SUCH_PID: i32 = 99_999_999;

#[test]
fn new_session_owns_nothing_and_keeps_target() {
    let d = Debugger::new("/bin/true");
    assert!(!d.has_inferior());
    assert_eq!(d.target(), "/bin/true");
}

#[test]
fn continue_without_process_reports_no_program() {
    let mut d = Debugger::new("/bin/true");
    for _ in 0..5 {
        assert_eq!(d.continue_execution(), ContinueReport::NoProcess);
        assert!(!d.has_inferior());
        assert_eq!(d.target(), "/bin/true");
    }
}

#[test]
fn quit_without_process_ends_immediately() {
    let mut d = Debugger::new("/bin/true");
    assert_eq!(d.quit(), QuitReport::Ended);
    assert!(!d.has_inferior());
}

#[test]
fn prepare_run_without_process_is_ready() {
    let mut d = Debugger::new("/bin/true");
    assert_eq!(d.prepare_run(), RunPrep::Ready);
    assert!(!d.has_inferior());
}

#[test]
fn failed_spawn_leaves_no_owned_process() {
    let mut d = Debugger::new("/no/such/executable");
    assert_eq!(d.prepare_run(), RunPrep::Ready);
    assert_eq!(d.create_inferior(None), LaunchReport::Failed);
    assert!(!d.has_inferior());
    assert_eq!(d.continue_execution(), ContinueReport::NoProcess);
}

#[test]
fn launch_with_unknown_pid_fails() {
    // The initial wait on a pid that is not a child of this process fails,
    // so the launch is rejected and nothing is owned.
    assert!(Inferior::new(NO_SUCH_PID).is_none());
}

#[test]
fn session_launch_with_unknown_pid_fails() {
    let mut d = Debugger::new("/bin/true");
    assert_eq!(d.create_inferior(Some(NO_SUCH_PID)), LaunchReport::Failed);
    assert!(!d.has_inferior());
}

#[test]
fn status_of_event_maps_exit_code() {
    assert_eq!(status_of_event(WaitEvent::Exited(0), 0), Ok(Status::Exited(0)));
    assert_eq!(status_of_event(WaitEvent::Exited(3), 7), Ok(Status::Exited(3)));
}

#[test]
fn status_of_event_maps_stop_with_instruction_pointer() {
    assert_eq!(
        status_of_event(WaitEvent::Stopped(5), 0x1234),
        Ok(Status::Stopped(5, 0x1234))
    );
    assert_eq!(
        status_of_event(WaitEvent::Stopped(19), 42),
        Ok(Status::Stopped(19, 42))
    );
}

#[test]
fn status_of_event_maps_termination_signal() {
    assert_eq!(status_of_event(WaitEvent::Signaled(9), 1), Ok(Status::Signaled(9)));
}

#[test]
fn status_of_event_rejects_unmodeled() {
    assert_eq!(
        status_of_event(WaitEvent::Unmodeled, 0),
        Err::<Status, WaitError>(WaitError::Unmodeled)
    );
}

#[test]
fn only_a_trap_stop_is_accepted_as_launch() {
    assert!(accepts_launch(&Status::Stopped(5, 0)));
    assert!(!accepts_launch(&Status::Stopped(19, 0)));
    assert!(!accepts_launch(&Status::Exited(0)));
    assert!(!accepts_launch(&Status::Signaled(5)));
}

#[test]
fn terminal_statuses_are_exit_and_signal() {
    assert!(is_terminal(&Status::Exited(0)));
    assert!(is_terminal(&Status::Signaled(9)));
    assert!(!is_terminal(&Status::Stopped(5, 0)));
}
