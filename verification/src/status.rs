//! The typed view of what one wait query on a traced process reported.

use vstd::prelude::*;

verus! {

/// Signal number of the trap a traced process receives immediately after it
/// loads a new program image. An initial stop with this signal means trace
/// initialization succeeded; it is a stop to swallow, not a fault to report.
pub const TRAP_SIGNAL: i32 = 5;

/// The state of a traced process after one wait operation.
///
/// Exactly one variant is produced per wait call.
#[derive(Clone, Copy, Debug, PartialEq, Eq, Structural)]
pub enum Status {
    /// The process is paused under trace control: the signal that stopped it,
    /// and the instruction pointer at the stop point.
    Stopped(i32, usize),
    /// The process terminated normally with the given exit code.
    Exited(i32),
    /// The process was terminated by the given uncaught signal.
    Signaled(i32),
}

/// Why a wait operation produced no [`Status`].
#[derive(Clone, Copy, Debug, PartialEq, Eq, Structural)]
pub enum WaitError {
    /// The OS query itself failed; carries the error number it gave.
    Os(i32),
    /// The OS reported a status category this design does not model
    /// (for example, a trace event stop or a no-change poll result).
    Unmodeled,
}

/// What the OS reported for one wait query, before the instruction pointer
/// is attached to a stop.
#[derive(Clone, Copy, Debug, PartialEq, Eq, Structural)]
pub enum WaitEvent {
    /// Normal termination with the given exit code.
    Exited(i32),
    /// Termination by the given uncaught signal.
    Signaled(i32),
    /// Stopped by the given signal.
    Stopped(i32),
    /// A status category outside this design's model.
    Unmodeled,
}

/// True for the statuses after which no continue or kill operation is valid:
/// the underlying OS process no longer exists, so a session must drop its
/// handle upon seeing one of these.
pub open spec fn status_is_terminal(status: Status) -> bool {
    status is Exited || status is Signaled
}

/// Exec twin of [`status_is_terminal`].
pub fn is_terminal(status: &Status) -> (r: bool)
    ensures
        r == status_is_terminal(*status),
{
    match status {
        Status::Stopped(_, _) => false,
        Status::Exited(_) => true,
        Status::Signaled(_) => true,
    }
}

/// True exactly when an initial stop is the expected post-exec trace trap,
/// i.e. when a launch may be accepted.
pub open spec fn is_launch_trap(status: Status) -> bool {
    status matches Status::Stopped(signal, _) && signal == TRAP_SIGNAL
}

/// Exec twin of [`is_launch_trap`].
pub fn accepts_launch(status: &Status) -> (r: bool)
    ensures
        r == is_launch_trap(*status),
{
    match status {
        Status::Stopped(signal, _) => *signal == TRAP_SIGNAL,
        _ => false,
    }
}

/// Turns the raw report of one wait query into a [`Status`].
///
/// `instruction_pointer` is the program counter read from the stopped
/// process; it is consulted only for a stop event.
pub fn status_of_event(event: WaitEvent, instruction_pointer: usize) -> (r: Result<
    Status,
    WaitError,
>)
    ensures
        event matches WaitEvent::Exited(code) ==> r == Result::<Status, WaitError>::Ok(
            Status::Exited(code),
        ),
        event matches WaitEvent::Signaled(signal) ==> r == Result::<Status, WaitError>::Ok(
            Status::Signaled(signal),
        ),
        event matches WaitEvent::Stopped(signal) ==> r == Result::<Status, WaitError>::Ok(
            Status::Stopped(signal, instruction_pointer),
        ),
        event is Unmodeled ==> r == Result::<Status, WaitError>::Err(WaitError::Unmodeled),
        r is Err <==> event is Unmodeled,
{
    match event {
        WaitEvent::Exited(code) => Result::Ok(Status::Exited(code)),
        WaitEvent::Signaled(signal) => Result::Ok(Status::Signaled(signal)),
        WaitEvent::Stopped(signal) => Result::Ok(Status::Stopped(signal, instruction_pointer)),
        WaitEvent::Unmodeled => Result::Err(WaitError::Unmodeled),
    }
}

} // verus!
