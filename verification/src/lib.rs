//! A minimal interactive process debugger core.
//!
//! The library pairs a traced-process lifecycle manager ([`inferior`]) with a
//! debugger session state machine ([`debugger`]). A session owns at most one
//! traced process at a time and serializes the operator's commands against it:
//! start or replace the target, let it continue to its next stop, or quit.
//! The OS process-tracing facility is reached through the narrow trusted
//! wrappers in [`trace`]; everything above them is verified.

pub mod debugger;
pub mod inferior;
pub mod status;
pub mod trace;
