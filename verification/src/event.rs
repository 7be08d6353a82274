//! Event vocabulary: the low-level process lifecycle events a runner produces,
//! and the outward notifications the front end consumes, keyed by work id.

use vstd::prelude::*;

verus! {

/// How a finished process exited.
#[derive(Debug, Clone, PartialEq, Eq)]
pub struct ExitInfo {
    /// True when the process exited with a success status.
    pub success: bool,
}

/// Lifecycle events of one external process, as emitted by a runner.
#[derive(Debug, Clone, PartialEq, Eq)]
pub enum RunEvent {
    /// The process could not be spawned; carries the error message.
    ProcessCreationFailed(String),
    /// The process was spawned.
    ProcessCreated,
    /// One line of the process's standard output became available.
    ProcessNewOutputLine(String),
    /// The process exited, naturally or after a forced termination.
    ProcessEnd(ExitInfo),
}

/// Outward, front-end visible notifications. The `usize` is the id of the
/// work that produced the event, so the front end can attribute events from
/// concurrent workers.
#[derive(Debug, Clone, PartialEq, Eq)]
pub enum Event {
    RunStart(usize),
    RunEnd(usize),
    RunFail(usize, String),
    RunOutputLine(usize, String),
}

impl Event {
    /// The id of the work that produced this event.
    pub open spec fn id(self) -> usize {
        match self {
            Event::RunStart(id) => id,
            Event::RunEnd(id) => id,
            Event::RunFail(id, _) => id,
            Event::RunOutputLine(id, _) => id,
        }
    }
}

/// The kind of a unit of work.
#[derive(Debug, Clone, Copy, PartialEq, Eq)]
pub enum WorkType {
    Compiler,
    Launcher,
    Checker,
}

} // verus!
