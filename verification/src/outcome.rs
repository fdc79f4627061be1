//! Outcomes: what an attempted run of the external tool produced, and the
//! one rule that turns it into success or a structured error.
//!
//! The rule is shared by every operation: a process that exited with status
//! zero is success; any other exit is a failure carrying the process's
//! standard-error text verbatim; a process that could not be started at all
//! is a failure carrying the operating system's diagnostic.

use vstd::prelude::*;
use vstd::string::StringExecFns;

verus! {

/// What became of one attempted run of the external tool.  The caller, who
/// actually spawns the process, reports back in these terms.
pub enum RunOutcome {
    /// The process was spawned and ran to completion.  `exit_zero` says
    /// whether its exit status was zero; `stderr` is its captured
    /// standard-error text.
    Completed { exit_zero: bool, stderr: String },
    /// The executable could not be started (not found, permission denied,
    /// ...); `message` is the operating system's diagnostic.
    SpawnError { message: String },
}

/// The class of a failure, so that callers can branch on it instead of
/// parsing message text.
#[derive(Clone, Copy, Debug, PartialEq, Eq, Structural)]
pub enum ErrorKind {
    /// The external executable could not be started.
    SpawnFailure,
    /// The external process ran but exited with a non-zero status.
    NonZeroExit,
    /// A caller-supplied input was rejected before anything was spawned.
    PreconditionFailure,
}

/// A failed operation: its class, and the raw diagnostic text — the
/// process's standard error, the spawn error, or the rejected input's
/// description — kept verbatim.
#[derive(Debug)]
pub struct StoreError {
    pub kind: ErrorKind,
    pub detail: String,
}

/// Which operation was attempted; it selects the wording of the rendered
/// error message.
#[derive(Clone, Copy, Debug, PartialEq, Eq, Structural)]
pub enum Operation {
    Retrieve,
    Upload,
    Delete,
}

/// The fixed prefix that `describe` puts before the raw diagnostic text: one
/// wording for a failed spawn, one per operation for a non-zero exit, and
/// none for a rejected input, whose diagnostic already is the whole message.
pub open spec fn error_prefix(kind: ErrorKind, op: Operation) -> Seq<char> {
    match kind {
        ErrorKind::SpawnFailure => "Failed to invoke OCI CLI: "@,
        ErrorKind::NonZeroExit => match op {
            Operation::Retrieve => "Error retrieving objects: "@,
            Operation::Upload => "Error uploading objects: "@,
            Operation::Delete => "Error deleting object: "@,
        },
        ErrorKind::PreconditionFailure => ""@,
    }
}

impl StoreError {
    /// Renders the failure as one human-readable line: the fixed prefix for
    /// its class and the attempted operation, then the raw diagnostic text
    /// verbatim.
    pub fn describe(&self, op: Operation) -> (r: String)
        ensures
            r@ == error_prefix(self.kind, op) + self.detail@,
    {
        let prefix: &str = match self.kind {
            ErrorKind::SpawnFailure => "Failed to invoke OCI CLI: ",
            ErrorKind::NonZeroExit => match op {
                Operation::Retrieve => "Error retrieving objects: ",
                Operation::Upload => "Error uploading objects: ",
                Operation::Delete => "Error deleting object: ",
            },
            ErrorKind::PreconditionFailure => "",
        };
        String::from_str(prefix).concat(self.detail.as_str())
    }
}

/// Applies the shared success rule to a finished attempt: exit status zero
/// is success and nothing else is, a non-zero exit carries the standard
/// error verbatim, and a failed spawn carries the system's diagnostic.
pub fn interpret_outcome(outcome: RunOutcome) -> (r: Result<(), StoreError>)
    ensures
        r is Ok <==> outcome matches RunOutcome::Completed { exit_zero: true, .. },
        outcome matches RunOutcome::Completed { exit_zero: false, stderr } ==> (r matches Err(e)
            && e.kind == ErrorKind::NonZeroExit && e.detail@ == stderr@),
        outcome matches RunOutcome::SpawnError { message } ==> (r matches Err(e) && e.kind
            == ErrorKind::SpawnFailure && e.detail@ == message@),
{
    match outcome {
        RunOutcome::Completed { exit_zero: true, stderr: _ } => Ok(()),
        RunOutcome::Completed { exit_zero: false, stderr } => Err(
            StoreError { kind: ErrorKind::NonZeroExit, detail: stderr },
        ),
        RunOutcome::SpawnError { message } => Err(
            StoreError { kind: ErrorKind::SpawnFailure, detail: message },
        ),
    }
}

/// Applies the shared success rule and, on failure, renders the message for
/// the attempted operation — the whole tail that the three operations have
/// in common once their invocation has been run.
pub fn finish_operation(op: Operation, outcome: RunOutcome) -> (r: Result<(), String>)
    ensures
        r is Ok <==> outcome matches RunOutcome::Completed { exit_zero: true, .. },
        outcome matches RunOutcome::Completed { exit_zero: false, stderr } ==> (r matches Err(m)
            && m@ == error_prefix(ErrorKind::NonZeroExit, op) + stderr@),
        outcome matches RunOutcome::SpawnError { message } ==> (r matches Err(m) && m@
            == error_prefix(ErrorKind::SpawnFailure, op) + message@),
{
    match interpret_outcome(outcome) {
        Ok(()) => Ok(()),
        Err(e) => Err(e.describe(op)),
    }
}

} // verus!
