//! The ways in which an execution fails.

use vstd::prelude::*;
use vstd::string::*;

verus! {

/// The classes of failure. None of them is retried by the engine: each is
/// final for its execution.
#[derive(Clone, Copy, Debug, PartialEq, Eq, Structural)]
pub enum FailureClass {
    /// The script holds a denied construct and was never run.
    SecurityViolation,
    /// The interpreter could not be started.
    SpawnFailure,
    /// The exchange with the child process broke its rules.
    ProtocolFailure,
    /// The run was killed at the user's request.
    Cancelled,
    /// No execution has the identifier that was asked for.
    NotFound,
    /// The request does not fit the state of the execution.
    Conflict,
}

/// A failure of the engine itself. A script that fails on its own account is
/// no such failure: it ends with an error payload.
#[derive(Clone, Debug, PartialEq, Eq)]
pub enum ExecutionError {
    /// The script matches a denied pattern.
    SecurityViolation { pattern: String },
    /// The interpreter could not be started.
    SpawnFailure { reason: String },
    /// Reading from or writing to the child process failed.
    Io { reason: String },
    /// The table could not be written as JSON.
    InputSerialization,
    /// The run succeeded and printed no result line.
    NoResultFound,
    /// The result line is not well-formed JSON.
    MalformedResult,
    /// The result line names no known kind of result.
    UnknownResultType,
    /// The run was cancelled.
    Cancelled,
    /// No execution has the identifier.
    NotFound,
    /// An execution with the identifier is registered already.
    IdInUse,
    /// The execution has ended already.
    AlreadyEnded,
}

impl ExecutionError {
    /// The class of the failure.
    pub open spec fn class_of(self) -> FailureClass {
        match self {
            ExecutionError::SecurityViolation { .. } => FailureClass::SecurityViolation,
            ExecutionError::SpawnFailure { .. } => FailureClass::SpawnFailure,
            ExecutionError::Io { .. } => FailureClass::ProtocolFailure,
            ExecutionError::InputSerialization => FailureClass::ProtocolFailure,
            ExecutionError::NoResultFound => FailureClass::ProtocolFailure,
            ExecutionError::MalformedResult => FailureClass::ProtocolFailure,
            ExecutionError::UnknownResultType => FailureClass::ProtocolFailure,
            ExecutionError::Cancelled => FailureClass::Cancelled,
            ExecutionError::NotFound => FailureClass::NotFound,
            ExecutionError::IdInUse => FailureClass::Conflict,
            ExecutionError::AlreadyEnded => FailureClass::Conflict,
        }
    }

    /// The message of the failure.
    pub open spec fn message_of(self) -> Seq<char> {
        match self {
            ExecutionError::SecurityViolation { pattern } => {
                "Security validation failed: Dangerous operation detected: "@ + pattern@
            },
            ExecutionError::SpawnFailure { reason } => "Failed to start Python process: "@
                + reason@,
            ExecutionError::Io { reason } => "Script execution failed: "@ + reason@,
            ExecutionError::InputSerialization => "Failed to serialize CSV data"@,
            ExecutionError::NoResultFound => "No result found in script output"@,
            ExecutionError::MalformedResult => "Failed to parse result JSON"@,
            ExecutionError::UnknownResultType => "Unknown result type"@,
            ExecutionError::Cancelled => "Execution cancelled"@,
            ExecutionError::NotFound => "Execution not found"@,
            ExecutionError::IdInUse => "Execution identifier is in use"@,
            ExecutionError::AlreadyEnded => "Execution has already ended"@,
        }
    }

    /// The class of the failure.
    pub fn class(&self) -> (c: FailureClass)
        ensures
            c == self.class_of(),
    {
        match self {
            ExecutionError::SecurityViolation { .. } => FailureClass::SecurityViolation,
            ExecutionError::SpawnFailure { .. } => FailureClass::SpawnFailure,
            ExecutionError::Io { .. } => FailureClass::ProtocolFailure,
            ExecutionError::InputSerialization => FailureClass::ProtocolFailure,
            ExecutionError::NoResultFound => FailureClass::ProtocolFailure,
            ExecutionError::MalformedResult => FailureClass::ProtocolFailure,
            ExecutionError::UnknownResultType => FailureClass::ProtocolFailure,
            ExecutionError::Cancelled => FailureClass::Cancelled,
            ExecutionError::NotFound => FailureClass::NotFound,
            ExecutionError::IdInUse => FailureClass::Conflict,
            ExecutionError::AlreadyEnded => FailureClass::Conflict,
        }
    }

    /// The message of the failure, for the user.
    pub fn message(&self) -> (m: String)
        ensures
            m@ == self.message_of(),
    {
        match self {
            ExecutionError::SecurityViolation { pattern } => {
                String::from_str(
                    "Security validation failed: Dangerous operation detected: ",
                ).concat(pattern.as_str())
            },
            ExecutionError::SpawnFailure { reason } => {
                String::from_str("Failed to start Python process: ").concat(reason.as_str())
            },
            ExecutionError::Io { reason } => {
                String::from_str("Script execution failed: ").concat(reason.as_str())
            },
            ExecutionError::InputSerialization => String::from_str("Failed to serialize CSV data"),
            ExecutionError::NoResultFound => String::from_str("No result found in script output"),
            ExecutionError::MalformedResult => String::from_str("Failed to parse result JSON"),
            ExecutionError::UnknownResultType => String::from_str("Unknown result type"),
            ExecutionError::Cancelled => String::from_str("Execution cancelled"),
            ExecutionError::NotFound => String::from_str("Execution not found"),
            ExecutionError::IdInUse => String::from_str("Execution identifier is in use"),
            ExecutionError::AlreadyEnded => String::from_str("Execution has already ended"),
        }
    }
}

/// The mathematical value of an [`ExecutionError`].
pub enum ExecutionErrorView {
    SecurityViolation { pattern: Seq<char> },
    SpawnFailure { reason: Seq<char> },
    Io { reason: Seq<char> },
    InputSerialization,
    NoResultFound,
    MalformedResult,
    UnknownResultType,
    Cancelled,
    NotFound,
    IdInUse,
    AlreadyEnded,
}

impl DeepView for ExecutionError {
    type V = ExecutionErrorView;

    open spec fn deep_view(&self) -> ExecutionErrorView {
        match self {
            ExecutionError::SecurityViolation { pattern } => ExecutionErrorView::SecurityViolation {
                pattern: pattern@,
            },
            ExecutionError::SpawnFailure { reason } => ExecutionErrorView::SpawnFailure {
                reason: reason@,
            },
            ExecutionError::Io { reason } => ExecutionErrorView::Io { reason: reason@ },
            ExecutionError::InputSerialization => ExecutionErrorView::InputSerialization,
            ExecutionError::NoResultFound => ExecutionErrorView::NoResultFound,
            ExecutionError::MalformedResult => ExecutionErrorView::MalformedResult,
            ExecutionError::UnknownResultType => ExecutionErrorView::UnknownResultType,
            ExecutionError::Cancelled => ExecutionErrorView::Cancelled,
            ExecutionError::NotFound => ExecutionErrorView::NotFound,
            ExecutionError::IdInUse => ExecutionErrorView::IdInUse,
            ExecutionError::AlreadyEnded => ExecutionErrorView::AlreadyEnded,
        }
    }
}

impl ExecutionError {
    /// A copy of the failure.
    pub fn duplicate(&self) -> (copy: ExecutionError)
        ensures
            copy.deep_view() == self.deep_view(),
    {
        match self {
            ExecutionError::SecurityViolation { pattern } => ExecutionError::SecurityViolation {
                pattern: pattern.clone(),
            },
            ExecutionError::SpawnFailure { reason } => ExecutionError::SpawnFailure {
                reason: reason.clone(),
            },
            ExecutionError::Io { reason } => ExecutionError::Io { reason: reason.clone() },
            ExecutionError::InputSerialization => ExecutionError::InputSerialization,
            ExecutionError::NoResultFound => ExecutionError::NoResultFound,
            ExecutionError::MalformedResult => ExecutionError::MalformedResult,
            ExecutionError::UnknownResultType => ExecutionError::UnknownResultType,
            ExecutionError::Cancelled => ExecutionError::Cancelled,
            ExecutionError::NotFound => ExecutionError::NotFound,
            ExecutionError::IdInUse => ExecutionError::IdInUse,
            ExecutionError::AlreadyEnded => ExecutionError::AlreadyEnded,
        }
    }
}

} // verus!
