//! The ways in which running a command can fail.

use crate::host::os_error_text;
use vstd::prelude::*;
use vstd::string::StringExecFns;

verus! {

/// What is wrong with a working directory.
#[derive(Clone, Copy, Debug, PartialEq, Eq, Structural)]
pub enum DirectoryFault {
    /// Nothing exists at the path.
    Missing,
    /// Something exists at the path, but it is not a directory.
    NotADirectory,
}

/// Why a command was not run. That the command itself ended with a nonzero
/// exit code is no such reason: it is reported in the outcome.
#[derive(Debug)]
pub enum ExecutionError {
    /// The executable named by the command line was not found.
    CommandNotFound {
        /// The whole command line, as it was given.
        command: String,
    },
    /// The working directory cannot be used.
    InvalidWorkingDirectory {
        /// What is wrong with it.
        fault: DirectoryFault,
    },
    /// The operating system refused to create the process.
    SpawnFailed {
        /// The operating system's error, unchanged.
        source: std::io::Error,
    },
}

/// The mathematical value of an [`ExecutionError`].
pub enum Failure {
    /// The executable named by `command` was not found.
    CommandNotFound { command: Seq<char> },
    /// The working directory cannot be used, for the reason in `fault`.
    InvalidWorkingDirectory { fault: DirectoryFault },
    /// The operating system refused to create the process, reporting `source`.
    SpawnFailed { source: std::io::Error },
}

impl View for ExecutionError {
    type V = Failure;

    open spec fn view(&self) -> Failure {
        match self {
            ExecutionError::CommandNotFound { command } => Failure::CommandNotFound {
                command: command@,
            },
            ExecutionError::InvalidWorkingDirectory { fault } => Failure::InvalidWorkingDirectory {
                fault: *fault,
            },
            ExecutionError::SpawnFailed { source } => Failure::SpawnFailed { source: *source },
        }
    }
}

impl Failure {
    /// The text that describes a failure of validation. The text of a failed
    /// spawn is the operating system's own, so none is fixed here.
    pub open spec fn message(self) -> Option<Seq<char>> {
        match self {
            Failure::CommandNotFound { command } => Some(
                "Could not find specified command: "@ + command,
            ),
            Failure::InvalidWorkingDirectory { fault: DirectoryFault::Missing } => Some(
                "Specified path is invalid!"@,
            ),
            Failure::InvalidWorkingDirectory { fault: DirectoryFault::NotADirectory } => Some(
                "Specified path is not a directory"@,
            ),
            Failure::SpawnFailed { .. } => None,
        }
    }
}

impl ExecutionError {
    /// A description of the error for a human reader.
    pub fn message(&self) -> (text: String)
        ensures
            self@.message() matches Some(expected) ==> text@ == expected,
    {
        match self {
            ExecutionError::CommandNotFound { command } => {
                String::from_str("Could not find specified command: ").concat(command.as_str())
            },
            ExecutionError::InvalidWorkingDirectory { fault: DirectoryFault::Missing } => {
                String::from_str("Specified path is invalid!")
            },
            ExecutionError::InvalidWorkingDirectory { fault: DirectoryFault::NotADirectory } => {
                String::from_str("Specified path is not a directory")
            },
            ExecutionError::SpawnFailed { source } => os_error_text(source),
        }
    }
}

} // verus!
