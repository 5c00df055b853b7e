//! What a finished command leaves behind.

use crate::error::{ExecutionError, Failure};
use vstd::prelude::*;

verus! {

/// How a process ended.
#[derive(Clone, Copy, Debug, PartialEq, Eq, Structural)]
pub struct ExitStatus {
    /// The exit code, or `None` where the process ended without one (on Unix,
    /// when a signal ended it).
    pub code: Option<i32>,
}

impl ExitStatus {
    /// The process ended with exit code zero.
    pub open spec fn spec_success(self) -> bool {
        self.code == Some(0i32)
    }

    /// Whether the process ended with exit code zero.
    pub fn success(&self) -> (success: bool)
        ensures
            success == self.spec_success(),
    {
        match self.code {
            Some(code) => code == 0,
            None => false,
        }
    }
}

/// The captured result of a process that ran to its end.
#[derive(Clone, Debug, PartialEq, Eq)]
pub struct CommandOutcome {
    /// The bytes the process wrote to its standard output.
    pub stdout: Vec<u8>,
    /// The bytes the process wrote to its standard error.
    pub stderr: Vec<u8>,
    /// How the process ended.
    pub status: ExitStatus,
}

/// Reports the result of a spawn. A process that ran to its end is a
/// success whatever its exit status: the status is part of the outcome, for
/// the caller to inspect. Only a process that could not be created is an
/// error, and that error carries what the operating system reported.
pub fn conclude(spawned: Result<CommandOutcome, std::io::Error>) -> (result: Result<
    CommandOutcome,
    ExecutionError,
>)
    ensures
        match spawned {
            Ok(outcome) => result == Ok::<CommandOutcome, ExecutionError>(outcome),
            Err(source) => result matches Err(error) && error@ == (Failure::SpawnFailed { source }),
        },
{
    match spawned {
        Ok(outcome) => Ok(outcome),
        Err(source) => Err(ExecutionError::SpawnFailed { source }),
    }
}

} // verus!
