//! Admitting a command for execution, and resolving the directory it runs in.

use crate::error::{DirectoryFault, ExecutionError, Failure};
use crate::host::{path_exists, path_is_dir, search_path};
use crate::shell::{Invocation, Shell};
use crate::token::executable_token;
use std::path::{Path, PathBuf};
use vstd::prelude::*;

verus! {

/// What was observed of the host about one command and one working directory.
#[derive(Clone, Copy, Debug, PartialEq, Eq, Structural)]
pub struct Probe {
    /// The executable token of the command was found on the search path.
    pub command_found: bool,
    /// Something exists at the working directory's path.
    pub dir_exists: bool,
    /// What exists there is a directory.
    pub dir_is_directory: bool,
}

/// The first gate that a command fails, or `None` where it passes them all.
/// The gates stand in a fixed order: the executable must be found, then the
/// working directory must exist, then it must be a directory. A later
/// observation is not looked at once an earlier gate has failed.
pub open spec fn refusal(command: Seq<char>, probe: Probe) -> Option<Failure> {
    if !probe.command_found {
        Some(Failure::CommandNotFound { command })
    } else if !probe.dir_exists {
        Some(Failure::InvalidWorkingDirectory { fault: DirectoryFault::Missing })
    } else if !probe.dir_is_directory {
        Some(Failure::InvalidWorkingDirectory { fault: DirectoryFault::NotADirectory })
    } else {
        None
    }
}

/// Decides from the observations in `probe` whether `command` may run in
/// `working_dir`, and if so as which process.
///
/// The result is the first gate that failed, if any did. In particular a
/// command that was not found is refused as such whatever was observed of the
/// directory, and a command that was found is refused for a directory that
/// is missing or is no directory.
pub fn plan<'a>(command: &'a str, working_dir: &'a Path, shell: Shell, probe: Probe) -> (result:
    Result<Invocation<'a>, ExecutionError>)
    ensures
        match refusal(command@, probe) {
            Some(failure) => result matches Err(error) && error@ == failure,
            None => result matches Ok(invocation) && invocation.runs(shell, command@, working_dir),
        },
        !probe.command_found ==> (result matches Err(error) && error@ == (
            Failure::CommandNotFound { command: command@ })),
        probe.command_found && !probe.dir_exists ==> (result matches Err(error)
            && error@ is InvalidWorkingDirectory),
        probe.command_found && probe.dir_exists && !probe.dir_is_directory ==> (
            result matches Err(error) && error@ is InvalidWorkingDirectory),
{
    if !probe.command_found {
        Err(ExecutionError::CommandNotFound { command: command.to_owned() })
    } else if !probe.dir_exists {
        Err(ExecutionError::InvalidWorkingDirectory { fault: DirectoryFault::Missing })
    } else if !probe.dir_is_directory {
        Err(ExecutionError::InvalidWorkingDirectory { fault: DirectoryFault::NotADirectory })
    } else {
        Ok(shell.invocation(command, working_dir))
    }
}

/// Admits `command` for execution in `working_dir`.
///
/// The host is asked, in this order and only as far as needed: whether the
/// executable token of the command is found on the search path, whether the
/// working directory exists, and whether it is a directory. Where all three
/// hold, the result is the process to start; otherwise it is the first gate
/// that failed, and no process is to be started.
///
/// What the host answers is not known beforehand, so the contract says what
/// holds of every answer: the result is the one that [`plan`] gives for some
/// observation of the host. Starting the process is the caller's part, and
/// [`conclude`](crate::outcome::conclude) reports what came of it.
pub fn exec<'a>(command: &'a str, working_dir: &'a Path, shell: Shell) -> (result: Result<
    Invocation<'a>,
    ExecutionError,
>)
    ensures
        exists|probe: Probe|
            match #[trigger] refusal(command@, probe) {
                Some(failure) => result matches Err(error) && error@ == failure,
                None => result matches Ok(invocation) && invocation.runs(
                    shell,
                    command@,
                    working_dir,
                ),
            },
        result matches Ok(invocation) ==> invocation.runs(shell, command@, working_dir),
        result matches Err(error) ==> {
            ||| error@ == (Failure::CommandNotFound { command: command@ })
            ||| error@ == (Failure::InvalidWorkingDirectory { fault: DirectoryFault::Missing })
            ||| error@ == (Failure::InvalidWorkingDirectory { fault: DirectoryFault::NotADirectory })
        },
{
    let command_found = search_path(executable_token(command)).is_ok();
    let dir_exists = command_found && path_exists(working_dir);
    let dir_is_directory = dir_exists && path_is_dir(working_dir);
    let probe = Probe { command_found, dir_exists, dir_is_directory };
    plan(command, working_dir, shell, probe)
}

/// Resolves the directory a command runs in: `dir` where one is given,
/// unchanged and unchecked, else the process's current directory, which the
/// caller hands over in `current`.
///
/// Without a given directory there is nothing to fall back on but the
/// current one, so a caller that has neither cannot go on.
pub fn get_pwd(dir: Option<PathBuf>, current: Option<PathBuf>) -> (pwd: PathBuf)
    requires
        dir is Some || current is Some,
    ensures
        dir matches Some(given) ==> pwd == given,
        dir is None ==> current == Some(pwd),
{
    match dir {
        Some(given) => given,
        None => current.unwrap(),
    }
}

} // verus!
