//! The shell that runs a command line, and the process it is asked to start.

use std::path::Path;
use vstd::prelude::*;

verus! {

/// The two ways of handing a command line to the host's command interpreter.
#[derive(Clone, Copy, Debug, PartialEq, Eq, Structural)]
pub enum Shell {
    /// A POSIX shell: `sh -c <command>`.
    Posix,
    /// The Windows command interpreter: `cmd /C <command>`.
    Windows,
}

impl Shell {
    /// The program that is started.
    pub open spec fn spec_program(self) -> Seq<char> {
        match self {
            Shell::Posix => "sh"@,
            Shell::Windows => "cmd"@,
        }
    }

    /// The flag that makes the program run its next argument as a command.
    pub open spec fn spec_flag(self) -> Seq<char> {
        match self {
            Shell::Posix => "-c"@,
            Shell::Windows => "/C"@,
        }
    }

    /// The shell of a host: the Windows interpreter on a Windows-family
    /// host, a POSIX shell on every other.
    pub fn for_host(windows_family: bool) -> (shell: Shell)
        ensures
            shell == (if windows_family { Shell::Windows } else { Shell::Posix }),
    {
        if windows_family {
            Shell::Windows
        } else {
            Shell::Posix
        }
    }

    /// The program that is started.
    pub fn program(self) -> (program: &'static str)
        ensures
            program@ == self.spec_program(),
    {
        match self {
            Shell::Posix => "sh",
            Shell::Windows => "cmd",
        }
    }

    /// The flag that makes the program run its next argument as a command.
    pub fn flag(self) -> (flag: &'static str)
        ensures
            flag@ == self.spec_flag(),
    {
        match self {
            Shell::Posix => "-c",
            Shell::Windows => "/C",
        }
    }

    /// The process that runs `command` through this shell in `working_dir`.
    /// The command line is handed over as it is, as a single argument: no
    /// quoting or escaping is applied to it.
    pub fn invocation<'a>(self, command: &'a str, working_dir: &'a Path) -> (invocation: Invocation<'a>)
        ensures
            invocation.runs(self, command@, working_dir),
    {
        Invocation { program: self.program(), flag: self.flag(), command, working_dir }
    }
}

/// A process to start: `program flag command`, in `working_dir`.
#[derive(Clone, Copy, Debug, PartialEq, Eq)]
pub struct Invocation<'a> {
    /// The program to start.
    pub program: &'a str,
    /// Its first argument.
    pub flag: &'a str,
    /// Its second and last argument: the whole command line.
    pub command: &'a str,
    /// The directory the process starts in.
    pub working_dir: &'a Path,
}

impl<'a> Invocation<'a> {
    /// This invocation runs `command` through `shell` in `working_dir`.
    pub open spec fn runs(self, shell: Shell, command: Seq<char>, working_dir: &Path) -> bool {
        &&& self.program@ == shell.spec_program()
        &&& self.flag@ == shell.spec_flag()
        &&& self.command@ == command
        &&& self.working_dir == working_dir
    }
}

} // verus!
