//! Validated execution of shell commands.
//!
//! A command line is run through the host's shell inside a working directory,
//! but only after two gates have passed: the executable named by the command
//! must be found on the search path, and the working directory must exist and
//! be a directory. This crate holds the decisions: which word of the command
//! names the executable, which gate fails first, which shell invocation
//! results, and how the result of the spawn is reported. Creating the process
//! is left to the caller.

pub mod cmd;
pub mod error;
pub mod host;
pub mod outcome;
pub mod shell;
pub mod token;
