//! The host facilities the library relies on.
//!
//! Everything in this module is taken on trust: the types are opaque to the
//! verifier, and the functions are calls into code that is not verified here.
//! None of the functions promises anything about its result, because each
//! answer depends on the state of the machine at the moment of the call.

use std::path::{Path, PathBuf};
use vstd::prelude::*;

verus! {

/// `std::path::Path`, carried through the library without being looked into.
#[verifier::external_type_specification]
#[verifier::external_body]
pub struct ExPath(Path);

/// `std::path::PathBuf`, carried through the library without being looked into.
#[verifier::external_type_specification]
#[verifier::external_body]
pub struct ExPathBuf(PathBuf);

/// `std::io::Error`, the operating system's own report of a failure.
#[verifier::external_type_specification]
#[verifier::external_body]
pub struct ExIoError(std::io::Error);

/// `which::Error`, the reason a search for an executable found nothing.
#[verifier::external_type_specification]
#[verifier::external_body]
pub struct ExWhichError(which::Error);

/// Calls `which::which`, which looks for an executable file of that name: in
/// each directory of the search path for a bare name, at the path itself for
/// a name that holds a path separator. The answer depends on the environment
/// and on the file system, so the contract claims nothing of it.
#[verifier::external_body]
pub(crate) fn search_path(name: &str) -> (found: Result<PathBuf, which::Error>) {
    which::which(name)
}

/// Calls `Path::exists`, which follows symbolic links and answers `false`
/// also where the path cannot be inspected. The answer depends on the file
/// system, so the contract claims nothing of it.
#[verifier::external_body]
pub(crate) fn path_exists(path: &Path) -> (exists: bool) {
    path.exists()
}

/// Calls `Path::is_dir`, which follows symbolic links and answers `false`
/// also where the path cannot be inspected. The answer depends on the file
/// system, so the contract claims nothing of it.
#[verifier::external_body]
pub(crate) fn path_is_dir(path: &Path) -> (is_dir: bool) {
    path.is_dir()
}

/// Calls `to_string` on a `std::io::Error`, which renders the error through
/// its `Display` impl. The wording is the operating system's, so the contract
/// claims nothing of it.
#[verifier::external_body]
pub(crate) fn os_error_text(error: &std::io::Error) -> (text: String) {
    error.to_string()
}

} // verus!
