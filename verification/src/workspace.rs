//! Where the shell keeps its files: a directory of its own in the user's
//! data directory, and in it a directory for data.

use vstd::prelude::*;
use std::path::PathBuf;

verus! {

#[verifier::external_type_specification]
#[verifier::external_body]
pub struct ExPathBuf(std::path::PathBuf);

/// Why the shell has no directory.
#[derive(Debug)]
pub enum WorkspaceError {
    /// The system names no data directory for the user.
    NoDataDir,
}

/// Calls `dirs_next::data_dir`, which returns the user's data directory or
/// `None`. The answer depends on the operating system and on the
/// environment of the process, so nothing is claimed of it.
#[verifier::external_body]
fn user_data_dir() -> Option<PathBuf> {
    dirs_next::data_dir()
}

/// Calls `PathBuf::push`, which extends the path by one component. What
/// the path then reads depends on the platform, so nothing is claimed of
/// it.
#[verifier::external_body]
fn with_component(dir: PathBuf, component: &str) -> PathBuf {
    let mut dir = dir;
    dir.push(component);
    dir
}

/// The shell's directory under `base`, the user's data directory: the
/// directory `Zenyx` in it. Without a data directory there is none.
pub fn working_dir_in(base: Option<PathBuf>) -> (r: Result<PathBuf, WorkspaceError>)
    ensures
        base is Some <==> r is Ok,
{
    match base {
        Some(dir) => Ok(with_component(dir, "Zenyx")),
        None => Err(WorkspaceError::NoDataDir),
    }
}

/// The directory for data in the shell's directory.
pub fn data_dir_in(working_dir: Result<PathBuf, WorkspaceError>) -> (r: Result<
    PathBuf,
    WorkspaceError,
>)
    ensures
        working_dir is Ok <==> r is Ok,
{
    match working_dir {
        Ok(dir) => Ok(with_component(dir, "data")),
        Err(error) => Err(error),
    }
}

/// The shell's directory: `Zenyx` in the user's data directory, as the
/// system names it when asked.
pub fn get_working_dir() -> Result<PathBuf, WorkspaceError> {
    working_dir_in(user_data_dir())
}

/// The directory for data in the shell's directory.
pub fn get_data_dir() -> Result<PathBuf, WorkspaceError> {
    data_dir_in(get_working_dir())
}

} // verus!
