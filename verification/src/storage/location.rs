//! Where the database file lives.
use crate::error::{AppError, StorageStage};
use crate::paths::{join_file, joined_path, owned_path, parent_dir, parent_path, path_ref_text, path_text};
use std::path::{Path, PathBuf};
use vstd::prelude::*;

verus! {

/// The database file kept next to the executable.
pub const DATABASE_FILE_NAME: &'static str = "application.sqlite3";

/// An I/O error of kind `InvalidInput` with the given message, as
/// `io::Error::new` builds it.
#[verifier::external_body]
fn invalid_input(message: &str) -> std::io::Error {
    std::io::Error::new(std::io::ErrorKind::InvalidInput, message)
}

/// The database path next to the executable at `executable_path`: the file
/// `application.sqlite3` in the executable's directory. A path without a parent
/// directory is an error of the executable-path stage that names the path.
pub fn database_path_next_to_executable(executable_path: &Path) -> (r: Result<PathBuf, AppError>)
    ensures
        parent_dir(executable_path) matches Some(d) ==> r == Ok::<PathBuf, AppError>(
            joined_path(d, DATABASE_FILE_NAME@),
        ),
        parent_dir(executable_path) is None ==> (r matches Err(AppError::StorageIo {
            stage,
            path: Some(q),
            ..
        }) && stage == StorageStage::ResolveExecutablePath && path_text(q) == path_ref_text(executable_path)),
{
    match parent_path(executable_path) {
        Some(directory) => Ok(join_file(&directory, DATABASE_FILE_NAME)),
        None => Err(
            AppError::StorageIo {
                stage: StorageStage::ResolveExecutablePath,
                path: Some(owned_path(executable_path)),
                source: invalid_input("Executable path has no parent directory"),
            },
        ),
    }
}

} // verus!
