//! How a finished download run ends: which file it produced, and which error a
//! failure is reported with once it has been recorded.
use crate::download_task::error::{is_task_error_message, DownloadTaskError};
use crate::text::{push_str, string_of};
use vstd::prelude::*;

verus! {

/// The file a successful run produced: the path the process reported when it
/// ended, else the last path it printed; with neither, the output is missing.
pub fn final_output_path(reported: Option<String>, printed: Option<String>) -> (r: Result<String, DownloadTaskError>)
    ensures
        reported matches Some(p) ==> r == Ok::<String, DownloadTaskError>(p),
        reported is None ==> (printed matches Some(p) ==> r == Ok::<String, DownloadTaskError>(p)),
        reported is None && printed is None ==> r matches Err(DownloadTaskError::OutputPathMissing),
{
    match reported {
        Some(path) => Ok(path),
        None => match printed {
            Some(path) => Ok(path),
            None => Err(DownloadTaskError::OutputPathMissing),
        },
    }
}

/// The error a failed run is reported with, given how recording the failure
/// went: the failure itself when it was recorded, else a storage error whose
/// message is the failure's, `；`, and the recording error's.
pub fn recorded_failure(error: DownloadTaskError, recording: Result<(), DownloadTaskError>) -> (r: DownloadTaskError)
    ensures
        recording is Ok ==> r == error,
        recording matches Err(e) ==> (r matches DownloadTaskError::Storage(m) && exists|x: Seq<char>, y: Seq<char>|
            is_task_error_message(error, x) && is_task_error_message(e, y) && m@ == x + "；"@ + y),
{
    match recording {
        Ok(()) => error,
        Err(storage_error) => {
            let first = error.message();
            let second = storage_error.message();
            let mut m = string_of(first.as_str());
            push_str(&mut m, "；");
            push_str(&mut m, second.as_str());
            assert(m@ == first@ + "；"@ + second@);
            DownloadTaskError::Storage(m)
        },
    }
}

} // verus!
