//! The decisions every status and progress write of a download makes before it
//! touches the database: which changes are allowed, and which times they record.
use crate::storage::download::{stream_transition, task_transition, terminal, DownloadTaskStatus};
use crate::storage::error::StorageError;
use vstd::prelude::*;

verus! {

/// The times a status write records: the start time (kept when already set) and
/// the finish time.
#[derive(Debug, Clone, Copy, PartialEq, Eq, Structural)]
pub struct StatusWrite {
    pub started_at: Option<i64>,
    pub finished_at: Option<i64>,
}

/// The times a write of status `target` at `now` records: a start when it starts
/// downloading, a finish when it is final.
pub open spec fn spec_status_write(target: DownloadTaskStatus, now: i64) -> StatusWrite {
    StatusWrite {
        started_at: if target == DownloadTaskStatus::Downloading {
            Some(now)
        } else {
            None
        },
        finished_at: if terminal(target) {
            Some(now)
        } else {
            None
        },
    }
}

/// Whether a status write from `current` to `target` is allowed: it follows the
/// task state machine, and a paused task is resumed only through the resume
/// operation (never by a plain write to preparing).
pub open spec fn status_write_allowed(current: DownloadTaskStatus, target: DownloadTaskStatus) -> bool {
    task_transition(current, target) && !(current == DownloadTaskStatus::Paused && target
        == DownloadTaskStatus::Preparing)
}

/// The checks a status write makes before it reads the task: the time is not
/// negative, and pausing goes through the pause operation.
pub fn check_status_request(target: DownloadTaskStatus, now: i64) -> (r: Result<(), StorageError>)
    ensures
        now < 0 ==> r matches Err(StorageError::InvalidDownloadInput),
        now >= 0 && target == DownloadTaskStatus::Paused ==> r matches Err(
            StorageError::InvalidDownloadStatusTransition,
        ),
        now >= 0 && target != DownloadTaskStatus::Paused ==> r is Ok,
{
    if now < 0 {
        return Err(StorageError::InvalidDownloadInput);
    }
    if target == DownloadTaskStatus::Paused {
        return Err(StorageError::InvalidDownloadStatusTransition);
    }
    Ok(())
}

/// The times a task's status write from `current` to `target` records, when the
/// change is allowed.
pub fn status_write(current: DownloadTaskStatus, target: DownloadTaskStatus, now: i64) -> (r: Result<
    StatusWrite,
    StorageError,
>)
    ensures
        status_write_allowed(current, target) ==> r == Ok::<StatusWrite, StorageError>(
            spec_status_write(target, now),
        ),
        !status_write_allowed(current, target) ==> r matches Err(StorageError::InvalidDownloadStatusTransition),
{
    if !current.can_transition_to(target) || (current == DownloadTaskStatus::Paused && target
        == DownloadTaskStatus::Preparing) {
        return Err(StorageError::InvalidDownloadStatusTransition);
    }
    Ok(
        StatusWrite {
            started_at: if target == DownloadTaskStatus::Downloading {
                Some(now)
            } else {
                None
            },
            finished_at: if target.is_terminal() {
                Some(now)
            } else {
                None
            },
        },
    )
}

/// Whether a stream status write from `current` to `target` is allowed, under a
/// task whose status is `parent`: the task must still accept progress, unless the
/// stream is being cancelled or failed, and the change follows the stream state
/// machine without resuming a paused stream by a plain write.
pub open spec fn stream_write_allowed(
    parent: DownloadTaskStatus,
    current: DownloadTaskStatus,
    target: DownloadTaskStatus,
) -> bool {
    (!terminal(parent) && parent != DownloadTaskStatus::Paused || target == DownloadTaskStatus::Cancelled
        || target == DownloadTaskStatus::Failed) && stream_transition(current, target) && !(current
        == DownloadTaskStatus::Paused && target == DownloadTaskStatus::Preparing)
}

/// The times a stream's status write records, when the change is allowed.
pub fn stream_status_write(
    parent: DownloadTaskStatus,
    current: DownloadTaskStatus,
    target: DownloadTaskStatus,
    now: i64,
) -> (r: Result<StatusWrite, StorageError>)
    ensures
        stream_write_allowed(parent, current, target) ==> r == Ok::<StatusWrite, StorageError>(
            spec_status_write(target, now),
        ),
        !stream_write_allowed(parent, current, target) ==> r matches Err(
            StorageError::InvalidDownloadStatusTransition,
        ),
{
    if !parent.can_accept_progress() && !(target == DownloadTaskStatus::Cancelled || target
        == DownloadTaskStatus::Failed) {
        return Err(StorageError::InvalidDownloadStatusTransition);
    }
    if !current.can_stream_transition_to(target) || (current == DownloadTaskStatus::Paused && target
        == DownloadTaskStatus::Preparing) {
        return Err(StorageError::InvalidDownloadStatusTransition);
    }
    Ok(
        StatusWrite {
            started_at: if target == DownloadTaskStatus::Downloading {
                Some(now)
            } else {
                None
            },
            finished_at: if target.is_terminal() {
                Some(now)
            } else {
                None
            },
        },
    )
}

/// Only a preparing or downloading task can be paused.
pub fn check_pausable(current: DownloadTaskStatus) -> (r: Result<(), StorageError>)
    ensures
        (current == DownloadTaskStatus::Preparing || current == DownloadTaskStatus::Downloading) ==> r is Ok,
        !(current == DownloadTaskStatus::Preparing || current == DownloadTaskStatus::Downloading) ==> r matches Err(
            StorageError::InvalidDownloadStatusTransition,
        ),
{
    if current == DownloadTaskStatus::Preparing || current == DownloadTaskStatus::Downloading {
        Ok(())
    } else {
        Err(StorageError::InvalidDownloadStatusTransition)
    }
}

/// Only a paused task can be prepared to resume.
pub fn check_resumable(current: DownloadTaskStatus) -> (r: Result<(), StorageError>)
    ensures
        current == DownloadTaskStatus::Paused ==> r is Ok,
        current != DownloadTaskStatus::Paused ==> r matches Err(StorageError::InvalidDownloadStatusTransition),
{
    if current == DownloadTaskStatus::Paused {
        Ok(())
    } else {
        Err(StorageError::InvalidDownloadStatusTransition)
    }
}

/// The tasks a restart finds active were interrupted: they are paused.
pub fn was_interrupted(status: DownloadTaskStatus) -> (r: bool)
    ensures
        r == (status == DownloadTaskStatus::Preparing || status == DownloadTaskStatus::Downloading || status
            == DownloadTaskStatus::Merging),
{
    status == DownloadTaskStatus::Preparing || status == DownloadTaskStatus::Downloading || status
        == DownloadTaskStatus::Merging
}

/// The checks a final status write makes before it reads the task: the time is
/// not negative, and a failure carries a message.
pub fn check_finish_request(target: DownloadTaskStatus, finished_at: i64, has_error_message: bool) -> (r: Result<
    (),
    StorageError,
>)
    ensures
        (finished_at < 0 || (target == DownloadTaskStatus::Failed && !has_error_message)) ==> r matches Err(
            StorageError::InvalidDownloadInput,
        ),
        !(finished_at < 0 || (target == DownloadTaskStatus::Failed && !has_error_message)) ==> r is Ok,
{
    if finished_at < 0 || (target == DownloadTaskStatus::Failed && !has_error_message) {
        Err(StorageError::InvalidDownloadInput)
    } else {
        Ok(())
    }
}

/// A final status write from `current` is allowed when the state machine allows it.
pub fn check_finish_transition(current: DownloadTaskStatus, target: DownloadTaskStatus) -> (r: Result<
    (),
    StorageError,
>)
    ensures
        task_transition(current, target) ==> r is Ok,
        !task_transition(current, target) ==> r matches Err(StorageError::InvalidDownloadStatusTransition),
{
    if current.can_transition_to(target) {
        Ok(())
    } else {
        Err(StorageError::InvalidDownloadStatusTransition)
    }
}

/// Progress is not written to a task or stream that is final.
pub fn check_progress_target(status: DownloadTaskStatus) -> (r: Result<(), StorageError>)
    ensures
        terminal(status) ==> r matches Err(StorageError::InvalidDownloadProgress),
        !terminal(status) ==> r is Ok,
{
    if status.is_terminal() {
        Err(StorageError::InvalidDownloadProgress)
    } else {
        Ok(())
    }
}

/// Once a task is final, no status write changes it, and a start time is only
/// recorded by the move to downloading.
pub proof fn law_final_tasks_stay_final(current: DownloadTaskStatus, target: DownloadTaskStatus, now: i64)
    ensures
        terminal(current) ==> !status_write_allowed(current, target),
        spec_status_write(target, now).started_at is Some ==> target == DownloadTaskStatus::Downloading,
        spec_status_write(target, now).finished_at is Some <==> terminal(target),
{
}

/// A stream of a task that no longer accepts progress can only be cancelled or
/// failed.
pub proof fn law_streams_of_stopped_tasks_only_stop(
    parent: DownloadTaskStatus,
    current: DownloadTaskStatus,
    target: DownloadTaskStatus,
)
    requires
        terminal(parent) || parent == DownloadTaskStatus::Paused,
    ensures
        stream_write_allowed(parent, current, target) ==> (target == DownloadTaskStatus::Cancelled || target
            == DownloadTaskStatus::Failed),
{
}

} // verus!
