//! Resuming a paused download from what storage kept of it.
use crate::download_task::error::DownloadTaskError;
use crate::download_task::model::{DownloadOptions, DownloadSelection};
use crate::download_task::persistence::{is_request_error, is_storage_error};
use crate::storage::download::{DownloadExecutionSnapshot, DownloadStreamMediaType, DownloadTaskStatus, DownloadTaskStream};
use crate::text::{str_eq, string_of, trim};
use vstd::prelude::*;

verus! {

/// Only a paused task can be resumed.
pub fn ensure_paused(status: DownloadTaskStatus) -> (r: Result<(), DownloadTaskError>)
    ensures
        status == DownloadTaskStatus::Paused ==> r is Ok,
        status != DownloadTaskStatus::Paused ==> is_request_error(r, "只有暂停任务可以继续"@),
{
    if status == DownloadTaskStatus::Paused {
        Ok(())
    } else {
        Err(DownloadTaskError::InvalidDownloadRequest(string_of("只有暂停任务可以继续")))
    }
}

/// Whether a stored stream still matches the snapshot a task resumes from: it is
/// keyed by the format id the snapshot selected for its kind, and it is paused or
/// completed.
pub open spec fn stream_resumable(s: DownloadTaskStream, snapshot: DownloadExecutionSnapshot) -> bool {
    let expected = match s.media_type {
        DownloadStreamMediaType::Video => snapshot.video_format_id@,
        DownloadStreamMediaType::Audio => snapshot.audio_format_id@,
    };
    &&& (s.format_id matches Some(f) && f@ == expected)
    &&& s.stream_key@ == expected
    &&& (s.status == DownloadTaskStatus::Paused || s.status == DownloadTaskStatus::Completed)
}

fn one_stream_resumable(s: &DownloadTaskStream, snapshot: &DownloadExecutionSnapshot) -> (r: bool)
    ensures
        r == stream_resumable(*s, *snapshot),
{
    let expected = match s.media_type {
        DownloadStreamMediaType::Video => snapshot.video_format_id.as_str(),
        DownloadStreamMediaType::Audio => snapshot.audio_format_id.as_str(),
    };
    let format_matches = match &s.format_id {
        Some(f) => str_eq(f.as_str(), expected),
        None => false,
    };
    format_matches && str_eq(s.stream_key.as_str(), expected) && (s.status == DownloadTaskStatus::Paused
        || s.status == DownloadTaskStatus::Completed)
}

/// Checks that a paused task has exactly its two streams and that both still
/// match the execution snapshot.
pub fn check_resumable_streams(streams: &[DownloadTaskStream], snapshot: &DownloadExecutionSnapshot) -> (r: Result<
    (),
    DownloadTaskError,
>)
    ensures
        (streams@.len() == 2 && forall|i: int|
            0 <= i < streams@.len() ==> stream_resumable(#[trigger] streams@[i], *snapshot)) ==> r is Ok,
        !(streams@.len() == 2 && forall|i: int|
            0 <= i < streams@.len() ==> stream_resumable(#[trigger] streams@[i], *snapshot)) ==> is_request_error(
            r,
            "恢复任务的下载流状态无效"@,
        ),
{
    let mut ok = streams.len() == 2;
    let mut i: usize = 0;
    while ok && i < streams.len()
        invariant
            i <= streams@.len(),
            ok ==> streams@.len() == 2,
            ok ==> forall|j: int| 0 <= j < i ==> stream_resumable(#[trigger] streams@[j], *snapshot),
            !ok ==> !(streams@.len() == 2 && forall|j: int|
                0 <= j < streams@.len() ==> stream_resumable(#[trigger] streams@[j], *snapshot)),
        decreases streams.len() - i,
    {
        if !one_stream_resumable(&streams[i], snapshot) {
            ok = false;
        }
        i = i + 1;
    }
    if ok {
        Ok(())
    } else {
        Err(DownloadTaskError::InvalidDownloadRequest(string_of("恢复任务的下载流状态无效")))
    }
}

/// What a resumed download asks for: exactly what the snapshot of its first run
/// recorded.
pub fn selection_from_snapshot(snapshot: DownloadExecutionSnapshot) -> (r: DownloadSelection)
    ensures
        r.source_url@ == snapshot.source_url@,
        r.selected_video_format_id@ == snapshot.video_format_id@,
        r.selected_audio_format_id@ == snapshot.audio_format_id@,
        r.output_template@ == snapshot.output_template@,
        r.target_directory@ == snapshot.target_directory@,
        r.temporary_directory@ == snapshot.temporary_directory@,
        r.merge_output_format@ == snapshot.merge_output_format@,
        r.options.rate_limit == snapshot.options.rate_limit,
        r.options.retries == snapshot.options.retries,
        r.options.fragment_retries == snapshot.options.fragment_retries,
        r.options.file_access_retries == snapshot.options.file_access_retries,
        r.options.concurrent_fragments == snapshot.options.concurrent_fragments,
{
    DownloadSelection {
        source_url: snapshot.source_url,
        selected_video_format_id: snapshot.video_format_id,
        selected_audio_format_id: snapshot.audio_format_id,
        output_template: snapshot.output_template,
        target_directory: snapshot.target_directory,
        temporary_directory: snapshot.temporary_directory,
        merge_output_format: snapshot.merge_output_format,
        options: DownloadOptions {
            rate_limit: snapshot.options.rate_limit,
            retries: snapshot.options.retries,
            fragment_retries: snapshot.options.fragment_retries,
            file_access_retries: snapshot.options.file_access_retries,
            concurrent_fragments: snapshot.options.concurrent_fragments,
        },
    }
}

/// Whether the streams of a paused task are exactly two that both still match
/// the snapshot.
pub open spec fn streams_resumable(streams: Seq<DownloadTaskStream>, snapshot: DownloadExecutionSnapshot) -> bool {
    streams.len() == 2 && forall|i: int| 0 <= i < streams.len() ==> stream_resumable(#[trigger] streams[i], snapshot)
}

/// Whether the request a snapshot records is valid, as `DownloadSelection::validate`
/// checks it.
pub open spec fn snapshot_check(s: DownloadExecutionSnapshot) -> Result<(), Seq<char>> {
    if trim(s.source_url@).len() == 0 || trim(s.video_format_id@).len() == 0 || trim(s.audio_format_id@).len()
        == 0 || trim(s.output_template@).len() == 0 || trim(s.merge_output_format@).len() == 0 {
        Err("下载请求包含空字段"@)
    } else if s.merge_output_format@ != "mp4"@ && s.merge_output_format@ != "mkv"@ {
        Err("合并容器只能是 mp4 或 mkv"@)
    } else {
        Ok(())
    }
}

/// Whether `r` asks for what `snapshot` recorded.
pub open spec fn selection_of(r: DownloadSelection, snapshot: DownloadExecutionSnapshot) -> bool {
    &&& r.source_url@ == snapshot.source_url@
    &&& r.selected_video_format_id@ == snapshot.video_format_id@
    &&& r.selected_audio_format_id@ == snapshot.audio_format_id@
    &&& r.output_template@ == snapshot.output_template@
    &&& r.target_directory@ == snapshot.target_directory@
    &&& r.temporary_directory@ == snapshot.temporary_directory@
    &&& r.merge_output_format@ == snapshot.merge_output_format@
    &&& r.options.rate_limit == snapshot.options.rate_limit
    &&& r.options.retries == snapshot.options.retries
    &&& r.options.fragment_retries == snapshot.options.fragment_retries
    &&& r.options.file_access_retries == snapshot.options.file_access_retries
    &&& r.options.concurrent_fragments == snapshot.options.concurrent_fragments
}

/// What a paused task resumes with, given its streams and the execution
/// snapshot storage kept of its first run: a task without a snapshot cannot be
/// resumed exactly; its streams must still match the snapshot; and what the
/// snapshot asks for must still be a valid request.
pub fn resume_selection(streams: &[DownloadTaskStream], snapshot: Option<DownloadExecutionSnapshot>) -> (r: Result<
    DownloadSelection,
    DownloadTaskError,
>)
    ensures
        snapshot is None ==> is_storage_error(r, "任务缺少执行快照，无法精确继续"@),
        snapshot matches Some(s) ==> (!streams_resumable(streams@, s) ==> is_request_error(
            r,
            "恢复任务的下载流状态无效"@,
        )),
        snapshot matches Some(s) ==> (streams_resumable(streams@, s) ==> match snapshot_check(s) {
            Ok(()) => r matches Ok(selection) && selection_of(selection, s),
            Err(m) => is_request_error(r, m),
        }),
{
    let snapshot = match snapshot {
        Some(s) => s,
        None => {
            return Err(DownloadTaskError::Storage(string_of("任务缺少执行快照，无法精确继续")));
        },
    };
    match check_resumable_streams(streams, &snapshot) {
        Ok(()) => {},
        Err(e) => {
            return Err(e);
        },
    }
    let selection = selection_from_snapshot(snapshot);
    match selection.validate() {
        Ok(()) => Ok(selection),
        Err(m) => Err(DownloadTaskError::InvalidDownloadRequest(m)),
    }
}

} // verus!
