//! Downloading a finished task again from what storage kept of it.
use crate::download_task::model::{DownloadOptions, DownloadSelection};
use crate::download_task::persistence::FormatFacts;
use crate::download_task::process::opt_text;
use crate::paths::{join_path, path_join};
use crate::storage::download::{terminal, DownloadStreamMediaType, DownloadTask, DownloadTaskStatus, DownloadTaskStream};
use crate::text::{is_blank, string_of, trim};
use vstd::prelude::*;

verus! {

/// The output template of a download started again.
pub const REDOWNLOAD_OUTPUT_TEMPLATE: &'static str = "%(title).80B [%(id)s].%(ext)s";

/// The directory of partial files, inside the target directory.
pub const TEMPORARY_DIRECTORY_NAME: &'static str = ".yt-dlp-gui-temp";

/// Only a task that ended can be downloaded again.
pub fn check_redownloadable(status: DownloadTaskStatus) -> (r: Result<(), String>)
    ensures
        terminal(status) ==> r is Ok,
        !terminal(status) ==> (r matches Err(m) && m@ == "活动任务不能重新下载"@),
{
    if status.is_terminal() {
        Ok(())
    } else {
        Err(string_of("活动任务不能重新下载"))
    }
}

/// The format id a stored stream is downloaded with: its format id unless blank,
/// else its key unless blank.
pub open spec fn spec_stream_format_id(s: DownloadTaskStream) -> Option<Seq<char>> {
    match s.format_id {
        Some(f) if trim(f@).len() > 0 => Some(f@),
        _ => if trim(s.stream_key@).len() > 0 {
            Some(s.stream_key@)
        } else {
            None
        },
    }
}

/// The format id a stored stream is downloaded with: its format id unless blank,
/// else its key unless blank; without either it cannot be downloaded again.
pub fn stream_format_id(stream: &DownloadTaskStream) -> (r: Result<String, String>)
    ensures
        spec_stream_format_id(*stream) matches Some(f) ==> (r matches Ok(s) && s@ == f),
        spec_stream_format_id(*stream) is None ==> (r matches Err(m) && m@ == "任务流缺少格式 ID"@),
{
    match &stream.format_id {
        Some(f) => if !is_blank(f.as_str()) {
            return Ok(string_of(f.as_str()));
        },
        None => {},
    }
    if !is_blank(stream.stream_key.as_str()) {
        Ok(string_of(stream.stream_key.as_str()))
    } else {
        Err(string_of("任务流缺少格式 ID"))
    }
}

/// The first stored stream of a kind.
pub open spec fn first_of_kind(s: Seq<DownloadTaskStream>, kind: DownloadStreamMediaType) -> Option<int>
    decreases s.len(),
{
    if s.len() == 0 {
        None
    } else {
        match first_of_kind(s.drop_last(), kind) {
            Some(i) => Some(i),
            None => if s.last().media_type == kind {
                Some(s.len() - 1)
            } else {
                None
            },
        }
    }
}

proof fn lemma_first_of_kind(s: Seq<DownloadTaskStream>, kind: DownloadStreamMediaType, k: int)
    requires
        0 <= k <= s.len(),
        forall|j: int| 0 <= j < k ==> (#[trigger] s[j]).media_type != kind,
    ensures
        first_of_kind(s.take(k), kind) is None,
    decreases k,
{
    if k > 0 {
        assert(s.take(k).drop_last() =~= s.take(k - 1));
        lemma_first_of_kind(s, kind, k - 1);
    }
}

proof fn lemma_first_of_kind_found(s: Seq<DownloadTaskStream>, kind: DownloadStreamMediaType, k: int)
    requires
        0 <= k < s.len(),
        first_of_kind(s.take(k), kind) is None,
        s[k].media_type == kind,
    ensures
        first_of_kind(s, kind) == Some(k),
    decreases s.len(),
{
    if k < s.len() - 1 {
        assert(s.drop_last().take(k) =~= s.take(k));
        lemma_first_of_kind_found(s.drop_last(), kind, k);
    } else {
        assert(s.drop_last() =~= s.take(k));
    }
}

fn find_kind(streams: &[DownloadTaskStream], kind: DownloadStreamMediaType) -> (r: Option<usize>)
    ensures
        match first_of_kind(streams@, kind) {
            Some(i) => r == Some(i as usize),
            None => r is None,
        },
{
    let mut i: usize = 0;
    while i < streams.len()
        invariant
            i <= streams@.len(),
            forall|j: int| 0 <= j < i ==> (#[trigger] streams@[j]).media_type != kind,
        decreases streams.len() - i,
    {
        if streams[i].media_type == kind {
            proof {
                lemma_first_of_kind(streams@, kind, i as int);
                lemma_first_of_kind_found(streams@, kind, i as int);
            }
            return Some(i);
        }
        i = i + 1;
    }
    proof {
        lemma_first_of_kind(streams@, kind, streams@.len() as int);
        assert(streams@.take(streams@.len() as int) =~= streams@);
    }
    None
}

proof fn lemma_first_of_kind_in_range(s: Seq<DownloadTaskStream>, kind: DownloadStreamMediaType)
    ensures
        first_of_kind(s, kind) matches Some(i) ==> 0 <= i < s.len(),
    decreases s.len(),
{
    if s.len() > 0 {
        lemma_first_of_kind_in_range(s.drop_last(), kind);
    }
}

/// Whether the first video and the first audio stream exist and both have a
/// format id to download.
pub open spec fn both_ids_known(s: Seq<DownloadTaskStream>) -> bool {
    match (first_of_kind(s, DownloadStreamMediaType::Video), first_of_kind(s, DownloadStreamMediaType::Audio)) {
        (Some(v), Some(a)) => spec_stream_format_id(s[v]) is Some && spec_stream_format_id(s[a]) is Some,
        _ => false,
    }
}

/// What downloading a finished task again asks for: its source, the formats of
/// its first video and first audio stream, its target directory (partial files
/// in `.yt-dlp-gui-temp` inside it), the default output template, an `mp4`
/// container and default options.
pub fn selection_from_task(task: &DownloadTask, streams: &[DownloadTaskStream]) -> (r: Result<
    DownloadSelection,
    String,
>)
    ensures
        first_of_kind(streams@, DownloadStreamMediaType::Video) is None ==> (r matches Err(m) && m@
            == "任务缺少视频流记录"@),
        (first_of_kind(streams@, DownloadStreamMediaType::Video) is Some && first_of_kind(
            streams@,
            DownloadStreamMediaType::Audio,
        ) is None) ==> (r matches Err(m) && m@ == "任务缺少音频流记录"@),
        r matches Ok(d) ==> {
            &&& first_of_kind(streams@, DownloadStreamMediaType::Video) matches Some(v)
            &&& first_of_kind(streams@, DownloadStreamMediaType::Audio) matches Some(a)
            &&& spec_stream_format_id(streams@[v]) == Some(d.selected_video_format_id@)
            &&& spec_stream_format_id(streams@[a]) == Some(d.selected_audio_format_id@)
            &&& d.source_url@ == task.source_url@
            &&& d.output_template@ == REDOWNLOAD_OUTPUT_TEMPLATE@
            &&& d.target_directory@ == task.target_path@
            &&& d.temporary_directory@ == path_join(task.target_path@, TEMPORARY_DIRECTORY_NAME@)
            &&& d.merge_output_format@ == "mp4"@
            &&& d.options.rate_limit is None && d.options.retries is None && d.options.fragment_retries is None
                && d.options.file_access_retries is None && d.options.concurrent_fragments is None
        },
        r is Ok <==> both_ids_known(streams@),
{
    proof {
        lemma_first_of_kind_in_range(streams@, DownloadStreamMediaType::Video);
        lemma_first_of_kind_in_range(streams@, DownloadStreamMediaType::Audio);
    }
    let v = match find_kind(streams, DownloadStreamMediaType::Video) {
        Some(i) => i,
        None => {
            return Err(string_of("任务缺少视频流记录"));
        },
    };
    let a = match find_kind(streams, DownloadStreamMediaType::Audio) {
        Some(i) => i,
        None => {
            return Err(string_of("任务缺少音频流记录"));
        },
    };
    let video_id = match stream_format_id(&streams[v]) {
        Ok(f) => f,
        Err(e) => {
            return Err(e);
        },
    };
    let audio_id = match stream_format_id(&streams[a]) {
        Ok(f) => f,
        Err(e) => {
            return Err(e);
        },
    };
    Ok(
        DownloadSelection {
            source_url: string_of(task.source_url.as_str()),
            selected_video_format_id: video_id,
            selected_audio_format_id: audio_id,
            output_template: string_of(REDOWNLOAD_OUTPUT_TEMPLATE),
            target_directory: string_of(task.target_path.as_str()),
            temporary_directory: join_path(task.target_path.as_str(), TEMPORARY_DIRECTORY_NAME),
            merge_output_format: string_of("mp4"),
            options: DownloadOptions {
                rate_limit: None,
                retries: None,
                fragment_retries: None,
                file_access_retries: None,
                concurrent_fragments: None,
            },
        },
    )
}

/// A stored size as a format size: the same number when it is not negative.
pub open spec fn size_from_stored(v: Option<i64>) -> Option<u64> {
    match v {
        Some(x) => if x >= 0 {
            Some(x as u64)
        } else {
            None
        },
        None => None,
    }
}

fn stored_size(v: Option<i64>) -> (r: Option<u64>)
    ensures
        r == size_from_stored(v),
{
    match v {
        Some(x) => if x >= 0 {
            Some(x as u64)
        } else {
            None
        },
        None => None,
    }
}

fn copy_text(v: &Option<String>) -> (r: Option<String>)
    ensures
        opt_text(r) == opt_text(*v),
{
    match v {
        Some(s) => Some(string_of(s.as_str())),
        None => None,
    }
}

/// Whether `f` is the format a stored stream is downloaded again with, under the
/// format id `id`: its container, its sizes where they are not negative, and its
/// codecs.
pub open spec fn is_format_of_stream(f: FormatFacts, s: DownloadTaskStream, id: Seq<char>) -> bool {
    &&& opt_text(f.format_id) == Some(id)
    &&& opt_text(f.extension) == opt_text(s.extension)
    &&& f.width == size_from_stored(s.width)
    &&& f.height == size_from_stored(s.height)
    &&& opt_text(f.video_codec) == opt_text(s.video_codec)
    &&& opt_text(f.audio_codec) == opt_text(s.audio_codec)
}

fn format_of_stream(stream: &DownloadTaskStream, format_id: &str) -> (f: FormatFacts)
    ensures
        is_format_of_stream(f, *stream, format_id@),
{
    FormatFacts {
        format_id: Some(string_of(format_id)),
        extension: copy_text(&stream.extension),
        width: stored_size(stream.width),
        height: stored_size(stream.height),
        video_codec: copy_text(&stream.video_codec),
        audio_codec: copy_text(&stream.audio_codec),
    }
}

/// The formats a finished task is downloaded again with: those of its first
/// video and first audio stream under the selected format ids, video first;
/// nothing when a kind of stream is missing.
pub fn redownload_formats(streams: &[DownloadTaskStream], video_format_id: &str, audio_format_id: &str) -> (r:
    Option<(FormatFacts, FormatFacts)>)
    ensures
        match (first_of_kind(streams@, DownloadStreamMediaType::Video), first_of_kind(
            streams@,
            DownloadStreamMediaType::Audio,
        )) {
            (Some(v), Some(a)) => r matches Some((video, audio)) && is_format_of_stream(
                video,
                streams@[v],
                video_format_id@,
            ) && is_format_of_stream(audio, streams@[a], audio_format_id@),
            _ => r is None,
        },
{
    proof {
        lemma_first_of_kind_in_range(streams@, DownloadStreamMediaType::Video);
        lemma_first_of_kind_in_range(streams@, DownloadStreamMediaType::Audio);
    }
    let v = match find_kind(streams, DownloadStreamMediaType::Video) {
        Some(i) => i,
        None => {
            return None;
        },
    };
    let a = match find_kind(streams, DownloadStreamMediaType::Audio) {
        Some(i) => i,
        None => {
            return None;
        },
    };
    Some((format_of_stream(&streams[v], video_format_id), format_of_stream(&streams[a], audio_format_id)))
}

} // verus!
