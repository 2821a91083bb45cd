//! What a running download writes to storage, and when.
use crate::download_task::error::DownloadTaskError;
use crate::download_task::model::{DownloadMediaType, DownloadSelection};
use crate::download_task::process::opt_text;
use crate::storage::download::{
    DownloadStreamMediaType, DownloadTaskDraft, DownloadTaskStatus, DownloadTaskStreamDraft,
};
use crate::text::{push_str, str_eq, string_of};
use vstd::prelude::*;

verus! {

/// The least time between two progress writes of one download, in milliseconds.
pub const PROGRESS_WRITE_INTERVAL_MILLIS: u128 = 750;

/// A storage error whose message is `prefix` followed by `key`.
fn storage_message(prefix: &str, key: &str) -> (e: DownloadTaskError)
    ensures
        e matches DownloadTaskError::Storage(m) && m@ == prefix@ + key@,
{
    let mut m = string_of(prefix);
    push_str(&mut m, key);
    DownloadTaskError::Storage(m)
}

/// Whether `r` is a storage error with message `m`.
pub open spec fn is_storage_error<T>(r: Result<T, DownloadTaskError>, m: Seq<char>) -> bool {
    r matches Err(DownloadTaskError::Storage(x)) && x@ == m
}

/// The status writes that bring a stream to downloading when an update of it
/// arrives, given the status recorded for it: a pending stream is prepared and
/// then started, a prepared one started, a downloading one left alone. A stream
/// that is final, merging or unknown is an error.
pub fn stream_activation(status: Option<DownloadTaskStatus>, stream_key: &str) -> (r: Result<
    Vec<DownloadTaskStatus>,
    DownloadTaskError,
>)
    ensures
        status is None ==> is_storage_error(r, "未找到下载流映射："@ + stream_key@),
        status == Some(DownloadTaskStatus::Pending) ==> (r matches Ok(v) && v@ == seq![
            DownloadTaskStatus::Preparing,
            DownloadTaskStatus::Downloading,
        ]),
        status == Some(DownloadTaskStatus::Preparing) ==> (r matches Ok(v) && v@ == seq![
            DownloadTaskStatus::Downloading,
        ]),
        status == Some(DownloadTaskStatus::Downloading) ==> (r matches Ok(v) && v@.len() == 0),
        status == Some(DownloadTaskStatus::Paused) ==> (r matches Ok(v) && v@.len() == 0),
        (status matches Some(s) && crate::storage::download::terminal(s)) ==> is_storage_error(
            r,
            "下载流已处于终态："@ + stream_key@,
        ),
        status == Some(DownloadTaskStatus::Merging) ==> is_storage_error(r, "下载流状态无效："@ + stream_key@),
        r matches Ok(v) ==> forall|i: int|
            0 <= i < v@.len() - 1 ==> crate::storage::download::stream_transition(
                #[trigger] v@[i],
                v@[i + 1],
            ),
{
    match status {
        None => Err(storage_message("未找到下载流映射：", stream_key)),
        Some(DownloadTaskStatus::Pending) => {
            let mut v: Vec<DownloadTaskStatus> = Vec::new();
            v.push(DownloadTaskStatus::Preparing);
            v.push(DownloadTaskStatus::Downloading);
            Ok(v)
        },
        Some(DownloadTaskStatus::Preparing) => {
            let mut v: Vec<DownloadTaskStatus> = Vec::new();
            v.push(DownloadTaskStatus::Downloading);
            Ok(v)
        },
        Some(DownloadTaskStatus::Downloading) | Some(DownloadTaskStatus::Paused) => Ok(Vec::new()),
        Some(DownloadTaskStatus::Completed) | Some(DownloadTaskStatus::Cancelled) | Some(
            DownloadTaskStatus::Failed,
        ) => Err(storage_message("下载流已处于终态：", stream_key)),
        Some(DownloadTaskStatus::Merging) => Err(storage_message("下载流状态无效：", stream_key)),
    }
}

/// The name `Debug` prints for a status.
pub open spec fn status_debug_name(s: DownloadTaskStatus) -> Seq<char> {
    match s {
        DownloadTaskStatus::Pending => "Pending"@,
        DownloadTaskStatus::Preparing => "Preparing"@,
        DownloadTaskStatus::Downloading => "Downloading"@,
        DownloadTaskStatus::Paused => "Paused"@,
        DownloadTaskStatus::Merging => "Merging"@,
        DownloadTaskStatus::Completed => "Completed"@,
        DownloadTaskStatus::Cancelled => "Cancelled"@,
        DownloadTaskStatus::Failed => "Failed"@,
    }
}

fn status_debug(s: DownloadTaskStatus) -> (r: &'static str)
    ensures
        r@ == status_debug_name(s),
{
    match s {
        DownloadTaskStatus::Pending => "Pending",
        DownloadTaskStatus::Preparing => "Preparing",
        DownloadTaskStatus::Downloading => "Downloading",
        DownloadTaskStatus::Paused => "Paused",
        DownloadTaskStatus::Merging => "Merging",
        DownloadTaskStatus::Completed => "Completed",
        DownloadTaskStatus::Cancelled => "Cancelled",
        DownloadTaskStatus::Failed => "Failed",
    }
}

/// Whether a stream whose last update says it finished is to be completed in
/// storage: yes when it is downloading, no when it is already completed; any
/// other recorded status, or none, is an error.
pub fn stream_completion(status: Option<DownloadTaskStatus>, stream_key: &str) -> (r: Result<
    bool,
    DownloadTaskError,
>)
    ensures
        status == Some(DownloadTaskStatus::Downloading) ==> r == Ok::<bool, DownloadTaskError>(true),
        status == Some(DownloadTaskStatus::Completed) ==> r == Ok::<bool, DownloadTaskError>(false),
        (status matches Some(s) && s != DownloadTaskStatus::Downloading && s != DownloadTaskStatus::Completed)
            ==> is_storage_error(
            r,
            "下载流无法完成，当前状态为 "@ + status_debug_name(status->Some_0) + "："@ + stream_key@,
        ),
        status is None ==> is_storage_error(r, "未找到下载流映射："@ + stream_key@),
{
    match status {
        Some(DownloadTaskStatus::Downloading) => Ok(true),
        Some(DownloadTaskStatus::Completed) => Ok(false),
        Some(s) => {
            let mut m = string_of("下载流无法完成，当前状态为 ");
            push_str(&mut m, status_debug(s));
            push_str(&mut m, "：");
            push_str(&mut m, stream_key);
            Err(DownloadTaskError::Storage(m))
        },
        None => Err(storage_message("未找到下载流映射：", stream_key)),
    }
}

/// Whether a progress update is written now: always when forced (a stream
/// finished), and otherwise when nothing was written yet or the last write is at
/// least the write interval ago.
pub fn progress_write_due(force: bool, millis_since_last_write: Option<u128>) -> (r: bool)
    ensures
        r == (force || match millis_since_last_write {
            None => true,
            Some(ms) => ms >= PROGRESS_WRITE_INTERVAL_MILLIS,
        }),
{
    force || match millis_since_last_write {
        None => true,
        Some(ms) => ms >= PROGRESS_WRITE_INTERVAL_MILLIS,
    }
}

/// The facts of a media format that a download stream is recorded with.
#[derive(Debug, Clone, PartialEq, Eq)]
pub struct FormatFacts {
    pub format_id: Option<String>,
    pub extension: Option<String>,
    pub width: Option<u64>,
    pub height: Option<u64>,
    pub video_codec: Option<String>,
    pub audio_codec: Option<String>,
}

/// Whether a codec field names a codec (neither missing, empty nor `none`).
pub open spec fn names_codec(codec: Option<String>) -> bool {
    match codec {
        Some(c) => c@.len() > 0 && c@ != "none"@,
        None => false,
    }
}

fn codec_present(codec: &Option<String>) -> (r: bool)
    ensures
        r == names_codec(*codec),
{
    match codec {
        Some(c) => c.as_str().unicode_len() > 0 && !str_eq(c.as_str(), "none"),
        None => false,
    }
}

/// Whether `r` is an invalid-request error with message `m`.
pub open spec fn is_request_error<T>(r: Result<T, DownloadTaskError>, m: Seq<char>) -> bool {
    r matches Err(DownloadTaskError::InvalidDownloadRequest(x)) && x@ == m
}

/// Checks that a selected format carries its own kind of stream only: the video
/// format a video codec and no audio codec, the audio format the reverse.
pub fn validate_selected_stream(format: &FormatFacts, media_type: DownloadMediaType) -> (r: Result<
    (),
    DownloadTaskError,
>)
    ensures
        media_type == DownloadMediaType::Video ==> (if !names_codec(format.video_codec) {
            is_request_error(r, "所选视频格式不包含视频流"@)
        } else if names_codec(format.audio_codec) {
            is_request_error(r, "所选视频格式必须是独立视频流"@)
        } else {
            r is Ok
        }),
        media_type == DownloadMediaType::Audio ==> (if !names_codec(format.audio_codec) {
            is_request_error(r, "所选音频格式不包含音频流"@)
        } else if names_codec(format.video_codec) {
            is_request_error(r, "所选音频格式必须是独立音频流"@)
        } else {
            r is Ok
        }),
{
    let (required, forbidden, missing, combined) = match media_type {
        DownloadMediaType::Video => (
            &format.video_codec,
            &format.audio_codec,
            "所选视频格式不包含视频流",
            "所选视频格式必须是独立视频流",
        ),
        DownloadMediaType::Audio => (
            &format.audio_codec,
            &format.video_codec,
            "所选音频格式不包含音频流",
            "所选音频格式必须是独立音频流",
        ),
    };
    if !codec_present(required) {
        return Err(DownloadTaskError::InvalidDownloadRequest(string_of(missing)));
    }
    if codec_present(forbidden) {
        return Err(DownloadTaskError::InvalidDownloadRequest(string_of(combined)));
    }
    Ok(())
}

/// Whether the format `f` has the id `id`.
pub open spec fn has_id(f: FormatFacts, id: Seq<char>) -> bool {
    f.format_id matches Some(x) && x@ == id
}

/// The first format whose id is `id`.
pub open spec fn first_format(formats: Seq<FormatFacts>, id: Seq<char>) -> Option<int>
    decreases formats.len(),
{
    if formats.len() == 0 {
        None
    } else {
        match first_format(formats.drop_last(), id) {
            Some(i) => Some(i),
            None => if has_id(formats.last(), id) {
                Some(formats.len() - 1)
            } else {
                None
            },
        }
    }
}

proof fn lemma_first_format(formats: Seq<FormatFacts>, id: Seq<char>, k: int)
    requires
        0 <= k <= formats.len(),
        forall|j: int| 0 <= j < k ==> !has_id(#[trigger] formats[j], id),
    ensures
        first_format(formats.take(k), id) is None,
    decreases k,
{
    if k > 0 {
        assert(formats.take(k).drop_last() =~= formats.take(k - 1));
        lemma_first_format(formats, id, k - 1);
    }
}

proof fn lemma_first_format_prefix(formats: Seq<FormatFacts>, id: Seq<char>, k: int)
    requires
        0 <= k < formats.len(),
        first_format(formats.take(k), id) is None,
        has_id(formats[k], id),
    ensures
        first_format(formats, id) == Some(k),
    decreases formats.len(),
{
    if k < formats.len() - 1 {
        assert(formats.drop_last().take(k) =~= formats.take(k));
        lemma_first_format_prefix(formats.drop_last(), id, k);
    } else {
        assert(formats.drop_last() =~= formats.take(k));
    }
}

/// The index of the first format whose id is `format_id`; none is an error
/// naming the kind (`label`) and the id.
pub fn selected_format(formats: &[FormatFacts], format_id: &str, label: &str) -> (r: Result<usize, DownloadTaskError>)
    ensures
        match first_format(formats@, format_id@) {
            Some(i) => r == Ok::<usize, DownloadTaskError>(i as usize),
            None => is_request_error(r, "未找到所选"@ + label@ + "格式："@ + format_id@),
        },
{
    let mut i: usize = 0;
    while i < formats.len()
        invariant
            i <= formats@.len(),
            forall|j: int| 0 <= j < i ==> !has_id(#[trigger] formats@[j], format_id@),
        decreases formats.len() - i,
    {
        let found = match &formats[i].format_id {
            Some(f) => str_eq(f.as_str(), format_id),
            None => false,
        };
        if found {
            proof {
                lemma_first_format(formats@, format_id@, i as int);
                lemma_first_format_prefix(formats@, format_id@, i as int);
            }
            return Ok(i);
        }
        i = i + 1;
    }
    proof {
        lemma_first_format(formats@, format_id@, formats@.len() as int);
        assert(formats@.take(formats@.len() as int) =~= formats@);
    }
    let mut m = string_of("未找到所选");
    push_str(&mut m, label);
    push_str(&mut m, "格式：");
    push_str(&mut m, format_id);
    Err(DownloadTaskError::InvalidDownloadRequest(m))
}

/// The outcome of checking the selected formats of a new download.
pub open spec fn spec_check_formats(formats: Seq<FormatFacts>, video: Seq<char>, audio: Seq<char>) -> Result<
    (int, int),
    Seq<char>,
> {
    match first_format(formats, video) {
        None => Err("未找到所选视频格式："@ + video),
        Some(v) => match first_format(formats, audio) {
            None => Err("未找到所选音频格式："@ + audio),
            Some(a) => if !names_codec(formats[v].video_codec) {
                Err("所选视频格式不包含视频流"@)
            } else if names_codec(formats[v].audio_codec) {
                Err("所选视频格式必须是独立视频流"@)
            } else if !names_codec(formats[a].audio_codec) {
                Err("所选音频格式不包含音频流"@)
            } else if names_codec(formats[a].video_codec) {
                Err("所选音频格式必须是独立音频流"@)
            } else if video == audio {
                Err("视频和音频格式 ID 不能相同"@)
            } else {
                Ok((v, a))
            },
        },
    }
}

proof fn lemma_first_format_in_range(formats: Seq<FormatFacts>, id: Seq<char>)
    ensures
        first_format(formats, id) matches Some(i) ==> 0 <= i < formats.len() && has_id(formats[i], id),
    decreases formats.len(),
{
    if formats.len() > 0 {
        lemma_first_format_in_range(formats.drop_last(), id);
        if first_format(formats.drop_last(), id) is Some {
            let i = first_format(formats.drop_last(), id)->Some_0;
            assert(formats.drop_last()[i] == formats[i]);
        }
    }
}

/// Finds the selected video and audio formats of a new download and checks them:
/// each must exist and carry only its own kind of stream, and the two must differ.
pub fn check_selected_formats(formats: &[FormatFacts], video_format_id: &str, audio_format_id: &str) -> (r:
    Result<(usize, usize), DownloadTaskError>)
    ensures
        match spec_check_formats(formats@, video_format_id@, audio_format_id@) {
            Ok((v, a)) => r matches Ok((x, y)) && x == v && y == a,
            Err(m) => is_request_error(r, m),
        },
{
    proof {
        lemma_first_format_in_range(formats@, video_format_id@);
        lemma_first_format_in_range(formats@, audio_format_id@);
        reveal_strlit("视频");
        reveal_strlit("音频");
        reveal_strlit("未找到所选");
        reveal_strlit("格式：");
        reveal_strlit("未找到所选视频格式：");
        reveal_strlit("未找到所选音频格式：");
    }
    let v = match selected_format(formats, video_format_id, "视频") {
        Ok(i) => i,
        Err(e) => {
            assert("未找到所选"@ + "视频"@ + "格式："@ + video_format_id@ =~= "未找到所选视频格式："@
                + video_format_id@);
            return Err(e);
        },
    };
    let a = match selected_format(formats, audio_format_id, "音频") {
        Ok(i) => i,
        Err(e) => {
            assert("未找到所选"@ + "音频"@ + "格式："@ + audio_format_id@ =~= "未找到所选音频格式："@
                + audio_format_id@);
            return Err(e);
        },
    };
    match validate_selected_stream(&formats[v], DownloadMediaType::Video) {
        Ok(()) => {},
        Err(e) => {
            return Err(e);
        },
    }
    match validate_selected_stream(&formats[a], DownloadMediaType::Audio) {
        Ok(()) => {},
        Err(e) => {
            return Err(e);
        },
    }
    if str_eq(video_format_id, audio_format_id) {
        return Err(DownloadTaskError::InvalidDownloadRequest(string_of("视频和音频格式 ID 不能相同")));
    }
    Ok((v, a))
}

/// A size or count of a format as stored, which must fit `i64`.
pub fn optional_u64_to_i64(value: Option<u64>, label: &str) -> (r: Result<Option<i64>, DownloadTaskError>)
    ensures
        value is None ==> r == Ok::<Option<i64>, DownloadTaskError>(None),
        (value matches Some(v) && v <= i64::MAX) ==> r == Ok::<Option<i64>, DownloadTaskError>(
            Some(value->Some_0 as i64),
        ),
        (value matches Some(v) && v > i64::MAX) ==> is_request_error(r, label@ + "超出支持范围"@),
{
    match value {
        None => Ok(None),
        Some(v) => if v <= 9223372036854775807u64 {
            Ok(Some(v as i64))
        } else {
            let mut m = string_of(label);
            push_str(&mut m, "超出支持范围");
            Err(DownloadTaskError::InvalidDownloadRequest(m))
        },
    }
}

/// Copies an optional string.
fn copy_opt(o: &Option<String>) -> (r: Option<String>)
    ensures
        crate::download_task::process::opt_text(r) == crate::download_task::process::opt_text(*o),
{
    match o {
        Some(s) => Some(string_of(s.as_str())),
        None => None,
    }
}

/// Whether an optional size does not fit `i64`.
pub open spec fn exceeds_i64(v: Option<u64>) -> bool {
    match v {
        Some(w) => w > i64::MAX,
        None => false,
    }
}

/// An optional size as stored.
pub open spec fn size_as_i64(v: Option<u64>) -> Option<i64> {
    match v {
        Some(w) => Some(w as i64),
        None => None,
    }
}

/// Whether `d` is the stream record of the format `f`, of kind `m`, made at `now`.
pub open spec fn is_stream_draft_of(d: DownloadTaskStreamDraft, f: FormatFacts, m: DownloadMediaType, now: i64) -> bool {
    &&& crate::download_task::process::opt_text(f.format_id) == Some(d.stream_key@)
    &&& crate::download_task::process::opt_text(d.format_id) == Some(d.stream_key@)
    &&& d.media_type == (match m {
        DownloadMediaType::Video => DownloadStreamMediaType::Video,
        DownloadMediaType::Audio => DownloadStreamMediaType::Audio,
    })
    &&& crate::download_task::process::opt_text(d.extension) == crate::download_task::process::opt_text(
        f.extension,
    )
    &&& crate::download_task::process::opt_text(d.video_codec) == crate::download_task::process::opt_text(
        f.video_codec,
    )
    &&& crate::download_task::process::opt_text(d.audio_codec) == crate::download_task::process::opt_text(
        f.audio_codec,
    )
    &&& d.width == size_as_i64(f.width)
    &&& d.height == size_as_i64(f.height)
    &&& d.created_at == now
}

/// The stream record of a selected format: keyed by its format id, of the given
/// kind, with its container, size and codecs.
pub fn stream_draft(format: &FormatFacts, media_type: DownloadMediaType, now: i64) -> (r: Result<
    DownloadTaskStreamDraft,
    DownloadTaskError,
>)
    ensures
        format.format_id is None ==> is_request_error(r, "所选格式缺少格式 ID"@),
        (format.format_id is Some && exceeds_i64(format.width)) ==> is_request_error(r, "视频宽度超出支持范围"@),
        (format.format_id is Some && !exceeds_i64(format.width) && exceeds_i64(format.height))
            ==> is_request_error(r, "视频高度超出支持范围"@),
        (format.format_id is Some && !exceeds_i64(format.width) && !exceeds_i64(format.height)) ==> (r matches Ok(
            d,
        ) && is_stream_draft_of(d, *format, media_type, now)),
{
    let format_id = match &format.format_id {
        Some(f) => string_of(f.as_str()),
        None => {
            return Err(DownloadTaskError::InvalidDownloadRequest(string_of("所选格式缺少格式 ID")));
        },
    };
    let width = match optional_u64_to_i64(format.width, "视频宽度") {
        Ok(w) => w,
        Err(e) => {
            proof {
                reveal_strlit("视频宽度");
                reveal_strlit("超出支持范围");
                reveal_strlit("视频宽度超出支持范围");
            }
            assert("视频宽度"@ + "超出支持范围"@ =~= "视频宽度超出支持范围"@);
            return Err(e);
        },
    };
    let height = match optional_u64_to_i64(format.height, "视频高度") {
        Ok(h) => h,
        Err(e) => {
            proof {
                reveal_strlit("视频高度");
                reveal_strlit("超出支持范围");
                reveal_strlit("视频高度超出支持范围");
            }
            assert("视频高度"@ + "超出支持范围"@ =~= "视频高度超出支持范围"@);
            return Err(e);
        },
    };
    let key = string_of(format_id.as_str());
    Ok(
        DownloadTaskStreamDraft {
            stream_key: key,
            format_id: Some(format_id),
            media_type: match media_type {
                DownloadMediaType::Video => DownloadStreamMediaType::Video,
                DownloadMediaType::Audio => DownloadStreamMediaType::Audio,
            },
            extension: copy_opt(&format.extension),
            width,
            height,
            video_codec: copy_opt(&format.video_codec),
            audio_codec: copy_opt(&format.audio_codec),
            created_at: now,
        },
    )
}

/// Why the stream record of a format cannot be made, if it cannot: a width, then
/// a height, that does not fit `i64`.
pub open spec fn stream_draft_error(f: FormatFacts) -> Option<Seq<char>> {
    if exceeds_i64(f.width) {
        Some("视频宽度超出支持范围"@)
    } else if exceeds_i64(f.height) {
        Some("视频高度超出支持范围"@)
    } else {
        None
    }
}

/// Whether `d` is the task record of a new download of `selection`: its source,
/// the video's id, title and thumbnail, its duration, the target directory, no
/// output yet, the two format ids joined by `+`, the time and the `yt-dlp`
/// version.
pub open spec fn is_task_draft_of(
    d: DownloadTaskDraft,
    selection: DownloadSelection,
    video_id: Seq<char>,
    title: Seq<char>,
    thumbnail_url: Option<Seq<char>>,
    duration_seconds: Option<i64>,
    yt_dlp_version: Seq<char>,
    now: i64,
) -> bool {
    &&& d.source_url@ == selection.source_url@
    &&& opt_text(d.video_id) == Some(video_id)
    &&& opt_text(d.title) == Some(title)
    &&& opt_text(d.thumbnail_url) == thumbnail_url
    &&& d.duration_seconds == duration_seconds
    &&& d.target_path@ == selection.target_directory@
    &&& d.output_path is None
    &&& opt_text(d.selected_format) == Some(
        selection.selected_video_format_id@ + "+"@ + selection.selected_audio_format_id@,
    )
    &&& d.created_at == now
    &&& opt_text(d.yt_dlp_version) == Some(yt_dlp_version)
}

/// The records a new download is created with: the task and its video and audio
/// streams. The selected formats are checked first; then the duration, which the
/// caller has read from the metadata (an invalid one comes as its error); then
/// each stream record is made, video first.
pub fn plan_new_download(
    selection: &DownloadSelection,
    formats: &[FormatFacts],
    video_id: &str,
    title: &str,
    thumbnail_url: &Option<String>,
    duration_seconds: Result<Option<i64>, DownloadTaskError>,
    yt_dlp_version: &str,
    now: i64,
) -> (r: Result<(DownloadTaskDraft, Vec<DownloadTaskStreamDraft>), DownloadTaskError>)
    ensures
        match spec_check_formats(
            formats@,
            selection.selected_video_format_id@,
            selection.selected_audio_format_id@,
        ) {
            Err(m) => is_request_error(r, m),
            Ok((v, a)) => match duration_seconds {
                Err(e) => r matches Err(x) && x == e,
                Ok(duration) => match (stream_draft_error(formats@[v]), stream_draft_error(formats@[a])) {
                    (Some(m), _) => is_request_error(r, m),
                    (None, Some(m)) => is_request_error(r, m),
                    (None, None) => r matches Ok((draft, streams)) && {
                        &&& is_task_draft_of(
                            draft,
                            *selection,
                            video_id@,
                            title@,
                            opt_text(*thumbnail_url),
                            duration,
                            yt_dlp_version@,
                            now,
                        )
                        &&& streams@.len() == 2
                        &&& is_stream_draft_of(streams@[0], formats@[v], DownloadMediaType::Video, now)
                        &&& is_stream_draft_of(streams@[1], formats@[a], DownloadMediaType::Audio, now)
                    },
                },
            },
        },
{
    let (v, a) = match check_selected_formats(
        formats,
        selection.selected_video_format_id.as_str(),
        selection.selected_audio_format_id.as_str(),
    ) {
        Ok(found) => found,
        Err(e) => {
            return Err(e);
        },
    };
    proof {
        lemma_first_format_in_range(formats@, selection.selected_video_format_id@);
        lemma_first_format_in_range(formats@, selection.selected_audio_format_id@);
    }
    let duration = match duration_seconds {
        Ok(d) => d,
        Err(e) => {
            return Err(e);
        },
    };
    let video_stream = match stream_draft(&formats[v], DownloadMediaType::Video, now) {
        Ok(d) => d,
        Err(e) => {
            return Err(e);
        },
    };
    let audio_stream = match stream_draft(&formats[a], DownloadMediaType::Audio, now) {
        Ok(d) => d,
        Err(e) => {
            return Err(e);
        },
    };
    let mut selected = string_of(selection.selected_video_format_id.as_str());
    push_str(&mut selected, "+");
    push_str(&mut selected, selection.selected_audio_format_id.as_str());
    let draft = DownloadTaskDraft {
        source_url: string_of(selection.source_url.as_str()),
        video_id: Some(string_of(video_id)),
        title: Some(string_of(title)),
        thumbnail_url: copy_opt(thumbnail_url),
        duration_seconds: duration,
        target_path: string_of(selection.target_directory.as_str()),
        output_path: None,
        selected_format: Some(selected),
        created_at: now,
        yt_dlp_version: Some(string_of(yt_dlp_version)),
    };
    let mut streams: Vec<DownloadTaskStreamDraft> = Vec::new();
    streams.push(video_stream);
    streams.push(audio_stream);
    Ok((draft, streams))
}

} // verus!
