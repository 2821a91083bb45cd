//! The persisted model of download tasks and their streams, with the lifecycle
//! state machine that every status write must follow.
use crate::storage::error::StorageError;
use crate::text::{is_blank, push_str, str_eq, string_of, trim};
use vstd::prelude::*;

verus! {

/// The lifecycle states a download task may take in storage.
#[derive(Debug, Clone, Copy, PartialEq, Eq, Structural)]
pub enum DownloadTaskStatus {
    Pending,
    Preparing,
    Downloading,
    Paused,
    Merging,
    Completed,
    Cancelled,
    Failed,
}

/// The stored text of each status.
pub open spec fn status_text(s: DownloadTaskStatus) -> Seq<char> {
    match s {
        DownloadTaskStatus::Pending => "pending"@,
        DownloadTaskStatus::Preparing => "preparing"@,
        DownloadTaskStatus::Downloading => "downloading"@,
        DownloadTaskStatus::Paused => "paused"@,
        DownloadTaskStatus::Merging => "merging"@,
        DownloadTaskStatus::Completed => "completed"@,
        DownloadTaskStatus::Cancelled => "cancelled"@,
        DownloadTaskStatus::Failed => "failed"@,
    }
}

/// The status changes a task may make.
pub open spec fn task_transition(from: DownloadTaskStatus, to: DownloadTaskStatus) -> bool {
    match (from, to) {
        (DownloadTaskStatus::Pending, DownloadTaskStatus::Preparing) | (DownloadTaskStatus::Pending, DownloadTaskStatus::Cancelled) | (DownloadTaskStatus::Pending, DownloadTaskStatus::Failed) => true,
        (DownloadTaskStatus::Preparing, DownloadTaskStatus::Downloading) | (DownloadTaskStatus::Preparing, DownloadTaskStatus::Paused) | (DownloadTaskStatus::Preparing, DownloadTaskStatus::Cancelled) | (
            DownloadTaskStatus::Preparing,
            DownloadTaskStatus::Failed,
        ) => true,
        (DownloadTaskStatus::Downloading, DownloadTaskStatus::Paused) | (DownloadTaskStatus::Downloading, DownloadTaskStatus::Merging) | (DownloadTaskStatus::Downloading, DownloadTaskStatus::Completed) | (
            DownloadTaskStatus::Downloading,
            DownloadTaskStatus::Cancelled,
        ) | (DownloadTaskStatus::Downloading, DownloadTaskStatus::Failed) => true,
        (DownloadTaskStatus::Paused, DownloadTaskStatus::Preparing) | (DownloadTaskStatus::Paused, DownloadTaskStatus::Cancelled) | (DownloadTaskStatus::Paused, DownloadTaskStatus::Failed) => true,
        (DownloadTaskStatus::Merging, DownloadTaskStatus::Completed) | (DownloadTaskStatus::Merging, DownloadTaskStatus::Failed) => true,
        _ => false,
    }
}

/// The status changes a stream may make: those of a task without the merging stage.
pub open spec fn stream_transition(from: DownloadTaskStatus, to: DownloadTaskStatus) -> bool {
    match (from, to) {
        (DownloadTaskStatus::Pending, DownloadTaskStatus::Preparing) | (DownloadTaskStatus::Pending, DownloadTaskStatus::Cancelled) | (DownloadTaskStatus::Pending, DownloadTaskStatus::Failed) => true,
        (DownloadTaskStatus::Preparing, DownloadTaskStatus::Downloading) | (DownloadTaskStatus::Preparing, DownloadTaskStatus::Paused) | (DownloadTaskStatus::Preparing, DownloadTaskStatus::Cancelled) | (
            DownloadTaskStatus::Preparing,
            DownloadTaskStatus::Failed,
        ) => true,
        (DownloadTaskStatus::Downloading, DownloadTaskStatus::Paused) | (DownloadTaskStatus::Downloading, DownloadTaskStatus::Completed) | (DownloadTaskStatus::Downloading, DownloadTaskStatus::Cancelled) | (
            DownloadTaskStatus::Downloading,
            DownloadTaskStatus::Failed,
        ) => true,
        (DownloadTaskStatus::Paused, DownloadTaskStatus::Preparing) | (DownloadTaskStatus::Paused, DownloadTaskStatus::Cancelled) | (DownloadTaskStatus::Paused, DownloadTaskStatus::Failed) => true,
        _ => false,
    }
}

/// Completed, cancelled and failed are final.
pub open spec fn terminal(s: DownloadTaskStatus) -> bool {
    s == DownloadTaskStatus::Completed || s == DownloadTaskStatus::Cancelled || s
        == DownloadTaskStatus::Failed
}

impl DownloadTaskStatus {
    pub fn as_str(self) -> (r: &'static str)
        ensures
            r@ == status_text(self),
    {
        match self {
            Self::Pending => "pending",
            Self::Preparing => "preparing",
            Self::Downloading => "downloading",
            Self::Paused => "paused",
            Self::Merging => "merging",
            Self::Completed => "completed",
            Self::Cancelled => "cancelled",
            Self::Failed => "failed",
        }
    }

    /// Reads a stored status; any other text is reported with the text itself.
    pub fn parse(value: String) -> (r: Result<Self, StorageError>)
        ensures
            r matches Ok(s) ==> status_text(s) == value@,
            r is Err <==> (forall|s: DownloadTaskStatus| status_text(s) != value@),
            r matches Err(e) ==> (e matches StorageError::InvalidStoredDownloadStatus(v) && v@
                == value@),
    {
        let all = [
            Self::Pending,
            Self::Preparing,
            Self::Downloading,
            Self::Paused,
            Self::Merging,
            Self::Completed,
            Self::Cancelled,
            Self::Failed,
        ];
        let mut i: usize = 0;
        while i < 8
            invariant
                i <= 8,
                all@ == seq![
                    DownloadTaskStatus::Pending,
                    DownloadTaskStatus::Preparing,
                    DownloadTaskStatus::Downloading,
                    DownloadTaskStatus::Paused,
                    DownloadTaskStatus::Merging,
                    DownloadTaskStatus::Completed,
                    DownloadTaskStatus::Cancelled,
                    DownloadTaskStatus::Failed,
                ],
                forall|j: int| 0 <= j < i ==> status_text(#[trigger] all@[j]) != value@,
            decreases 8 - i,
        {
            let candidate = all[i];
            if str_eq(value.as_str(), candidate.as_str()) {
                return Ok(candidate);
            }
            i = i + 1;
        }
        assert forall|s: DownloadTaskStatus| status_text(s) != value@ by {
            let j: int = match s {
                DownloadTaskStatus::Pending => 0,
                DownloadTaskStatus::Preparing => 1,
                DownloadTaskStatus::Downloading => 2,
                DownloadTaskStatus::Paused => 3,
                DownloadTaskStatus::Merging => 4,
                DownloadTaskStatus::Completed => 5,
                DownloadTaskStatus::Cancelled => 6,
                DownloadTaskStatus::Failed => 7,
            };
            assert(all@[j] == s);
        }
        Err(StorageError::InvalidStoredDownloadStatus(value))
    }

    pub fn can_transition_to(self, target: Self) -> (r: bool)
        ensures
            r == task_transition(self, target),
    {
        match (self, target) {
            (Self::Pending, Self::Preparing) | (Self::Pending, Self::Cancelled) | (
                Self::Pending,
                Self::Failed,
            ) => true,
            (Self::Preparing, Self::Downloading) | (Self::Preparing, Self::Paused) | (
                Self::Preparing,
                Self::Cancelled,
            ) | (Self::Preparing, Self::Failed) => true,
            (Self::Downloading, Self::Paused) | (Self::Downloading, Self::Merging) | (
                Self::Downloading,
                Self::Completed,
            ) | (Self::Downloading, Self::Cancelled) | (Self::Downloading, Self::Failed) => true,
            (Self::Paused, Self::Preparing) | (Self::Paused, Self::Cancelled) | (
                Self::Paused,
                Self::Failed,
            ) => true,
            (Self::Merging, Self::Completed) | (Self::Merging, Self::Failed) => true,
            _ => false,
        }
    }

    /// Streams take no part in the task-level merging stage: only the download
    /// stages, pausing and the three final states.
    pub fn can_stream_transition_to(self, target: Self) -> (r: bool)
        ensures
            r == stream_transition(self, target),
    {
        match (self, target) {
            (Self::Pending, Self::Preparing) | (Self::Pending, Self::Cancelled) | (
                Self::Pending,
                Self::Failed,
            ) => true,
            (Self::Preparing, Self::Downloading) | (Self::Preparing, Self::Paused) | (
                Self::Preparing,
                Self::Cancelled,
            ) | (Self::Preparing, Self::Failed) => true,
            (Self::Downloading, Self::Paused) | (Self::Downloading, Self::Completed) | (
                Self::Downloading,
                Self::Cancelled,
            ) | (Self::Downloading, Self::Failed) => true,
            (Self::Paused, Self::Preparing) | (Self::Paused, Self::Cancelled) | (
                Self::Paused,
                Self::Failed,
            ) => true,
            _ => false,
        }
    }

    pub fn is_terminal(self) -> (r: bool)
        ensures
            r == terminal(self),
    {
        match self {
            Self::Completed | Self::Cancelled | Self::Failed => true,
            _ => false,
        }
    }

    pub fn can_accept_progress(self) -> (r: bool)
        ensures
            r == (!terminal(self) && self != DownloadTaskStatus::Paused),
    {
        !self.is_terminal() && !matches!(self, Self::Paused)
    }
}

/// The stored text of each status names exactly one status.
pub proof fn lemma_status_text_injective(a: DownloadTaskStatus, b: DownloadTaskStatus)
    ensures
        status_text(a) == status_text(b) ==> a == b,
{
    reveal_strlit("pending");
    reveal_strlit("preparing");
    reveal_strlit("downloading");
    reveal_strlit("paused");
    reveal_strlit("merging");
    reveal_strlit("completed");
    reveal_strlit("cancelled");
    reveal_strlit("failed");
    if status_text(a) == status_text(b) && a != b {
        assert(status_text(a).len() != status_text(b).len() || exists|i: int|
            0 <= i < status_text(a).len() && status_text(a)[i] != status_text(b)[i]) by {
            if status_text(a).len() == status_text(b).len() {
                let x = status_text(a);
                let y = status_text(b);
                if x[0] != y[0] {
                    assert(0 <= 0 < x.len() && x[0] != y[0]);
                } else if x[1] != y[1] {
                    assert(0 <= 1 < x.len() && x[1] != y[1]);
                } else if x[2] != y[2] {
                    assert(0 <= 2 < x.len() && x[2] != y[2]);
                } else {
                    assert(0 <= 3 < x.len() && x[3] != y[3]);
                }
            }
        }
    }
}

/// Law: reading back the stored text of a status gives that status.
pub proof fn law_status_text_round_trip(s: DownloadTaskStatus, t: DownloadTaskStatus)
    ensures
        status_text(t) == status_text(s) <==> t == s,
{
    lemma_status_text_injective(s, t);
}

/// Law: a final status has no way out, and no status leads back to pending.
pub proof fn law_terminal_states_are_final(a: DownloadTaskStatus, b: DownloadTaskStatus)
    ensures
        terminal(a) ==> !task_transition(a, b) && !stream_transition(a, b),
        !task_transition(a, DownloadTaskStatus::Pending),
        !task_transition(a, a),
{
}

/// Law: every stream status change is also a valid task status change, and
/// streams never enter the merging stage.
pub proof fn law_stream_transitions_within_task_transitions(
    a: DownloadTaskStatus,
    b: DownloadTaskStatus,
)
    ensures
        stream_transition(a, b) ==> task_transition(a, b),
        !stream_transition(a, DownloadTaskStatus::Merging),
        !stream_transition(DownloadTaskStatus::Merging, b),
{
}

/// The media kind of a download stream; temporary media URLs are not persisted.
#[derive(Debug, Clone, Copy, PartialEq, Eq, Structural)]
pub enum DownloadStreamMediaType {
    Video,
    Audio,
}

pub open spec fn media_type_text(m: DownloadStreamMediaType) -> Seq<char> {
    match m {
        DownloadStreamMediaType::Video => "video"@,
        DownloadStreamMediaType::Audio => "audio"@,
    }
}

impl DownloadStreamMediaType {
    pub fn as_str(self) -> (r: &'static str)
        ensures
            r@ == media_type_text(self),
    {
        match self {
            Self::Video => "video",
            Self::Audio => "audio",
        }
    }

    /// Reads a stored media type; any other text is reported with the text itself.
    pub fn parse(value: String) -> (r: Result<Self, StorageError>)
        ensures
            r matches Ok(m) ==> media_type_text(m) == value@,
            r is Err <==> (forall|m: DownloadStreamMediaType| media_type_text(m) != value@),
            r matches Err(e) ==> (e matches StorageError::InvalidStoredMediaType(v) && v@
                == value@),
    {
        if str_eq(value.as_str(), "video") {
            Ok(Self::Video)
        } else if str_eq(value.as_str(), "audio") {
            Ok(Self::Audio)
        } else {
            assert forall|m: DownloadStreamMediaType| media_type_text(m) != value@ by {
                match m {
                    DownloadStreamMediaType::Video => {},
                    DownloadStreamMediaType::Audio => {},
                }
            }
            Err(StorageError::InvalidStoredMediaType(value))
        }
    }
}

/// The metadata written when a download task is created; it holds no command line
/// and no proxy credentials.
#[derive(Debug, Clone, PartialEq, Eq)]
pub struct DownloadTaskDraft {
    pub source_url: String,
    pub video_id: Option<String>,
    pub title: Option<String>,
    pub thumbnail_url: Option<String>,
    pub duration_seconds: Option<i64>,
    pub target_path: String,
    pub output_path: Option<String>,
    pub selected_format: Option<String>,
    pub created_at: i64,
    pub yt_dlp_version: Option<String>,
}

/// Per-request options of one download command.
#[derive(Debug, Clone, PartialEq, Eq)]
pub struct DownloadExecutionOptions {
    pub rate_limit: Option<String>,
    pub retries: Option<u32>,
    pub fragment_retries: Option<u32>,
    pub file_access_retries: Option<u32>,
    pub concurrent_fragments: Option<u32>,
}

impl Default for DownloadExecutionOptions {
    fn default() -> (r: Self)
        ensures
            r.rate_limit is None,
            r.retries is None,
            r.fragment_retries is None,
            r.file_access_retries is None,
            r.concurrent_fragments is None,
    {
        DownloadExecutionOptions {
            rate_limit: None,
            retries: None,
            fragment_retries: None,
            file_access_retries: None,
            concurrent_fragments: None,
        }
    }
}

/// The execution parameters fixed when a task is created; resuming reads only these.
#[derive(Debug, Clone, PartialEq, Eq)]
pub struct DownloadExecutionSnapshot {
    pub source_url: String,
    pub video_format_id: String,
    pub audio_format_id: String,
    pub output_template: String,
    pub target_directory: String,
    pub temporary_directory: String,
    pub merge_output_format: String,
    pub options: DownloadExecutionOptions,
}

/// The format and media attributes written when a stream is created.
#[derive(Debug, Clone, PartialEq, Eq)]
pub struct DownloadTaskStreamDraft {
    pub stream_key: String,
    pub format_id: Option<String>,
    pub media_type: DownloadStreamMediaType,
    pub extension: Option<String>,
    pub width: Option<i64>,
    pub height: Option<i64>,
    pub video_codec: Option<String>,
    pub audio_codec: Option<String>,
    pub created_at: i64,
}

/// An incremental progress snapshot of a task or a stream; unknown numbers are `None`.
#[derive(Debug, Clone, Copy, PartialEq, Eq)]
pub struct DownloadProgress {
    pub progress_percent: Option<u8>,
    pub downloaded_bytes: i64,
    pub total_bytes: Option<i64>,
    pub total_bytes_estimate: Option<i64>,
    pub speed_bytes_per_second: Option<i64>,
    pub elapsed_seconds: Option<i64>,
    pub eta_seconds: Option<i64>,
    pub updated_at: i64,
}

/// A complete stored download task.
#[derive(Debug, Clone, PartialEq, Eq)]
pub struct DownloadTask {
    pub id: i64,
    pub source_url: String,
    pub video_id: Option<String>,
    pub title: Option<String>,
    pub thumbnail_url: Option<String>,
    pub duration_seconds: Option<i64>,
    pub target_path: String,
    pub output_path: Option<String>,
    pub selected_format: Option<String>,
    pub status: DownloadTaskStatus,
    pub progress_percent: Option<u8>,
    pub downloaded_bytes: i64,
    pub total_bytes: Option<i64>,
    pub total_bytes_estimate: Option<i64>,
    pub speed_bytes_per_second: Option<i64>,
    pub elapsed_seconds: Option<i64>,
    pub eta_seconds: Option<i64>,
    pub created_at: i64,
    pub started_at: Option<i64>,
    pub finished_at: Option<i64>,
    pub updated_at: i64,
    pub yt_dlp_version: Option<String>,
    pub error_code: Option<String>,
    pub error_message: Option<String>,
}

/// A complete stored download stream.
#[derive(Debug, Clone, PartialEq, Eq)]
pub struct DownloadTaskStream {
    pub id: i64,
    pub task_id: i64,
    pub stream_key: String,
    pub format_id: Option<String>,
    pub media_type: DownloadStreamMediaType,
    pub extension: Option<String>,
    pub width: Option<i64>,
    pub height: Option<i64>,
    pub video_codec: Option<String>,
    pub audio_codec: Option<String>,
    pub status: DownloadTaskStatus,
    pub progress_percent: Option<u8>,
    pub downloaded_bytes: i64,
    pub total_bytes: Option<i64>,
    pub total_bytes_estimate: Option<i64>,
    pub speed_bytes_per_second: Option<i64>,
    pub elapsed_seconds: Option<i64>,
    pub eta_seconds: Option<i64>,
    pub created_at: i64,
    pub started_at: Option<i64>,
    pub finished_at: Option<i64>,
    pub updated_at: i64,
}

/// A task together with all of its streams.
#[derive(Debug, Clone, PartialEq, Eq)]
pub struct DownloadTaskWithStreams {
    pub task: DownloadTask,
    pub streams: Vec<DownloadTaskStream>,
}

/// An optional status filter and row limit for listing tasks.
#[derive(Debug, Clone, Copy, PartialEq, Eq)]
pub struct DownloadTaskFilter {
    pub status: Option<DownloadTaskStatus>,
    pub limit: Option<u32>,
}

impl Default for DownloadTaskFilter {
    fn default() -> (r: Self)
        ensures
            r.status is None,
            r.limit is None,
    {
        DownloadTaskFilter { status: None, limit: None }
    }
}

/// The row limit of a task listing: 100 unless given, and never above 1000.
pub fn list_limit(filter: DownloadTaskFilter) -> (r: i64)
    ensures
        r == (match filter.limit {
            Some(l) => if l < 1000 { l as int } else { 1000 },
            None => 100,
        }),
{
    let limit = match filter.limit {
        Some(l) => l,
        None => 100,
    };
    if limit < 1000 {
        limit as i64
    } else {
        1000
    }
}

pub open spec fn negative_opt(value: Option<i64>) -> bool {
    value matches Some(v) && v < 0
}

/// Rejects a negative optional number.
pub fn validate_optional_nonnegative(value: Option<i64>) -> (r: Result<(), StorageError>)
    ensures
        r is Ok <==> !negative_opt(value),
        r matches Err(e) ==> e is InvalidDownloadInput,
{
    match value {
        Some(v) if v < 0 => Err(StorageError::InvalidDownloadInput),
        _ => Ok(()),
    }
}

impl DownloadTaskDraft {
    /// A task needs a source URL, a target path, a non-negative creation time and
    /// a non-negative duration when one is known.
    pub fn validate(&self) -> (r: Result<(), StorageError>)
        ensures
            r is Ok <==> (self.source_url@.len() > 0 && self.target_path@.len() > 0
                && self.created_at >= 0 && !negative_opt(self.duration_seconds)),
            r matches Err(e) ==> e is InvalidDownloadInput,
    {
        if self.source_url.as_str().is_empty() || self.target_path.as_str().is_empty()
            || self.created_at < 0 {
            return Err(StorageError::InvalidDownloadInput);
        }
        validate_optional_nonnegative(self.duration_seconds)
    }
}

/// `"{video}+{audio}"`, the combined format selector.
pub open spec fn combined_format(video: Seq<char>, audio: Seq<char>) -> Seq<char> {
    video + "+"@ + audio
}

/// Whether a snapshot fits the task it is stored with.
pub open spec fn snapshot_fits_task(s: DownloadExecutionSnapshot, t: DownloadTaskDraft) -> bool {
    &&& s.source_url@ == t.source_url@
    &&& s.target_directory@ == t.target_path@
    &&& trim(s.source_url@).len() > 0
    &&& trim(s.video_format_id@).len() > 0
    &&& trim(s.audio_format_id@).len() > 0
    &&& s.video_format_id@ != s.audio_format_id@
    &&& (t.selected_format matches Some(f) ==> f@ == combined_format(
        s.video_format_id@,
        s.audio_format_id@,
    ))
    &&& trim(s.output_template@).len() > 0
    &&& trim(s.target_directory@).len() > 0
    &&& trim(s.temporary_directory@).len() > 0
    &&& (s.merge_output_format@ == "mp4"@ || s.merge_output_format@ == "mkv"@)
}

impl DownloadExecutionSnapshot {
    /// A stream must download the format that the snapshot selected for its kind.
    pub fn validate_stream(&self, stream: &DownloadTaskStreamDraft) -> (r: Result<
        (),
        StorageError,
    >)
        ensures
            r is Ok <==> (stream.format_id matches Some(f) && f@ == (match stream.media_type {
                DownloadStreamMediaType::Video => self.video_format_id@,
                DownloadStreamMediaType::Audio => self.audio_format_id@,
            })),
            r matches Err(e) ==> e is InvalidDownloadInput,
    {
        let expected = match stream.media_type {
            DownloadStreamMediaType::Video => &self.video_format_id,
            DownloadStreamMediaType::Audio => &self.audio_format_id,
        };
        match &stream.format_id {
            Some(f) => {
                if str_eq(f.as_str(), expected.as_str()) {
                    Ok(())
                } else {
                    Err(StorageError::InvalidDownloadInput)
                }
            },
            None => Err(StorageError::InvalidDownloadInput),
        }
    }

    /// The snapshot must match its task and name two distinct, non-blank formats,
    /// a template, both directories and an `mp4` or `mkv` container.
    pub fn validate_for_task(&self, task: &DownloadTaskDraft) -> (r: Result<(), StorageError>)
        ensures
            r is Ok <==> snapshot_fits_task(*self, *task),
            r matches Err(e) ==> e is InvalidDownloadInput,
    {
        let selected_ok = match &task.selected_format {
            Some(format) => {
                let mut combined = string_of(self.video_format_id.as_str());
                push_str(&mut combined, "+");
                push_str(&mut combined, self.audio_format_id.as_str());
                str_eq(format.as_str(), combined.as_str())
            },
            None => true,
        };
        if !str_eq(self.source_url.as_str(), task.source_url.as_str()) || !str_eq(
            self.target_directory.as_str(),
            task.target_path.as_str(),
        ) || is_blank(self.source_url.as_str()) || is_blank(self.video_format_id.as_str())
            || is_blank(self.audio_format_id.as_str()) || str_eq(
            self.video_format_id.as_str(),
            self.audio_format_id.as_str(),
        ) || !selected_ok || is_blank(self.output_template.as_str()) || is_blank(
            self.target_directory.as_str(),
        ) || is_blank(self.temporary_directory.as_str()) || !(str_eq(
            self.merge_output_format.as_str(),
            "mp4",
        ) || str_eq(self.merge_output_format.as_str(), "mkv")) {
            return Err(StorageError::InvalidDownloadInput);
        }
        Ok(())
    }
}

impl DownloadTaskStreamDraft {
    /// A stream needs a key, a non-negative creation time and non-negative sizes.
    pub fn validate(&self) -> (r: Result<(), StorageError>)
        ensures
            r is Ok <==> (self.stream_key@.len() > 0 && self.created_at >= 0 && !negative_opt(
                self.width,
            ) && !negative_opt(self.height)),
            r matches Err(e) ==> e is InvalidDownloadInput,
    {
        if self.stream_key.as_str().is_empty() || self.created_at < 0 {
            return Err(StorageError::InvalidDownloadInput);
        }
        validate_optional_nonnegative(self.width)?;
        validate_optional_nonnegative(self.height)
    }
}

impl DownloadProgress {
    /// The update time and the downloaded bytes must not be negative; a negative
    /// optional number is reported as invalid input.
    pub fn validate(self) -> (r: Result<(), StorageError>)
        ensures
            r is Ok <==> (self.updated_at >= 0 && self.downloaded_bytes >= 0 && !negative_opt(
                self.total_bytes,
            ) && !negative_opt(self.total_bytes_estimate) && !negative_opt(
                self.speed_bytes_per_second,
            ) && !negative_opt(self.elapsed_seconds) && !negative_opt(self.eta_seconds)),
            r matches Err(e) ==> (if self.updated_at < 0 || self.downloaded_bytes < 0 {
                e is InvalidDownloadProgress
            } else {
                e is InvalidDownloadInput
            }),
    {
        if self.updated_at < 0 || self.downloaded_bytes < 0 {
            return Err(StorageError::InvalidDownloadProgress);
        }
        validate_optional_nonnegative(self.total_bytes)?;
        validate_optional_nonnegative(self.total_bytes_estimate)?;
        validate_optional_nonnegative(self.speed_bytes_per_second)?;
        validate_optional_nonnegative(self.elapsed_seconds)?;
        validate_optional_nonnegative(self.eta_seconds)
    }
}

} // verus!
