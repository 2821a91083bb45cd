//! The values a download reports while it runs.
use vstd::prelude::*;

verus! {

/// The `yt-dlp` version string, kept verbatim (date-based versions are not SemVer).
#[derive(Debug, Clone, PartialEq, Eq)]
pub struct YtDlpVersion {
    pub value: String,
}

/// Whether a stream carries the video or the audio of a download.
#[derive(Debug, Clone, Copy, PartialEq, Eq, Structural)]
pub enum DownloadMediaType {
    Video,
    Audio,
}

/// The state `yt-dlp` reports for one stream.
#[derive(Debug, Clone, Copy, PartialEq, Eq, Structural)]
pub enum DownloadStreamStatus {
    Downloading,
    Finished,
}

/// The stage of a whole download.
#[derive(Debug, Clone, Copy, PartialEq, Eq, Structural)]
pub enum DownloadStage {
    Preparing,
    Downloading,
    Merging,
    Completed,
}

/// Per-request options of a download command.
#[derive(Debug, Clone, PartialEq, Eq)]
pub struct DownloadOptions {
    pub rate_limit: Option<String>,
    pub retries: Option<u32>,
    pub fragment_retries: Option<u32>,
    pub file_access_retries: Option<u32>,
    pub concurrent_fragments: Option<u32>,
}

impl Default for DownloadOptions {
    fn default() -> (r: Self)
        ensures
            r.rate_limit is None,
            r.retries is None,
            r.fragment_retries is None,
            r.file_access_retries is None,
            r.concurrent_fragments is None,
    {
        DownloadOptions {
            rate_limit: None,
            retries: None,
            fragment_retries: None,
            file_access_retries: None,
            concurrent_fragments: None,
        }
    }
}

/// The progress of one stream.
#[derive(Debug, Clone, PartialEq, Eq)]
pub struct StreamProgress {
    pub stream_key: String,
    pub format_id: Option<String>,
    pub media_type: DownloadMediaType,
    pub status: DownloadStreamStatus,
    pub downloaded_bytes: i64,
    pub total_bytes: Option<i64>,
    pub total_bytes_estimate: Option<i64>,
    pub speed_bytes_per_second: Option<i64>,
    pub elapsed_seconds: Option<i64>,
    pub eta_seconds: Option<i64>,
    pub percent: Option<u8>,
    pub started_at: Option<i64>,
    pub finished_at: Option<i64>,
}

/// The progress of a whole download, summed over its streams.
#[derive(Debug, Clone, PartialEq, Eq)]
pub struct DownloadProgress {
    pub task_id: i64,
    pub stage: DownloadStage,
    pub downloaded_bytes: i64,
    pub total_bytes: Option<i64>,
    pub total_bytes_estimate: Option<i64>,
    pub speed_bytes_per_second: Option<i64>,
    pub elapsed_seconds: Option<i64>,
    pub eta_seconds: Option<i64>,
    pub percent: Option<u8>,
    pub total_is_estimate: bool,
    pub active_stream: Option<String>,
    pub updated_at: i64,
}

/// The outcome of a finished download.
#[derive(Debug, Clone, PartialEq, Eq)]
pub struct DownloadResult {
    pub task_id: i64,
    pub output_path: Option<std::path::PathBuf>,
}

/// What a running download reports, in order: it started, its streams and its
/// whole progress moved, merging began, and how it ended.
#[derive(Debug)]
pub enum DownloadMessage {
    Started,
    StreamProgress(StreamProgress),
    Progress(DownloadProgress),
    Merging,
    Completed(DownloadResult),
    Cancelled,
    Failed(crate::download_task::error::DownloadTaskError),
}

/// A progress snapshot of a stage with nothing downloaded yet.
pub fn empty_progress(task_id: i64, stage: DownloadStage, updated_at: i64) -> (r: DownloadProgress)
    ensures
        r.task_id == task_id,
        r.stage == stage,
        r.downloaded_bytes == 0,
        r.total_bytes is None,
        r.total_bytes_estimate is None,
        r.speed_bytes_per_second is None,
        r.elapsed_seconds is None,
        r.eta_seconds is None,
        r.percent is None,
        !r.total_is_estimate,
        r.active_stream is None,
        r.updated_at == updated_at,
{
    DownloadProgress {
        task_id,
        stage,
        downloaded_bytes: 0,
        total_bytes: None,
        total_bytes_estimate: None,
        speed_bytes_per_second: None,
        elapsed_seconds: None,
        eta_seconds: None,
        percent: None,
        total_is_estimate: false,
        active_stream: None,
        updated_at,
    }
}

/// What a download request asks for, apart from the video's metadata: the
/// source, the two formats to merge, where the result goes and how it is fetched.
#[derive(Debug, Clone, PartialEq, Eq)]
pub struct DownloadSelection {
    pub source_url: String,
    pub selected_video_format_id: String,
    pub selected_audio_format_id: String,
    pub output_template: String,
    /// The target directory, as text.
    pub target_directory: String,
    /// The directory of partial files, as text.
    pub temporary_directory: String,
    pub merge_output_format: String,
    pub options: DownloadOptions,
}

impl DownloadSelection {
    /// Fails when a field is empty or blank, or when the merge container is not
    /// `mp4` or `mkv`.
    pub fn validate(&self) -> (r: Result<(), String>)
        ensures
            match (r, crate::download_task::process::spec_selection_check(*self)) {
                (Ok(()), Ok(())) => true,
                (Err(m), Err(e)) => m@ == e,
                _ => false,
            },
    {
        if crate::text::is_blank(self.source_url.as_str()) || crate::text::is_blank(
            self.selected_video_format_id.as_str(),
        ) || crate::text::is_blank(self.selected_audio_format_id.as_str()) || crate::text::is_blank(
            self.output_template.as_str(),
        ) || crate::text::is_blank(self.merge_output_format.as_str()) {
            return Err(crate::text::string_of("下载请求包含空字段"));
        }
        if !crate::text::str_eq(self.merge_output_format.as_str(), "mp4") && !crate::text::str_eq(
            self.merge_output_format.as_str(),
            "mkv",
        ) {
            return Err(crate::text::string_of("合并容器只能是 mp4 或 mkv"));
        }
        Ok(())
    }
}

} // verus!
