//! Values exchanged between the user interface and the background worker.
use crate::text::{str_eq, string_of};
use vstd::prelude::*;

verus! {

/// The status of a download as the worker reports it.
#[derive(Debug, Clone, Copy, PartialEq, Eq, Structural)]
pub enum DownloadStatus {
    Queued,
    Ready,
    Running,
    Paused,
    Completed,
    Failed,
}

pub open spec fn download_status_text(s: DownloadStatus) -> Seq<char> {
    match s {
        DownloadStatus::Queued => "queued"@,
        DownloadStatus::Ready => "ready"@,
        DownloadStatus::Running => "running"@,
        DownloadStatus::Paused => "paused"@,
        DownloadStatus::Completed => "completed"@,
        DownloadStatus::Failed => "failed"@,
    }
}

/// How a stored status text is read: `succeeded` is an older word for completed,
/// and any unknown text counts as queued.
pub open spec fn download_status_of(v: Seq<char>) -> DownloadStatus {
    if v == "ready"@ {
        DownloadStatus::Ready
    } else if v == "running"@ {
        DownloadStatus::Running
    } else if v == "paused"@ {
        DownloadStatus::Paused
    } else if v == "completed"@ || v == "succeeded"@ {
        DownloadStatus::Completed
    } else if v == "failed"@ {
        DownloadStatus::Failed
    } else {
        DownloadStatus::Queued
    }
}

impl DownloadStatus {
    pub fn as_str(self) -> (r: &'static str)
        ensures
            r@ == download_status_text(self),
    {
        match self {
            Self::Queued => "queued",
            Self::Ready => "ready",
            Self::Running => "running",
            Self::Paused => "paused",
            Self::Completed => "completed",
            Self::Failed => "failed",
        }
    }

    pub fn from_storage(value: &str) -> (r: Self)
        ensures
            r == download_status_of(value@),
    {
        if str_eq(value, "ready") {
            Self::Ready
        } else if str_eq(value, "running") {
            Self::Running
        } else if str_eq(value, "paused") {
            Self::Paused
        } else if str_eq(value, "completed") || str_eq(value, "succeeded") {
            Self::Completed
        } else if str_eq(value, "failed") {
            Self::Failed
        } else {
            Self::Queued
        }
    }
}

/// Law: a status written with `as_str` reads back as itself.
pub proof fn law_download_status_round_trip(s: DownloadStatus)
    ensures
        download_status_of(download_status_text(s)) == s,
{
    reveal_strlit("queued");
    reveal_strlit("ready");
    reveal_strlit("running");
    reveal_strlit("paused");
    reveal_strlit("completed");
    reveal_strlit("succeeded");
    reveal_strlit("failed");
    let words = seq!["queued"@, "ready"@, "running"@, "paused"@, "completed"@, "succeeded"@, "failed"@];
    assert forall|i: int, j: int| 0 <= i < 7 && 0 <= j < 7 && i != j implies #[trigger] words[i] != #[trigger] words[j] by {
        assert(words[i][0] != words[j][0] || words[i].len() != words[j].len() || words[i][1] != words[j][1]);
    }
    assert(words[0] == "queued"@);
    assert(words[1] == "ready"@);
    assert(words[2] == "running"@);
    assert(words[3] == "paused"@);
    assert(words[4] == "completed"@);
    assert(words[5] == "succeeded"@);
    assert(words[6] == "failed"@);
}

/// The theme a user chose, as the worker stores it.
#[derive(Debug, Clone, Copy, PartialEq, Eq, Structural)]
pub enum ThemeMode {
    Light,
    Dark,
    FollowSystem,
}

impl Default for ThemeMode {
    fn default() -> (r: Self)
        ensures
            r == ThemeMode::FollowSystem,
    {
        ThemeMode::FollowSystem
    }
}

pub open spec fn theme_mode_text(m: ThemeMode) -> Seq<char> {
    match m {
        ThemeMode::Light => "light"@,
        ThemeMode::Dark => "dark"@,
        ThemeMode::FollowSystem => "system"@,
    }
}

/// Unknown texts follow the system theme.
pub open spec fn theme_mode_of(v: Seq<char>) -> ThemeMode {
    if v == "light"@ {
        ThemeMode::Light
    } else if v == "dark"@ {
        ThemeMode::Dark
    } else {
        ThemeMode::FollowSystem
    }
}

impl ThemeMode {
    pub fn as_str(self) -> (r: &'static str)
        ensures
            r@ == theme_mode_text(self),
    {
        match self {
            Self::Light => "light",
            Self::Dark => "dark",
            Self::FollowSystem => "system",
        }
    }

    pub fn from_storage(value: &str) -> (r: Self)
        ensures
            r == theme_mode_of(value@),
    {
        if str_eq(value, "light") {
            Self::Light
        } else if str_eq(value, "dark") {
            Self::Dark
        } else {
            Self::FollowSystem
        }
    }
}

/// Law: a theme mode written with `as_str` reads back as itself.
pub proof fn law_theme_mode_round_trip(m: ThemeMode)
    ensures
        theme_mode_of(theme_mode_text(m)) == m,
{
    reveal_strlit("light");
    reveal_strlit("dark");
    reveal_strlit("system");
    assert("light"@[0] != "dark"@[0]);
    assert("light"@[0] != "system"@[0]);
    assert("dark"@[0] != "system"@[0]);
}

/// The settings the worker loads and saves.
#[derive(Debug, Clone, PartialEq, Eq)]
pub struct AppSettings {
    pub yt_dlp_path: String,
    pub ffmpeg_path: String,
    pub default_download_directory: String,
    pub proxy: String,
    pub max_concurrency: u32,
    pub language: String,
    pub theme: ThemeMode,
}

impl Default for AppSettings {
    fn default() -> (r: Self)
        ensures
            r.yt_dlp_path@.len() == 0,
            r.ffmpeg_path@.len() == 0,
            r.default_download_directory@.len() == 0,
            r.proxy@.len() == 0,
            r.max_concurrency == 1,
            r.language@ == "zh-CN"@,
            r.theme == ThemeMode::FollowSystem,
    {
        AppSettings {
            yt_dlp_path: String::new(),
            ffmpeg_path: String::new(),
            default_download_directory: String::new(),
            proxy: String::new(),
            max_concurrency: 1,
            language: string_of("zh-CN"),
            theme: ThemeMode::default(),
        }
    }
}

/// One downloadable stream of a searched resource.
#[derive(Debug, Clone)]
pub struct MediaStream {
    pub id: String,
    pub label: String,
    pub format_selector: String,
    pub video_format: String,
    pub audio_format: String,
    pub estimated_size: String,
}

/// The result of inspecting a URL.
#[derive(Debug, Clone)]
pub struct SearchResult {
    pub resource_name: String,
    pub streams: Vec<MediaStream>,
}

/// A download the user asked for.
#[derive(Debug, Clone)]
pub struct NewDownload {
    pub url: String,
    pub resource_name: String,
    pub output_directory: String,
    pub format_selector: String,
    pub video_format: String,
    pub audio_format: String,
}

/// A stored download as the worker lists it.
#[derive(Debug, Clone)]
pub struct DownloadRecord {
    pub id: i64,
    pub url: String,
    pub resource_name: String,
    pub output_directory: String,
    pub output_path: String,
    pub status: DownloadStatus,
    pub format_selector: String,
    pub video_format: String,
    pub audio_format: String,
    pub downloaded_bytes: i64,
    pub total_bytes: i64,
    pub started_at: Option<i64>,
    pub completed_at: Option<i64>,
    pub error_message: String,
}

} // verus!
