//! The settings a download client runs `yt-dlp` with.
use crate::download_task::error::DownloadTaskError;
use crate::paths::{copy_path_buf, path_text};
use crate::storage::config::EnvironmentConfig;
use crate::text::{is_blank, trim};
use std::path::PathBuf;
use std::time::Duration;
use vstd::prelude::*;

verus! {

/// The settings shared by the searches and downloads of one client.
pub struct ClientConfig {
    /// The `yt-dlp` executable.
    pub yt_dlp_path: PathBuf,
    /// The FFmpeg executable or its `bin` directory, when one is set.
    pub ffmpeg_path: Option<PathBuf>,
    /// The network proxy, when one is set.
    pub proxy: Option<String>,
    /// The time limit of searches and downloads; `None` for no limit.
    pub timeout: Option<Duration>,
    /// The default download directory at the time the client was made; a
    /// download request still names its own target directory.
    pub storage_path: PathBuf,
}

/// Runs searches and downloads with `yt-dlp`.
pub struct DownloadTaskClient {
    pub config: ClientConfig,
}

/// Whether a duration is zero, as `Duration::is_zero` decides it.
pub uninterp spec fn zero_duration(timeout: Duration) -> bool;

/// `Duration::is_zero`.
#[verifier::external_body]
fn duration_is_zero(timeout: &Duration) -> (r: bool)
    ensures
        r == zero_duration(*timeout),
{
    timeout.is_zero()
}

/// The time limit a client keeps: none for a zero timeout.
pub open spec fn kept_timeout(timeout: Duration) -> Option<Duration> {
    if zero_duration(timeout) {
        None
    } else {
        Some(timeout)
    }
}

/// The view of an optional string.
pub open spec fn opt_view(o: Option<String>) -> Option<Seq<char>> {
    match o {
        Some(s) => Some(s@),
        None => None,
    }
}

/// The proxy a client keeps: a blank one counts as none.
pub open spec fn spec_kept_proxy(proxy: Option<String>) -> Option<Seq<char>> {
    match proxy {
        Some(p) => if trim(p@).len() == 0 {
            None
        } else {
            Some(p@)
        },
        None => None,
    }
}

/// The text of an optional path.
pub open spec fn opt_path_text(o: Option<PathBuf>) -> Option<Seq<char>> {
    match o {
        Some(p) => Some(path_text(p)),
        None => None,
    }
}

impl Clone for ClientConfig {
    /// The same settings: paths that read back as the same text, the same proxy
    /// and time limit.
    fn clone(&self) -> (r: Self)
        ensures
            path_text(r.yt_dlp_path) == path_text(self.yt_dlp_path),
            opt_path_text(r.ffmpeg_path) == opt_path_text(self.ffmpeg_path),
            r.proxy == self.proxy,
            r.timeout == self.timeout,
            path_text(r.storage_path) == path_text(self.storage_path),
    {
        ClientConfig {
            yt_dlp_path: copy_path_buf(&self.yt_dlp_path),
            ffmpeg_path: match &self.ffmpeg_path {
                Some(path) => Some(copy_path_buf(path)),
                None => None,
            },
            proxy: match &self.proxy {
                Some(proxy) => Some(proxy.clone()),
                None => None,
            },
            timeout: self.timeout,
            storage_path: copy_path_buf(&self.storage_path),
        }
    }
}

impl Clone for DownloadTaskClient {
    /// A client with the same settings.
    fn clone(&self) -> (r: Self)
        ensures
            path_text(r.config.yt_dlp_path) == path_text(self.config.yt_dlp_path),
            opt_path_text(r.config.ffmpeg_path) == opt_path_text(self.config.ffmpeg_path),
            r.config.proxy == self.config.proxy,
            r.config.timeout == self.config.timeout,
            path_text(r.config.storage_path) == path_text(self.config.storage_path),
    {
        DownloadTaskClient { config: self.config.clone() }
    }
}

impl DownloadTaskClient {
    /// A client for the `yt-dlp` at `yt_dlp_path`. A blank proxy counts as none,
    /// and a zero timeout as no time limit.
    pub fn new(
        yt_dlp_path: PathBuf,
        ffmpeg_path: Option<PathBuf>,
        proxy: Option<String>,
        timeout: Duration,
        storage_path: PathBuf,
    ) -> (r: Self)
        ensures
            r.config.yt_dlp_path == yt_dlp_path,
            r.config.ffmpeg_path == ffmpeg_path,
            opt_view(r.config.proxy) == spec_kept_proxy(proxy),
            r.config.timeout == kept_timeout(timeout),
            r.config.storage_path == storage_path,
    {
        let proxy = match proxy {
            Some(p) => if is_blank(p.as_str()) {
                None
            } else {
                Some(p)
            },
            None => None,
        };
        let timeout = if duration_is_zero(&timeout) {
            None
        } else {
            Some(timeout)
        };
        DownloadTaskClient { config: ClientConfig { yt_dlp_path, ffmpeg_path, proxy, timeout, storage_path } }
    }

    /// A client for the environment configuration read from storage: its
    /// `yt-dlp`, its FFmpeg unless that path is blank, its proxy and its default
    /// download directory. A failed read, or a configuration that is missing,
    /// is a storage error.
    pub fn from_storage(configuration: Result<Option<EnvironmentConfig>, String>, timeout: Duration) -> (r: Result<
        Self,
        DownloadTaskError,
    >)
        ensures
            configuration matches Err(e) ==> (r matches Err(DownloadTaskError::Storage(m)) && m@ == e@),
            configuration matches Ok(None) ==> (r matches Err(DownloadTaskError::Storage(m)) && m@
                == "配置数据库中不存在环境配置记录"@),
            configuration matches Ok(Some(c)) ==> (r matches Ok(client) && path_text(client.config.yt_dlp_path)
                == c.yt_dlp_path@ && opt_path_text(client.config.ffmpeg_path) == (if trim(c.ffmpeg_path@).len()
                == 0 {
                None
            } else {
                Some(c.ffmpeg_path@)
            }) && opt_view(client.config.proxy) == (if trim(c.proxy@).len() == 0 {
                None
            } else {
                Some(c.proxy@)
            }) && client.config.timeout == kept_timeout(timeout) && path_text(
                client.config.storage_path,
            ) == c.default_download_path@),
    {
        let configuration = match configuration {
            Ok(Some(c)) => c,
            Ok(None) => {
                return Err(DownloadTaskError::Storage(crate::text::string_of("配置数据库中不存在环境配置记录")));
            },
            Err(e) => {
                return Err(DownloadTaskError::Storage(e));
            },
        };
        let ffmpeg_path = if is_blank(configuration.ffmpeg_path.as_str()) {
            None
        } else {
            Some(crate::paths::path_from_str(configuration.ffmpeg_path.as_str()))
        };
        Ok(
            Self::new(
                crate::paths::path_from_str(configuration.yt_dlp_path.as_str()),
                ffmpeg_path,
                Some(configuration.proxy),
                timeout,
                crate::paths::path_from_str(configuration.default_download_path.as_str()),
            ),
        )
    }

    /// The default download directory the client was made with.
    pub fn storage_path(&self) -> (r: &PathBuf)
        ensures
            r == &self.config.storage_path,
    {
        &self.config.storage_path
    }
}

} // verus!
