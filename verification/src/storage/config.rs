//! The environment configuration kept in the database.
use crate::text::string_of;
use vstd::prelude::*;

verus! {

/// The configuration format version this program reads.
pub const CONFIG_VERSION: &'static str = "0.0.1";

/// A snapshot of the environment configuration; every field matches a column of
/// the single record of the config table.
#[derive(Debug, Clone, PartialEq, Eq)]
pub struct EnvironmentConfig {
    /// The configuration format version; it must be the one this program reads.
    pub version: String,
    /// The full path of the `yt-dlp` executable.
    pub yt_dlp_path: String,
    /// The full path of the FFmpeg executable.
    pub ffmpeg_path: String,
    /// The directory downloads go to; empty when it is not set yet.
    pub default_download_path: String,
    /// The theme: `system`, `light` or `dark`.
    pub theme: String,
    /// The BCP-47 language tag, such as `zh-CN` or `en-US`.
    pub language: String,
    /// The largest number of downloads that run at once.
    pub concurrent_downloads: i8,
    /// The proxy of `yt-dlp` requests; empty for none.
    pub proxy: String,
}

impl EnvironmentConfig {
    /// The draft the configuration page starts from the first time it opens.
    pub fn draft_default() -> (r: Self)
        ensures
            r.version@ == CONFIG_VERSION@,
            r.yt_dlp_path@ == Seq::<char>::empty(),
            r.ffmpeg_path@ == Seq::<char>::empty(),
            r.default_download_path@ == Seq::<char>::empty(),
            r.theme@ == "system"@,
            r.language@ == "en-US"@,
            r.concurrent_downloads == 0,
            r.proxy@ == Seq::<char>::empty(),
    {
        EnvironmentConfig {
            version: string_of(CONFIG_VERSION),
            yt_dlp_path: String::new(),
            ffmpeg_path: String::new(),
            default_download_path: String::new(),
            theme: string_of("system"),
            language: string_of("en-US"),
            concurrent_downloads: 0,
            proxy: String::new(),
        }
    }
}

} // verus!
