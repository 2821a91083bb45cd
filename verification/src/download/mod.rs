//! Running `yt-dlp` for one URL through the `ytd-rs` command builder.
pub mod ytdlp;
