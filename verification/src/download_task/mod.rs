//! Download tasks: what `yt-dlp` reports while it downloads, and what is kept of it.
pub mod error;
pub mod model;
pub mod outcome;
pub mod parser;
pub mod progress;
pub mod process;
pub mod client;

pub use client::DownloadTaskClient;
pub use error::DownloadTaskError;
pub mod persistence;
pub mod recovery;
pub mod run;
pub mod session;
pub mod metadata;
