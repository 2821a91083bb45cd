//! The logic of a desktop front end for the `yt-dlp` downloader: configuration
//! validation, download-task state machines, progress parsing and aggregation,
//! task tables and their formatting.
pub mod app;
pub mod cli;
pub mod design_system;
pub mod diagnostics;
pub mod download;
pub mod download_task;
pub mod error;
pub mod paths;
pub mod storage;
pub mod text;
