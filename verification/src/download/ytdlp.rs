//! The `yt-dlp` command for one download, built with `ytd_rs::YtDlp`.
//!
//! The builder is a plain record of what the command will hold: the links, the
//! arguments in order, the working directory and the executable. Each of those
//! four is named here, and each builder method is stated over them as the
//! builder's source writes it. Starting the process is the caller's part.
use crate::paths::{owned_path_text, path_text};
use std::path::PathBuf;
use vstd::prelude::*;
use ytd_rs::YtDlp;

verus! {

#[verifier::external_type_specification]
#[verifier::external_body]
pub struct ExYtDlp(YtDlp);

/// The links a `YtDlp` command will download, in order (its `links` field).
pub uninterp spec fn ytdlp_links(task: YtDlp) -> Seq<Seq<char>>;

/// The arguments of a `YtDlp` command in the order they were added, each a flag
/// and its value if it has one (its `args` field).
pub uninterp spec fn ytdlp_args(task: YtDlp) -> Seq<(Seq<char>, Option<Seq<char>>)>;

/// The directory a `YtDlp` command runs in, as text (its `output_dir` field).
pub uninterp spec fn ytdlp_output_dir(task: YtDlp) -> Option<Seq<char>>;

/// The executable a `YtDlp` command starts, when one was set (its
/// `executable_path` field; `yt-dlp` on the search path otherwise).
pub uninterp spec fn ytdlp_executable(task: YtDlp) -> Option<Seq<char>>;

/// What one download needs: the URL, where to put the file, which programs to
/// run, the proxy and the format selector.
pub struct DownloadRequest {
    pub url: String,
    pub output_directory: PathBuf,
    pub yt_dlp_path: Option<PathBuf>,
    pub ffmpeg_path: Option<PathBuf>,
    pub proxy: Option<String>,
    pub format_selector: String,
}

/// The text of an optional path.
pub open spec fn optional_path_text(path: Option<PathBuf>) -> Option<Seq<char>> {
    match path {
        Some(p) => Some(path_text(p)),
        None => None,
    }
}

/// The arguments of a download command, in order: line-by-line progress, the
/// format selector, then the ffmpeg location and the proxy where they are set.
pub open spec fn download_arguments(request: DownloadRequest) -> Seq<(Seq<char>, Option<Seq<char>>)> {
    let base = seq![("--newline"@, None), ("--format"@, Some(request.format_selector@))];
    let with_ffmpeg = match request.ffmpeg_path {
        Some(p) => base.push(("--ffmpeg-location"@, Some(path_text(p)))),
        None => base,
    };
    match request.proxy {
        Some(proxy) => with_ffmpeg.push(("--proxy"@, Some(proxy@))),
        None => with_ffmpeg,
    }
}

/// `YtDlp::new`: a command for the one link, with no arguments, no directory and
/// the default executable.
#[verifier::external_body]
fn new_command(link: String) -> (task: YtDlp)
    ensures
        ytdlp_links(task) == seq![link@],
        ytdlp_args(task) == Seq::<(Seq<char>, Option<Seq<char>>)>::empty(),
        ytdlp_output_dir(task) is None,
        ytdlp_executable(task) is None,
{
    YtDlp::new(link)
}

/// `YtDlp::output_dir`: sets the directory; nothing else changes.
#[verifier::external_body]
fn with_output_dir(task: YtDlp, path: PathBuf) -> (next: YtDlp)
    ensures
        ytdlp_output_dir(next) == Some(path_text(path)),
        ytdlp_links(next) == ytdlp_links(task),
        ytdlp_args(next) == ytdlp_args(task),
        ytdlp_executable(next) == ytdlp_executable(task),
{
    task.output_dir(path)
}

/// `YtDlp::arg`: appends a flag without a value; nothing else changes.
#[verifier::external_body]
fn with_flag(task: YtDlp, flag: &str) -> (next: YtDlp)
    ensures
        ytdlp_args(next) == ytdlp_args(task).push((flag@, None::<Seq<char>>)),
        ytdlp_links(next) == ytdlp_links(task),
        ytdlp_output_dir(next) == ytdlp_output_dir(task),
        ytdlp_executable(next) == ytdlp_executable(task),
{
    task.arg(flag)
}

/// `YtDlp::arg_with`: appends a flag with its value; nothing else changes.
#[verifier::external_body]
fn with_flag_value(task: YtDlp, flag: &str, value: String) -> (next: YtDlp)
    ensures
        ytdlp_args(next) == ytdlp_args(task).push((flag@, Some(value@))),
        ytdlp_links(next) == ytdlp_links(task),
        ytdlp_output_dir(next) == ytdlp_output_dir(task),
        ytdlp_executable(next) == ytdlp_executable(task),
{
    task.arg_with(flag, value)
}

/// `YtDlp::format`: appends `--format` with the selector; nothing else changes.
#[verifier::external_body]
fn with_format(task: YtDlp, selector: String) -> (next: YtDlp)
    ensures
        ytdlp_args(next) == ytdlp_args(task).push(("--format"@, Some(selector@))),
        ytdlp_links(next) == ytdlp_links(task),
        ytdlp_output_dir(next) == ytdlp_output_dir(task),
        ytdlp_executable(next) == ytdlp_executable(task),
{
    task.format(selector)
}

/// `YtDlp::proxy`: appends `--proxy` with the address; nothing else changes.
#[verifier::external_body]
fn with_proxy(task: YtDlp, proxy: String) -> (next: YtDlp)
    ensures
        ytdlp_args(next) == ytdlp_args(task).push(("--proxy"@, Some(proxy@))),
        ytdlp_links(next) == ytdlp_links(task),
        ytdlp_output_dir(next) == ytdlp_output_dir(task),
        ytdlp_executable(next) == ytdlp_executable(task),
{
    task.proxy(proxy)
}

/// `YtDlp::yt_dlp_path`: sets the executable; nothing else changes.
#[verifier::external_body]
fn with_executable(task: YtDlp, path: String) -> (next: YtDlp)
    ensures
        ytdlp_executable(next) == Some(path@),
        ytdlp_links(next) == ytdlp_links(task),
        ytdlp_args(next) == ytdlp_args(task),
        ytdlp_output_dir(next) == ytdlp_output_dir(task),
{
    task.yt_dlp_path(path)
}

/// The command that downloads `request.url` into the output directory: one link,
/// run in that directory by the configured executable (the default one when none
/// is set), with the arguments of `download_arguments`.
pub fn download_command(request: DownloadRequest) -> (task: YtDlp)
    ensures
        ytdlp_links(task) == seq![request.url@],
        ytdlp_output_dir(task) == Some(path_text(request.output_directory)),
        ytdlp_executable(task) == optional_path_text(request.yt_dlp_path),
        ytdlp_args(task) == download_arguments(request),
{
    let ghost spec_request = request;
    let DownloadRequest { url, output_directory, yt_dlp_path, ffmpeg_path, proxy, format_selector } = request;
    let mut task = new_command(url);
    task = with_output_dir(task, output_directory);
    task = with_flag(task, "--newline");
    task = with_format(task, format_selector);
    match yt_dlp_path {
        Some(path) => {
            let text = owned_path_text(&path);
            task = with_executable(task, text);
        },
        None => {},
    }
    match ffmpeg_path {
        Some(path) => {
            let text = owned_path_text(&path);
            task = with_flag_value(task, "--ffmpeg-location", text);
        },
        None => {},
    }
    match proxy {
        Some(address) => {
            task = with_proxy(task, address);
        },
        None => {},
    }
    assert(ytdlp_args(task) =~= download_arguments(spec_request));
    task
}

} // verus!
