//! Why a search or a download failed.
use std::path::PathBuf;
use std::time::Duration;
use crate::diagnostics::{
    duration_debug_text, ends_with, exit_code_debug, io_error_text, path_display_text, push_exit_code,
};
use crate::download_task::parser::starts_with;
use crate::text::{push_str, string_of, trim, trim_str};
use vstd::prelude::*;

verus! {

/// Why a search or a download failed. The category and the process diagnostics are
/// kept; the full command line is not, so that proxy credentials do not leak.
#[derive(Debug)]
pub enum DownloadTaskError {
    ExecutableNotFound(PathBuf),
    Spawn(std::io::Error),
    Io(std::io::Error),
    VersionCommandFailed { status: Option<i32>, stderr: String },
    VersionOutputEmpty,
    ProcessFailed { status: Option<i32>, stderr: String },
    InvalidJson(String),
    MissingField(&'static str),
    InvalidField { field: &'static str, message: String },
    Timeout(Duration),
    Cancelled,
    Poisoned,
    WorkerPanicked,
    InvalidDownloadRequest(String),
    ProgressParse(String),
    DownloadProcessFailed { status: Option<i32>, stderr: String },
    Storage(String),
    OutputPathMissing,
}

/// The category name stored with a failed download.
pub open spec fn spec_error_code(e: DownloadTaskError) -> Seq<char> {
    match e {
        DownloadTaskError::ExecutableNotFound(_) => "executable_not_found"@,
        DownloadTaskError::Spawn(_) => "spawn_failed"@,
        DownloadTaskError::Io(_) => "io_failed"@,
        DownloadTaskError::Timeout(_) => "timeout"@,
        DownloadTaskError::Cancelled => "cancelled"@,
        DownloadTaskError::ProgressParse(_) => "progress_parse_failed"@,
        DownloadTaskError::DownloadProcessFailed { .. } => "download_process_failed"@,
        DownloadTaskError::OutputPathMissing => "output_path_missing"@,
        DownloadTaskError::Storage(_) => "storage_failed"@,
        _ => "download_failed"@,
    }
}

/// The category name stored with a failed download.
pub fn error_code(error: &DownloadTaskError) -> (code: &'static str)
    ensures
        code@ == spec_error_code(*error),
{
    match error {
        DownloadTaskError::ExecutableNotFound(_) => "executable_not_found",
        DownloadTaskError::Spawn(_) => "spawn_failed",
        DownloadTaskError::Io(_) => "io_failed",
        DownloadTaskError::Timeout(_) => "timeout",
        DownloadTaskError::Cancelled => "cancelled",
        DownloadTaskError::ProgressParse(_) => "progress_parse_failed",
        DownloadTaskError::DownloadProcessFailed { .. } => "download_process_failed",
        DownloadTaskError::OutputPathMissing => "output_path_missing",
        DownloadTaskError::Storage(_) => "storage_failed",
        _ => "download_failed",
    }
}

/// A copy of an I/O error with the same kind and the same message, as
/// `io::Error::new(error.kind(), error.to_string())` builds it.
#[verifier::external_body]
fn copy_io_error(error: &std::io::Error) -> std::io::Error {
    std::io::Error::new(error.kind(), error.to_string())
}

/// Whether `b` is a copy of `a`: the same variant with the same fields, where an
/// I/O error is rebuilt from its kind and message.
pub open spec fn is_copy_of(b: DownloadTaskError, a: DownloadTaskError) -> bool {
    match (a, b) {
        (DownloadTaskError::ExecutableNotFound(p), DownloadTaskError::ExecutableNotFound(q)) =>
            crate::paths::path_text(q) == crate::paths::path_text(p),
        (DownloadTaskError::Spawn(_), DownloadTaskError::Spawn(_)) => true,
        (DownloadTaskError::Io(_), DownloadTaskError::Io(_)) => true,
        (
            DownloadTaskError::VersionCommandFailed { status: s1, stderr: e1 },
            DownloadTaskError::VersionCommandFailed { status: s2, stderr: e2 },
        ) => s1 == s2 && e1@ == e2@,
        (DownloadTaskError::VersionOutputEmpty, DownloadTaskError::VersionOutputEmpty) => true,
        (
            DownloadTaskError::ProcessFailed { status: s1, stderr: e1 },
            DownloadTaskError::ProcessFailed { status: s2, stderr: e2 },
        ) => s1 == s2 && e1@ == e2@,
        (DownloadTaskError::InvalidJson(m1), DownloadTaskError::InvalidJson(m2)) => m1@ == m2@,
        (DownloadTaskError::MissingField(f1), DownloadTaskError::MissingField(f2)) => f1@ == f2@,
        (
            DownloadTaskError::InvalidField { field: f1, message: m1 },
            DownloadTaskError::InvalidField { field: f2, message: m2 },
        ) => f1@ == f2@ && m1@ == m2@,
        (DownloadTaskError::Timeout(t1), DownloadTaskError::Timeout(t2)) => t1 == t2,
        (DownloadTaskError::Cancelled, DownloadTaskError::Cancelled) => true,
        (DownloadTaskError::Poisoned, DownloadTaskError::Poisoned) => true,
        (DownloadTaskError::WorkerPanicked, DownloadTaskError::WorkerPanicked) => true,
        (DownloadTaskError::InvalidDownloadRequest(m1), DownloadTaskError::InvalidDownloadRequest(m2)) =>
            m1@ == m2@,
        (DownloadTaskError::ProgressParse(m1), DownloadTaskError::ProgressParse(m2)) => m1@ == m2@,
        (
            DownloadTaskError::DownloadProcessFailed { status: s1, stderr: e1 },
            DownloadTaskError::DownloadProcessFailed { status: s2, stderr: e2 },
        ) => s1 == s2 && e1@ == e2@,
        (DownloadTaskError::Storage(m1), DownloadTaskError::Storage(m2)) => m1@ == m2@,
        (DownloadTaskError::OutputPathMissing, DownloadTaskError::OutputPathMissing) => true,
        _ => false,
    }
}

impl Clone for DownloadTaskError {
    fn clone(&self) -> (r: Self)
        ensures
            is_copy_of(r, *self),
    {
        match self {
            DownloadTaskError::ExecutableNotFound(path) => DownloadTaskError::ExecutableNotFound(crate::paths::copy_path_buf(path)),
            DownloadTaskError::Spawn(error) => DownloadTaskError::Spawn(copy_io_error(error)),
            DownloadTaskError::Io(error) => DownloadTaskError::Io(copy_io_error(error)),
            DownloadTaskError::VersionCommandFailed { status, stderr } => DownloadTaskError::VersionCommandFailed {
                status: *status,
                stderr: stderr.clone(),
            },
            DownloadTaskError::VersionOutputEmpty => DownloadTaskError::VersionOutputEmpty,
            DownloadTaskError::ProcessFailed { status, stderr } => DownloadTaskError::ProcessFailed {
                status: *status,
                stderr: stderr.clone(),
            },
            DownloadTaskError::InvalidJson(message) => DownloadTaskError::InvalidJson(message.clone()),
            DownloadTaskError::MissingField(field) => DownloadTaskError::MissingField(field),
            DownloadTaskError::InvalidField { field, message } => DownloadTaskError::InvalidField {
                field,
                message: message.clone(),
            },
            DownloadTaskError::Timeout(timeout) => DownloadTaskError::Timeout(*timeout),
            DownloadTaskError::Cancelled => DownloadTaskError::Cancelled,
            DownloadTaskError::Poisoned => DownloadTaskError::Poisoned,
            DownloadTaskError::WorkerPanicked => DownloadTaskError::WorkerPanicked,
            DownloadTaskError::InvalidDownloadRequest(message) => DownloadTaskError::InvalidDownloadRequest(
                message.clone(),
            ),
            DownloadTaskError::ProgressParse(message) => DownloadTaskError::ProgressParse(message.clone()),
            DownloadTaskError::DownloadProcessFailed { status, stderr } =>
                DownloadTaskError::DownloadProcessFailed { status: *status, stderr: stderr.clone() },
            DownloadTaskError::Storage(message) => DownloadTaskError::Storage(message.clone()),
            DownloadTaskError::OutputPathMissing => DownloadTaskError::OutputPathMissing,
        }
    }
}

/// Whether `m` is the message of `e`: exact where the error holds only text of
/// this library, and otherwise the fixed text around what an outside error, a
/// path or a duration writes.
pub open spec fn is_task_error_message(e: DownloadTaskError, m: Seq<char>) -> bool {
    match e {
        DownloadTaskError::ExecutableNotFound(_) => starts_with(m, "找不到 yt-dlp 文件："@) && ends_with(m, "。"@),
        DownloadTaskError::Spawn(_) => starts_with(m, "无法启动 yt-dlp："@),
        DownloadTaskError::Io(_) => starts_with(m, "读取 yt-dlp 输出失败："@),
        DownloadTaskError::VersionCommandFailed { status, stderr } => m == "yt-dlp 版本检查失败（退出码 "@
            + exit_code_debug(status) + "）："@ + trim(stderr@),
        DownloadTaskError::VersionOutputEmpty => m == "yt-dlp 版本输出为空。"@,
        DownloadTaskError::ProcessFailed { status, stderr } => m == "yt-dlp 检索失败（退出码 "@ + exit_code_debug(
            status,
        ) + "）："@ + trim(stderr@),
        DownloadTaskError::InvalidJson(message) => m == "yt-dlp 返回的媒体消息不是有效 JSON："@ + message@,
        DownloadTaskError::MissingField(field) => m == "yt-dlp 媒体消息缺少字段："@ + field@ + "。"@,
        DownloadTaskError::InvalidField { field, message } => m == "yt-dlp 字段 "@ + field@ + " 无效："@
            + message@,
        DownloadTaskError::Timeout(_) => starts_with(m, "yt-dlp 任务超过 "@) && ends_with(m, "。"@),
        DownloadTaskError::Cancelled => m == "yt-dlp 任务已取消。"@,
        DownloadTaskError::Poisoned => m == "yt-dlp 任务状态异常。"@,
        DownloadTaskError::WorkerPanicked => m == "yt-dlp 任务异常结束。"@,
        DownloadTaskError::InvalidDownloadRequest(message) => m == "下载请求无效："@ + message@,
        DownloadTaskError::ProgressParse(message) => m == "yt-dlp 下载进度无效："@ + message@,
        DownloadTaskError::DownloadProcessFailed { status, stderr } => m == "yt-dlp 下载失败（退出码 "@
            + exit_code_debug(status) + "）："@ + trim(stderr@),
        DownloadTaskError::Storage(message) => m == "下载任务持久化失败："@ + message@,
        DownloadTaskError::OutputPathMissing => m == "yt-dlp 下载完成但没有返回最终文件路径。"@,
    }
}

/// A message made of `a`, then `b`.
fn two_parts(a: &str, b: &str) -> (r: String)
    ensures
        r@ == a@ + b@,
{
    let mut m = string_of(a);
    push_str(&mut m, b);
    m
}

/// A message made of `a`, then `b`, then `c`.
fn three_parts(a: &str, b: &str, c: &str) -> (r: String)
    ensures
        r@ == a@ + b@ + c@,
{
    let mut m = string_of(a);
    push_str(&mut m, b);
    push_str(&mut m, c);
    m
}

/// The message of an exit-code failure: `prefix`, the exit code, and the trimmed
/// standard error.
fn exit_message(prefix: &str, status: Option<i32>, stderr: &str) -> (r: String)
    ensures
        r@ == prefix@ + exit_code_debug(status) + "）："@ + trim(stderr@),
{
    let mut m = string_of(prefix);
    push_exit_code(&mut m, status);
    push_str(&mut m, "）：");
    let t = trim_str(stderr);
    push_str(&mut m, t.as_str());
    m
}

proof fn lemma_affixes(p: Seq<char>, t: Seq<char>, s: Seq<char>)
    ensures
        starts_with(p + t + s, p),
        ends_with(p + t + s, s),
{
    assert((p + t + s).subrange(0, p.len() as int) =~= p);
    assert((p + t + s).subrange((p + t + s).len() - s.len(), (p + t + s).len() as int) =~= s);
}

impl DownloadTaskError {
    /// The message shown for the error.
    pub fn message(&self) -> (r: String)
        ensures
            is_task_error_message(*self, r@),
    {
        match self {
            DownloadTaskError::ExecutableNotFound(path) => {
                let t = path_display_text(path);
                let m = three_parts("找不到 yt-dlp 文件：", t.as_str(), "。");
                proof {
                    lemma_affixes("找不到 yt-dlp 文件："@, t@, "。"@);
                }
                m
            },
            DownloadTaskError::Spawn(error) => {
                let t = io_error_text(error);
                let m = two_parts("无法启动 yt-dlp：", t.as_str());
                proof {
                    lemma_affixes("无法启动 yt-dlp："@, t@, Seq::<char>::empty());
                    assert("无法启动 yt-dlp："@ + t@ + Seq::<char>::empty() =~= m@);
                }
                m
            },
            DownloadTaskError::Io(error) => {
                let t = io_error_text(error);
                let m = two_parts("读取 yt-dlp 输出失败：", t.as_str());
                proof {
                    lemma_affixes("读取 yt-dlp 输出失败："@, t@, Seq::<char>::empty());
                    assert("读取 yt-dlp 输出失败："@ + t@ + Seq::<char>::empty() =~= m@);
                }
                m
            },
            DownloadTaskError::VersionCommandFailed { status, stderr } => exit_message(
                "yt-dlp 版本检查失败（退出码 ",
                *status,
                stderr.as_str(),
            ),
            DownloadTaskError::VersionOutputEmpty => string_of("yt-dlp 版本输出为空。"),
            DownloadTaskError::ProcessFailed { status, stderr } => exit_message(
                "yt-dlp 检索失败（退出码 ",
                *status,
                stderr.as_str(),
            ),
            DownloadTaskError::InvalidJson(message) => two_parts("yt-dlp 返回的媒体消息不是有效 JSON：", message.as_str()),
            DownloadTaskError::MissingField(field) => three_parts("yt-dlp 媒体消息缺少字段：", field, "。"),
            DownloadTaskError::InvalidField { field, message } => {
                let mut m = three_parts("yt-dlp 字段 ", field, " 无效：");
                push_str(&mut m, message.as_str());
                m
            },
            DownloadTaskError::Timeout(timeout) => {
                let t = duration_debug_text(timeout);
                let m = three_parts("yt-dlp 任务超过 ", t.as_str(), "。");
                proof {
                    lemma_affixes("yt-dlp 任务超过 "@, t@, "。"@);
                }
                m
            },
            DownloadTaskError::Cancelled => string_of("yt-dlp 任务已取消。"),
            DownloadTaskError::Poisoned => string_of("yt-dlp 任务状态异常。"),
            DownloadTaskError::WorkerPanicked => string_of("yt-dlp 任务异常结束。"),
            DownloadTaskError::InvalidDownloadRequest(message) => two_parts("下载请求无效：", message.as_str()),
            DownloadTaskError::ProgressParse(message) => two_parts("yt-dlp 下载进度无效：", message.as_str()),
            DownloadTaskError::DownloadProcessFailed { status, stderr } => exit_message(
                "yt-dlp 下载失败（退出码 ",
                *status,
                stderr.as_str(),
            ),
            DownloadTaskError::Storage(message) => two_parts("下载任务持久化失败：", message.as_str()),
            DownloadTaskError::OutputPathMissing => string_of("yt-dlp 下载完成但没有返回最终文件路径。"),
        }
    }
}

/// The longest error message stored with a failed download, in characters.
pub const MAX_ERROR_MESSAGE_CHARS: usize = 4096;

/// The message stored with a failed download: the error's message, cut at the
/// character limit.
pub fn limited_error_message(error: &DownloadTaskError) -> (r: String)
    ensures
        exists|m: Seq<char>|
            is_task_error_message(*error, m) && r@ == m.take(
                if m.len() <= MAX_ERROR_MESSAGE_CHARS {
                    m.len() as int
                } else {
                    MAX_ERROR_MESSAGE_CHARS as int
                },
            ),
        r@.len() <= MAX_ERROR_MESSAGE_CHARS,
{
    let full = error.message();
    let chars = crate::text::chars_of(full.as_str());
    let n = if chars.len() <= MAX_ERROR_MESSAGE_CHARS {
        chars.len()
    } else {
        MAX_ERROR_MESSAGE_CHARS
    };
    let mut part: Vec<char> = Vec::new();
    let mut i: usize = 0;
    while i < n
        invariant
            n <= chars@.len(),
            i <= n,
            part@ == chars@.take(i as int),
        decreases n - i,
    {
        part.push(chars[i]);
        assert(chars@.take(i as int).push(chars@[i as int]) =~= chars@.take(i + 1));
        i = i + 1;
    }
    crate::text::string_from_chars(part.as_slice())
}

} // verus!
