//! Why a storage operation failed.
use std::path::PathBuf;
use crate::diagnostics::{ends_with, io_error_text, path_display_text, push_signed, signed_decimal, sql_error_text};
use crate::download_task::parser::starts_with;
use crate::storage::config::CONFIG_VERSION;
use crate::text::{push_str, string_of};
use vstd::prelude::*;

verus! {

#[verifier::external_type_specification]
#[verifier::external_body]
pub struct ExSqlError(rusqlite::Error);

/// Why storage initialization or a synchronous read or write failed; the start-up
/// layer turns it into a message for the user.
#[derive(Debug)]
pub enum StorageError {
    /// The process-wide storage is already initialized and cannot be replaced.
    AlreadyInitialized,
    /// The config table holds no environment configuration record.
    ConfigurationMissing,
    /// The path of the running executable could not be found.
    ExecutablePath(std::io::Error),
    /// The executable has no usable parent directory.
    InvalidDatabasePath(PathBuf),
    /// `-c` was given without a database path.
    MissingDatabasePath,
    /// Another module used the storage before it was initialized.
    NotInitialized,
    /// Opening the SQLite connection failed.
    Open(rusqlite::Error),
    /// A storage lock is poisoned.
    Poisoned,
    /// A SQLite query or the mapping of its result failed.
    Read(rusqlite::Error),
    /// Initializing the SQLite schema failed.
    Schema(rusqlite::Error),
    /// The stored theme is not `system`, `light` or `dark`.
    InvalidTheme(String),
    /// The stored language is not a supported locale.
    InvalidLanguage(String),
    /// The maximum number of concurrent downloads is out of range.
    InvalidConcurrentDownloads(i8),
    /// The stored configuration version is not the supported one.
    UnsupportedConfigurationVersion(String),
    /// A SQLite update failed.
    Write(rusqlite::Error),
    /// A download task input breaks a persistence constraint.
    InvalidDownloadInput,
    /// A download progress snapshot breaks a persistence constraint.
    InvalidDownloadProgress,
    /// No download task has this id.
    DownloadNotFound(i64),
    /// No download stream has this id.
    DownloadStreamNotFound(i64),
    /// The task of a download stream does not exist.
    DownloadStreamTaskNotFound(i64),
    /// The task has no execution snapshot to resume from.
    DownloadExecutionSnapshotMissing(i64),
    /// The requested download status change is not allowed.
    InvalidDownloadStatusTransition,
    /// The database holds an unknown download status.
    InvalidStoredDownloadStatus(String),
    /// The database holds an unknown media type.
    InvalidStoredMediaType(String),
    /// The database schema is newer than this program supports.
    UnsupportedStorageSchemaVersion(i64),
    /// Two streams of one task share a stream key.
    DuplicateDownloadStream,
}

/// Whether `m` is the message of `e`: exact where the error holds only text and
/// numbers, and otherwise the fixed text before what an outside error or a path
/// writes.
pub open spec fn is_storage_error_message(e: StorageError, m: Seq<char>) -> bool {
    match e {
        StorageError::AlreadyInitialized => m == "存储模块已经初始化。"@,
        StorageError::ConfigurationMissing => m == "配置数据库中不存在环境配置记录。"@,
        StorageError::ExecutablePath(_) => starts_with(m, "无法定位应用程序文件："@),
        StorageError::InvalidDatabasePath(_) => starts_with(m, "应用程序目录无效："@) && ends_with(m, "。"@),
        StorageError::MissingDatabasePath => m == "参数 -c 后缺少配置数据库路径。"@,
        StorageError::NotInitialized => m == "存储模块尚未初始化。"@,
        StorageError::Open(_) => starts_with(m, "无法打开配置数据库："@),
        StorageError::Poisoned => m == "存储模块状态异常。"@,
        StorageError::Read(_) => starts_with(m, "无法读取环境配置："@),
        StorageError::Schema(_) => starts_with(m, "无法初始化存储表结构："@),
        StorageError::InvalidTheme(t) => m == "不支持的主题配置："@ + t@ + "。"@,
        StorageError::InvalidLanguage(l) => m == "不支持的界面语言："@ + l@ + "。"@,
        StorageError::InvalidConcurrentDownloads(v) => m == "不支持的并发下载数："@ + signed_decimal(v as int)
            + "。"@,
        StorageError::UnsupportedConfigurationVersion(v) => m == "不支持的配置版本："@ + v@ + "，当前支持版本为 "@
            + CONFIG_VERSION@ + "。"@,
        StorageError::Write(_) => starts_with(m, "无法保存环境配置："@),
        StorageError::InvalidDownloadInput => m == "下载任务输入无效。"@,
        StorageError::InvalidDownloadProgress => m == "下载任务进度无效。"@,
        StorageError::DownloadNotFound(id) => m == "下载任务不存在："@ + signed_decimal(id as int) + "。"@,
        StorageError::DownloadStreamNotFound(id) => m == "下载流不存在："@ + signed_decimal(id as int) + "。"@,
        StorageError::DownloadStreamTaskNotFound(id) => m == "下载流所属任务不存在："@ + signed_decimal(id as int)
            + "。"@,
        StorageError::DownloadExecutionSnapshotMissing(id) => m == "下载任务缺少执行快照："@ + signed_decimal(
            id as int,
        ) + "。"@,
        StorageError::InvalidDownloadStatusTransition => m == "下载状态迁移无效。"@,
        StorageError::InvalidStoredDownloadStatus(v) => m == "数据库中的下载状态无效："@ + v@ + "。"@,
        StorageError::InvalidStoredMediaType(v) => m == "数据库中的媒体类型无效："@ + v@ + "。"@,
        StorageError::UnsupportedStorageSchemaVersion(v) => m == "不支持的存储结构版本："@ + signed_decimal(v as int)
            + "。"@,
        StorageError::DuplicateDownloadStream => m == "下载任务中的流标识重复。"@,
    }
}

/// A message made of `a`, `b` and `c`.
fn text3(a: &str, b: &str, c: &str) -> (r: String)
    ensures
        r@ == a@ + b@ + c@,
{
    let mut m = string_of(a);
    push_str(&mut m, b);
    push_str(&mut m, c);
    m
}

/// A message made of `a`, the number `n` and `c`.
fn number3(a: &str, n: i64, c: &str) -> (r: String)
    ensures
        r@ == a@ + signed_decimal(n as int) + c@,
{
    let mut m = string_of(a);
    push_signed(&mut m, n);
    push_str(&mut m, c);
    m
}

/// A message made of `a` and an outside text `t`.
fn prefixed(a: &str, t: String) -> (r: String)
    ensures
        starts_with(r@, a@),
{
    let mut m = string_of(a);
    push_str(&mut m, t.as_str());
    assert((a@ + t@).subrange(0, a@.len() as int) =~= a@);
    m
}

impl StorageError {
    /// The message shown for the error.
    pub fn message(&self) -> (r: String)
        ensures
            is_storage_error_message(*self, r@),
    {
        match self {
            StorageError::AlreadyInitialized => string_of("存储模块已经初始化。"),
            StorageError::ConfigurationMissing => string_of("配置数据库中不存在环境配置记录。"),
            StorageError::ExecutablePath(error) => prefixed("无法定位应用程序文件：", io_error_text(error)),
            StorageError::InvalidDatabasePath(path) => {
                let t = path_display_text(path);
                let m = text3("应用程序目录无效：", t.as_str(), "。");
                proof {
                    let (p, s) = ("应用程序目录无效："@, "。"@);
                    assert((p + t@ + s).subrange(0, p.len() as int) =~= p);
                    assert((p + t@ + s).subrange((p + t@ + s).len() - s.len(), (p + t@ + s).len() as int) =~= s);
                }
                m
            },
            StorageError::MissingDatabasePath => string_of("参数 -c 后缺少配置数据库路径。"),
            StorageError::NotInitialized => string_of("存储模块尚未初始化。"),
            StorageError::Open(error) => prefixed("无法打开配置数据库：", sql_error_text(error)),
            StorageError::Poisoned => string_of("存储模块状态异常。"),
            StorageError::Read(error) => prefixed("无法读取环境配置：", sql_error_text(error)),
            StorageError::Schema(error) => prefixed("无法初始化存储表结构：", sql_error_text(error)),
            StorageError::InvalidTheme(theme) => text3("不支持的主题配置：", theme.as_str(), "。"),
            StorageError::InvalidLanguage(language) => text3("不支持的界面语言：", language.as_str(), "。"),
            StorageError::InvalidConcurrentDownloads(value) => number3("不支持的并发下载数：", *value as i64, "。"),
            StorageError::UnsupportedConfigurationVersion(version) => {
                let mut m = text3("不支持的配置版本：", version.as_str(), "，当前支持版本为 ");
                push_str(&mut m, CONFIG_VERSION);
                push_str(&mut m, "。");
                m
            },
            StorageError::Write(error) => prefixed("无法保存环境配置：", sql_error_text(error)),
            StorageError::InvalidDownloadInput => string_of("下载任务输入无效。"),
            StorageError::InvalidDownloadProgress => string_of("下载任务进度无效。"),
            StorageError::DownloadNotFound(id) => number3("下载任务不存在：", *id, "。"),
            StorageError::DownloadStreamNotFound(id) => number3("下载流不存在：", *id, "。"),
            StorageError::DownloadStreamTaskNotFound(id) => number3("下载流所属任务不存在：", *id, "。"),
            StorageError::DownloadExecutionSnapshotMissing(id) => number3("下载任务缺少执行快照：", *id, "。"),
            StorageError::InvalidDownloadStatusTransition => string_of("下载状态迁移无效。"),
            StorageError::InvalidStoredDownloadStatus(status) => text3("数据库中的下载状态无效：", status.as_str(), "。"),
            StorageError::InvalidStoredMediaType(media_type) => text3(
                "数据库中的媒体类型无效：",
                media_type.as_str(),
                "。",
            ),
            StorageError::UnsupportedStorageSchemaVersion(version) => number3("不支持的存储结构版本：", *version, "。"),
            StorageError::DuplicateDownloadStream => string_of("下载任务中的流标识重复。"),
        }
    }
}

} // verus!
