//! Why the application could not start or run a command.
use crate::diagnostics::{io_error_text, path_display_text, sql_error_text, yt_dlp_error_text};
use crate::download_task::parser::starts_with;
use crate::text::{push_str, string_of};
use std::path::PathBuf;
use vstd::prelude::*;

verus! {

#[verifier::external_type_specification]
#[verifier::external_body]
pub struct ExYtDlpError(ytd_rs::error::YtDlpError);

/// The step of opening storage that failed.
#[derive(Debug, Clone, Copy, PartialEq, Eq, Structural)]
pub enum StorageStage {
    ResolveExecutablePath,
    CreateDatabaseDirectory,
    OpenDatabase,
    ConfigureConnection,
    CreateTables,
    MigrateSchema,
}

/// What each stage does, as error messages name it.
pub open spec fn stage_description(s: StorageStage) -> Seq<char> {
    match s {
        StorageStage::ResolveExecutablePath => "resolve the executable directory"@,
        StorageStage::CreateDatabaseDirectory => "create the database directory"@,
        StorageStage::OpenDatabase => "open or create the SQLite database"@,
        StorageStage::ConfigureConnection => "configure the SQLite connection"@,
        StorageStage::CreateTables => "create the SQLite tables"@,
        StorageStage::MigrateSchema => "migrate the SQLite schema"@,
    }
}

impl StorageStage {
    /// What the stage does, as error messages name it.
    pub fn description(self) -> (r: &'static str)
        ensures
            r@ == stage_description(self),
    {
        match self {
            StorageStage::ResolveExecutablePath => "resolve the executable directory",
            StorageStage::CreateDatabaseDirectory => "create the database directory",
            StorageStage::OpenDatabase => "open or create the SQLite database",
            StorageStage::ConfigureConnection => "configure the SQLite connection",
            StorageStage::CreateTables => "create the SQLite tables",
            StorageStage::MigrateSchema => "migrate the SQLite schema",
        }
    }
}

/// Why the application could not start or run a command.
#[derive(Debug)]
pub enum AppError {
    Io(std::io::Error),
    Sqlite(rusqlite::Error),
    StorageIo { stage: StorageStage, path: Option<PathBuf>, source: std::io::Error },
    StorageSqlite { stage: StorageStage, path: PathBuf, source: rusqlite::Error },
    YtDlp(ytd_rs::error::YtDlpError),
    NotFound(String),
}

impl From<std::io::Error> for AppError {
    fn from(error: std::io::Error) -> (r: Self) {
        AppError::Io(error)
    }
}

impl vstd::std_specs::convert::FromSpecImpl<std::io::Error> for AppError {
    open spec fn obeys_from_spec() -> bool {
        true
    }

    open spec fn from_spec(error: std::io::Error) -> Self {
        AppError::Io(error)
    }
}

impl From<rusqlite::Error> for AppError {
    fn from(error: rusqlite::Error) -> (r: Self) {
        AppError::Sqlite(error)
    }
}

impl vstd::std_specs::convert::FromSpecImpl<rusqlite::Error> for AppError {
    open spec fn obeys_from_spec() -> bool {
        true
    }

    open spec fn from_spec(error: rusqlite::Error) -> Self {
        AppError::Sqlite(error)
    }
}

impl From<ytd_rs::error::YtDlpError> for AppError {
    fn from(error: ytd_rs::error::YtDlpError) -> (r: Self) {
        AppError::YtDlp(error)
    }
}

impl vstd::std_specs::convert::FromSpecImpl<ytd_rs::error::YtDlpError> for AppError {
    open spec fn obeys_from_spec() -> bool {
        true
    }

    open spec fn from_spec(error: ytd_rs::error::YtDlpError) -> Self {
        AppError::YtDlp(error)
    }
}

/// Whether `m` is the message of `e`: the fixed text before what the outside
/// error writes, the stage it failed at, or the message itself.
pub open spec fn is_app_error_message(e: AppError, m: Seq<char>) -> bool {
    match e {
        AppError::Io(_) => starts_with(m, "File operation failed: "@),
        AppError::Sqlite(_) => starts_with(m, "SQLite operation failed: "@),
        AppError::StorageIo { stage, path, .. } => match path {
            Some(_) => starts_with(m, "Failed to "@ + stage_description(stage) + " at '"@),
            None => starts_with(m, "Failed to "@ + stage_description(stage) + ": "@),
        },
        AppError::StorageSqlite { stage, .. } => starts_with(m, "Failed to "@ + stage_description(stage) + " at '"@),
        AppError::YtDlp(_) => starts_with(m, "yt-dlp execution failed: "@),
        AppError::NotFound(message) => m == message@,
    }
}

/// A message that starts with `a` and goes on with `t`.
fn starting(a: String, t: String) -> (r: String)
    ensures
        r@ == a@ + t@,
        starts_with(r@, a@),
{
    let mut m = a;
    let ghost head = m@;
    push_str(&mut m, t.as_str());
    assert((head + t@).subrange(0, head.len() as int) =~= head);
    m
}

/// `Failed to `, the stage, and `tail`.
fn failed_to(stage: StorageStage, tail: &str) -> (r: String)
    ensures
        r@ == "Failed to "@ + stage_description(stage) + tail@,
{
    let mut m = string_of("Failed to ");
    push_str(&mut m, stage.description());
    push_str(&mut m, tail);
    m
}

impl AppError {
    /// The message shown for the error.
    pub fn message(&self) -> (r: String)
        ensures
            is_app_error_message(*self, r@),
    {
        match self {
            AppError::Io(error) => starting(string_of("File operation failed: "), io_error_text(error)),
            AppError::Sqlite(error) => starting(string_of("SQLite operation failed: "), sql_error_text(error)),
            AppError::StorageIo { stage, path, source } => match path {
                Some(p) => {
                    let mut tail = path_display_text(p);
                    push_str(&mut tail, "': ");
                    let e = io_error_text(source);
                    push_str(&mut tail, e.as_str());
                    starting(failed_to(*stage, " at '"), tail)
                },
                None => starting(failed_to(*stage, ": "), io_error_text(source)),
            },
            AppError::StorageSqlite { stage, path, source } => {
                let mut tail = path_display_text(path);
                push_str(&mut tail, "': ");
                let e = sql_error_text(source);
                push_str(&mut tail, e.as_str());
                starting(failed_to(*stage, " at '"), tail)
            },
            AppError::YtDlp(error) => starting(string_of("yt-dlp execution failed: "), yt_dlp_error_text(error)),
            AppError::NotFound(message) => string_of(message.as_str()),
        }
    }
}

} // verus!
