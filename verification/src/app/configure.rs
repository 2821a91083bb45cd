//! Validating the environment configuration the configuration page edits.
use crate::paths::{
    extension_of, file_name_of, has_no_components, path_exists, path_extension, path_file_name,
    path_has_no_components, path_is_dir, path_is_file, str_path,
};
use crate::download_task::parser::{i64_text, parse_i64_chars};
use crate::storage::config::{EnvironmentConfig, CONFIG_VERSION};
use crate::text::{chars_of, eq_ignore_ascii_case, eq_ignore_case, has_surrounding_ws, spec_has_surrounding_ws, str_eq, string_of};
use vstd::prelude::*;

verus! {

/// A field of the configuration form.
#[derive(Debug, Clone, Copy, PartialEq, Eq, Structural)]
pub enum ConfigureField {
    YtDlpPath,
    FfmpegPath,
    DefaultDownloadPath,
    Proxy,
    ConcurrentDownloads,
    Language,
    Theme,
}

/// What is wrong with a field of the configuration form.
#[derive(Debug, Clone, PartialEq, Eq)]
pub enum ConfigureError {
    EmptyRequiredPath,
    InvalidPath(ConfigureField),
    MissingFile(ConfigureField),
    NotAFile(ConfigureField),
    InvalidToolName(ConfigureField),
    InvalidToolExtension(ConfigureField),
    MissingDirectory,
    NotADirectory,
    HasLeadingOrTrailingWhitespace,
    InvalidConcurrentDownloads,
    InvalidLanguage,
    InvalidTheme,
}

/// The field of the form that is wrong, and how.
#[derive(Debug, Clone, PartialEq, Eq)]
pub struct ConfigureValidationError {
    pub field: ConfigureField,
    pub error: ConfigureError,
}

/// The failure of `field` with `error`.
pub open spec fn failure(field: ConfigureField, error: ConfigureError) -> Result<(), ConfigureValidationError> {
    Err(ConfigureValidationError { field, error })
}

fn fail(field: ConfigureField, error: ConfigureError) -> (r: Result<(), ConfigureValidationError>)
    ensures
        r == failure(field, error),
{
    Err(ConfigureValidationError { field, error })
}

/// Fails when the value has leading or trailing whitespace.
pub fn reject_whitespace(field: ConfigureField, value: &str) -> (r: Result<(), ConfigureValidationError>)
    ensures
        r == (if spec_has_surrounding_ws(value@) {
            failure(field, ConfigureError::HasLeadingOrTrailingWhitespace)
        } else {
            Ok(())
        }),
{
    if has_surrounding_ws(value) {
        fail(field, ConfigureError::HasLeadingOrTrailingWhitespace)
    } else {
        Ok(())
    }
}

/// What the checks of a tool path that look at the path's text alone say, once
/// the path names an existing file: its extension must be `exe` and its file
/// name the expected one, both ignoring ASCII case.
pub open spec fn tool_name_check(field: ConfigureField, value: Seq<char>, expected_name: Seq<char>) -> Result<
    (),
    ConfigureValidationError,
> {
    match path_extension(value) {
        Some(e) if eq_ignore_ascii_case(e, "exe"@) => match path_file_name(value) {
            Some(n) if eq_ignore_ascii_case(n, expected_name) => Ok(()),
            _ => failure(field, ConfigureError::InvalidToolName(field)),
        },
        _ => failure(field, ConfigureError::InvalidToolExtension(field)),
    }
}

/// Whether `r` is a possible outcome of checking the tool path `value`: the
/// checks on the text are exact; whether the file exists and is a file is read
/// from disk.
pub open spec fn tool_outcome(
    r: Result<(), ConfigureValidationError>,
    field: ConfigureField,
    value: Seq<char>,
    expected_name: Seq<char>,
) -> bool {
    if value.len() == 0 {
        r == failure(field, ConfigureError::EmptyRequiredPath)
    } else if spec_has_surrounding_ws(value) {
        r == failure(field, ConfigureError::HasLeadingOrTrailingWhitespace)
    } else if path_has_no_components(value) {
        r == failure(field, ConfigureError::InvalidPath(field))
    } else {
        r == failure(field, ConfigureError::MissingFile(field)) || r == failure(
            field,
            ConfigureError::NotAFile(field),
        ) || r == tool_name_check(field, value, expected_name)
    }
}

/// What a tool path that passed the text checks is found to be, from what the
/// disk answered: nothing there is a missing file, something other than a file
/// is not a file, and a file must be `expected_name` with the `exe` extension.
pub fn tool_file_found(field: ConfigureField, value: &str, expected_name: &str, exists: bool, is_file: bool) -> (r:
    Result<(), ConfigureValidationError>)
    ensures
        r == (if !exists {
            failure(field, ConfigureError::MissingFile(field))
        } else if !is_file {
            failure(field, ConfigureError::NotAFile(field))
        } else {
            tool_name_check(field, value@, expected_name@)
        }),
{
    if !exists {
        return fail(field, ConfigureError::MissingFile(field));
    }
    if !is_file {
        return fail(field, ConfigureError::NotAFile(field));
    }
    let exe = chars_of("exe");
    let extension_ok = match extension_of(value) {
        Some(e) => {
            let ec = chars_of(e.as_str());
            eq_ignore_case(ec.as_slice(), exe.as_slice())
        },
        None => false,
    };
    if !extension_ok {
        return fail(field, ConfigureError::InvalidToolExtension(field));
    }
    let expected = chars_of(expected_name);
    let name_ok = match file_name_of(value) {
        Some(n) => {
            let nc = chars_of(n.as_str());
            eq_ignore_case(nc.as_slice(), expected.as_slice())
        },
        None => false,
    };
    if !name_ok {
        return fail(field, ConfigureError::InvalidToolName(field));
    }
    Ok(())
}

/// Checks a tool path: it is required, has no surrounding whitespace, names an
/// existing file, and that file is `expected_name` with the `exe` extension (both
/// ignoring ASCII case).
pub fn validate_tool_path(field: ConfigureField, value: &str, expected_name: &str) -> (r: Result<
    (),
    ConfigureValidationError,
>)
    ensures
        tool_outcome(r, field, value@, expected_name@),
{
    if value.unicode_len() == 0 {
        return fail(field, ConfigureError::EmptyRequiredPath);
    }
    match reject_whitespace(field, value) {
        Ok(()) => {},
        Err(e) => {
            return Err(e);
        },
    }
    if has_no_components(value) {
        return fail(field, ConfigureError::InvalidPath(field));
    }
    let exists = path_exists(str_path(value));
    let is_file = exists && path_is_file(str_path(value));
    tool_file_found(field, value, expected_name, exists, is_file)
}

/// Whether `r` is a possible outcome of checking the download path `value`.
pub open spec fn download_path_outcome(r: Result<(), ConfigureValidationError>, value: Seq<char>) -> bool {
    let field = ConfigureField::DefaultDownloadPath;
    if value.len() == 0 {
        r == Ok::<(), ConfigureValidationError>(())
    } else if spec_has_surrounding_ws(value) {
        r == failure(field, ConfigureError::HasLeadingOrTrailingWhitespace)
    } else if path_has_no_components(value) {
        r == failure(field, ConfigureError::InvalidPath(field))
    } else {
        r == failure(field, ConfigureError::MissingDirectory) || r == failure(field, ConfigureError::NotADirectory)
            || r == Ok::<(), ConfigureValidationError>(())
    }
}

/// What a non-empty default download path that passed the text checks is found
/// to be, from what the disk answered: nothing there is a missing directory,
/// something other than a directory is not a directory.
pub fn download_directory_found(exists: bool, is_dir: bool) -> (r: Result<(), ConfigureValidationError>)
    ensures
        r == (if !exists {
            failure(ConfigureField::DefaultDownloadPath, ConfigureError::MissingDirectory)
        } else if !is_dir {
            failure(ConfigureField::DefaultDownloadPath, ConfigureError::NotADirectory)
        } else {
            Ok(())
        }),
{
    if !exists {
        fail(ConfigureField::DefaultDownloadPath, ConfigureError::MissingDirectory)
    } else if !is_dir {
        fail(ConfigureField::DefaultDownloadPath, ConfigureError::NotADirectory)
    } else {
        Ok(())
    }
}

/// Checks the default download path: empty is allowed; otherwise no surrounding
/// whitespace and an existing directory.
pub fn validate_download_path(value: &str) -> (r: Result<(), ConfigureValidationError>)
    ensures
        download_path_outcome(r, value@),
{
    if value.unicode_len() == 0 {
        return Ok(());
    }
    match reject_whitespace(ConfigureField::DefaultDownloadPath, value) {
        Ok(()) => {},
        Err(e) => {
            return Err(e);
        },
    }
    if has_no_components(value) {
        return fail(
            ConfigureField::DefaultDownloadPath,
            ConfigureError::InvalidPath(ConfigureField::DefaultDownloadPath),
        );
    }
    let exists = path_exists(str_path(value));
    let is_dir = exists && path_is_dir(str_path(value));
    download_directory_found(exists, is_dir)
}

/// Checks the proxy: surrounding whitespace is refused.
pub fn validate_proxy(value: &str) -> (r: Result<(), ConfigureValidationError>)
    ensures
        r == (if spec_has_surrounding_ws(value@) {
            failure(ConfigureField::Proxy, ConfigureError::HasLeadingOrTrailingWhitespace)
        } else {
            Ok(())
        }),
{
    reject_whitespace(ConfigureField::Proxy, value)
}

/// Checks the number of concurrent downloads: 0 to 16.
pub fn validate_concurrent_downloads(value: i8) -> (r: Result<(), ConfigureValidationError>)
    ensures
        r == (if 0 <= value <= 16 {
            Ok(())
        } else {
            failure(ConfigureField::ConcurrentDownloads, ConfigureError::InvalidConcurrentDownloads)
        }),
{
    if 0 <= value && value <= 16 {
        Ok(())
    } else {
        fail(ConfigureField::ConcurrentDownloads, ConfigureError::InvalidConcurrentDownloads)
    }
}

/// Checks the language: `zh-CN` or `en-US`, exactly.
pub fn validate_language(value: &str) -> (r: Result<(), ConfigureValidationError>)
    ensures
        r == (if value@ == "zh-CN"@ || value@ == "en-US"@ {
            Ok(())
        } else {
            failure(ConfigureField::Language, ConfigureError::InvalidLanguage)
        }),
{
    if str_eq(value, "zh-CN") || str_eq(value, "en-US") {
        Ok(())
    } else {
        fail(ConfigureField::Language, ConfigureError::InvalidLanguage)
    }
}

/// Checks the theme: `system`, `light` or `dark`, exactly.
pub fn validate_theme(value: &str) -> (r: Result<(), ConfigureValidationError>)
    ensures
        r == (if value@ == "system"@ || value@ == "light"@ || value@ == "dark"@ {
            Ok(())
        } else {
            failure(ConfigureField::Theme, ConfigureError::InvalidTheme)
        }),
{
    if str_eq(value, "system") || str_eq(value, "light") || str_eq(value, "dark") {
        Ok(())
    } else {
        fail(ConfigureField::Theme, ConfigureError::InvalidTheme)
    }
}

/// The first failure among checks made in order.
pub open spec fn first_failure(
    checks: Seq<Result<(), ConfigureValidationError>>,
) -> Result<(), ConfigureValidationError>
    decreases checks.len(),
{
    if checks.len() == 0 {
        Ok(())
    } else if checks[0] is Err {
        checks[0]
    } else {
        first_failure(checks.drop_first())
    }
}

/// Whether `r` is a possible outcome of validating the configuration `c`: the
/// first failure of the checks in form order (the yt-dlp path, the FFmpeg path,
/// the download path, the proxy, the number of concurrent downloads, the
/// language, the theme), where the path checks may each read the disk.
pub open spec fn configuration_outcome(r: Result<(), ConfigureValidationError>, c: EnvironmentConfig) -> bool {
    exists|a: Result<(), ConfigureValidationError>, b: Result<(), ConfigureValidationError>, d: Result<
        (),
        ConfigureValidationError,
    >|
        tool_outcome(a, ConfigureField::YtDlpPath, c.yt_dlp_path@, "yt-dlp.exe"@) && tool_outcome(
            b,
            ConfigureField::FfmpegPath,
            c.ffmpeg_path@,
            "ffmpeg.exe"@,
        ) && download_path_outcome(d, c.default_download_path@) && r == first_failure(
            seq![
                a,
                b,
                d,
                if spec_has_surrounding_ws(c.proxy@) {
                    failure(ConfigureField::Proxy, ConfigureError::HasLeadingOrTrailingWhitespace)
                } else {
                    Ok(())
                },
                if 0 <= c.concurrent_downloads <= 16 {
                    Ok(())
                } else {
                    failure(ConfigureField::ConcurrentDownloads, ConfigureError::InvalidConcurrentDownloads)
                },
                if c.language@ == "zh-CN"@ || c.language@ == "en-US"@ {
                    Ok(())
                } else {
                    failure(ConfigureField::Language, ConfigureError::InvalidLanguage)
                },
                if c.theme@ == "system"@ || c.theme@ == "light"@ || c.theme@ == "dark"@ {
                    Ok(())
                } else {
                    failure(ConfigureField::Theme, ConfigureError::InvalidTheme)
                },
            ],
        )
}

/// Validates the configuration field by field, in form order, and reports the
/// first field that is wrong.
pub fn validate(configuration: &EnvironmentConfig) -> (r: Result<(), ConfigureValidationError>)
    ensures
        configuration_outcome(r, *configuration),
{
    let a = validate_tool_path(ConfigureField::YtDlpPath, configuration.yt_dlp_path.as_str(), "yt-dlp.exe");
    let b = validate_tool_path(ConfigureField::FfmpegPath, configuration.ffmpeg_path.as_str(), "ffmpeg.exe");
    let d = validate_download_path(configuration.default_download_path.as_str());
    let e = validate_proxy(configuration.proxy.as_str());
    let f = validate_concurrent_downloads(configuration.concurrent_downloads);
    let g = validate_language(configuration.language.as_str());
    let h = validate_theme(configuration.theme.as_str());
    let ghost checks = seq![a, b, d, e, f, g, h];
    proof {
        reveal_with_fuel(first_failure, 8);
    }
    let r = if a.is_err() {
        a
    } else if b.is_err() {
        b
    } else if d.is_err() {
        d
    } else if e.is_err() {
        e
    } else if f.is_err() {
        f
    } else if g.is_err() {
        g
    } else {
        h
    };
    assert(r == first_failure(checks));
    r
}

/// A draft is saved with the configuration version this program reads.
pub fn normalize_draft(configuration: EnvironmentConfig) -> (r: EnvironmentConfig)
    ensures
        r.version@ == CONFIG_VERSION@,
        r.yt_dlp_path == configuration.yt_dlp_path,
        r.ffmpeg_path == configuration.ffmpeg_path,
        r.default_download_path == configuration.default_download_path,
        r.theme == configuration.theme,
        r.language == configuration.language,
        r.concurrent_downloads == configuration.concurrent_downloads,
        r.proxy == configuration.proxy,
{
    let mut configuration = configuration;
    configuration.version = string_of(CONFIG_VERSION);
    configuration
}

/// The concurrency an edited draft holds: the `i8` the text writes, as
/// `i8::from_str` reads it, or -1 when it writes none.
pub fn draft_concurrent_downloads(value: &str) -> (r: i8)
    ensures
        r == (match i64_text(value@) {
            Some(n) => if -128 <= n <= 127 {
                n as i8
            } else {
                -1i8
            },
            None => -1i8,
        }),
{
    let chars = chars_of(value);
    match parse_i64_chars(chars.as_slice()) {
        Some(n) => if -128 <= n && n <= 127 {
            n as i8
        } else {
            -1
        },
        None => -1,
    }
}

/// The search time-out, in seconds, an edited draft holds: the `i64` the text
/// writes, as `i64::from_str` reads it, or -1 when it writes none.
pub fn draft_search_timeout(value: &str) -> (r: i64)
    ensures
        r == (match i64_text(value@) {
            Some(n) => n,
            None => -1i64,
        }),
{
    let chars = chars_of(value);
    match parse_i64_chars(chars.as_slice()) {
        Some(n) => n,
        None => -1,
    }
}

/// The position of a search time-out, in seconds, among the choices of the
/// configuration page; an unknown time-out selects 20 seconds.
pub fn search_timeout_index(value: i64) -> (r: i32)
    ensures
        r == (if value == 5 {
            0i32
        } else if value == 10 {
            1
        } else if value == 20 {
            2
        } else if value == 30 {
            3
        } else if value == 50 {
            4
        } else if value == 100 {
            5
        } else if value == 120 {
            6
        } else {
            2
        }),
{
    match value {
        5 => 0,
        10 => 1,
        20 => 2,
        30 => 3,
        50 => 4,
        100 => 5,
        120 => 6,
        _ => 2,
    }
}

} // verus!
