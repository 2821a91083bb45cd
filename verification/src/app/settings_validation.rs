//! Checking the settings the user entered before they are saved.
use crate::app::state::AppSettings;
use crate::paths::{join_path, path_is_dir, path_is_file, str_path};
use crate::text::{has_surrounding_ws, spec_has_surrounding_ws, string_of};
use vstd::prelude::*;

verus! {

/// What is wrong with one setting.
#[derive(Debug, Clone, Copy, PartialEq, Eq, Structural)]
pub enum ValidationError {
    NoError,
    SurroundingWhitespace,
    InvalidExecutablePath,
    ExecutableProbeFailed,
    InvalidDirectory,
}

/// What is wrong with each setting of the form.
#[derive(Debug, Clone, Copy, PartialEq, Eq, Structural)]
pub struct SettingsValidation {
    pub yt_dlp_error: ValidationError,
    pub ffmpeg_error: ValidationError,
    pub download_directory_error: ValidationError,
    pub proxy_error: ValidationError,
}

/// The position of the first setting with an error, in form order.
pub open spec fn spec_first_invalid(v: SettingsValidation) -> Option<i32> {
    if v.yt_dlp_error != ValidationError::NoError {
        Some(0)
    } else if v.ffmpeg_error != ValidationError::NoError {
        Some(1)
    } else if v.download_directory_error != ValidationError::NoError {
        Some(2)
    } else if v.proxy_error != ValidationError::NoError {
        Some(3)
    } else {
        None
    }
}

impl SettingsValidation {
    /// Whether no setting has an error.
    pub fn is_valid(self) -> (r: bool)
        ensures
            r == (spec_first_invalid(self) is None),
            r == (self.yt_dlp_error == ValidationError::NoError && self.ffmpeg_error == ValidationError::NoError
                && self.download_directory_error == ValidationError::NoError && self.proxy_error
                == ValidationError::NoError),
    {
        self.first_invalid_field().is_none()
    }

    /// The position of the first setting with an error (yt-dlp, FFmpeg, download
    /// directory, proxy), for the form to focus.
    pub fn first_invalid_field(self) -> (r: Option<i32>)
        ensures
            r == spec_first_invalid(self),
    {
        if self.yt_dlp_error != ValidationError::NoError {
            Some(0)
        } else if self.ffmpeg_error != ValidationError::NoError {
            Some(1)
        } else if self.download_directory_error != ValidationError::NoError {
            Some(2)
        } else if self.proxy_error != ValidationError::NoError {
            Some(3)
        } else {
            None
        }
    }
}

/// Whether trimming changes the value.
pub fn has_surrounding_whitespace(value: &str) -> (r: bool)
    ensures
        r == spec_has_surrounding_ws(value@),
{
    has_surrounding_ws(value)
}

/// Whether the probe, run on `program` with `argument`, may have answered `ok`.
pub open spec fn probe_may_answer<F: Fn(&str, &str) -> bool>(probe: F, program: &str, argument: &str, ok: bool) -> bool {
    probe.ensures((program, argument), ok)
}

/// What checking an executable gives, from whether the disk found a file at
/// `path`: no file is an invalid path; otherwise `probe` runs `path` with
/// `version_argument`, and its answer decides.
pub fn executable_outcome<F: Fn(&str, &str) -> bool>(
    is_file: bool,
    path: &str,
    version_argument: &str,
    probe: F,
) -> (r: ValidationError)
    requires
        forall|p: &str, a: &str| #[trigger] probe.requires((p, a)),
    ensures
        !is_file ==> r == ValidationError::InvalidExecutablePath,
        is_file ==> ((r == ValidationError::NoError && probe_may_answer(probe, path, version_argument, true)) || (r
            == ValidationError::ExecutableProbeFailed && probe_may_answer(probe, path, version_argument, false))),
{
    if !is_file {
        ValidationError::InvalidExecutablePath
    } else if probe(path, version_argument) {
        ValidationError::NoError
    } else {
        ValidationError::ExecutableProbeFailed
    }
}

/// Checks an executable: it must be a file, and running it with
/// `version_argument` (through `probe`) must succeed. Whether a file is there
/// is read from disk; see [`executable_outcome`] for what each answer gives.
pub fn validate_executable<F: Fn(&str, &str) -> bool>(path: &str, version_argument: &str, probe: F) -> (r:
    ValidationError)
    requires
        forall|p: &str, a: &str| #[trigger] probe.requires((p, a)),
    ensures
        r == ValidationError::InvalidExecutablePath || (r == ValidationError::NoError && probe_may_answer(
            probe,
            path,
            version_argument,
            true,
        )) || (r == ValidationError::ExecutableProbeFailed && probe_may_answer(
            probe,
            path,
            version_argument,
            false,
        )),
{
    let is_file = path_is_file(str_path(path));
    executable_outcome(is_file, path, version_argument, probe)
}

/// The FFmpeg executable a setting names, from whether the disk found a
/// directory there: the file `file_name` inside a directory, otherwise the
/// setting itself.
pub fn ffmpeg_candidate(path: &str, file_name: &str, is_dir: bool) -> (r: String)
    ensures
        r@ == (if is_dir {
            crate::paths::path_join(path@, file_name@)
        } else {
            path@
        }),
{
    if is_dir {
        join_path(path, file_name)
    } else {
        string_of(path)
    }
}

/// The FFmpeg executable a setting names: the file `file_name` inside it when it
/// is a directory, otherwise the setting itself (see [`ffmpeg_candidate`]).
pub fn resolve_ffmpeg_path(path: &str, file_name: &str) -> (r: String)
    ensures
        r@ == path@ || r@ == crate::paths::path_join(path@, file_name@),
{
    let is_dir = path_is_dir(str_path(path));
    ffmpeg_candidate(path, file_name, is_dir)
}

/// Checks the `yt-dlp` setting: no surrounding whitespace; empty means the
/// `yt-dlp` on the search path, which must answer `--version`; otherwise an
/// executable that answers `--version`.
pub fn validate_yt_dlp<F: Fn(&str, &str) -> bool>(value: &str, probe: F) -> (r: ValidationError)
    requires
        forall|p: &str, a: &str| #[trigger] probe.requires((p, a)),
    ensures
        spec_has_surrounding_ws(value@) ==> r == ValidationError::SurroundingWhitespace,
        !spec_has_surrounding_ws(value@) && value@.len() == 0 ==> ((r == ValidationError::NoError
            && probe_may_answer(probe, "yt-dlp", "--version", true)) || (r
            == ValidationError::ExecutableProbeFailed && probe_may_answer(probe, "yt-dlp", "--version", false))),
        !spec_has_surrounding_ws(value@) && value@.len() > 0 ==> (r == ValidationError::InvalidExecutablePath
            || (r == ValidationError::NoError && probe_may_answer(probe, value, "--version", true)) || (r
            == ValidationError::ExecutableProbeFailed && probe_may_answer(probe, value, "--version", false))),
{
    if has_surrounding_whitespace(value) {
        return ValidationError::SurroundingWhitespace;
    }
    if value.unicode_len() == 0 {
        return if probe("yt-dlp", "--version") {
            ValidationError::NoError
        } else {
            ValidationError::ExecutableProbeFailed
        };
    }
    validate_executable(value, "--version", probe)
}

/// The FFmpeg executable a setting names, from whether the disk found a
/// directory there: the file `file_name` inside a directory, otherwise the
/// setting itself.
pub open spec fn ffmpeg_candidate_text(value: Seq<char>, file_name: Seq<char>, is_dir: bool) -> Seq<char> {
    if is_dir {
        crate::paths::path_join(value, file_name)
    } else {
        value
    }
}

/// Whether the probe, run on the program written `program` with `argument`,
/// may have answered `ok`.
pub open spec fn probe_may_answer_text<F: Fn(&str, &str) -> bool>(
    probe: F,
    program: Seq<char>,
    argument: &str,
    ok: bool,
) -> bool {
    exists|s: &str| s@ == program && #[trigger] probe.ensures((s, argument), ok)
}

/// What checking the FFmpeg setting gives, from what the disk answered: whether
/// the setting names a directory, and whether the executable it resolves to
/// (the file `file_name` inside a directory, otherwise the setting itself) is a
/// file. Surrounding whitespace is refused first and an empty setting is
/// allowed; otherwise no file is an invalid path, and a file is judged by the
/// probe's answer to `-version` for that resolved executable, never for a
/// directory setting itself.
pub fn ffmpeg_outcome<F: Fn(&str, &str) -> bool>(
    value: &str,
    file_name: &str,
    is_dir: bool,
    is_file: bool,
    probe: F,
) -> (r: ValidationError)
    requires
        forall|p: &str, a: &str| #[trigger] probe.requires((p, a)),
    ensures
        spec_has_surrounding_ws(value@) ==> r == ValidationError::SurroundingWhitespace,
        !spec_has_surrounding_ws(value@) && value@.len() == 0 ==> r == ValidationError::NoError,
        !spec_has_surrounding_ws(value@) && value@.len() > 0 && !is_file ==> r
            == ValidationError::InvalidExecutablePath,
        !spec_has_surrounding_ws(value@) && value@.len() > 0 && is_file ==> ((r == ValidationError::NoError
            && probe_may_answer_text(probe, ffmpeg_candidate_text(value@, file_name@, is_dir), "-version", true))
            || (r == ValidationError::ExecutableProbeFailed && probe_may_answer_text(
            probe,
            ffmpeg_candidate_text(value@, file_name@, is_dir),
            "-version",
            false,
        ))),
{
    if has_surrounding_whitespace(value) {
        return ValidationError::SurroundingWhitespace;
    }
    if value.unicode_len() == 0 {
        return ValidationError::NoError;
    }
    let candidate = ffmpeg_candidate(value, file_name, is_dir);
    executable_outcome(is_file, candidate.as_str(), "-version", probe)
}

/// Checks the FFmpeg setting: no surrounding whitespace; empty is allowed (no
/// FFmpeg); otherwise the executable it names (see [`resolve_ffmpeg_path`]) must
/// answer `-version`. What the disk answers is read here; what each answer
/// gives is [`ffmpeg_outcome`].
pub fn validate_ffmpeg<F: Fn(&str, &str) -> bool>(value: &str, file_name: &str, probe: F) -> (r: ValidationError)
    requires
        forall|p: &str, a: &str| #[trigger] probe.requires((p, a)),
    ensures
        spec_has_surrounding_ws(value@) ==> r == ValidationError::SurroundingWhitespace,
        !spec_has_surrounding_ws(value@) && value@.len() == 0 ==> r == ValidationError::NoError,
        !spec_has_surrounding_ws(value@) && value@.len() > 0 ==> (r == ValidationError::NoError || r
            == ValidationError::InvalidExecutablePath || r == ValidationError::ExecutableProbeFailed),
{
    if has_surrounding_whitespace(value) {
        return ValidationError::SurroundingWhitespace;
    }
    if value.unicode_len() == 0 {
        return ValidationError::NoError;
    }
    let is_dir = path_is_dir(str_path(value));
    let candidate = ffmpeg_candidate(value, file_name, is_dir);
    let is_file = path_is_file(str_path(candidate.as_str()));
    ffmpeg_outcome(value, file_name, is_dir, is_file, probe)
}

/// What checking the download directory setting gives, from whether the disk
/// found a directory at `value`: surrounding whitespace first, then an empty
/// value or no directory is invalid.
pub fn download_directory_outcome(value: &str, is_dir: bool) -> (r: ValidationError)
    ensures
        r == (if spec_has_surrounding_ws(value@) {
            ValidationError::SurroundingWhitespace
        } else if value@.len() == 0 || !is_dir {
            ValidationError::InvalidDirectory
        } else {
            ValidationError::NoError
        }),
{
    if has_surrounding_whitespace(value) {
        ValidationError::SurroundingWhitespace
    } else if value.unicode_len() == 0 || !is_dir {
        ValidationError::InvalidDirectory
    } else {
        ValidationError::NoError
    }
}

/// Checks the download directory setting: no surrounding whitespace, and an
/// existing directory (see [`download_directory_outcome`]).
pub fn validate_download_directory(value: &str) -> (r: ValidationError)
    ensures
        spec_has_surrounding_ws(value@) ==> r == ValidationError::SurroundingWhitespace,
        !spec_has_surrounding_ws(value@) && value@.len() == 0 ==> r == ValidationError::InvalidDirectory,
        !spec_has_surrounding_ws(value@) && value@.len() > 0 ==> (r == ValidationError::NoError || r
            == ValidationError::InvalidDirectory),
{
    let is_dir = !has_surrounding_whitespace(value) && value.unicode_len() > 0 && path_is_dir(str_path(value));
    download_directory_outcome(value, is_dir)
}

/// Checks the proxy setting: empty is allowed, surrounding whitespace is not.
pub fn validate_proxy_setting(value: &str) -> (r: ValidationError)
    ensures
        r == (if spec_has_surrounding_ws(value@) {
            ValidationError::SurroundingWhitespace
        } else {
            ValidationError::NoError
        }),
{
    if has_surrounding_whitespace(value) {
        ValidationError::SurroundingWhitespace
    } else {
        ValidationError::NoError
    }
}

/// The form's validation, given what the two executable checks found: the proxy
/// is refused only with surrounding whitespace, and the download directory must
/// be an existing directory written without surrounding whitespace.
pub fn settings_validation(
    settings: &AppSettings,
    yt_dlp_error: ValidationError,
    ffmpeg_error: ValidationError,
) -> (r: SettingsValidation)
    ensures
        r.yt_dlp_error == yt_dlp_error,
        r.ffmpeg_error == ffmpeg_error,
        r.proxy_error == (if spec_has_surrounding_ws(settings.proxy@) {
            ValidationError::SurroundingWhitespace
        } else {
            ValidationError::NoError
        }),
        spec_has_surrounding_ws(settings.default_download_directory@) ==> r.download_directory_error
            == ValidationError::SurroundingWhitespace,
        !spec_has_surrounding_ws(settings.default_download_directory@)
            && settings.default_download_directory@.len() == 0 ==> r.download_directory_error
            == ValidationError::InvalidDirectory,
        !spec_has_surrounding_ws(settings.default_download_directory@)
            && settings.default_download_directory@.len() > 0 ==> (r.download_directory_error
            == ValidationError::NoError || r.download_directory_error == ValidationError::InvalidDirectory),
{
    SettingsValidation {
        yt_dlp_error,
        ffmpeg_error,
        download_directory_error: validate_download_directory(settings.default_download_directory.as_str()),
        proxy_error: validate_proxy_setting(settings.proxy.as_str()),
    }
}

/// The law of the form: it is valid exactly when no setting has an error, and
/// then no field is to be focused.
pub proof fn law_valid_iff_no_invalid_field(v: SettingsValidation)
    ensures
        (spec_first_invalid(v) is None) <==> (v.yt_dlp_error == ValidationError::NoError && v.ffmpeg_error
            == ValidationError::NoError && v.download_directory_error == ValidationError::NoError && v.proxy_error
            == ValidationError::NoError),
        spec_first_invalid(v) matches Some(i) ==> 0 <= i < 4,
{
}

} // verus!
