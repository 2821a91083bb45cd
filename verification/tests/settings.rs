use std::path::Path;
use yt_dlp_gui::app::settings_validation::{
    download_directory_outcome, executable_outcome, ffmpeg_candidate, has_surrounding_whitespace, settings_validation, validate_download_directory, validate_ffmpeg, validate_proxy_setting,
    validate_yt_dlp, SettingsValidation, ValidationError,
};
use yt_dlp_gui::app::state::AppSettings;
use yt_dlp_gui::storage::database_path_next_to_executable;

const FFMPEG_FILE_NAME: &str = "ffmpeg";

fn never_probed(_program: &str, _argument: &str) -> bool {
    panic!("the executable should not be probed")
}

#[test]
fn empty_ffmpeg_path_is_valid_but_whitespace_is_not() {
    assert_eq!(validate_ffmpeg("", FFMPEG_FILE_NAME, never_probed), ValidationError::NoError);
    assert_eq!(
        validate_ffmpeg("  ", FFMPEG_FILE_NAME, never_probed),
        ValidationError::SurroundingWhitespace
    );
}

#[test]
fn surrounding_whitespace_takes_priority() {
    assert_eq!(
        validate_yt_dlp(" missing.exe", never_probed),
        ValidationError::SurroundingWhitespace
    );
    assert_eq!(
        validate_ffmpeg("missing.exe ", FFMPEG_FILE_NAME, never_probed),
        ValidationError::SurroundingWhitespace
    );
    assert_eq!(
        validate_download_directory(" C:/downloads"),
        ValidationError::SurroundingWhitespace
    );
}

#[test]
fn rejects_missing_executable_and_download_directory() {
    assert_eq!(
        validate_yt_dlp("this-executable-should-not-exist.exe", never_probed),
        ValidationError::InvalidExecutablePath
    );
    assert_eq!(
        validate_ffmpeg("this-executable-should-not-exist.exe", FFMPEG_FILE_NAME, never_probed),
        ValidationError::InvalidExecutablePath
    );
    assert_eq!(
        validate_download_directory("this-directory-should-not-exist-for-settings-validation"),
        ValidationError::InvalidDirectory
    );
}

#[test]
fn proxy_accepts_empty_value_but_rejects_surrounding_whitespace() {
    let mut settings = AppSettings::default();
    assert_eq!(validate_proxy_setting(&settings.proxy), ValidationError::NoError);
    settings.proxy = " http://proxy.example ".into();
    assert_eq!(
        validate_proxy_setting(&settings.proxy),
        ValidationError::SurroundingWhitespace
    );
}

#[test]
fn empty_yt_dlp_setting_probes_the_search_path() {
    let probe = |program: &str, argument: &str| program == "yt-dlp" && argument == "--version";
    assert_eq!(validate_yt_dlp("", probe), ValidationError::NoError);
    assert_eq!(validate_yt_dlp("", |_: &str, _: &str| false), ValidationError::ExecutableProbeFailed);
}

#[test]
fn existing_directory_is_a_valid_download_directory() {
    assert_eq!(validate_download_directory("."), ValidationError::NoError);
    assert_eq!(validate_download_directory(""), ValidationError::InvalidDirectory);
}

#[test]
fn whitespace_detection_follows_trim() {
    assert!(has_surrounding_whitespace(" a"));
    assert!(has_surrounding_whitespace("a\t"));
    assert!(!has_surrounding_whitespace("a b"));
    assert!(!has_surrounding_whitespace(""));
}

#[test]
fn first_invalid_field_follows_form_order() {
    let valid = SettingsValidation {
        yt_dlp_error: ValidationError::NoError,
        ffmpeg_error: ValidationError::NoError,
        download_directory_error: ValidationError::NoError,
        proxy_error: ValidationError::NoError,
    };
    assert!(valid.is_valid());
    assert_eq!(valid.first_invalid_field(), None);
    let invalid = SettingsValidation {
        download_directory_error: ValidationError::InvalidDirectory,
        proxy_error: ValidationError::SurroundingWhitespace,
        ..valid
    };
    assert!(!invalid.is_valid());
    assert_eq!(invalid.first_invalid_field(), Some(2));
}

#[test]
fn derives_database_path_from_executable_directory() {
    let executable_path = Path::new("C:/Program Files/yt-dlp-gui/yt-dlp-gui.exe");
    let database_path = database_path_next_to_executable(executable_path)
        .expect("executable path should have a parent directory");
    assert_eq!(database_path, Path::new("C:/Program Files/yt-dlp-gui/application.sqlite3"));
}

#[test]
fn database_path_needs_a_parent_directory() {
    assert!(database_path_next_to_executable(Path::new("")).is_err());
}

#[test]
fn root_path_error_names_the_executable_path() {
    match database_path_next_to_executable(Path::new("/")) {
        Err(yt_dlp_gui::error::AppError::StorageIo { stage, path, .. }) => {
            assert_eq!(stage, yt_dlp_gui::error::StorageStage::ResolveExecutablePath);
            assert_eq!(path, Some(std::path::PathBuf::from("/")));
        }
        other => panic!("unexpected {other:?}"),
    }
}

#[test]
fn the_form_validation_keeps_the_probe_results_and_checks_proxy_and_directory() {
    let mut settings = AppSettings::default();
    settings.proxy = " http://proxy.example ".into();
    settings.default_download_directory = "".into();
    let validation = settings_validation(&settings, ValidationError::NoError, ValidationError::ExecutableProbeFailed);
    assert_eq!(validation.yt_dlp_error, ValidationError::NoError);
    assert_eq!(validation.ffmpeg_error, ValidationError::ExecutableProbeFailed);
    assert_eq!(validation.proxy_error, ValidationError::SurroundingWhitespace);
    assert_eq!(validation.download_directory_error, ValidationError::InvalidDirectory);
    settings.proxy = "".into();
    settings.default_download_directory = " /tmp".into();
    let validation = settings_validation(&settings, ValidationError::NoError, ValidationError::NoError);
    assert_eq!(validation.proxy_error, ValidationError::NoError);
    assert_eq!(validation.download_directory_error, ValidationError::SurroundingWhitespace);
}

#[test]
fn file_and_probe_answers_decide_the_executable_check() {
    let probe = |program: &str, argument: &str| program == "/bin/tool" && argument == "--version";
    assert_eq!(executable_outcome(false, "/bin/tool", "--version", probe), ValidationError::InvalidExecutablePath);
    assert_eq!(executable_outcome(true, "/bin/tool", "--version", probe), ValidationError::NoError);
    assert_eq!(executable_outcome(true, "/bin/other", "--version", probe), ValidationError::ExecutableProbeFailed);
    assert_eq!(ffmpeg_candidate("/opt/ffmpeg", "ffmpeg.exe", false), "/opt/ffmpeg");
    assert_eq!(ffmpeg_candidate("/opt/ffmpeg", "ffmpeg.exe", true), "/opt/ffmpeg/ffmpeg.exe");
    assert_eq!(download_directory_outcome("/d", true), ValidationError::NoError);
    assert_eq!(download_directory_outcome("/d", false), ValidationError::InvalidDirectory);
    assert_eq!(download_directory_outcome("", true), ValidationError::InvalidDirectory);
    assert_eq!(download_directory_outcome(" /d", true), ValidationError::SurroundingWhitespace);
}

#[test]
fn missing_executables_are_invalid_paths_without_a_probe() {
    let probe = |_: &str, _: &str| -> bool { panic!("no process is run for a missing file") };
    assert_eq!(validate_ffmpeg("", "ffmpeg.exe", probe), ValidationError::NoError);
    assert_eq!(validate_ffmpeg("  ", "ffmpeg.exe", probe), ValidationError::SurroundingWhitespace);
    assert_eq!(validate_ffmpeg("missing.exe ", "ffmpeg.exe", probe), ValidationError::SurroundingWhitespace);
    assert_eq!(
        validate_ffmpeg("this-executable-should-not-exist.exe", "ffmpeg.exe", probe),
        ValidationError::InvalidExecutablePath
    );
    assert_eq!(validate_yt_dlp(" missing.exe", probe), ValidationError::SurroundingWhitespace);
    assert_eq!(
        validate_yt_dlp("this-executable-should-not-exist.exe", probe),
        ValidationError::InvalidExecutablePath
    );
}
