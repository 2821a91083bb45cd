use std::path::PathBuf;
use yt_dlp_gui::app::state::{AppSettings, DownloadStatus, ThemeMode as SettingsTheme};
use yt_dlp_gui::cli::{config_path_position, ArgumentProblem};
use yt_dlp_gui::error::{AppError, StorageStage};
use yt_dlp_gui::storage::config_keys::AppConfigKey;
use yt_dlp_gui::storage::download::{
    list_limit, validate_optional_nonnegative, DownloadStreamMediaType, DownloadTaskFilter, DownloadTaskStatus,
};
use yt_dlp_gui::storage::error::StorageError;
use yt_dlp_gui::storage::lifecycle::{
    check_finish_request, check_finish_transition, check_pausable, check_progress_target, check_resumable,
    check_status_request, status_write, stream_status_write, was_interrupted, StatusWrite,
};

#[test]
fn status_writes_follow_the_state_machine() {
    assert_eq!(
        status_write(DownloadTaskStatus::Preparing, DownloadTaskStatus::Downloading, 50).unwrap(),
        StatusWrite { started_at: Some(50), finished_at: None }
    );
    assert_eq!(
        status_write(DownloadTaskStatus::Downloading, DownloadTaskStatus::Completed, 60).unwrap(),
        StatusWrite { started_at: None, finished_at: Some(60) }
    );
    assert!(matches!(
        status_write(DownloadTaskStatus::Paused, DownloadTaskStatus::Preparing, 1),
        Err(StorageError::InvalidDownloadStatusTransition)
    ));
    assert!(matches!(
        status_write(DownloadTaskStatus::Completed, DownloadTaskStatus::Failed, 1),
        Err(StorageError::InvalidDownloadStatusTransition)
    ));
    assert!(matches!(
        check_status_request(DownloadTaskStatus::Downloading, -1),
        Err(StorageError::InvalidDownloadInput)
    ));
    assert!(matches!(
        check_status_request(DownloadTaskStatus::Paused, 1),
        Err(StorageError::InvalidDownloadStatusTransition)
    ));
    assert!(check_status_request(DownloadTaskStatus::Merging, 0).is_ok());
}

#[test]
fn streams_of_paused_tasks_can_only_stop() {
    assert!(stream_status_write(
        DownloadTaskStatus::Paused,
        DownloadTaskStatus::Downloading,
        DownloadTaskStatus::Completed,
        1
    )
    .is_err());
    assert_eq!(
        stream_status_write(
            DownloadTaskStatus::Paused,
            DownloadTaskStatus::Downloading,
            DownloadTaskStatus::Cancelled,
            9
        )
        .unwrap(),
        StatusWrite { started_at: None, finished_at: Some(9) }
    );
    assert!(stream_status_write(
        DownloadTaskStatus::Downloading,
        DownloadTaskStatus::Downloading,
        DownloadTaskStatus::Merging,
        1
    )
    .is_err());
}

#[test]
fn pause_resume_finish_and_progress_checks() {
    assert!(check_pausable(DownloadTaskStatus::Downloading).is_ok());
    assert!(check_pausable(DownloadTaskStatus::Merging).is_err());
    assert!(check_resumable(DownloadTaskStatus::Paused).is_ok());
    assert!(check_resumable(DownloadTaskStatus::Preparing).is_err());
    assert!(was_interrupted(DownloadTaskStatus::Merging));
    assert!(!was_interrupted(DownloadTaskStatus::Paused));
    assert!(matches!(
        check_finish_request(DownloadTaskStatus::Failed, 5, false),
        Err(StorageError::InvalidDownloadInput)
    ));
    assert!(check_finish_request(DownloadTaskStatus::Failed, 5, true).is_ok());
    assert!(check_finish_transition(DownloadTaskStatus::Merging, DownloadTaskStatus::Completed).is_ok());
    assert!(check_finish_transition(DownloadTaskStatus::Pending, DownloadTaskStatus::Completed).is_err());
    assert!(matches!(
        check_progress_target(DownloadTaskStatus::Cancelled),
        Err(StorageError::InvalidDownloadProgress)
    ));
    assert!(check_progress_target(DownloadTaskStatus::Paused).is_ok());
}

#[test]
fn stored_status_texts_read_back() {
    for status in [
        DownloadTaskStatus::Pending,
        DownloadTaskStatus::Preparing,
        DownloadTaskStatus::Downloading,
        DownloadTaskStatus::Paused,
        DownloadTaskStatus::Merging,
        DownloadTaskStatus::Completed,
        DownloadTaskStatus::Cancelled,
        DownloadTaskStatus::Failed,
    ] {
        assert_eq!(DownloadTaskStatus::parse(status.as_str().to_owned()).unwrap(), status);
    }
    match DownloadTaskStatus::parse("done".to_owned()) {
        Err(StorageError::InvalidStoredDownloadStatus(text)) => assert_eq!(text, "done"),
        _ => panic!("expected an invalid status"),
    }
    assert_eq!(DownloadStreamMediaType::parse("audio".to_owned()).unwrap(), DownloadStreamMediaType::Audio);
    assert!(DownloadTaskStatus::Failed.is_terminal());
    assert!(!DownloadTaskStatus::Paused.can_accept_progress());
    assert!(DownloadTaskStatus::Pending.can_transition_to(DownloadTaskStatus::Preparing));
    assert!(!DownloadTaskStatus::Downloading.can_stream_transition_to(DownloadTaskStatus::Merging));
}

#[test]
fn list_limits_and_nonnegative_values() {
    assert_eq!(list_limit(DownloadTaskFilter { status: None, limit: None }), 100);
    assert_eq!(list_limit(DownloadTaskFilter { status: None, limit: Some(5000) }), 1000);
    assert_eq!(list_limit(DownloadTaskFilter { status: None, limit: Some(7) }), 7);
    assert!(validate_optional_nonnegative(Some(-1)).is_err());
    assert!(validate_optional_nonnegative(None).is_ok());
}

#[test]
fn settings_rows_store_and_restore_values() {
    let mut settings = AppSettings::default();
    settings.max_concurrency = 12;
    assert_eq!(AppConfigKey::MaxConcurrency.as_str(), "max_concurrency");
    assert_eq!(AppConfigKey::MaxConcurrency.value_from(&settings), "12");
    let mut restored = AppSettings::default();
    AppConfigKey::MaxConcurrency.apply_to(&mut restored, "12".to_owned());
    assert_eq!(restored.max_concurrency, 12);
    AppConfigKey::MaxConcurrency.apply_to(&mut restored, "99".to_owned());
    assert_eq!(restored.max_concurrency, 16);
    AppConfigKey::MaxConcurrency.apply_to(&mut restored, "0".to_owned());
    assert_eq!(restored.max_concurrency, 1);
    AppConfigKey::MaxConcurrency.apply_to(&mut restored, "many".to_owned());
    assert_eq!(restored.max_concurrency, 1);
    AppConfigKey::Proxy.apply_to(&mut restored, "http://p".to_owned());
    assert_eq!(restored.proxy, "http://p");
    assert_eq!(AppConfigKey::all().len(), 7);
}

#[test]
fn command_line_accepts_one_config_path() {
    assert_eq!(config_path_position(&[]), Ok(None));
    assert_eq!(config_path_position(&[true, false]), Ok(Some(1)));
    assert_eq!(config_path_position(&[true, true]), Ok(Some(1)));
    assert_eq!(config_path_position(&[true]), Err(ArgumentProblem::MissingConfigPath));
    assert_eq!(
        config_path_position(&[true, false, true, false]),
        Err(ArgumentProblem::DuplicateConfigPath)
    );
    assert_eq!(config_path_position(&[false]), Err(ArgumentProblem::UnexpectedArgument(0)));
    assert_eq!(
        config_path_position(&[true, false, false]),
        Err(ArgumentProblem::UnexpectedArgument(2))
    );
}

#[test]
fn storage_errors_have_messages() {
    assert_eq!(StorageError::DownloadNotFound(-5).message(), "下载任务不存在：-5。");
    assert_eq!(
        StorageError::UnsupportedConfigurationVersion("9".to_owned()).message(),
        "不支持的配置版本：9，当前支持版本为 0.0.1。"
    );
    assert_eq!(StorageError::InvalidConcurrentDownloads(-3).message(), "不支持的并发下载数：-3。");
    assert!(StorageError::InvalidDatabasePath(PathBuf::from("/x")).message().starts_with("应用程序目录无效："));
}

#[test]
fn app_errors_name_the_failed_stage() {
    assert_eq!(StorageStage::OpenDatabase.description(), "open or create the SQLite database");
    let error = AppError::StorageIo {
        stage: StorageStage::OpenDatabase,
        path: Some(PathBuf::from("C:/restricted/application.sqlite3")),
        source: std::io::Error::new(std::io::ErrorKind::PermissionDenied, "access denied"),
    };
    assert_eq!(
        error.message(),
        "Failed to open or create the SQLite database at 'C:/restricted/application.sqlite3': access denied"
    );
    assert_eq!(AppError::NotFound("gone".to_owned()).message(), "gone");
}

#[test]
fn legacy_statuses_and_themes_read_back() {
    assert_eq!(DownloadStatus::from_storage(DownloadStatus::Running.as_str()), DownloadStatus::Running);
    assert_eq!(SettingsTheme::from_storage(SettingsTheme::Dark.as_str()), SettingsTheme::Dark);
}

#[test]
fn require_yt_dlp_path_rejects_missing_configuration() {
    let error = yt_dlp_gui::storage::config_keys::require_yt_dlp_path(None)
        .expect_err("missing yt-dlp path should fail");
    assert!(matches!(error, AppError::NotFound(_)));
    assert!(error.message().contains("missing"));
}

#[test]
fn require_yt_dlp_path_rejects_empty_configuration() {
    let error = yt_dlp_gui::storage::config_keys::require_yt_dlp_path(Some(String::new()))
        .expect_err("empty yt-dlp path should fail");
    assert!(matches!(error, AppError::NotFound(_)));
    assert!(error.message().contains("empty"));
}

#[test]
fn require_yt_dlp_path_rejects_whitespace_configuration() {
    let error = yt_dlp_gui::storage::config_keys::require_yt_dlp_path(Some(" \t\r\n ".to_owned()))
        .expect_err("whitespace-only yt-dlp path should fail");
    assert!(matches!(error, AppError::NotFound(_)));
    assert!(error.message().contains("empty"));
}

#[test]
fn require_yt_dlp_path_returns_trimmed_path_without_validation() {
    let path = yt_dlp_gui::storage::config_keys::require_yt_dlp_path(Some(
        "  deliberately/missing/yt-dlp  ".to_owned(),
    ))
    .expect("non-empty configured path should be returned");
    assert_eq!(path, PathBuf::from("deliberately/missing/yt-dlp"));
    assert!(!path.exists());
}

#[test]
fn saved_settings_load_back_onto_defaults() {
    let saved = AppSettings {
        yt_dlp_path: "/opt/yt-dlp".to_owned(),
        ffmpeg_path: "/opt/ffmpeg".to_owned(),
        default_download_directory: "/downloads".to_owned(),
        proxy: "http://127.0.0.1:8080".to_owned(),
        max_concurrency: 12,
        language: "en-US".to_owned(),
        theme: SettingsTheme::Dark,
    };
    let stored: Vec<(AppConfigKey, String)> =
        AppConfigKey::all().into_iter().map(|key| (key, key.value_from(&saved))).collect();
    let mut loaded = AppSettings::default();
    for (key, value) in stored {
        key.apply_to(&mut loaded, value);
    }
    assert_eq!(loaded, saved);
}

#[test]
fn the_theme_preference_is_saved_and_unknown_values_follow_the_system() {
    let mut settings = AppSettings::default();
    assert_eq!(settings.theme, SettingsTheme::FollowSystem);
    settings.theme = SettingsTheme::Dark;
    assert_eq!(AppConfigKey::Theme.as_str(), "theme_preference");
    assert_eq!(AppConfigKey::Theme.value_from(&settings), "dark");
    let mut loaded = AppSettings::default();
    AppConfigKey::Theme.apply_to(&mut loaded, AppConfigKey::Theme.value_from(&settings));
    assert_eq!(loaded.theme, SettingsTheme::Dark);
    AppConfigKey::Theme.apply_to(&mut loaded, "unsupported".to_owned());
    assert_eq!(loaded.theme, SettingsTheme::FollowSystem);
    AppConfigKey::Theme.apply_to(&mut loaded, "light".to_owned());
    assert_eq!(loaded.theme, SettingsTheme::Light);
}
