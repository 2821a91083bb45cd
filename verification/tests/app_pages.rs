use std::cmp::Ordering;
use yt_dlp_gui::app::configure::{
    download_directory_found, draft_concurrent_downloads, draft_search_timeout, tool_file_found, search_timeout_index, validate, validate_concurrent_downloads, validate_download_path, validate_language,
    validate_proxy, validate_theme, validate_tool_path, normalize_draft, ConfigureError, ConfigureField,
    ConfigureValidationError,
};
use yt_dlp_gui::app::contracts::Route;
use yt_dlp_gui::app::navigation::NavigationState;
use yt_dlp_gui::app::redownload::{check_redownloadable, selection_from_task, stream_format_id};
use yt_dlp_gui::app::search::{
    can_download, classify_failure, compare_text, compare_text_or_number, display_optional, next_sort_state,
    download_path_found, search_start, selected_download_streams, SearchStart, validate_download_path as validate_search_path, SearchFailure, SearchPathError,
    SortColumn, SortDirection,
};
use yt_dlp_gui::app::task_command::{format_yt_dlp_download_command, powershell_argument};
use yt_dlp_gui::app::{optional_path, optional_string};
use yt_dlp_gui::download_task::model::{DownloadOptions, DownloadSelection};
use yt_dlp_gui::download_task::persistence::FormatFacts;
use yt_dlp_gui::download_task::DownloadTaskError;
use yt_dlp_gui::storage::config::{EnvironmentConfig, CONFIG_VERSION};
use yt_dlp_gui::storage::download::{DownloadStreamMediaType, DownloadTask, DownloadTaskStatus, DownloadTaskStream};

#[test]
fn sort_header_cycles_ascending_descending_reset() {
    let first = next_sort_state(None, SortDirection::Reset, SortColumn::Bitrate);
    assert_eq!(first, (Some(SortColumn::Bitrate), SortDirection::Ascending));
    let second = next_sort_state(first.0, first.1, SortColumn::Bitrate);
    assert_eq!(second, (Some(SortColumn::Bitrate), SortDirection::Descending));
    let third = next_sort_state(second.0, second.1, SortColumn::Bitrate);
    assert_eq!(third, (None, SortDirection::Reset));
    let other = next_sort_state(second.0, second.1, SortColumn::FileSize);
    assert_eq!(other, (Some(SortColumn::FileSize), SortDirection::Ascending));
}

#[test]
fn sort_columns_round_trip_through_their_index() {
    for index in 0..8 {
        assert_eq!(SortColumn::from_index(index).map(SortColumn::index), Some(index));
    }
    assert_eq!(SortColumn::from_index(8), None);
    assert_eq!(SortColumn::from_index(-1), None);
    assert_eq!(SortDirection::Descending.index(), 2);
}

#[test]
fn search_download_path_may_be_empty_but_not_padded() {
    assert_eq!(validate_search_path(""), Ok(()));
    assert_eq!(validate_search_path(" /tmp"), Err(SearchPathError::LeadingOrTrailingWhitespace));
    assert_eq!(validate_search_path("no-such-directory-for-search"), Err(SearchPathError::MissingDirectory));
    assert_eq!(validate_search_path("."), Ok(()));
    assert!(can_download("/d", Some(1), None));
    assert!(!can_download("", Some(1), None));
    assert!(!can_download("/d", None, None));
    assert!(!can_download("/d", Some(0), Some(SearchPathError::MissingDirectory)));
}

#[test]
fn search_failures_are_classified() {
    assert_eq!(classify_failure(&DownloadTaskError::Cancelled), SearchFailure::Cancelled);
    assert_eq!(classify_failure(&DownloadTaskError::InvalidJson("x".to_owned())), SearchFailure::Metadata);
    assert_eq!(classify_failure(&DownloadTaskError::VersionOutputEmpty), SearchFailure::Process);
    assert_eq!(classify_failure(&DownloadTaskError::Poisoned), SearchFailure::Unexpected);
    assert_eq!(
        classify_failure(&DownloadTaskError::ExecutableNotFound("a".into())),
        SearchFailure::YtDlpPathMissing
    );
}

#[test]
fn text_cells_compare_ignoring_ascii_case_and_numbers_by_value() {
    assert_eq!(compare_text(Some("Abc"), Some("abd")), Ordering::Less);
    assert_eq!(compare_text(Some("ABC"), Some("abc")), Ordering::Equal);
    assert_eq!(compare_text(None, Some("a")), Ordering::Less);
    assert_eq!(compare_text_or_number(Some("9"), Some("10")), Ordering::Less);
    assert_eq!(compare_text_or_number(Some("9"), Some("10a")), Ordering::Greater);
    assert_eq!(display_optional(&Some("x".to_owned())), "x");
    assert_eq!(display_optional(&None), "");
}

fn facts(id: &str, ext: &str, height: Option<u64>, video: Option<&str>, audio: Option<&str>) -> FormatFacts {
    FormatFacts {
        format_id: Some(id.to_owned()),
        extension: Some(ext.to_owned()),
        width: None,
        height,
        video_codec: video.map(str::to_owned),
        audio_codec: audio.map(str::to_owned),
    }
}

#[test]
fn a_download_takes_the_selected_video_and_prefers_m4a_audio() {
    let formats = vec![
        facts("251", "webm", None, Some("none"), Some("opus")),
        facts("137", "mp4", Some(1080), Some("avc1"), Some("none")),
        facts("140", "m4a", None, None, Some("mp4a")),
    ];
    assert_eq!(
        selected_download_streams(&formats, Some(1)),
        Some(("137".to_owned(), "140".to_owned()))
    );
    assert_eq!(selected_download_streams(&formats, Some(0)), None);
    assert_eq!(selected_download_streams(&formats, Some(9)), None);
    assert_eq!(
        selected_download_streams(&formats[..2], Some(1)),
        Some(("137".to_owned(), "251".to_owned()))
    );
}

fn configuration() -> EnvironmentConfig {
    let mut c = EnvironmentConfig::draft_default();
    c.yt_dlp_path = "missing/yt-dlp.exe".to_owned();
    c.ffmpeg_path = "missing/ffmpeg.exe".to_owned();
    c.theme = "dark".to_owned();
    c.language = "zh-CN".to_owned();
    c
}

fn error(field: ConfigureField, error: ConfigureError) -> Result<(), ConfigureValidationError> {
    Err(ConfigureValidationError { field, error })
}

#[test]
fn tool_paths_are_required_and_must_exist() {
    assert_eq!(
        validate_tool_path(ConfigureField::YtDlpPath, "", "yt-dlp.exe"),
        error(ConfigureField::YtDlpPath, ConfigureError::EmptyRequiredPath)
    );
    assert_eq!(
        validate_tool_path(ConfigureField::FfmpegPath, " a.exe", "ffmpeg.exe"),
        error(ConfigureField::FfmpegPath, ConfigureError::HasLeadingOrTrailingWhitespace)
    );
    assert_eq!(
        validate_tool_path(ConfigureField::YtDlpPath, "missing/yt-dlp.exe", "yt-dlp.exe"),
        error(ConfigureField::YtDlpPath, ConfigureError::MissingFile(ConfigureField::YtDlpPath))
    );
    assert_eq!(
        validate_tool_path(ConfigureField::YtDlpPath, ".", "yt-dlp.exe"),
        error(ConfigureField::YtDlpPath, ConfigureError::NotAFile(ConfigureField::YtDlpPath))
    );
}

#[test]
fn configuration_is_checked_field_by_field_in_order() {
    assert_eq!(
        validate(&configuration()),
        error(ConfigureField::YtDlpPath, ConfigureError::MissingFile(ConfigureField::YtDlpPath))
    );
    assert_eq!(validate_download_path(""), Ok(()));
    assert_eq!(
        validate_download_path("missing-download-directory"),
        error(ConfigureField::DefaultDownloadPath, ConfigureError::MissingDirectory)
    );
    assert_eq!(
        validate_proxy("http://p "),
        error(ConfigureField::Proxy, ConfigureError::HasLeadingOrTrailingWhitespace)
    );
    assert_eq!(validate_concurrent_downloads(16), Ok(()));
    assert_eq!(
        validate_concurrent_downloads(17),
        error(ConfigureField::ConcurrentDownloads, ConfigureError::InvalidConcurrentDownloads)
    );
    assert_eq!(validate_concurrent_downloads(-1).is_err(), true);
    assert_eq!(validate_language("en-US"), Ok(()));
    assert_eq!(validate_language("en"), error(ConfigureField::Language, ConfigureError::InvalidLanguage));
    assert_eq!(validate_theme("light"), Ok(()));
    assert_eq!(validate_theme("Light"), error(ConfigureField::Theme, ConfigureError::InvalidTheme));
}

#[test]
fn drafts_are_saved_with_the_current_version_and_timeouts_have_positions() {
    let mut draft = configuration();
    draft.version = "old".to_owned();
    assert_eq!(normalize_draft(draft).version, CONFIG_VERSION);
    assert_eq!(search_timeout_index(5), 0);
    assert_eq!(search_timeout_index(120), 6);
    assert_eq!(search_timeout_index(7), 2);
}

fn selection() -> DownloadSelection {
    DownloadSelection {
        source_url: "https://example.com/v?a=1".to_owned(),
        selected_video_format_id: "137".to_owned(),
        selected_audio_format_id: "140".to_owned(),
        output_template: "it's.%(ext)s".to_owned(),
        target_directory: "/d".to_owned(),
        temporary_directory: "/d/t".to_owned(),
        merge_output_format: "mp4".to_owned(),
        options: DownloadOptions::default(),
    }
}

#[test]
fn the_copied_command_quotes_every_argument() {
    assert_eq!(powershell_argument("it's"), "'it''s'");
    assert_eq!(powershell_argument(""), "''");
    let command = format_yt_dlp_download_command(&selection(), Some(""), Some("  "));
    assert_eq!(
        command,
        "yt-dlp '-f' '137+140' '--merge-output-format' 'mp4' '--no-overwrites' '-P' 'home:/d' '-P' 'temp:/d/t' '-o' 'it''s.%(ext)s' 'https://example.com/v?a=1'"
    );
    let mut request = selection();
    request.options.concurrent_fragments = Some(4);
    let command = format_yt_dlp_download_command(&request, Some("/ff"), Some("http://p"));
    assert!(command.contains("'--proxy' 'http://p' '--ffmpeg-location' '/ff' '--concurrent-fragments' '4'"));
}

fn task(status: DownloadTaskStatus) -> DownloadTask {
    DownloadTask {
        id: 1,
        source_url: "https://example.com/v".to_owned(),
        video_id: None,
        title: None,
        thumbnail_url: None,
        duration_seconds: None,
        target_path: "/d".to_owned(),
        output_path: None,
        selected_format: None,
        status,
        progress_percent: None,
        downloaded_bytes: 0,
        total_bytes: None,
        total_bytes_estimate: None,
        speed_bytes_per_second: None,
        elapsed_seconds: None,
        eta_seconds: None,
        created_at: 0,
        started_at: None,
        finished_at: None,
        updated_at: 0,
        yt_dlp_version: None,
        error_code: None,
        error_message: None,
    }
}

fn stream(key: &str, format_id: Option<&str>, media_type: DownloadStreamMediaType) -> DownloadTaskStream {
    DownloadTaskStream {
        id: 1,
        task_id: 1,
        stream_key: key.to_owned(),
        format_id: format_id.map(str::to_owned),
        media_type,
        extension: None,
        width: None,
        height: None,
        video_codec: None,
        audio_codec: None,
        status: DownloadTaskStatus::Completed,
        progress_percent: None,
        downloaded_bytes: 0,
        total_bytes: None,
        total_bytes_estimate: None,
        speed_bytes_per_second: None,
        elapsed_seconds: None,
        eta_seconds: None,
        created_at: 0,
        started_at: None,
        finished_at: None,
        updated_at: 0,
    }
}

#[test]
fn finished_tasks_can_be_downloaded_again() {
    assert!(check_redownloadable(DownloadTaskStatus::Failed).is_ok());
    assert_eq!(check_redownloadable(DownloadTaskStatus::Downloading), Err("活动任务不能重新下载".to_owned()));
    assert_eq!(stream_format_id(&stream("k", Some(" "), DownloadStreamMediaType::Video)), Ok("k".to_owned()));
    assert_eq!(stream_format_id(&stream(" ", None, DownloadStreamMediaType::Video)), Err("任务流缺少格式 ID".to_owned()));
    let streams = vec![
        stream("140", Some("140"), DownloadStreamMediaType::Audio),
        stream("137", Some("137"), DownloadStreamMediaType::Video),
    ];
    let selection = selection_from_task(&task(DownloadTaskStatus::Completed), &streams).unwrap();
    assert_eq!(selection.selected_video_format_id, "137");
    assert_eq!(selection.selected_audio_format_id, "140");
    assert_eq!(selection.output_template, "%(title).80B [%(id)s].%(ext)s");
    assert_eq!(selection.temporary_directory, "/d/.yt-dlp-gui-temp");
    assert_eq!(selection.merge_output_format, "mp4");
    assert_eq!(
        selection_from_task(&task(DownloadTaskStatus::Completed), &streams[..1]),
        Err("任务缺少视频流记录".to_owned())
    );
}

#[test]
fn settings_blank_values_count_as_unset() {
    assert_eq!(optional_string("  "), None);
    assert_eq!(optional_string(" p "), Some(" p ".to_owned()));
    assert_eq!(optional_path(""), None);
    assert_eq!(optional_path(" "), Some(" ".into()));
}

#[test]
fn navigation_moves_only_to_known_routes() {
    let mut navigation = NavigationState::new();
    assert_eq!(navigation.current(), Route::Welcome);
    assert!(navigation.navigate_to_index(3));
    assert_eq!(navigation.current(), Route::Tasks);
    assert!(!navigation.navigate_to_index(4));
    assert_eq!(navigation.current(), Route::Tasks);
    navigation.navigate_to(Route::Search);
    assert_eq!(navigation.current().index(), 2);
    assert_eq!(Route::from_index(1), Some(Route::Configure));
}

#[test]
fn edited_numbers_read_as_the_number_or_minus_one() {
    assert_eq!(draft_concurrent_downloads("4"), 4);
    assert_eq!(draft_concurrent_downloads("+16"), 16);
    assert_eq!(draft_concurrent_downloads("-128"), -128);
    assert_eq!(draft_concurrent_downloads("128"), -1);
    assert_eq!(draft_concurrent_downloads(" 4"), -1);
    assert_eq!(draft_concurrent_downloads(""), -1);
    assert_eq!(draft_concurrent_downloads("four"), -1);
    assert_eq!(draft_search_timeout("30"), 30);
    assert_eq!(draft_search_timeout("-"), -1);
    assert_eq!(draft_search_timeout("9223372036854775807"), i64::MAX);
    assert_eq!(draft_search_timeout("9223372036854775808"), -1);
}

#[test]
fn disk_answers_decide_the_path_errors() {
    assert_eq!(download_path_found(false, false), Err(SearchPathError::MissingDirectory));
    assert_eq!(download_path_found(true, false), Err(SearchPathError::NotADirectory));
    assert_eq!(download_path_found(true, true), Ok(()));

    let missing = download_directory_found(false, false).unwrap_err();
    assert_eq!(missing.error, ConfigureError::MissingDirectory);
    assert_eq!(missing.field, ConfigureField::DefaultDownloadPath);
    assert_eq!(download_directory_found(true, false).unwrap_err().error, ConfigureError::NotADirectory);
    assert!(download_directory_found(true, true).is_ok());

    let field = ConfigureField::YtDlpPath;
    assert_eq!(
        tool_file_found(field, "C:/tools/yt-dlp.exe", "yt-dlp.exe", false, false).unwrap_err().error,
        ConfigureError::MissingFile(field)
    );
    assert_eq!(
        tool_file_found(field, "C:/tools/yt-dlp.exe", "yt-dlp.exe", true, false).unwrap_err().error,
        ConfigureError::NotAFile(field)
    );
    assert!(tool_file_found(field, "C:/tools/YT-DLP.EXE", "yt-dlp.exe", true, true).is_ok());
    assert_eq!(
        tool_file_found(field, "C:/tools/yt-dlp.bin", "yt-dlp.exe", true, true).unwrap_err().error,
        ConfigureError::InvalidToolExtension(field)
    );
    assert_eq!(
        tool_file_found(field, "C:/tools/ffmpeg.exe", "yt-dlp.exe", true, true).unwrap_err().error,
        ConfigureError::InvalidToolName(field)
    );
}

#[test]
fn a_search_request_is_decided_before_yt_dlp_runs() {
    assert_eq!(search_start(true, "https://v", Some("/bin/yt-dlp")), SearchStart::Ignore);
    assert_eq!(search_start(false, "   ", Some("/bin/yt-dlp")), SearchStart::Ignore);
    assert_eq!(search_start(false, "https://v", None), SearchStart::Fail(SearchFailure::ConfigurationMissing));
    assert_eq!(search_start(false, "https://v", Some(" ")), SearchStart::Fail(SearchFailure::YtDlpPathMissing));
    assert_eq!(search_start(false, "https://v", Some("/bin/yt-dlp")), SearchStart::Run);
}
