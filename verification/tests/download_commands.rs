use std::path::PathBuf;
use std::time::Duration;
use yt_dlp_gui::download_task::client::DownloadTaskClient;
use yt_dlp_gui::download_task::error::{error_code, limited_error_message};
use yt_dlp_gui::download_task::model::{DownloadOptions, DownloadSelection};
use yt_dlp_gui::download_task::process::{
    append_stderr, download_arguments, download_result, ensure_executable, is_download_output_line,
    metadata_arguments, metadata_result, version_from_output, ProcessEnd, MAX_STDERR_CHARS,
};
use yt_dlp_gui::download_task::DownloadTaskError;
use yt_dlp_gui::storage::config::EnvironmentConfig;

fn selection() -> DownloadSelection {
    DownloadSelection {
        source_url: "https://example.com/watch?v=1".to_owned(),
        selected_video_format_id: "137".to_owned(),
        selected_audio_format_id: "140".to_owned(),
        output_template: "%(title)s.%(ext)s".to_owned(),
        target_directory: "/downloads".to_owned(),
        temporary_directory: "/downloads/.tmp".to_owned(),
        merge_output_format: "mp4".to_owned(),
        options: DownloadOptions::default(),
    }
}

#[test]
fn metadata_command_reads_one_json_document() {
    let args = metadata_arguments(None, "https://example.com/v");
    assert_eq!(
        args,
        vec![
            "--encoding",
            "utf-8",
            "--dump-single-json",
            "--skip-download",
            "--no-warnings",
            "--no-playlist",
            "--",
            "https://example.com/v"
        ]
    );
    let args = metadata_arguments(Some("http://proxy:8080"), "u");
    assert_eq!(&args[6..8], &["--proxy".to_owned(), "http://proxy:8080".to_owned()]);
    assert_eq!(args.last().map(String::as_str), Some("u"));
}

#[test]
fn download_command_has_the_progress_templates_and_the_selection() {
    let mut request = selection();
    request.options.retries = Some(3);
    request.options.rate_limit = Some("1M".to_owned());
    let args = download_arguments(&request, Some("http://proxy"), Some("/usr/bin/ffmpeg"));
    assert_eq!(args[0], "--encoding");
    assert_eq!(args[6], "0.5");
    assert!(args[8].starts_with("download:download:"));
    assert_eq!(args[10], "postprocess:postprocess:%(postprocessor_key)s");
    assert_eq!(args[15], "home:/downloads");
    assert_eq!(args[17], "temp:/downloads/.tmp");
    let tail: Vec<&str> = args[25..].iter().map(String::as_str).collect();
    assert_eq!(
        tail,
        vec![
            "--proxy",
            "http://proxy",
            "--ffmpeg-location",
            "/usr/bin/ffmpeg",
            "--limit-rate",
            "1M",
            "--retries",
            "3",
            "-f",
            "137+140",
            "--",
            "https://example.com/watch?v=1"
        ]
    );
}

#[test]
fn download_selection_needs_every_field_and_a_known_container() {
    assert_eq!(selection().validate(), Ok(()));
    let mut blank = selection();
    blank.output_template = "  ".to_owned();
    assert_eq!(blank.validate(), Err("下载请求包含空字段".to_owned()));
    let mut webm = selection();
    webm.merge_output_format = "webm".to_owned();
    assert_eq!(webm.validate(), Err("合并容器只能是 mp4 或 mkv".to_owned()));
}

#[test]
fn version_output_is_trimmed_and_must_not_be_empty() {
    let version = version_from_output(true, Some(0), " 2025.01.15\n", String::new()).unwrap();
    assert_eq!(version.value, "2025.01.15");
    assert!(matches!(
        version_from_output(true, Some(0), "  \n", String::new()),
        Err(DownloadTaskError::VersionOutputEmpty)
    ));
    match version_from_output(false, Some(2), "", "boom".to_owned()) {
        Err(DownloadTaskError::VersionCommandFailed { status, stderr }) => {
            assert_eq!(status, Some(2));
            assert_eq!(stderr, "boom");
        }
        _ => panic!("expected a failed version command"),
    }
}

#[test]
fn stderr_summary_joins_lines_and_stops_at_the_limit() {
    let mut summary = String::new();
    append_stderr(&mut summary, "first");
    append_stderr(&mut summary, "second");
    assert_eq!(summary, "first\nsecond");
    let long = "x".repeat(5000);
    let mut summary = String::new();
    append_stderr(&mut summary, &long);
    assert_eq!(summary.chars().count(), MAX_STDERR_CHARS);
    append_stderr(&mut summary, "more");
    assert_eq!(summary.chars().count(), MAX_STDERR_CHARS);
}

#[test]
fn only_template_lines_are_download_output() {
    assert!(is_download_output_line("download:downloading\t1"));
    assert!(is_download_output_line("postprocess:Merger"));
    assert!(is_download_output_line("after_move:/a.mp4"));
    assert!(!is_download_output_line(" download:x"));
    assert!(!is_download_output_line("[download] 5%"));
}

#[test]
fn a_missing_executable_is_reported_with_its_path() {
    let path = PathBuf::from("this-executable-should-not-exist.exe");
    match ensure_executable(&path) {
        Err(DownloadTaskError::ExecutableNotFound(reported)) => assert_eq!(reported, path),
        _ => panic!("expected a missing executable"),
    }
}

#[test]
fn error_codes_name_the_failure_category() {
    assert_eq!(error_code(&DownloadTaskError::Cancelled), "cancelled");
    assert_eq!(error_code(&DownloadTaskError::Timeout(Duration::from_secs(1))), "timeout");
    assert_eq!(error_code(&DownloadTaskError::Storage("x".to_owned())), "storage_failed");
    assert_eq!(error_code(&DownloadTaskError::VersionOutputEmpty), "download_failed");
    assert_eq!(
        error_code(&DownloadTaskError::DownloadProcessFailed { status: None, stderr: String::new() }),
        "download_process_failed"
    );
}

#[test]
fn error_messages_match_their_variant() {
    assert_eq!(
        DownloadTaskError::ProcessFailed { status: Some(-3), stderr: " bad \n".to_owned() }.message(),
        "yt-dlp 检索失败（退出码 Some(-3)）：bad"
    );
    assert_eq!(
        DownloadTaskError::DownloadProcessFailed { status: None, stderr: "x".to_owned() }.message(),
        "yt-dlp 下载失败（退出码 None）：x"
    );
    assert_eq!(
        DownloadTaskError::InvalidField { field: "formats", message: "必须是数组".to_owned() }.message(),
        "yt-dlp 字段 formats 无效：必须是数组"
    );
    assert_eq!(DownloadTaskError::MissingField("id").message(), "yt-dlp 媒体消息缺少字段：id。");
    assert_eq!(
        DownloadTaskError::Timeout(Duration::from_secs(20)).message(),
        "yt-dlp 任务超过 20s。"
    );
    let long = DownloadTaskError::Storage("y".repeat(5000));
    assert_eq!(limited_error_message(&long).chars().count(), 4096);
    assert!(limited_error_message(&long).starts_with("下载任务持久化失败：yyy"));
}

#[test]
fn cloned_errors_keep_their_fields() {
    let error = DownloadTaskError::ProgressParse("bad".to_owned());
    assert!(matches!(error.clone(), DownloadTaskError::ProgressParse(m) if m == "bad"));
    let io = DownloadTaskError::Io(std::io::Error::new(std::io::ErrorKind::Other, "pipe"));
    match io.clone() {
        DownloadTaskError::Io(error) => assert_eq!(error.to_string(), "pipe"),
        _ => panic!("expected an I/O error"),
    }
}

#[test]
fn client_drops_blank_proxies_and_zero_timeouts() {
    let client = DownloadTaskClient::new(
        PathBuf::from("yt-dlp"),
        None,
        Some("   ".to_owned()),
        Duration::ZERO,
        PathBuf::from("/downloads"),
    );
    assert_eq!(client.config.proxy, None);
    assert_eq!(client.config.timeout, None);
    assert_eq!(client.storage_path(), &PathBuf::from("/downloads"));
    let client = DownloadTaskClient::new(
        PathBuf::from("yt-dlp"),
        None,
        Some("http://p".to_owned()),
        Duration::from_secs(5),
        PathBuf::from("/d"),
    );
    assert_eq!(client.config.proxy.as_deref(), Some("http://p"));
    assert_eq!(client.config.timeout, Some(Duration::from_secs(5)));
}

#[test]
fn client_from_storage_uses_the_configuration() {
    let mut configuration = EnvironmentConfig::draft_default();
    configuration.yt_dlp_path = "/bin/yt-dlp".to_owned();
    configuration.ffmpeg_path = " ".to_owned();
    configuration.default_download_path = "/downloads".to_owned();
    let client = DownloadTaskClient::from_storage(Ok(Some(configuration)), Duration::from_secs(1)).unwrap();
    assert_eq!(client.config.yt_dlp_path, PathBuf::from("/bin/yt-dlp"));
    assert_eq!(client.config.ffmpeg_path, None);
    assert_eq!(client.config.proxy, None);
    assert_eq!(client.storage_path(), &PathBuf::from("/downloads"));
    match DownloadTaskClient::from_storage(Ok(None), Duration::ZERO) {
        Err(DownloadTaskError::Storage(message)) => assert_eq!(message, "配置数据库中不存在环境配置记录"),
        _ => panic!("expected a storage error"),
    }
    match DownloadTaskClient::from_storage(Err("locked".to_owned()), Duration::ZERO) {
        Err(DownloadTaskError::Storage(message)) => assert_eq!(message, "locked"),
        _ => panic!("expected a storage error"),
    }
}

#[test]
fn how_a_process_ended_decides_the_result() {
    let timeout = Duration::from_secs(30);
    let ok = ProcessEnd::Exited { success: true, code: Some(0) };
    assert_eq!(metadata_result(ok, timeout, "{}".to_owned(), String::new()).unwrap(), "{}");
    assert!(matches!(
        metadata_result(ProcessEnd::Exited { success: false, code: Some(2) }, timeout, String::new(), "bad".to_owned()),
        Err(DownloadTaskError::ProcessFailed { status: Some(2), stderr }) if stderr == "bad"
    ));
    assert!(matches!(metadata_result(ProcessEnd::Cancelled, timeout, String::new(), String::new()), Err(DownloadTaskError::Cancelled)));
    assert!(matches!(
        metadata_result(ProcessEnd::TimedOut, timeout, String::new(), String::new()),
        Err(DownloadTaskError::Timeout(t)) if t == timeout
    ));

    let done = download_result(
        ProcessEnd::Exited { success: true, code: Some(0) },
        None,
        timeout,
        String::new(),
        Some("/d/v.mp4".to_owned()),
    );
    assert_eq!(done.unwrap().as_deref(), Some("/d/v.mp4"));
    assert!(matches!(
        download_result(
            ProcessEnd::Exited { success: true, code: Some(0) },
            Some(DownloadTaskError::ProgressParse("line".to_owned())),
            timeout,
            String::new(),
            None,
        ),
        Err(DownloadTaskError::ProgressParse(m)) if m == "line"
    ));
    assert!(matches!(
        download_result(ProcessEnd::Exited { success: false, code: None }, None, timeout, "oops".to_owned(), None),
        Err(DownloadTaskError::DownloadProcessFailed { status: None, stderr }) if stderr == "oops"
    ));
    assert!(matches!(
        download_result(
            ProcessEnd::Failed(DownloadTaskError::WorkerPanicked),
            Some(DownloadTaskError::Cancelled),
            timeout,
            String::new(),
            None,
        ),
        Err(DownloadTaskError::WorkerPanicked)
    ));
}
