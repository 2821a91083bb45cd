use std::path::PathBuf;
use yt_dlp_gui::download::ytdlp::{download_command, DownloadRequest};

fn request() -> DownloadRequest {
    DownloadRequest {
        url: "https://example.com/watch?v=1".to_owned(),
        output_directory: PathBuf::from("/downloads"),
        yt_dlp_path: None,
        ffmpeg_path: None,
        proxy: None,
        format_selector: "137+140".to_owned(),
    }
}

#[test]
fn plain_request_sets_link_directory_progress_lines_and_format() {
    let task = download_command(request());
    assert_eq!(
        format!("{task:?}"),
        "YtDlp { links: [\"https://example.com/watch?v=1\"], args: [(\"--newline\", None), (\"--format\", Some(\"137+140\"))], output_dir: Some(\"/downloads\"), executable_path: None }"
    );
}

#[test]
fn configured_programs_and_proxy_are_passed_on_in_order() {
    let mut full = request();
    full.yt_dlp_path = Some(PathBuf::from("/opt/yt-dlp"));
    full.ffmpeg_path = Some(PathBuf::from("/opt/ffmpeg"));
    full.proxy = Some("http://127.0.0.1:8080".to_owned());
    let task = download_command(full);
    assert_eq!(
        format!("{task:?}"),
        "YtDlp { links: [\"https://example.com/watch?v=1\"], args: [(\"--newline\", None), (\"--format\", Some(\"137+140\")), (\"--ffmpeg-location\", Some(\"/opt/ffmpeg\")), (\"--proxy\", Some(\"http://127.0.0.1:8080\"))], output_dir: Some(\"/downloads\"), executable_path: Some(\"/opt/yt-dlp\") }"
    );
}
