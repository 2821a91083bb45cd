use yt_dlp_gui::download_task::model::{DownloadOptions, DownloadSelection};
use yt_dlp_gui::download_task::persistence::{plan_new_download, FormatFacts};
use yt_dlp_gui::download_task::DownloadTaskError;
use yt_dlp_gui::storage::download::DownloadStreamMediaType;

fn selection(video: &str, audio: &str) -> DownloadSelection {
    DownloadSelection {
        source_url: "https://example.com/watch?v=1".to_owned(),
        selected_video_format_id: video.to_owned(),
        selected_audio_format_id: audio.to_owned(),
        output_template: "%(title)s.%(ext)s".to_owned(),
        target_directory: "/downloads".to_owned(),
        temporary_directory: "/downloads/.tmp".to_owned(),
        merge_output_format: "mp4".to_owned(),
        options: DownloadOptions::default(),
    }
}

fn formats(width: u64) -> Vec<FormatFacts> {
    vec![
        FormatFacts {
            format_id: Some("137".to_owned()),
            extension: Some("mp4".to_owned()),
            width: Some(width),
            height: Some(1080),
            video_codec: Some("avc1".to_owned()),
            audio_codec: Some("none".to_owned()),
        },
        FormatFacts {
            format_id: Some("140".to_owned()),
            extension: Some("m4a".to_owned()),
            width: None,
            height: None,
            video_codec: Some("none".to_owned()),
            audio_codec: Some("mp4a.40.2".to_owned()),
        },
    ]
}

#[test]
fn new_download_records_the_task_and_both_streams() {
    let thumbnail = Some("https://example.com/t.jpg".to_owned());
    let (draft, streams) =
        plan_new_download(&selection("137", "140"), &formats(1920), "v1", "Clip", &thumbnail, Ok(Some(61)), "2025.01.01", 99)
            .unwrap();
    assert_eq!(draft.source_url, "https://example.com/watch?v=1");
    assert_eq!(draft.video_id.as_deref(), Some("v1"));
    assert_eq!(draft.title.as_deref(), Some("Clip"));
    assert_eq!(draft.thumbnail_url, thumbnail);
    assert_eq!(draft.duration_seconds, Some(61));
    assert_eq!(draft.target_path, "/downloads");
    assert_eq!(draft.output_path, None);
    assert_eq!(draft.selected_format.as_deref(), Some("137+140"));
    assert_eq!(draft.created_at, 99);
    assert_eq!(draft.yt_dlp_version.as_deref(), Some("2025.01.01"));
    assert_eq!(streams.len(), 2);
    assert_eq!(streams[0].stream_key, "137");
    assert_eq!(streams[0].media_type, DownloadStreamMediaType::Video);
    assert_eq!(streams[0].width, Some(1920));
    assert_eq!(streams[1].stream_key, "140");
    assert_eq!(streams[1].media_type, DownloadStreamMediaType::Audio);
    assert_eq!(streams[1].audio_codec.as_deref(), Some("mp4a.40.2"));
}

#[test]
fn unknown_video_format_is_refused_before_anything_else() {
    let result = plan_new_download(
        &selection("999", "140"),
        &formats(1920),
        "v1",
        "Clip",
        &None,
        Err(DownloadTaskError::InvalidDownloadRequest("视频时长无效".to_owned())),
        "2025.01.01",
        99,
    );
    assert!(matches!(result, Err(DownloadTaskError::InvalidDownloadRequest(m)) if m == "未找到所选视频格式：999"));
}

#[test]
fn invalid_duration_is_reported_after_the_formats_pass() {
    let result = plan_new_download(
        &selection("137", "140"),
        &formats(1920),
        "v1",
        "Clip",
        &None,
        Err(DownloadTaskError::InvalidDownloadRequest("视频时长无效".to_owned())),
        "2025.01.01",
        99,
    );
    assert!(matches!(result, Err(DownloadTaskError::InvalidDownloadRequest(m)) if m == "视频时长无效"));
}

#[test]
fn oversized_width_cannot_be_stored() {
    let result =
        plan_new_download(&selection("137", "140"), &formats(u64::MAX), "v1", "Clip", &None, Ok(None), "2025.01.01", 99);
    assert!(matches!(result, Err(DownloadTaskError::InvalidDownloadRequest(m)) if m == "视频宽度超出支持范围"));
}
