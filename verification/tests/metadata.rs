use yt_dlp_gui::download_task::metadata::{parse_json, parse_video_info, video_facts_from_json, JsonValue};
use yt_dlp_gui::download_task::DownloadTaskError;

fn invalid(result: Result<yt_dlp_gui::download_task::metadata::VideoFacts, DownloadTaskError>) -> (String, String) {
    match result {
        Err(DownloadTaskError::InvalidField { field, message }) => (field.to_owned(), message),
        Err(other) => panic!("expected an invalid field, got {other:?}"),
        Ok(_) => panic!("expected an invalid field"),
    }
}

#[test]
fn video_metadata_keeps_texts_integers_and_number_texts() {
    let json = br#"{
        "id": "abc", "title": "A video", "uploader": null, "duration": 12.5,
        "upload_date": "20240102", "extra": [1, 2],
        "formats": [
            {"format_id": "137", "ext": "mp4", "width": 1920, "height": 1080, "fps": 30,
             "tbr": 4500.25, "vcodec": "avc1", "acodec": "none", "filesize": 123456},
            {"format_id": "140", "abr": 129.5, "filesize_approx": 5000}
        ]
    }"#;
    let facts = parse_video_info(json).unwrap();
    assert_eq!(facts.id, "abc");
    assert_eq!(facts.title, "A video");
    assert_eq!(facts.uploader, None);
    assert_eq!(facts.duration.as_deref(), Some("12.5"));
    assert_eq!(facts.upload_date.as_deref(), Some("20240102"));
    assert_eq!(facts.formats.len(), 2);
    let video = &facts.formats[0];
    assert_eq!(video.format_id.as_deref(), Some("137"));
    assert_eq!(video.width, Some(1920));
    assert_eq!(video.height, Some(1080));
    assert_eq!(video.fps.as_deref(), Some("30"));
    assert_eq!(video.bitrate.as_deref(), Some("4500.25"));
    assert_eq!(video.filesize, Some(123456));
    assert_eq!(video.audio_codec.as_deref(), Some("none"));
    let audio = &facts.formats[1];
    assert_eq!(audio.audio_bitrate.as_deref(), Some("129.5"));
    assert_eq!(audio.filesize_approx, Some(5000));
    assert_eq!(audio.width, None);
}

#[test]
fn metadata_without_formats_has_an_empty_list() {
    let facts = parse_video_info(br#"{"id": "x", "title": "t"}"#).unwrap();
    assert!(facts.formats.is_empty());
}

#[test]
fn metadata_that_is_not_json_or_not_an_object_is_refused() {
    assert!(matches!(parse_video_info(b"not json"), Err(DownloadTaskError::InvalidJson(_))));
    match parse_video_info(b"[1, 2]") {
        Err(DownloadTaskError::InvalidJson(message)) => assert_eq!(message, "顶层 JSON 必须是对象"),
        _ => panic!("a top level that is not an object is refused"),
    }
}

#[test]
fn required_fields_and_field_forms_are_checked_in_order() {
    assert!(matches!(parse_video_info(br#"{"title": "t"}"#), Err(DownloadTaskError::MissingField("id"))));
    assert_eq!(
        invalid(parse_video_info(br#"{"id": "", "title": 3}"#)),
        ("id".to_owned(), "必须是非空字符串".to_owned())
    );
    assert_eq!(
        invalid(parse_video_info(br#"{"id": "x", "title": "t", "channel": 5}"#)),
        ("channel".to_owned(), "必须是字符串或 null".to_owned())
    );
    assert_eq!(
        invalid(parse_video_info(br#"{"id": "x", "title": "t", "duration": "long"}"#)),
        ("duration".to_owned(), "必须是数字或 null".to_owned())
    );
    assert_eq!(
        invalid(parse_video_info(br#"{"id": "x", "title": "t", "formats": {}}"#)),
        ("formats".to_owned(), "必须是数组".to_owned())
    );
    assert_eq!(
        invalid(parse_video_info(br#"{"id": "x", "title": "t", "formats": [1]}"#)),
        ("formats".to_owned(), "数组元素必须是对象".to_owned())
    );
    for width in ["-1", "1920.0", "1e3", "18446744073709551616"] {
        let json = format!(r#"{{"id": "x", "title": "t", "formats": [{{"width": {width}}}]}}"#);
        assert_eq!(
            invalid(parse_video_info(json.as_bytes())),
            ("width".to_owned(), "必须是非负整数或 null".to_owned())
        );
    }
}

#[test]
fn json_values_keep_their_shape() {
    match parse_json(br#"{"a": [true, null, -2, "s"]}"#).unwrap() {
        JsonValue::Object(members) => {
            assert_eq!(members.len(), 1);
            assert_eq!(members[0].0, "a");
            match &members[0].1 {
                JsonValue::Array(items) => {
                    assert!(matches!(items[0], JsonValue::Bool(true)));
                    assert!(matches!(items[1], JsonValue::Null));
                    assert!(matches!(&items[2], JsonValue::Number(n) if n == "-2"));
                    assert!(matches!(&items[3], JsonValue::Text(t) if t == "s"));
                }
                _ => panic!("an array"),
            }
        }
        _ => panic!("an object"),
    }
    assert!(parse_json(b"{").is_err());
    assert!(video_facts_from_json(&JsonValue::Null).is_err());
}
