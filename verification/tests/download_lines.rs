use yt_dlp_gui::download_task::model::{DownloadMediaType, DownloadStreamStatus};
use yt_dlp_gui::download_task::parser::{
    parse_i64, parse_u64_chars, postprocess_template, progress_from_fields, progress_template,
    split_download_line, DownloadLine,
};
use yt_dlp_gui::download_task::DownloadTaskError;

fn progress_line(text: &str) -> yt_dlp_gui::download_task::parser::ProgressLine {
    match split_download_line(text, "137", "140") {
        Ok(DownloadLine::Progress(line)) => line,
        _ => panic!("expected a progress line"),
    }
}

fn parse_error_message<T>(result: Result<T, DownloadTaskError>) -> String {
    match result {
        Err(DownloadTaskError::ProgressParse(message)) => message,
        _ => panic!("expected a progress parse error"),
    }
}

#[test]
fn merge_and_output_lines_are_recognised_after_trimming() {
    assert!(matches!(
        split_download_line("  postprocess:Merger  ", "137", "140"),
        Ok(DownloadLine::Merging)
    ));
    match split_download_line("after_move:/videos/a b.mp4 \r", "137", "140") {
        Ok(DownloadLine::OutputPath(path)) => assert_eq!(path, "/videos/a b.mp4"),
        _ => panic!("expected an output path"),
    }
}

#[test]
fn unknown_lines_are_progress_errors() {
    let message = parse_error_message(split_download_line(" [info] hello ", "137", "140"));
    assert_eq!(message, "未知进度行：[info] hello");
}

#[test]
fn progress_lines_need_nine_fields() {
    let message = parse_error_message(split_download_line("download:downloading\t137\t1", "137", "140"));
    assert_eq!(message, "字段数量为 3，预期为 9");
}

#[test]
fn progress_lines_name_a_selected_format_and_a_known_status() {
    let message = parse_error_message(split_download_line(
        "download:downloading\t999\t1\t2\t3\t4\t5\t6\t7%",
        "137",
        "140",
    ));
    assert_eq!(message, "未知格式 ID：999");
    let message = parse_error_message(split_download_line(
        "download:paused\t140\t1\t2\t3\t4\t5\t6\t7%",
        "137",
        "140",
    ));
    assert_eq!(message, "未知状态：paused");
}

#[test]
fn progress_line_is_split_into_its_stream_and_fields() {
    let line = progress_line("download:finished\t 140 \t10\tNA\t20\t1.5KiB/s\t3\t0\t100%");
    assert_eq!(line.format_id, "140");
    assert_eq!(line.media_type, DownloadMediaType::Audio);
    assert_eq!(line.status, DownloadStreamStatus::Finished);
    assert_eq!(line.fields.len(), 9);
    assert_eq!(line.fields[1], " 140 ");
    assert_eq!(line.fields[8], "100%");
}

#[test]
fn integer_fields_follow_i64_parsing() {
    assert_eq!(parse_i64(" 42 ").unwrap(), Some(42));
    assert_eq!(parse_i64("+7").unwrap(), Some(7));
    assert_eq!(parse_i64("-9223372036854775808").unwrap(), Some(i64::MIN));
    assert_eq!(parse_i64("N/A").unwrap(), None);
    assert_eq!(parse_i64("none").unwrap(), None);
    assert_eq!(parse_i64("   ").unwrap(), None);
    assert_eq!(parse_error_message(parse_i64("9223372036854775808")), "无效数值：9223372036854775808");
    assert_eq!(parse_error_message(parse_i64(" 1.5")), "无效数值： 1.5");
    assert_eq!(parse_error_message(parse_i64("-")), "无效数值：-");
}

#[test]
fn unsigned_numbers_follow_u64_parsing() {
    let chars = |s: &str| s.chars().collect::<Vec<char>>();
    assert_eq!(parse_u64_chars(&chars("18446744073709551615")), Some(u64::MAX));
    assert_eq!(parse_u64_chars(&chars("18446744073709551616")), None);
    assert_eq!(parse_u64_chars(&chars("+12")), Some(12));
    assert_eq!(parse_u64_chars(&chars("-1")), None);
    assert_eq!(parse_u64_chars(&chars("")), None);
}

#[test]
fn fields_become_stream_progress() {
    let line = progress_line("download:downloading\t137\t100\t1000\tNA\t0\t0\t0\t10%");
    let progress = progress_from_fields(line, Ok(Some(10)), Ok(Some(2048)), Ok(Some(3)), Ok(Some(9)))
        .expect("fields are valid");
    assert_eq!(progress.stream_key, "137");
    assert_eq!(progress.format_id.as_deref(), Some("137"));
    assert_eq!(progress.media_type, DownloadMediaType::Video);
    assert_eq!(progress.downloaded_bytes, 100);
    assert_eq!(progress.total_bytes, Some(1000));
    assert_eq!(progress.total_bytes_estimate, None);
    assert_eq!(progress.speed_bytes_per_second, Some(2048));
    assert_eq!(progress.elapsed_seconds, Some(3));
    assert_eq!(progress.eta_seconds, Some(9));
    assert_eq!(progress.percent, Some(10));
    assert_eq!(progress.started_at, None);
}

#[test]
fn missing_downloaded_bytes_count_as_zero() {
    let line = progress_line("download:downloading\t137\tNA\tNA\tNA\tNA\tNA\tNA\tNA");
    let progress = progress_from_fields(line, Ok(None), Ok(None), Ok(None), Ok(None)).unwrap();
    assert_eq!(progress.downloaded_bytes, 0);
}

#[test]
fn the_percentage_error_comes_before_integer_errors() {
    let line = progress_line("download:downloading\t137\tx\t1\t1\t1\t1\t1\tbad");
    let result = progress_from_fields(
        line,
        Err(DownloadTaskError::ProgressParse("无效百分比：bad".to_owned())),
        Ok(None),
        Ok(None),
        Ok(None),
    );
    assert_eq!(parse_error_message(result), "无效百分比：bad");
    let line = progress_line("download:downloading\t137\tx\t1\t1\t1\t1\t1\t1%");
    let result = progress_from_fields(
        line,
        Ok(Some(1)),
        Err(DownloadTaskError::ProgressParse("无效速度：?".to_owned())),
        Ok(None),
        Ok(None),
    );
    assert_eq!(parse_error_message(result), "无效数值：x");
}

#[test]
fn templates_match_the_line_reader() {
    assert!(progress_template().starts_with("download:download:%(progress.status)s\t"));
    assert_eq!(progress_template().matches('\t').count(), 8);
    assert_eq!(postprocess_template(), "postprocess:postprocess:%(postprocessor_key)s");
}
