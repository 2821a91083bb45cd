use yt_dlp_gui::download_task::model::DownloadMediaType;
use yt_dlp_gui::download_task::persistence::{
    check_selected_formats, optional_u64_to_i64, progress_write_due, selected_format, stream_activation,
    stream_completion, stream_draft, validate_selected_stream, FormatFacts,
};
use yt_dlp_gui::download_task::recovery::{check_resumable_streams, ensure_paused, resume_selection, selection_from_snapshot};
use yt_dlp_gui::download_task::session::{
    begin_finishing, begin_merging, finish, pause_before_wait, request_stop, Phase, SessionRegistry, SessionState,
    StopReason,
};
use yt_dlp_gui::download_task::DownloadTaskError;
use yt_dlp_gui::storage::download::{
    DownloadExecutionOptions, DownloadExecutionSnapshot, DownloadStreamMediaType, DownloadTaskStatus,
    DownloadTaskStream,
};

fn format(id: &str, video: Option<&str>, audio: Option<&str>) -> FormatFacts {
    FormatFacts {
        format_id: Some(id.to_owned()),
        extension: Some("mp4".to_owned()),
        width: Some(1920),
        height: Some(1080),
        video_codec: video.map(str::to_owned),
        audio_codec: audio.map(str::to_owned),
    }
}

fn request_message<T: std::fmt::Debug>(result: Result<T, DownloadTaskError>) -> String {
    match result {
        Err(DownloadTaskError::InvalidDownloadRequest(message)) => message,
        other => panic!("expected an invalid request, got {other:?}"),
    }
}

fn storage_message<T: std::fmt::Debug>(result: Result<T, DownloadTaskError>) -> String {
    match result {
        Err(DownloadTaskError::Storage(message)) => message,
        other => panic!("expected a storage error, got {other:?}"),
    }
}

#[test]
fn streams_are_brought_to_downloading_step_by_step() {
    assert_eq!(
        stream_activation(Some(DownloadTaskStatus::Pending), "137").unwrap(),
        vec![DownloadTaskStatus::Preparing, DownloadTaskStatus::Downloading]
    );
    assert_eq!(
        stream_activation(Some(DownloadTaskStatus::Preparing), "137").unwrap(),
        vec![DownloadTaskStatus::Downloading]
    );
    assert!(stream_activation(Some(DownloadTaskStatus::Downloading), "137").unwrap().is_empty());
    assert_eq!(
        storage_message(stream_activation(Some(DownloadTaskStatus::Failed), "137")),
        "下载流已处于终态：137"
    );
    assert_eq!(
        storage_message(stream_activation(Some(DownloadTaskStatus::Merging), "137")),
        "下载流状态无效：137"
    );
    assert_eq!(storage_message(stream_activation(None, "9")), "未找到下载流映射：9");
}

#[test]
fn finished_streams_are_completed_once() {
    assert!(stream_completion(Some(DownloadTaskStatus::Downloading), "137").unwrap());
    assert!(!stream_completion(Some(DownloadTaskStatus::Completed), "137").unwrap());
    assert_eq!(
        storage_message(stream_completion(Some(DownloadTaskStatus::Paused), "137")),
        "下载流无法完成，当前状态为 Paused：137"
    );
}

#[test]
fn progress_writes_are_spaced_unless_forced() {
    assert!(progress_write_due(false, None));
    assert!(!progress_write_due(false, Some(749)));
    assert!(progress_write_due(false, Some(750)));
    assert!(progress_write_due(true, Some(1)));
}

#[test]
fn selected_formats_must_be_separate_video_and_audio() {
    let formats = vec![
        format("137", Some("avc1"), Some("none")),
        format("140", None, Some("mp4a")),
        format("22", Some("avc1"), Some("mp4a")),
    ];
    assert_eq!(check_selected_formats(&formats, "137", "140").unwrap(), (0, 1));
    assert_eq!(
        request_message(check_selected_formats(&formats, "1", "140")),
        "未找到所选视频格式：1"
    );
    assert_eq!(
        request_message(check_selected_formats(&formats, "137", "2")),
        "未找到所选音频格式：2"
    );
    assert_eq!(
        request_message(check_selected_formats(&formats, "22", "140")),
        "所选视频格式必须是独立视频流"
    );
    assert_eq!(
        request_message(check_selected_formats(&formats, "140", "140")),
        "所选视频格式不包含视频流"
    );
    assert_eq!(
        request_message(validate_selected_stream(&formats[0], DownloadMediaType::Audio)),
        "所选音频格式不包含音频流"
    );
    assert_eq!(selected_format(&formats, "22", "视频").unwrap(), 2);
}

#[test]
fn identical_selected_formats_are_refused() {
    let formats = vec![FormatFacts {
        format_id: Some("18".to_owned()),
        extension: None,
        width: None,
        height: None,
        video_codec: Some("avc1".to_owned()),
        audio_codec: None,
    }];
    let mut audio = formats[0].clone();
    audio.video_codec = None;
    audio.audio_codec = Some("opus".to_owned());
    assert_eq!(
        request_message(check_selected_formats(&[formats[0].clone(), audio], "18", "18")),
        "所选音频格式不包含音频流"
    );
}

#[test]
fn stream_records_carry_the_format() {
    let draft = stream_draft(&format("137", Some("avc1"), None), DownloadMediaType::Video, 5).unwrap();
    assert_eq!(draft.stream_key, "137");
    assert_eq!(draft.format_id.as_deref(), Some("137"));
    assert_eq!(draft.media_type, DownloadStreamMediaType::Video);
    assert_eq!(draft.width, Some(1920));
    assert_eq!(draft.created_at, 5);
    let mut huge = format("1", Some("avc1"), None);
    huge.width = Some(u64::MAX);
    assert_eq!(request_message(stream_draft(&huge, DownloadMediaType::Video, 0)), "视频宽度超出支持范围");
    let mut nameless = format("1", Some("avc1"), None);
    nameless.format_id = None;
    assert_eq!(request_message(stream_draft(&nameless, DownloadMediaType::Video, 0)), "所选格式缺少格式 ID");
    assert_eq!(optional_u64_to_i64(Some(7), "x").unwrap(), Some(7));
    assert_eq!(request_message(optional_u64_to_i64(Some(1 << 63), "高度")), "高度超出支持范围");
}

fn snapshot() -> DownloadExecutionSnapshot {
    DownloadExecutionSnapshot {
        source_url: "https://example.com/v".to_owned(),
        video_format_id: "137".to_owned(),
        audio_format_id: "140".to_owned(),
        output_template: "%(title)s.%(ext)s".to_owned(),
        target_directory: "/d".to_owned(),
        temporary_directory: "/d/tmp".to_owned(),
        merge_output_format: "mkv".to_owned(),
        options: DownloadExecutionOptions::default(),
    }
}

fn stream(key: &str, media_type: DownloadStreamMediaType, status: DownloadTaskStatus) -> DownloadTaskStream {
    DownloadTaskStream {
        id: 1,
        task_id: 1,
        stream_key: key.to_owned(),
        format_id: Some(key.to_owned()),
        media_type,
        extension: None,
        width: None,
        height: None,
        video_codec: None,
        audio_codec: None,
        status,
        progress_percent: None,
        downloaded_bytes: 0,
        total_bytes: None,
        total_bytes_estimate: None,
        speed_bytes_per_second: None,
        elapsed_seconds: None,
        eta_seconds: None,
        created_at: 0,
        started_at: None,
        finished_at: None,
        updated_at: 0,
    }
}

#[test]
fn only_paused_tasks_with_matching_streams_resume() {
    assert!(ensure_paused(DownloadTaskStatus::Paused).is_ok());
    assert_eq!(request_message(ensure_paused(DownloadTaskStatus::Failed)), "只有暂停任务可以继续");
    let good = vec![
        stream("137", DownloadStreamMediaType::Video, DownloadTaskStatus::Paused),
        stream("140", DownloadStreamMediaType::Audio, DownloadTaskStatus::Completed),
    ];
    assert!(check_resumable_streams(&good, &snapshot()).is_ok());
    let swapped = vec![
        stream("140", DownloadStreamMediaType::Video, DownloadTaskStatus::Paused),
        stream("137", DownloadStreamMediaType::Audio, DownloadTaskStatus::Paused),
    ];
    assert_eq!(
        request_message(check_resumable_streams(&swapped, &snapshot())),
        "恢复任务的下载流状态无效"
    );
    assert!(check_resumable_streams(&good[..1], &snapshot()).is_err());
    let selection = selection_from_snapshot(snapshot());
    assert_eq!(selection.selected_video_format_id, "137");
    assert_eq!(selection.temporary_directory, "/d/tmp");
    assert_eq!(selection.merge_output_format, "mkv");
}

#[test]
fn stop_requests_are_accepted_only_while_downloading() {
    let state = SessionState::new();
    let paused = request_stop(state, StopReason::Pause).unwrap();
    assert_eq!(paused.stop, Some(StopReason::Pause));
    assert!(request_stop(paused, StopReason::Pause).is_ok());
    assert_eq!(
        request_message(request_stop(paused, StopReason::Cancel)),
        "任务正在执行其他停止操作"
    );
    assert!(matches!(begin_merging(paused), Err(DownloadTaskError::Cancelled)));
    let merging = begin_merging(state).unwrap();
    assert_eq!(merging.phase, Phase::Merging);
    assert_eq!(
        request_message(request_stop(merging, StopReason::Cancel)),
        "任务已进入合并或结束阶段"
    );
    let cancelled = request_stop(state, StopReason::Cancel).unwrap();
    assert!(cancelled.is_cancelled());
    let (finishing, stop) = begin_finishing(cancelled);
    assert_eq!(finishing.phase, Phase::Finishing);
    assert_eq!(stop, Some(StopReason::Cancel));
    assert!(finish(finishing).finished);
}

#[test]
fn a_task_holds_one_running_session_at_a_time() {
    let mut sessions = SessionRegistry::new();
    assert!(sessions.find(7).is_none());
    assert!(sessions.reserve(7).is_ok());
    assert!(sessions.reserve(8).is_ok());
    assert_eq!(request_message(sessions.reserve(7)), "任务仍有运行中的会话");
    assert_eq!(sessions.find(7), Some(SessionState::new()));
    sessions.finish(7);
    assert!(sessions.find(7).is_none());
    assert!(sessions.find(8).is_some());
    assert!(sessions.reserve(7).is_ok());
    sessions.finish(9);
    assert!(sessions.find(8).is_some());
}

#[test]
fn waiting_for_a_pause_is_refused_inside_the_download_callbacks() {
    let state = SessionState::new();
    assert_eq!(
        request_message(pause_before_wait(state, true)),
        "不能在下载回调内同步等待暂停，请使用 request_pause"
    );
    let paused = pause_before_wait(state, false).unwrap();
    assert_eq!(paused.stop, Some(StopReason::Pause));
    let cancelled = request_stop(state, StopReason::Cancel).unwrap();
    assert_eq!(request_message(pause_before_wait(cancelled, false)), "任务正在执行其他停止操作");
}

#[test]
fn resuming_needs_the_snapshot_matching_streams_and_a_valid_request() {
    let good = vec![
        stream("137", DownloadStreamMediaType::Video, DownloadTaskStatus::Paused),
        stream("140", DownloadStreamMediaType::Audio, DownloadTaskStatus::Completed),
    ];
    match resume_selection(&good, None) {
        Err(DownloadTaskError::Storage(m)) => assert_eq!(m, "任务缺少执行快照，无法精确继续"),
        other => panic!("unexpected {other:?}"),
    }
    assert_eq!(
        request_message(resume_selection(&good[..1], Some(snapshot()))),
        "恢复任务的下载流状态无效"
    );
    let mut webm = snapshot();
    webm.merge_output_format = "webm".to_owned();
    assert_eq!(request_message(resume_selection(&good, Some(webm))), "合并容器只能是 mp4 或 mkv");
    let selection = resume_selection(&good, Some(snapshot())).unwrap();
    assert_eq!(selection.source_url, "https://example.com/v");
    assert_eq!(selection.selected_audio_format_id, "140");
    assert_eq!(selection.target_directory, "/d");
}
