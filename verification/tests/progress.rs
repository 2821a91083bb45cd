use yt_dlp_gui::download_task::progress::aggregate_within_range;
use yt_dlp_gui::download_task::model::{
    empty_progress, DownloadMediaType, DownloadStage, DownloadStreamStatus, StreamProgress,
};
use yt_dlp_gui::download_task::progress::{
    aggregate_progress, completed_progress, percent_basis, progress_from_stored, record_stream_progress,
    stage_progress, stored_stream_progress, stored_task_progress, update_stream_timestamps,
};
use yt_dlp_gui::storage::download::{
    DownloadStreamMediaType, DownloadTask, DownloadTaskStatus, DownloadTaskStream, DownloadTaskWithStreams,
};

fn stream(key: &str, status: DownloadStreamStatus, downloaded: i64, total: Option<i64>, estimate: Option<i64>, speed: Option<i64>) -> StreamProgress {
    StreamProgress {
        stream_key: key.to_owned(),
        format_id: Some(key.to_owned()),
        media_type: DownloadMediaType::Video,
        status,
        downloaded_bytes: downloaded,
        total_bytes: total,
        total_bytes_estimate: estimate,
        speed_bytes_per_second: speed,
        elapsed_seconds: None,
        eta_seconds: None,
        percent: None,
        started_at: None,
        finished_at: None,
    }
}

#[test]
fn known_totals_are_summed_exactly() {
    let mut video = stream("137", DownloadStreamStatus::Downloading, 300, Some(1000), None, Some(100));
    video.elapsed_seconds = Some(4);
    let mut audio = stream("140", DownloadStreamStatus::Downloading, 200, Some(500), None, Some(50));
    audio.elapsed_seconds = Some(7);
    let progress = aggregate_progress(9, &[video, audio], 1234);
    assert_eq!(progress.task_id, 9);
    assert_eq!(progress.stage, DownloadStage::Downloading);
    assert_eq!(progress.downloaded_bytes, 500);
    assert_eq!(progress.total_bytes, Some(1500));
    assert_eq!(progress.total_bytes_estimate, None);
    assert!(!progress.total_is_estimate);
    assert_eq!(progress.speed_bytes_per_second, Some(150));
    assert_eq!(progress.elapsed_seconds, Some(7));
    assert_eq!(progress.eta_seconds, Some(6));
    assert_eq!(progress.active_stream.as_deref(), Some("137"));
    assert_eq!(progress.updated_at, 1234);
    assert_eq!(percent_basis(&progress), Some((500, 1500)));
}

#[test]
fn a_missing_total_falls_back_to_estimates() {
    let video = stream("137", DownloadStreamStatus::Finished, 1000, Some(1000), None, Some(999));
    let audio = stream("140", DownloadStreamStatus::Downloading, 100, None, Some(400), None);
    let progress = aggregate_progress(1, &[video, audio], 0);
    assert_eq!(progress.total_bytes, None);
    assert_eq!(progress.total_bytes_estimate, Some(1400));
    assert!(progress.total_is_estimate);
    assert_eq!(progress.speed_bytes_per_second, None);
    assert_eq!(progress.eta_seconds, None);
    assert_eq!(progress.active_stream.as_deref(), Some("140"));
}

#[test]
fn without_any_size_there_is_no_total() {
    let video = stream("137", DownloadStreamStatus::Downloading, 10, None, None, Some(0));
    let progress = aggregate_progress(1, &[video], 0);
    assert_eq!(progress.total_bytes, None);
    assert_eq!(progress.total_bytes_estimate, None);
    assert!(!progress.total_is_estimate);
    assert_eq!(progress.speed_bytes_per_second, Some(0));
    assert_eq!(progress.eta_seconds, None);
    assert_eq!(percent_basis(&progress), None);
}

#[test]
fn no_streams_aggregate_to_nothing() {
    let progress = aggregate_progress(3, &[], 5);
    assert_eq!(progress.downloaded_bytes, 0);
    assert_eq!(progress.total_bytes, Some(0));
    assert_eq!(progress.active_stream, None);
    assert_eq!(percent_basis(&progress), None);
}

#[test]
fn updates_keep_the_first_start_time_and_stamp_the_finish() {
    let mut seen = stream("137", DownloadStreamStatus::Downloading, 1, None, None, None);
    seen.started_at = Some(100);
    let mut update = stream("137", DownloadStreamStatus::Finished, 5, None, None, None);
    update_stream_timestamps(&[seen], &mut update, 200);
    assert_eq!(update.started_at, Some(100));
    assert_eq!(update.finished_at, Some(200));
    let mut fresh = stream("140", DownloadStreamStatus::Downloading, 5, None, None, None);
    update_stream_timestamps(&[], &mut fresh, 300);
    assert_eq!(fresh.started_at, Some(300));
    assert_eq!(fresh.finished_at, None);
}

#[test]
fn recording_replaces_a_known_stream_and_appends_a_new_one() {
    let mut streams = Vec::new();
    let first = record_stream_progress(&mut streams, stream("137", DownloadStreamStatus::Downloading, 1, None, None, None), 10);
    assert_eq!(first, 0);
    let second = record_stream_progress(&mut streams, stream("140", DownloadStreamStatus::Downloading, 2, None, None, None), 11);
    assert_eq!(second, 1);
    let again = record_stream_progress(&mut streams, stream("137", DownloadStreamStatus::Finished, 9, None, None, None), 12);
    assert_eq!(again, 0);
    assert_eq!(streams.len(), 2);
    assert_eq!(streams[0].downloaded_bytes, 9);
    assert_eq!(streams[0].started_at, Some(10));
    assert_eq!(streams[0].finished_at, Some(12));
    assert_eq!(streams[1].stream_key, "140");
}

#[test]
fn stored_progress_copies_the_snapshot() {
    let mut progress = empty_progress(4, DownloadStage::Downloading, 77);
    progress.percent = Some(50);
    progress.downloaded_bytes = 10;
    let stored = stored_task_progress(&progress);
    assert_eq!(stored.progress_percent, Some(50));
    assert_eq!(stored.downloaded_bytes, 10);
    assert_eq!(stored.updated_at, 77);
    let one = stream("137", DownloadStreamStatus::Downloading, 3, Some(9), None, Some(1));
    let stored = stored_stream_progress(&one, 88);
    assert_eq!(stored.downloaded_bytes, 3);
    assert_eq!(stored.total_bytes, Some(9));
    assert_eq!(stored.speed_bytes_per_second, Some(1));
    assert_eq!(stored.updated_at, 88);
}

#[test]
fn stage_progress_keeps_the_last_snapshot() {
    let mut latest = empty_progress(4, DownloadStage::Downloading, 1);
    latest.downloaded_bytes = 42;
    latest.active_stream = Some("137".to_owned());
    let merging = stage_progress(Some(latest.clone()), 4, DownloadStage::Merging, 2);
    assert_eq!(merging.stage, DownloadStage::Merging);
    assert_eq!(merging.downloaded_bytes, 42);
    assert_eq!(merging.active_stream, None);
    assert_eq!(merging.updated_at, 2);
    let done = completed_progress(Some(latest), 4, 3);
    assert_eq!(done.stage, DownloadStage::Completed);
    assert_eq!(done.percent, Some(100));
    let fresh = stage_progress(None, 8, DownloadStage::Preparing, 5);
    assert_eq!(fresh.task_id, 8);
    assert_eq!(fresh.downloaded_bytes, 0);
}

fn task(id: i64) -> DownloadTask {
    DownloadTask {
        id,
        source_url: "https://example.com/v".to_owned(),
        video_id: None,
        title: None,
        thumbnail_url: None,
        duration_seconds: None,
        target_path: "/downloads".to_owned(),
        output_path: None,
        selected_format: None,
        status: DownloadTaskStatus::Paused,
        progress_percent: Some(30),
        downloaded_bytes: 300,
        total_bytes: None,
        total_bytes_estimate: Some(1000),
        speed_bytes_per_second: Some(5),
        elapsed_seconds: Some(5),
        eta_seconds: Some(5),
        created_at: 1,
        started_at: Some(2),
        finished_at: None,
        updated_at: 3,
        yt_dlp_version: None,
        error_code: None,
        error_message: None,
    }
}

fn stored_stream(key: &str, media_type: DownloadStreamMediaType, status: DownloadTaskStatus) -> DownloadTaskStream {
    DownloadTaskStream {
        id: 1,
        task_id: 1,
        stream_key: key.to_owned(),
        format_id: Some(key.to_owned()),
        media_type,
        extension: None,
        width: None,
        height: None,
        video_codec: None,
        audio_codec: None,
        status,
        progress_percent: Some(10),
        downloaded_bytes: 100,
        total_bytes: Some(1000),
        total_bytes_estimate: None,
        speed_bytes_per_second: Some(9),
        elapsed_seconds: Some(9),
        eta_seconds: Some(9),
        created_at: 1,
        started_at: Some(2),
        finished_at: None,
        updated_at: 3,
    }
}

#[test]
fn resumed_progress_starts_from_what_storage_kept() {
    let stored = DownloadTaskWithStreams {
        task: task(6),
        streams: vec![
            stored_stream("137", DownloadStreamMediaType::Video, DownloadTaskStatus::Paused),
            stored_stream("140", DownloadStreamMediaType::Audio, DownloadTaskStatus::Completed),
        ],
    };
    let (progress, streams) = progress_from_stored(stored, DownloadStage::Preparing);
    assert_eq!(progress.task_id, 6);
    assert_eq!(progress.stage, DownloadStage::Preparing);
    assert_eq!(progress.downloaded_bytes, 300);
    assert!(progress.total_is_estimate);
    assert_eq!(progress.speed_bytes_per_second, None);
    assert_eq!(progress.percent, Some(30));
    assert_eq!(streams.len(), 2);
    assert_eq!(streams[0].stream_key, "137");
    assert_eq!(streams[0].media_type, DownloadMediaType::Video);
    assert_eq!(streams[0].status, DownloadStreamStatus::Downloading);
    assert_eq!(streams[0].speed_bytes_per_second, None);
    assert_eq!(streams[1].media_type, DownloadMediaType::Audio);
    assert_eq!(streams[1].status, DownloadStreamStatus::Finished);
}

#[test]
fn overflowing_sums_are_out_of_range() {
    let small = vec![
        stream("a", DownloadStreamStatus::Downloading, 10, Some(100), None, Some(5)),
        stream("b", DownloadStreamStatus::Downloading, 20, Some(100), None, Some(5)),
    ];
    assert!(aggregate_within_range(&small));
    let huge = vec![
        stream("a", DownloadStreamStatus::Downloading, i64::MAX, None, None, None),
        stream("b", DownloadStreamStatus::Downloading, 1, None, None, None),
    ];
    assert!(!aggregate_within_range(&huge));
    let wide = vec![
        stream("a", DownloadStreamStatus::Downloading, -10, Some(i64::MAX), None, Some(1)),
    ];
    assert!(!aggregate_within_range(&wide));
}
