use std::cmp::Ordering;
use yt_dlp_gui::app::task_format::{format_duration, format_eta, format_progress, format_timestamp};
use yt_dlp_gui::app::task_order::{TaskSortColumn, TaskSortDirection};
use yt_dlp_gui::app::tasks::{
    compare_lexicographic, compare_optional, has_active_tasks, sorted_task_indices, status_rank, task_title,
};
use yt_dlp_gui::app::redownload::redownload_formats;
use yt_dlp_gui::storage::download::{DownloadStreamMediaType, DownloadTask, DownloadTaskStatus, DownloadTaskStream};

fn task(id: i64, title: Option<&str>, status: DownloadTaskStatus, downloaded: i64) -> DownloadTask {
    DownloadTask {
        id,
        source_url: format!("https://example.com/{id}"),
        video_id: None,
        title: title.map(str::to_owned),
        thumbnail_url: None,
        duration_seconds: None,
        target_path: "/d".to_owned(),
        output_path: None,
        selected_format: None,
        status,
        progress_percent: None,
        downloaded_bytes: downloaded,
        total_bytes: None,
        total_bytes_estimate: None,
        speed_bytes_per_second: None,
        elapsed_seconds: None,
        eta_seconds: None,
        created_at: 0,
        started_at: None,
        finished_at: None,
        updated_at: id,
        yt_dlp_version: None,
        error_code: None,
        error_message: None,
    }
}

#[test]
fn cells_are_formatted() {
    assert_eq!(format_progress(Some(42)), "42%");
    assert_eq!(format_progress(None), "");
    assert_eq!(format_duration(59), "0:59");
    assert_eq!(format_duration(3725), "1:02:05");
    assert_eq!(format_duration(-1), "");
    assert_eq!(format_eta(Some(61)), "1:01");
    assert_eq!(format_eta(None), "");
    assert_eq!(format_timestamp(0), "1970-01-01 00:00:00");
    assert_eq!(format_timestamp(951_782_400), "2000-02-29 00:00:00");
    assert_eq!(format_timestamp(1_700_000_000), "2023-11-14 22:13:20");
    assert_eq!(format_timestamp(-5), "");
}

#[test]
fn titles_fall_back_to_the_source() {
    assert_eq!(task_title(&task(1, Some("Song"), DownloadTaskStatus::Pending, 0)), "Song");
    assert_eq!(task_title(&task(2, Some("  "), DownloadTaskStatus::Pending, 0)), "https://example.com/2");
    assert_eq!(task_title(&task(3, None, DownloadTaskStatus::Pending, 0)), "https://example.com/3");
}

#[test]
fn comparisons_order_present_values_first() {
    assert_eq!(compare_lexicographic("abc", "abd"), Ordering::Less);
    assert_eq!(compare_lexicographic("b", "abc"), Ordering::Greater);
    assert_eq!(compare_lexicographic("ab", "ab"), Ordering::Equal);
    assert_eq!(compare_optional(Some(1), None, TaskSortDirection::Descending), Ordering::Less);
    assert_eq!(compare_optional(Some(1), Some(2), TaskSortDirection::Descending), Ordering::Greater);
    assert_eq!(compare_optional(None, None, TaskSortDirection::Ascending), Ordering::Equal);
    assert_eq!(status_rank(DownloadTaskStatus::Paused), 3);
}

#[test]
fn rows_sort_by_column_and_reset_keeps_load_order() {
    let tasks = vec![
        task(1, Some("b"), DownloadTaskStatus::Failed, 30),
        task(2, Some("a"), DownloadTaskStatus::Pending, 10),
        task(3, Some("c"), DownloadTaskStatus::Downloading, 20),
    ];
    assert_eq!(sorted_task_indices(&tasks, None, TaskSortDirection::Ascending), vec![0, 1, 2]);
    assert_eq!(
        sorted_task_indices(&tasks, Some(TaskSortColumn::Title), TaskSortDirection::Reset),
        vec![0, 1, 2]
    );
    assert_eq!(
        sorted_task_indices(&tasks, Some(TaskSortColumn::Title), TaskSortDirection::Ascending),
        vec![1, 0, 2]
    );
    assert_eq!(
        sorted_task_indices(&tasks, Some(TaskSortColumn::Size), TaskSortDirection::Descending),
        vec![0, 2, 1]
    );
    assert_eq!(
        sorted_task_indices(&tasks, Some(TaskSortColumn::Status), TaskSortDirection::Ascending),
        vec![1, 2, 0]
    );
    for index in 0..8 {
        assert_eq!(TaskSortColumn::from_index(index).map(TaskSortColumn::index), Some(index));
    }
}

#[test]
fn active_tasks_are_detected() {
    let done = vec![task(1, None, DownloadTaskStatus::Completed, 0), task(2, None, DownloadTaskStatus::Paused, 0)];
    assert!(!has_active_tasks(&done));
    let running = vec![task(1, None, DownloadTaskStatus::Completed, 0), task(2, None, DownloadTaskStatus::Merging, 0)];
    assert!(has_active_tasks(&running));
}

#[test]
fn redownload_formats_follow_the_first_streams_of_each_kind() {
    let stream = |key: &str, media_type: DownloadStreamMediaType, width: Option<i64>| DownloadTaskStream {
        id: 1,
        task_id: 1,
        stream_key: key.to_owned(),
        format_id: Some(key.to_owned()),
        media_type,
        extension: Some("mp4".to_owned()),
        width,
        height: Some(-1),
        video_codec: Some("avc1".to_owned()),
        audio_codec: None,
        status: DownloadTaskStatus::Completed,
        progress_percent: None,
        downloaded_bytes: 0,
        total_bytes: None,
        total_bytes_estimate: None,
        speed_bytes_per_second: None,
        elapsed_seconds: None,
        eta_seconds: None,
        created_at: 0,
        started_at: None,
        finished_at: None,
        updated_at: 0,
    };
    let streams = vec![
        stream("140", DownloadStreamMediaType::Audio, None),
        stream("137", DownloadStreamMediaType::Video, Some(1920)),
    ];
    let (video, audio) = redownload_formats(&streams, "137", "140").unwrap();
    assert_eq!(video.format_id.as_deref(), Some("137"));
    assert_eq!(video.width, Some(1920));
    assert_eq!(video.height, None);
    assert_eq!(audio.format_id.as_deref(), Some("140"));
    assert!(redownload_formats(&streams[..1], "137", "140").is_none());
}

#[test]
fn rows_without_a_speed_stay_last_and_ties_go_by_id_then_position() {
    let mut tasks = vec![
        task(5, Some("a"), DownloadTaskStatus::Downloading, 0),
        task(2, Some("b"), DownloadTaskStatus::Downloading, 0),
        task(2, Some("c"), DownloadTaskStatus::Downloading, 0),
        task(1, Some("d"), DownloadTaskStatus::Downloading, 0),
    ];
    tasks[0].speed_bytes_per_second = Some(100);
    tasks[1].speed_bytes_per_second = None;
    tasks[2].speed_bytes_per_second = Some(100);
    tasks[3].speed_bytes_per_second = Some(300);
    assert_eq!(
        sorted_task_indices(&tasks, Some(TaskSortColumn::Speed), TaskSortDirection::Ascending),
        vec![2, 0, 3, 1]
    );
    assert_eq!(
        sorted_task_indices(&tasks, Some(TaskSortColumn::Speed), TaskSortDirection::Descending),
        vec![3, 2, 0, 1]
    );
    assert_eq!(
        sorted_task_indices(&tasks, Some(TaskSortColumn::Size), TaskSortDirection::Ascending),
        vec![3, 1, 2, 0]
    );
}
