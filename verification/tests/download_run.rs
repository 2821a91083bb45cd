use yt_dlp_gui::design_system::theme::{theme_from_apps_use_light_theme, EffectiveTheme};
use yt_dlp_gui::download_task::model::{DownloadMediaType, DownloadStage, DownloadStreamStatus, StreamProgress};
use yt_dlp_gui::download_task::run::{DownloadOutput, DownloadRun, RunEnd, RunStep};
use yt_dlp_gui::download_task::DownloadTaskError;

fn update(key: &str, status: DownloadStreamStatus, downloaded: i64, total: i64) -> StreamProgress {
    StreamProgress {
        stream_key: key.to_owned(),
        format_id: Some(key.to_owned()),
        media_type: DownloadMediaType::Video,
        status,
        downloaded_bytes: downloaded,
        total_bytes: Some(total),
        total_bytes_estimate: None,
        speed_bytes_per_second: Some(10),
        elapsed_seconds: Some(3),
        eta_seconds: None,
        percent: None,
        started_at: None,
        finished_at: None,
    }
}

#[test]
fn a_started_run_reports_empty_downloading_progress() {
    let run = DownloadRun::start(4, 100);
    let latest = run.latest.clone().unwrap();
    assert_eq!(latest.task_id, 4);
    assert_eq!(latest.stage, DownloadStage::Downloading);
    assert_eq!(latest.downloaded_bytes, 0);
    assert_eq!(latest.updated_at, 100);
    assert!(run.streams.is_empty());
}

#[test]
fn stream_updates_are_stamped_recorded_and_summed() {
    let mut run = DownloadRun::start(4, 100);
    let first = run.on_output(DownloadOutput::Progress(update("137", DownloadStreamStatus::Downloading, 10, 100)), 101);
    match first {
        RunStep::Progress { stream, task, force_write } => {
            assert_eq!(stream.started_at, Some(101));
            assert_eq!(task.downloaded_bytes, 10);
            assert_eq!(task.total_bytes, Some(100));
            assert_eq!(task.active_stream.as_deref(), Some("137"));
            assert!(!force_write);
        }
        _ => panic!("expected a progress step"),
    }
    let second = run.on_output(DownloadOutput::Progress(update("137", DownloadStreamStatus::Finished, 100, 100)), 105);
    match second {
        RunStep::Progress { stream, task, force_write } => {
            assert_eq!(stream.started_at, Some(101));
            assert_eq!(stream.finished_at, Some(105));
            assert_eq!(task.downloaded_bytes, 100);
            assert_eq!(task.speed_bytes_per_second, None);
            assert!(force_write);
        }
        _ => panic!("expected a progress step"),
    }
    assert_eq!(run.streams.len(), 1);
}

#[test]
fn merging_moves_the_last_progress_once() {
    let mut run = DownloadRun::start(4, 100);
    assert!(matches!(run.on_output(DownloadOutput::Merging, 110), RunStep::Merging));
    let merged = run.on_merging_recorded(true, 111).unwrap();
    assert_eq!(merged.stage, DownloadStage::Merging);
    assert_eq!(merged.updated_at, 111);
    assert!(run.on_merging_recorded(false, 112).is_none());
    assert_eq!(run.latest.unwrap().updated_at, 111);
}

#[test]
fn run_ends_with_the_reported_or_printed_path() {
    let mut run = DownloadRun::start(4, 100);
    assert!(matches!(run.on_output(DownloadOutput::OutputPath("/b.mp4".to_owned()), 101), RunStep::Quiet));
    match run.on_end(Ok(None), 120) {
        RunEnd::Complete { output_path, progress } => {
            assert_eq!(output_path, "/b.mp4");
            assert_eq!(progress.stage, DownloadStage::Completed);
            assert_eq!(progress.percent, Some(100));
            assert_eq!(progress.updated_at, 120);
        }
        _ => panic!("expected completion"),
    }
    match run.on_end(Ok(Some("/a.mp4".to_owned())), 120) {
        RunEnd::Complete { output_path, .. } => assert_eq!(output_path, "/a.mp4"),
        _ => panic!("expected completion"),
    }
}

#[test]
fn run_without_path_fails_and_cancellation_cancels() {
    let run = DownloadRun::start(4, 100);
    assert!(matches!(run.on_end(Ok(None), 120), RunEnd::Fail(DownloadTaskError::OutputPathMissing)));
    assert!(matches!(run.on_end(Err(DownloadTaskError::Cancelled), 120), RunEnd::Cancel));
    assert!(matches!(run.on_end(Err(DownloadTaskError::Poisoned), 120), RunEnd::Fail(DownloadTaskError::Poisoned)));
}

#[test]
fn personalization_value_zero_asks_for_dark() {
    assert_eq!(theme_from_apps_use_light_theme(Some(0)), Some(EffectiveTheme::Dark));
    assert_eq!(theme_from_apps_use_light_theme(Some(1)), Some(EffectiveTheme::Light));
    assert_eq!(theme_from_apps_use_light_theme(None), None);
}

#[test]
fn progress_that_would_overflow_is_out_of_range() {
    let mut run = DownloadRun::start(4, 100);
    let first = DownloadOutput::Progress(update("137", DownloadStreamStatus::Downloading, i64::MAX, i64::MAX));
    assert!(run.output_in_range(&first, 101));
    let _ = run.on_output(first, 101);
    let second = DownloadOutput::Progress(update("140", DownloadStreamStatus::Downloading, 1, 1));
    assert!(!run.output_in_range(&second, 102));
    assert!(run.output_in_range(&DownloadOutput::Merging, 102));
}
