use yt_dlp_gui::download_task::outcome::{final_output_path, recorded_failure};
use yt_dlp_gui::download_task::DownloadTaskError;

#[test]
fn reported_output_path_wins_over_the_printed_one() {
    let path = final_output_path(Some("/a.mp4".to_owned()), Some("/b.mp4".to_owned()));
    assert!(matches!(path, Ok(p) if p == "/a.mp4"));
}

#[test]
fn printed_output_path_is_used_when_none_was_reported() {
    let path = final_output_path(None, Some("/b.mp4".to_owned()));
    assert!(matches!(path, Ok(p) if p == "/b.mp4"));
}

#[test]
fn run_without_any_output_path_fails() {
    assert!(matches!(final_output_path(None, None), Err(DownloadTaskError::OutputPathMissing)));
}

#[test]
fn recorded_failure_is_reported_unchanged() {
    assert!(matches!(recorded_failure(DownloadTaskError::Cancelled, Ok(())), DownloadTaskError::Cancelled));
}

#[test]
fn failure_that_could_not_be_recorded_names_both_errors() {
    let error = recorded_failure(
        DownloadTaskError::OutputPathMissing,
        Err(DownloadTaskError::Storage("磁盘已满".to_owned())),
    );
    match error {
        DownloadTaskError::Storage(message) => assert_eq!(
            message,
            "yt-dlp 下载完成但没有返回最终文件路径。；下载任务持久化失败：磁盘已满"
        ),
        other => panic!("unexpected error {other:?}"),
    }
}
