use std::path::PathBuf;
use yt_dlp_gui::app::state::{AppSettings, DownloadRecord, DownloadStatus};
use yt_dlp_gui::app::worker::{
    create_download_events, download_request_for, downloads_after_run_event, downloads_listed_event,
    initialize_storage, pause_notice, search_failed_event, search_outcome, search_result_event,
    settings_loaded_event, settings_saved_event, worker_action, InspectedFormat, InspectedResource, WorkerAction,
    NO_FORMATS, NO_METADATA, PLAYLIST_UNSUPPORTED,
};
use yt_dlp_gui::app::messages::{MessageDialogAction, MessageDialogRequestId, UiCommand};
use yt_dlp_gui::app::ErrorKind;
use yt_dlp_gui::error::{AppError, StorageStage};
use yt_dlp_gui::app::{NoticeKind, WorkerEvent};

fn format(id: &str) -> InspectedFormat {
    InspectedFormat {
        id: id.to_owned(),
        label: format!("{id} label"),
        video_format: "mp4".to_owned(),
        audio_format: "m4a".to_owned(),
        estimated_size: "12 MiB".to_owned(),
    }
}

fn resource(name: &str, formats: Vec<InspectedFormat>) -> InspectedResource {
    InspectedResource { resource_name: name.to_owned(), formats }
}

#[test]
fn inspection_without_resources_is_refused() {
    let outcome = search_outcome(&Vec::new());
    assert_eq!(outcome.err().as_deref(), Some(NO_METADATA));
}

#[test]
fn playlist_inspection_is_refused() {
    let outcome = search_outcome(&vec![resource("a", vec![format("1")]), resource("b", vec![format("2")])]);
    assert_eq!(outcome.err().as_deref(), Some(PLAYLIST_UNSUPPORTED));
}

#[test]
fn resource_without_formats_is_refused() {
    let outcome = search_outcome(&vec![resource("a", Vec::new())]);
    assert_eq!(outcome.err().as_deref(), Some(NO_FORMATS));
}

#[test]
fn single_resource_lists_its_formats_in_order() {
    let outcome = search_outcome(&vec![resource("Clip", vec![format("137"), format("140")])]).unwrap();
    assert_eq!(outcome.resource_name, "Clip");
    assert_eq!(outcome.streams.len(), 2);
    assert_eq!(outcome.streams[0].id, "137");
    assert_eq!(outcome.streams[0].format_selector, "137");
    assert_eq!(outcome.streams[0].label, "137 label");
    assert_eq!(outcome.streams[1].id, "140");
    assert_eq!(outcome.streams[1].estimated_size, "12 MiB");
}

fn record() -> DownloadRecord {
    DownloadRecord {
        id: 5,
        url: "https://example.com/v".to_owned(),
        resource_name: "Clip".to_owned(),
        output_directory: "/downloads".to_owned(),
        output_path: String::new(),
        status: DownloadStatus::Queued,
        format_selector: "137+140".to_owned(),
        video_format: "mp4".to_owned(),
        audio_format: "m4a".to_owned(),
        downloaded_bytes: 0,
        total_bytes: 0,
        started_at: None,
        completed_at: None,
        error_message: String::new(),
    }
}

#[test]
fn stored_download_starts_with_configured_programs() {
    let mut settings = AppSettings::default();
    settings.ffmpeg_path = "/opt/ffmpeg".to_owned();
    settings.proxy = "socks5://127.0.0.1:1080".to_owned();
    let request = download_request_for(record(), &settings, PathBuf::from("/opt/yt-dlp"));
    assert_eq!(request.url, "https://example.com/v");
    assert_eq!(request.output_directory, PathBuf::from("/downloads"));
    assert_eq!(request.yt_dlp_path, Some(PathBuf::from("/opt/yt-dlp")));
    assert_eq!(request.ffmpeg_path, Some(PathBuf::from("/opt/ffmpeg")));
    assert_eq!(request.proxy.as_deref(), Some("socks5://127.0.0.1:1080"));
    assert_eq!(request.format_selector, "137+140");
}

#[test]
fn blank_settings_leave_ffmpeg_and_proxy_unset() {
    let mut settings = AppSettings::default();
    settings.proxy = "   ".to_owned();
    let request = download_request_for(record(), &settings, PathBuf::from("/opt/yt-dlp"));
    assert_eq!(request.ffmpeg_path, None);
    assert_eq!(request.proxy, None);
}

#[test]
fn pause_request_is_answered_with_a_notice_naming_the_task() {
    match pause_notice(-42) {
        WorkerEvent::Notice { kind: NoticeKind::PauseUnsupported, argument } => assert_eq!(argument, "-42"),
        other => panic!("unexpected event {other:?}"),
    }
    match pause_notice(7) {
        WorkerEvent::Notice { argument, .. } => assert_eq!(argument, "7"),
        other => panic!("unexpected event {other:?}"),
    }
}

#[test]
fn storage_initialization_failure_sends_dedicated_event() {
    let (events, mut receiver) = tokio::sync::mpsc::unbounded_channel();
    let database_path = PathBuf::from("C:/restricted/application.sqlite3");
    let expected_detail = AppError::StorageIo {
        stage: StorageStage::OpenDatabase,
        path: Some(database_path.clone()),
        source: std::io::Error::new(std::io::ErrorKind::PermissionDenied, "access denied"),
    }
    .message();

    let storage: Option<()> = initialize_storage(&events, || {
        Err(AppError::StorageIo {
            stage: StorageStage::OpenDatabase,
            path: Some(database_path),
            source: std::io::Error::new(std::io::ErrorKind::PermissionDenied, "access denied"),
        })
    });

    assert!(storage.is_none());
    let event = receiver.try_recv().expect("Expected a storage initialization failure event");
    match event {
        WorkerEvent::StorageInitializationFailed { detail } => {
            assert_eq!(detail, expected_detail);
        }
        other => {
            panic!("Expected a dedicated storage initialization failure event, got {other:?}")
        }
    }
    assert!(matches!(receiver.try_recv(), Err(tokio::sync::mpsc::error::TryRecvError::Empty)));
}

#[test]
fn opened_storage_is_returned_without_an_event() {
    let (events, mut receiver) = tokio::sync::mpsc::unbounded_channel();
    let storage = initialize_storage(&events, || Ok::<u8, AppError>(7));
    assert_eq!(storage, Some(7));
    assert!(receiver.try_recv().is_err());
}

fn not_found(message: &str) -> AppError {
    AppError::NotFound(message.to_owned())
}

#[test]
fn each_command_asks_for_its_own_step() {
    assert!(matches!(worker_action(UiCommand::LoadSettings), WorkerAction::LoadSettings));
    assert!(matches!(worker_action(UiCommand::RefreshDownloads), WorkerAction::RefreshDownloads));
    assert!(matches!(
        worker_action(UiCommand::Search { url: "https://v".to_owned() }),
        WorkerAction::Search { url } if url == "https://v"
    ));
    assert!(matches!(worker_action(UiCommand::StartDownload { id: 4 }), WorkerAction::StartDownload { id: 4 }));
    match worker_action(UiCommand::PauseDownload { id: 12 }) {
        WorkerAction::Notify(WorkerEvent::Notice { kind: NoticeKind::PauseUnsupported, argument }) => {
            assert_eq!(argument, "12")
        }
        _ => panic!("a pause is answered with a notice"),
    }
    assert!(matches!(
        worker_action(UiCommand::MessageDialogResponded {
            request_id: MessageDialogRequestId(1),
            action: MessageDialogAction::Confirm,
        }),
        WorkerAction::Nothing
    ));
    assert!(matches!(worker_action(UiCommand::Shutdown), WorkerAction::Stop));
}

#[test]
fn creating_a_download_reports_in_the_order_of_its_steps() {
    let events = create_download_events(Err(not_found("Required configuration 'yt_dlp_path' is missing")), None, None);
    assert_eq!(events.len(), 1);
    assert!(matches!(&events[0], WorkerEvent::DownloadCreateFailed { detail } if detail == "Required configuration 'yt_dlp_path' is missing"));

    let events = create_download_events(Ok(PathBuf::from("/bin/yt-dlp")), Some(Err(not_found("insert"))), None);
    assert!(matches!(&events[..], [WorkerEvent::DownloadCreateFailed { detail }] if detail == "insert"));

    let events =
        create_download_events(Ok(PathBuf::from("/bin/yt-dlp")), Some(Ok(7)), Some(Ok(vec![record()])));
    assert!(matches!(&events[..], [WorkerEvent::DownloadsLoaded(list), WorkerEvent::DownloadCreated { id: 7 }] if list.len() == 1));

    let events = create_download_events(Ok(PathBuf::from("/bin/yt-dlp")), Some(Ok(7)), Some(Err(not_found("list"))));
    assert!(matches!(
        &events[..],
        [WorkerEvent::DownloadCreated { id: 7 }, WorkerEvent::Error { kind: ErrorKind::General, detail }] if detail == "list"
    ));
}

#[test]
fn storage_answers_become_events() {
    let settings = AppSettings::default();
    assert!(matches!(settings_loaded_event(Ok(settings.clone())), WorkerEvent::SettingsLoaded(s) if s == settings));
    assert!(matches!(settings_loaded_event(Err(not_found("read"))), WorkerEvent::Error { detail, .. } if detail == "read"));
    assert!(matches!(settings_saved_event(settings.clone(), Ok(())), WorkerEvent::SettingsSaved(s) if s == settings));
    assert!(matches!(settings_saved_event(settings, Err(not_found("write"))), WorkerEvent::Error { detail, .. } if detail == "write"));
    assert!(matches!(downloads_listed_event(Ok(vec![record()])), WorkerEvent::DownloadsLoaded(list) if list.len() == 1));
    assert!(matches!(downloads_listed_event(Err(not_found("list"))), WorkerEvent::Error { detail, .. } if detail == "list"));
    assert!(downloads_after_run_event(Err(not_found("list"))).is_none());
    assert!(matches!(search_failed_event(&not_found("path")), WorkerEvent::SearchFailed { detail } if detail == "path"));
    assert!(matches!(search_result_event(&Vec::new()), WorkerEvent::SearchFailed { detail } if detail == NO_METADATA));
    match search_result_event(&vec![resource("Clip", vec![format("18")])]) {
        WorkerEvent::SearchCompleted(result) => {
            assert_eq!(result.resource_name, "Clip");
            assert_eq!(result.streams[0].format_selector, "18");
        }
        _ => panic!("one resource with formats is a result"),
    }
}
