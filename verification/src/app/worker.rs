//! What the background worker decides between its storage and `yt-dlp` calls:
//! how an inspection answer becomes a search result, which request a stored
//! download starts, which step each command asks for, and what each step's
//! outside answers are reported as.
use crate::app::messages::{
    optional_path, optional_string, ErrorKind, MessageDialogRequest, NoticeKind, UiCommand, WorkerEvent,
};
use crate::app::state::{AppSettings, DownloadRecord, MediaStream, NewDownload, SearchResult};
use crate::diagnostics::{push_signed, signed_decimal};
use crate::download::ytdlp::DownloadRequest;
use crate::error::{is_app_error_message, AppError};
use crate::paths::{path_from_str, path_text};
use crate::text::{string_of, trim};
use std::path::PathBuf;
use tokio::sync::mpsc::UnboundedSender;
use vstd::prelude::*;

verus! {

#[verifier::external_type_specification]
#[verifier::external_body]
#[verifier::reject_recursive_types(T)]
pub struct ExUnboundedSender<T>(UnboundedSender<T>);

/// `UnboundedSender::send`: queues the event for the interface, or hands it back
/// when the receiving side is gone; whether it was queued is returned. Which of
/// the two happens depends on the other side of the channel, so nothing is
/// promised of it. (Tokio aborts the process when about `usize::MAX / 2`
/// messages are queued at once; a worker sends one event per step.)
#[verifier::external_body]
fn send_event(events: &UnboundedSender<WorkerEvent>, event: WorkerEvent) -> bool {
    events.send(event).is_ok()
}

/// Asks the interface to show a message dialog.
pub fn request_message_dialog(events: &UnboundedSender<WorkerEvent>, request: MessageDialogRequest) {
    let _ = send_event(events, dialog_event(request));
}

/// The event that asks for the dialog `request`.
pub fn dialog_event(request: MessageDialogRequest) -> (event: WorkerEvent)
    ensures
        event == (WorkerEvent::MessageDialogRequested { request }),
{
    WorkerEvent::MessageDialogRequested { request }
}

/// The event that reports storage failing to open: its detail is the error's
/// message.
pub fn storage_failure_event(error: &AppError) -> (event: WorkerEvent)
    ensures
        event matches WorkerEvent::StorageInitializationFailed { detail } && is_app_error_message(*error, detail@),
{
    WorkerEvent::StorageInitializationFailed { detail: error.message() }
}

/// Opens storage with `open_storage`. The storage it opens is returned; when it
/// fails, nothing is, and the interface is sent the failure as its own event.
pub fn initialize_storage<S, F: FnOnce() -> Result<S, AppError>>(events: &UnboundedSender<WorkerEvent>, open_storage: F) -> (r: Option<S>)
    requires
        call_requires(open_storage, ()),
    ensures
        exists|opened: Result<S, AppError>|
            call_ensures(open_storage, (), opened) && match opened {
                Ok(storage) => r == Some(storage),
                Err(_) => r is None,
            },
{
    let opened = open_storage();
    match opened {
        Ok(storage) => Some(storage),
        Err(error) => {
            let _ = send_event(events, storage_failure_event(&error));
            None
        },
    }
}

/// The answer when an inspection found nothing.
pub const NO_METADATA: &'static str = "No media metadata was returned by yt-dlp";

/// The answer when an inspection found a playlist.
pub const PLAYLIST_UNSUPPORTED: &'static str = "Playlist inspection is not supported; enter a single media URL";

/// The answer when the one resource has no format to download.
pub const NO_FORMATS: &'static str = "yt-dlp returned no downloadable formats";

/// One downloadable format of an inspected resource.
pub struct InspectedFormat {
    pub id: String,
    pub label: String,
    pub video_format: String,
    pub audio_format: String,
    pub estimated_size: String,
}

/// One resource an inspection of a URL found, with its formats.
pub struct InspectedResource {
    pub resource_name: String,
    pub formats: Vec<InspectedFormat>,
}

/// `stream` offers `format`: the same texts, selected by the format's id.
pub open spec fn offers(stream: MediaStream, format: InspectedFormat) -> bool {
    &&& stream.id@ == format.id@
    &&& stream.label@ == format.label@
    &&& stream.format_selector@ == format.id@
    &&& stream.video_format@ == format.video_format@
    &&& stream.audio_format@ == format.audio_format@
    &&& stream.estimated_size@ == format.estimated_size@
}

/// The stream that offers one format.
fn stream_for(format: &InspectedFormat) -> (stream: MediaStream)
    ensures
        offers(stream, *format),
{
    MediaStream {
        id: string_of(format.id.as_str()),
        label: string_of(format.label.as_str()),
        format_selector: string_of(format.id.as_str()),
        video_format: string_of(format.video_format.as_str()),
        audio_format: string_of(format.audio_format.as_str()),
        estimated_size: string_of(format.estimated_size.as_str()),
    }
}

/// The search result for what an inspection found. Only a single resource with
/// at least one format is a result: its name, and one stream per format in the
/// same order, each selected by the format's id. No resource, several resources
/// (a playlist) and a resource without formats are each refused with their own
/// message.
pub fn search_outcome(resources: &Vec<InspectedResource>) -> (r: Result<SearchResult, String>)
    ensures
        resources.len() == 0 ==> (r matches Err(detail) && detail@ == NO_METADATA@),
        resources.len() > 1 ==> (r matches Err(detail) && detail@ == PLAYLIST_UNSUPPORTED@),
        resources.len() == 1 && resources[0].formats.len() == 0 ==> (r matches Err(detail) && detail@
            == NO_FORMATS@),
        resources.len() == 1 && resources[0].formats.len() > 0 ==> (r matches Ok(result) && {
            &&& result.resource_name@ == resources[0].resource_name@
            &&& result.streams.len() == resources[0].formats.len()
            &&& forall|i: int|
                0 <= i < result.streams.len() ==> offers(#[trigger] result.streams[i], resources[0].formats[i])
        }),
{
    if resources.len() == 0 {
        return Err(string_of(NO_METADATA));
    }
    if resources.len() > 1 {
        return Err(string_of(PLAYLIST_UNSUPPORTED));
    }
    let resource = &resources[0];
    if resource.formats.len() == 0 {
        return Err(string_of(NO_FORMATS));
    }
    let mut streams: Vec<MediaStream> = Vec::new();
    let mut index: usize = 0;
    while index < resource.formats.len()
        invariant
            index <= resource.formats.len(),
            streams.len() == index,
            forall|i: int| 0 <= i < index ==> offers(#[trigger] streams[i], resource.formats[i]),
        decreases resource.formats.len() - index,
    {
        let stream = stream_for(&resource.formats[index]);
        streams.push(stream);
        index = index + 1;
    }
    Ok(SearchResult { resource_name: string_of(resource.resource_name.as_str()), streams })
}

/// The request that starts a stored download: its URL, directory and format
/// selector, the configured `yt-dlp`, and the ffmpeg path and proxy of the
/// settings where they are set (an empty ffmpeg path or a blank proxy is unset).
pub fn download_request_for(record: DownloadRecord, settings: &AppSettings, yt_dlp_path: PathBuf) -> (r:
    DownloadRequest)
    ensures
        r.url@ == record.url@,
        path_text(r.output_directory) == record.output_directory@,
        r.yt_dlp_path == Some(yt_dlp_path),
        settings.ffmpeg_path@.len() == 0 ==> r.ffmpeg_path is None,
        settings.ffmpeg_path@.len() > 0 ==> (r.ffmpeg_path matches Some(p) && path_text(p)
            == settings.ffmpeg_path@),
        trim(settings.proxy@).len() == 0 ==> r.proxy is None,
        trim(settings.proxy@).len() > 0 ==> (r.proxy matches Some(p) && p@ == settings.proxy@),
        r.format_selector@ == record.format_selector@,
{
    let output_directory = path_from_str(record.output_directory.as_str());
    DownloadRequest {
        url: record.url,
        output_directory,
        yt_dlp_path: Some(yt_dlp_path),
        ffmpeg_path: optional_path(settings.ffmpeg_path.as_str()),
        proxy: optional_string(settings.proxy.as_str()),
        format_selector: record.format_selector,
    }
}

/// The answer to a pause request: pausing is not supported, and the notice names
/// the download by its id in decimal.
pub fn pause_notice(id: i64) -> (event: WorkerEvent)
    ensures
        event matches WorkerEvent::Notice { kind, argument } && kind == NoticeKind::PauseUnsupported
            && argument@ == signed_decimal(id as int),
{
    let mut argument = String::new();
    push_signed(&mut argument, id);
    assert(argument@ =~= signed_decimal(id as int));
    WorkerEvent::Notice { kind: NoticeKind::PauseUnsupported, argument }
}

/// What the worker does for a command of the interface: the storage and
/// `yt-dlp` work it names is the caller's; a pause is answered at once with a
/// notice, a dialog answer needs nothing, and shutting down stops the worker.
pub enum WorkerAction {
    LoadSettings,
    SaveSettings(AppSettings),
    Search { url: String },
    CreateDownload(NewDownload),
    StartDownload { id: i64 },
    RefreshDownloads,
    Notify(WorkerEvent),
    Nothing,
    Stop,
}

/// The worker's step for a command.
pub fn worker_action(command: UiCommand) -> (a: WorkerAction)
    ensures
        command is LoadSettings ==> a is LoadSettings,
        command matches UiCommand::SaveSettings(s) ==> a == WorkerAction::SaveSettings(s),
        command matches UiCommand::Search { url } ==> a == (WorkerAction::Search { url }),
        command matches UiCommand::CreateDownload(d) ==> a == WorkerAction::CreateDownload(d),
        command matches UiCommand::StartDownload { id } ==> a == (WorkerAction::StartDownload { id }),
        command is RefreshDownloads ==> a is RefreshDownloads,
        command matches UiCommand::PauseDownload { id } ==> (a matches WorkerAction::Notify(
            WorkerEvent::Notice { kind, argument },
        ) && kind == NoticeKind::PauseUnsupported && argument@ == signed_decimal(id as int)),
        command is MessageDialogResponded ==> a is Nothing,
        command is Shutdown ==> a is Stop,
{
    match command {
        UiCommand::LoadSettings => WorkerAction::LoadSettings,
        UiCommand::SaveSettings(settings) => WorkerAction::SaveSettings(settings),
        UiCommand::Search { url } => WorkerAction::Search { url },
        UiCommand::CreateDownload(download) => WorkerAction::CreateDownload(download),
        UiCommand::StartDownload { id } => WorkerAction::StartDownload { id },
        UiCommand::RefreshDownloads => WorkerAction::RefreshDownloads,
        UiCommand::PauseDownload { id } => WorkerAction::Notify(pause_notice(id)),
        UiCommand::MessageDialogResponded { .. } => WorkerAction::Nothing,
        UiCommand::Shutdown => WorkerAction::Stop,
    }
}

/// The general error report of a failure: its detail is the error's message.
pub fn error_event(error: &AppError) -> (event: WorkerEvent)
    ensures
        event matches WorkerEvent::Error { kind, detail } && kind == ErrorKind::General && is_app_error_message(
            *error,
            detail@,
        ),
{
    WorkerEvent::Error { kind: ErrorKind::General, detail: error.message() }
}

/// What loading the settings reports: the settings, or the error.
pub fn settings_loaded_event(loaded: Result<AppSettings, AppError>) -> (event: WorkerEvent)
    ensures
        match loaded {
            Ok(s) => event == WorkerEvent::SettingsLoaded(s),
            Err(e) => event matches WorkerEvent::Error { kind, detail } && kind == ErrorKind::General
                && is_app_error_message(e, detail@),
        },
{
    match loaded {
        Ok(settings) => WorkerEvent::SettingsLoaded(settings),
        Err(error) => error_event(&error),
    }
}

/// What saving the settings reports: the settings saved, or the error.
pub fn settings_saved_event(settings: AppSettings, saved: Result<(), AppError>) -> (event: WorkerEvent)
    ensures
        match saved {
            Ok(()) => event == WorkerEvent::SettingsSaved(settings),
            Err(e) => event matches WorkerEvent::Error { kind, detail } && kind == ErrorKind::General
                && is_app_error_message(e, detail@),
        },
{
    match saved {
        Ok(()) => WorkerEvent::SettingsSaved(settings),
        Err(error) => error_event(&error),
    }
}

/// What a refresh of the download list reports: the downloads, or the error.
pub fn downloads_listed_event(listed: Result<Vec<DownloadRecord>, AppError>) -> (event: WorkerEvent)
    ensures
        match listed {
            Ok(d) => event == WorkerEvent::DownloadsLoaded(d),
            Err(e) => event matches WorkerEvent::Error { kind, detail } && kind == ErrorKind::General
                && is_app_error_message(e, detail@),
        },
{
    match listed {
        Ok(downloads) => WorkerEvent::DownloadsLoaded(downloads),
        Err(error) => error_event(&error),
    }
}

/// What the list read after a download ran reports: the downloads; a failed
/// read reports nothing.
pub fn downloads_after_run_event(listed: Result<Vec<DownloadRecord>, AppError>) -> (event: Option<WorkerEvent>)
    ensures
        match listed {
            Ok(d) => event == Some(WorkerEvent::DownloadsLoaded(d)),
            Err(_) => event is None,
        },
{
    match listed {
        Ok(downloads) => Some(WorkerEvent::DownloadsLoaded(downloads)),
        Err(_) => None,
    }
}

/// A search that failed before `yt-dlp` answered: its detail is the error's
/// message.
pub fn search_failed_event(error: &AppError) -> (event: WorkerEvent)
    ensures
        event matches WorkerEvent::SearchFailed { detail } && is_app_error_message(*error, detail@),
{
    WorkerEvent::SearchFailed { detail: error.message() }
}

/// What an inspection's answer reports (see [`search_outcome`]): the search
/// result, or why there is none.
pub fn search_result_event(resources: &Vec<InspectedResource>) -> (event: WorkerEvent)
    ensures
        resources.len() == 0 ==> (event matches WorkerEvent::SearchFailed { detail } && detail@ == NO_METADATA@),
        resources.len() > 1 ==> (event matches WorkerEvent::SearchFailed { detail } && detail@
            == PLAYLIST_UNSUPPORTED@),
        resources.len() == 1 && resources[0].formats.len() == 0 ==> (event matches WorkerEvent::SearchFailed {
            detail,
        } && detail@ == NO_FORMATS@),
        resources.len() == 1 && resources[0].formats.len() > 0 ==> (event matches WorkerEvent::SearchCompleted(
            result,
        ) && {
            &&& result.resource_name@ == resources[0].resource_name@
            &&& result.streams.len() == resources[0].formats.len()
            &&& forall|i: int|
                0 <= i < result.streams.len() ==> offers(#[trigger] result.streams[i], resources[0].formats[i])
        }),
{
    match search_outcome(resources) {
        Ok(result) => WorkerEvent::SearchCompleted(result),
        Err(detail) => WorkerEvent::SearchFailed { detail },
    }
}

/// What creating a download reports, from the outside answers in the order
/// they come: the `yt-dlp` path required first, then the new row's id, then the
/// download list read after it. A missing path or a failed insert is a failed
/// creation; after an insert the list comes first and then the new id, or, when
/// the list cannot be read, the new id and then the error.
pub fn create_download_events(
    path: Result<PathBuf, AppError>,
    created: Option<Result<i64, AppError>>,
    listed: Option<Result<Vec<DownloadRecord>, AppError>>,
) -> (events: Vec<WorkerEvent>)
    requires
        path is Ok ==> created is Some,
        path is Ok ==> (created matches Some(Ok(_)) ==> listed is Some),
    ensures
        match path {
            Err(e) => events@.len() == 1 && (events@[0] matches WorkerEvent::DownloadCreateFailed { detail }
                && is_app_error_message(e, detail@)),
            Ok(_) => match created {
                Some(Err(e)) => events@.len() == 1 && (events@[0] matches WorkerEvent::DownloadCreateFailed {
                    detail,
                } && is_app_error_message(e, detail@)),
                Some(Ok(id)) => match listed {
                    Some(Ok(d)) => events@ == seq![
                        WorkerEvent::DownloadsLoaded(d),
                        WorkerEvent::DownloadCreated { id },
                    ],
                    Some(Err(e)) => events@.len() == 2 && events@[0] == (WorkerEvent::DownloadCreated { id }) && (
                    events@[1] matches WorkerEvent::Error { kind, detail } && kind == ErrorKind::General
                        && is_app_error_message(e, detail@)),
                    None => true,
                },
                None => true,
            },
        },
{
    let mut events: Vec<WorkerEvent> = Vec::new();
    match path {
        Err(error) => {
            events.push(WorkerEvent::DownloadCreateFailed { detail: error.message() });
        },
        Ok(_) => match created {
            Some(Err(error)) => {
                events.push(WorkerEvent::DownloadCreateFailed { detail: error.message() });
            },
            Some(Ok(id)) => match listed {
                Some(Ok(downloads)) => {
                    events.push(WorkerEvent::DownloadsLoaded(downloads));
                    events.push(WorkerEvent::DownloadCreated { id });
                },
                Some(Err(error)) => {
                    events.push(WorkerEvent::DownloadCreated { id });
                    events.push(error_event(&error));
                },
                None => {},
            },
            None => {},
        },
    }
    events
}

} // verus!
