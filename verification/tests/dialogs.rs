use yt_dlp_gui::app::dialog::{DialogButton, DialogButtons};
use yt_dlp_gui::app::dialog_queue::MessageDialogQueue;
use yt_dlp_gui::app::prompt::{prompt_replaceable, PromptConfirmAction};
use yt_dlp_gui::app::worker::request_message_dialog;
use yt_dlp_gui::app::{
    MessageDialogAction, MessageDialogRequest, MessageDialogRequestError, MessageDialogRequestId, WorkerEvent,
};

#[test]
fn message_dialog_request_rejects_empty_buttons() {
    let result = MessageDialogRequest::new(MessageDialogRequestId(1), "Title", "Message", Vec::new());
    assert_eq!(result, Err(MessageDialogRequestError::EmptyButtons));
}

#[test]
fn message_dialog_request_rejects_duplicate_buttons() {
    let result = MessageDialogRequest::new(
        MessageDialogRequestId(1),
        "Title",
        "Message",
        vec![MessageDialogAction::Confirm, MessageDialogAction::Confirm],
    );
    assert_eq!(
        result,
        Err(MessageDialogRequestError::DuplicateButton(MessageDialogAction::Confirm))
    );
}

#[test]
fn message_dialog_request_preserves_title_and_buttons() {
    let (events, mut receiver) = tokio::sync::mpsc::unbounded_channel();
    let request = MessageDialogRequest::new(
        MessageDialogRequestId(7),
        "Download complete",
        "The file was saved to the selected directory",
        vec![MessageDialogAction::Cancel, MessageDialogAction::Confirm],
    )
    .expect("Expected a valid message dialog request");
    request_message_dialog(&events, request);

    match receiver.try_recv().expect("Expected a message dialog request") {
        WorkerEvent::MessageDialogRequested { request } => {
            assert_eq!(request.id, MessageDialogRequestId(7));
            assert_eq!(request.title, "Download complete");
            assert_eq!(request.message, "The file was saved to the selected directory");
            assert_eq!(
                request.buttons,
                vec![MessageDialogAction::Cancel, MessageDialogAction::Confirm]
            );
        }
        other => panic!("Expected a message dialog request, got {other:?}"),
    }
}

#[test]
fn message_dialog_request_rejects_more_than_three_buttons() {
    let result = MessageDialogRequest::new(
        MessageDialogRequestId(2),
        "Title",
        "Message",
        vec![
            MessageDialogAction::Confirm,
            MessageDialogAction::Cancel,
            MessageDialogAction::Ignore,
            MessageDialogAction::Confirm,
        ],
    );
    assert_eq!(result, Err(MessageDialogRequestError::TooManyButtons));
}

#[test]
fn message_dialog_request_names_the_first_repeated_button() {
    let result = MessageDialogRequest::new(
        MessageDialogRequestId(3),
        "Title",
        "Message",
        vec![MessageDialogAction::Cancel, MessageDialogAction::Ignore, MessageDialogAction::Ignore],
    );
    assert_eq!(
        result,
        Err(MessageDialogRequestError::DuplicateButton(MessageDialogAction::Ignore))
    );
}

#[test]
fn prompt_confirm_actions_are_distinct() {
    assert_ne!(PromptConfirmAction::Dismiss, PromptConfirmAction::Quit);
}

#[test]
fn quit_prompt_is_not_replaced_while_open() {
    assert!(!prompt_replaceable(PromptConfirmAction::Quit, true));
    assert!(prompt_replaceable(PromptConfirmAction::Quit, false));
    assert!(prompt_replaceable(PromptConfirmAction::Dismiss, true));
}

#[test]
fn dialog_button_layouts_list_their_buttons_in_order() {
    assert_eq!(DialogButtons::ConfirmOnly.buttons(), vec![DialogButton::Confirm]);
    assert_eq!(
        DialogButtons::ConfirmAndCancel.buttons(),
        vec![DialogButton::Confirm, DialogButton::Cancel]
    );
}

fn request(id: u64, buttons: Vec<MessageDialogAction>) -> MessageDialogRequest {
    MessageDialogRequest::new(MessageDialogRequestId(id), "Title", "Message", buttons).unwrap()
}

#[test]
fn dialog_requests_are_answered_in_the_order_they_came() {
    let mut queue = MessageDialogQueue::new();
    let first = queue.enqueue(request(1, vec![MessageDialogAction::Cancel, MessageDialogAction::Confirm]));
    assert_eq!(first.map(|r| r.id), Some(MessageDialogRequestId(1)));
    assert!(queue.enqueue(request(2, vec![MessageDialogAction::Ignore])).is_none());
    assert!(queue.is_showing());

    assert!(queue.respond(2).is_none());
    assert!(queue.respond(-1).is_none());

    let (response, next) = queue.respond(1).unwrap();
    assert_eq!(response.request_id, MessageDialogRequestId(1));
    assert_eq!(response.action, MessageDialogAction::Confirm);
    assert_eq!(next.map(|r| r.id), Some(MessageDialogRequestId(2)));

    let (response, next) = queue.respond(0).unwrap();
    assert_eq!(response.request_id, MessageDialogRequestId(2));
    assert_eq!(response.action, MessageDialogAction::Ignore);
    assert!(next.is_none());
    assert!(!queue.is_showing());
    assert!(queue.respond(0).is_none());
}

#[test]
fn clearing_the_dialog_drops_waiting_requests() {
    let mut queue = MessageDialogQueue::new();
    let _ = queue.enqueue(request(1, vec![MessageDialogAction::Confirm]));
    let _ = queue.enqueue(request(2, vec![MessageDialogAction::Confirm]));
    queue.clear();
    assert!(!queue.is_showing());
    let shown = queue.enqueue(request(3, vec![MessageDialogAction::Confirm]));
    assert_eq!(shown.map(|r| r.id), Some(MessageDialogRequestId(3)));
}

#[test]
fn the_next_dialog_shown_keeps_its_title_and_message() {
    let mut queue = MessageDialogQueue::new();
    let _ = queue.enqueue(request(1, vec![MessageDialogAction::Confirm]));
    let waiting = MessageDialogRequest::new(
        MessageDialogRequestId(2),
        "Second title",
        "Second message",
        vec![MessageDialogAction::Ignore, MessageDialogAction::Cancel],
    )
    .unwrap();
    assert!(queue.enqueue(waiting).is_none());
    let (_, next) = queue.respond(0).unwrap();
    let next = next.unwrap();
    assert_eq!(next.title, "Second title");
    assert_eq!(next.message, "Second message");
    assert_eq!(next.buttons, vec![MessageDialogAction::Ignore, MessageDialogAction::Cancel]);
}

#[test]
fn a_request_is_accepted_exactly_when_its_buttons_differ() {
    let make = |buttons: Vec<MessageDialogAction>| {
        MessageDialogRequest::new(MessageDialogRequestId(9), "T", "M", buttons)
    };
    assert!(make(vec![MessageDialogAction::Confirm, MessageDialogAction::Cancel, MessageDialogAction::Ignore]).is_ok());
    assert!(make(vec![MessageDialogAction::Confirm, MessageDialogAction::Cancel, MessageDialogAction::Confirm]).is_err());
    assert!(make(vec![MessageDialogAction::Cancel, MessageDialogAction::Cancel]).is_err());
    assert!(make(vec![MessageDialogAction::Ignore]).is_ok());
}
