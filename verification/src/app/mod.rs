//! Application state, navigation, validation and the task and search tables.
pub mod configure;
pub mod contracts;
pub mod dialog;
pub mod dialog_queue;
pub mod messages;
pub mod navigation;
pub mod prompt;
pub mod redownload;
pub mod search;
pub mod search_order;
pub mod settings_validation;
pub mod state;
pub mod task_command;
pub mod task_format;
pub mod task_order;
pub mod tasks;
pub mod worker;

pub use messages::{
    optional_path, optional_string, ErrorKind, MessageDialogAction, MessageDialogRequest, MessageDialogRequestError,
    MessageDialogRequestId, MessageDialogResponse, NoticeKind, UiCommand, WorkerEvent,
};
