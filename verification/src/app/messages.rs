//! The messages between the user interface and the background worker.
use crate::app::state::{AppSettings, DownloadRecord, NewDownload, SearchResult};
use crate::paths::{path_from_str, path_text};
use crate::text::{is_blank, string_of, trim};
use std::path::PathBuf;
use vstd::prelude::*;

verus! {

/// Identifies one message dialog request.
#[derive(Debug, Clone, Copy, PartialEq, Eq, Hash, Structural)]
pub struct MessageDialogRequestId(pub u64);

/// A button of a message dialog.
#[derive(Debug, Clone, Copy, PartialEq, Eq, Hash, Structural)]
pub enum MessageDialogAction {
    Confirm,
    Cancel,
    Ignore,
}

/// A message dialog the worker asks the interface to show.
#[derive(Debug, Clone, PartialEq, Eq)]
pub struct MessageDialogRequest {
    pub id: MessageDialogRequestId,
    pub title: String,
    pub message: String,
    pub buttons: Vec<MessageDialogAction>,
}

/// The button the user chose in a message dialog.
#[derive(Debug, Clone, Copy, PartialEq, Eq)]
pub struct MessageDialogResponse {
    pub request_id: MessageDialogRequestId,
    pub action: MessageDialogAction,
}

/// Why a message dialog request is refused.
#[derive(Debug, Clone, Copy, PartialEq, Eq, Structural)]
pub enum MessageDialogRequestError {
    EmptyButtons,
    TooManyButtons,
    DuplicateButton(MessageDialogAction),
}

/// The position of the first button of `s` that an earlier button repeats.
pub open spec fn first_repeat(s: Seq<MessageDialogAction>) -> Option<int>
    decreases s.len(),
{
    if s.len() == 0 {
        None
    } else {
        match first_repeat(s.drop_last()) {
            Some(i) => Some(i),
            None => if s.drop_last().contains(s.last()) {
                Some(s.len() - 1)
            } else {
                None
            },
        }
    }
}

proof fn lemma_first_repeat_prefix(s: Seq<MessageDialogAction>, k: int)
    requires
        0 <= k < s.len(),
        first_repeat(s.take(k)) is None,
    ensures
        s.take(k).contains(s[k]) ==> first_repeat(s) == Some(k),
        !s.take(k).contains(s[k]) ==> first_repeat(s.take(k + 1)) is None,
    decreases s.len(),
{
    assert(s.take(k + 1).drop_last() =~= s.take(k));
    assert(s.take(k + 1).last() == s[k]);
    if k < s.len() - 1 {
        assert(s.drop_last().take(k) =~= s.take(k));
        assert(s.drop_last()[k] == s[k]);
        lemma_first_repeat_prefix(s.drop_last(), k);
        if s.take(k).contains(s[k]) {
            assert(first_repeat(s.drop_last()) == Some(k));
        }
    } else {
        assert(s.drop_last() =~= s.take(k));
    }
}

proof fn lemma_no_repeat_distinct(s: Seq<MessageDialogAction>)
    requires
        first_repeat(s) is None,
    ensures
        forall|i: int, j: int| 0 <= i < j < s.len() ==> s[i] != s[j],
    decreases s.len(),
{
    if s.len() > 0 {
        let p = s.drop_last();
        lemma_no_repeat_distinct(p);
        assert forall|i: int, j: int| 0 <= i < j < s.len() implies s[i] != s[j] by {
            if j == s.len() - 1 {
                if s[i] == s[j] {
                    assert(p[i] == s.last());
                    assert(p.contains(s.last()));
                }
            } else {
                assert(p[i] == s[i] && p[j] == s[j]);
            }
        }
    }
}

proof fn lemma_distinct_no_repeat(s: Seq<MessageDialogAction>)
    requires
        forall|i: int, j: int| 0 <= i < j < s.len() ==> s[i] != s[j],
    ensures
        first_repeat(s) is None,
    decreases s.len(),
{
    if s.len() > 0 {
        let p = s.drop_last();
        assert forall|i: int, j: int| 0 <= i < j < p.len() implies p[i] != p[j] by {
            assert(p[i] == s[i] && p[j] == s[j]);
        }
        lemma_distinct_no_repeat(p);
        if p.contains(s.last()) {
            let i = choose|i: int| 0 <= i < p.len() && p[i] == s.last();
            assert(s[i] == s[s.len() - 1]);
        }
    }
}

/// A dialog request is accepted exactly when it has one to three buttons and no
/// two of its buttons are equal.
pub proof fn law_accepted_requests_have_distinct_buttons(buttons: Seq<MessageDialogAction>)
    ensures
        (1 <= buttons.len() <= 3 && first_repeat(buttons) is None) <==> (1 <= buttons.len() <= 3 && forall|
            i: int,
            j: int,
        | 0 <= i < j < buttons.len() ==> buttons[i] != buttons[j]),
{
    if first_repeat(buttons) is None {
        lemma_no_repeat_distinct(buttons);
    }
    if forall|i: int, j: int| 0 <= i < j < buttons.len() ==> buttons[i] != buttons[j] {
        lemma_distinct_no_repeat(buttons);
    }
}

impl MessageDialogRequest {
    /// A dialog request with one to three distinct buttons. No buttons, more than
    /// three, or a button given twice (the first repeat is named) are refused.
    pub fn new(id: MessageDialogRequestId, title: &str, message: &str, buttons: Vec<MessageDialogAction>) -> (r:
        Result<Self, MessageDialogRequestError>)
        ensures
            buttons@.len() == 0 ==> r == Err::<Self, MessageDialogRequestError>(
                MessageDialogRequestError::EmptyButtons,
            ),
            buttons@.len() > 3 ==> r == Err::<Self, MessageDialogRequestError>(
                MessageDialogRequestError::TooManyButtons,
            ),
            (1 <= buttons@.len() <= 3 && first_repeat(buttons@) is Some) ==> r == Err::<
                Self,
                MessageDialogRequestError,
            >(MessageDialogRequestError::DuplicateButton(buttons@[first_repeat(buttons@)->Some_0])),
            (1 <= buttons@.len() <= 3 && first_repeat(buttons@) is None) ==> (r matches Ok(q) && q.id == id
                && q.title@ == title@ && q.message@ == message@ && q.buttons@ == buttons@),
    {
        if buttons.len() == 0 {
            return Err(MessageDialogRequestError::EmptyButtons);
        }
        if buttons.len() > 3 {
            return Err(MessageDialogRequestError::TooManyButtons);
        }
        let mut index: usize = 0;
        assert(buttons@.take(0) =~= Seq::<MessageDialogAction>::empty());
        while index < buttons.len()
            invariant
                index <= buttons@.len(),
                1 <= buttons@.len() <= 3,
                first_repeat(buttons@.take(index as int)) is None,
            decreases buttons.len() - index,
        {
            let button = buttons[index];
            let mut j: usize = 0;
            while j < index
                invariant
                    j <= index < buttons@.len(),
                    1 <= buttons@.len() <= 3,
                    first_repeat(buttons@.take(index as int)) is None,
                    button == buttons@[index as int],
                    forall|k: int| 0 <= k < j ==> buttons@[k] != button,
                decreases index - j,
            {
                if buttons[j] == button {
                    proof {
                        assert(buttons@.take(index as int)[j as int] == button);
                        lemma_first_repeat_prefix(buttons@, index as int);
                    }
                    return Err(MessageDialogRequestError::DuplicateButton(button));
                }
                j = j + 1;
            }
            proof {
                assert forall|k: int| 0 <= k < index implies buttons@.take(index as int)[k] != button by {}
                lemma_first_repeat_prefix(buttons@, index as int);
            }
            index = index + 1;
        }
        assert(buttons@.take(buttons@.len() as int) =~= buttons@);
        Ok(MessageDialogRequest { id, title: string_of(title), message: string_of(message), buttons })
    }
}

/// A command the interface sends to the worker.
pub enum UiCommand {
    LoadSettings,
    SaveSettings(AppSettings),
    Search { url: String },
    CreateDownload(NewDownload),
    StartDownload { id: i64 },
    RefreshDownloads,
    PauseDownload { id: i64 },
    MessageDialogResponded { request_id: MessageDialogRequestId, action: MessageDialogAction },
    Shutdown,
}

/// The kind of an informational notice.
#[derive(Debug, Clone, Copy)]
pub enum NoticeKind {
    PauseUnsupported,
}

/// The kind of an error report.
#[derive(Debug, Clone, Copy)]
pub enum ErrorKind {
    General,
}

/// An event the worker sends to the interface.
#[derive(Debug)]
pub enum WorkerEvent {
    Ready,
    StorageInitializationFailed { detail: String },
    MessageDialogRequested { request: MessageDialogRequest },
    SettingsLoaded(AppSettings),
    SettingsSaved(AppSettings),
    SearchCompleted(SearchResult),
    SearchFailed { detail: String },
    DownloadCreated { id: i64 },
    DownloadCreateFailed { detail: String },
    DownloadsLoaded(Vec<DownloadRecord>),
    DownloadStarted { id: i64 },
    LogLine { id: i64, line: String },
    DownloadFinished { id: i64 },
    DownloadFailed { id: i64, message: String },
    Notice { kind: NoticeKind, argument: String },
    Error { kind: ErrorKind, detail: String },
}

/// A setting that is blank counts as unset.
pub fn optional_string(value: &str) -> (r: Option<String>)
    ensures
        trim(value@).len() == 0 ==> r is None,
        trim(value@).len() > 0 ==> (r matches Some(s) && s@ == value@),
{
    if is_blank(value) {
        None
    } else {
        Some(string_of(value))
    }
}

/// A path setting that is empty counts as unset.
pub fn optional_path(value: &str) -> (r: Option<PathBuf>)
    ensures
        value@.len() == 0 ==> r is None,
        value@.len() > 0 ==> (r matches Some(p) && path_text(p) == value@),
{
    if value.unicode_len() == 0 {
        None
    } else {
        Some(path_from_str(value))
    }
}

} // verus!
