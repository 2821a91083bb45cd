//! The choices a dialog offers.
use vstd::prelude::*;

verus! {

/// The kind of a dialog's title; it decides the icon and the accent colour only.
#[derive(Debug, Clone, Copy, PartialEq, Eq, Structural)]
pub enum DialogTitle {
    Error,
    Notice,
}

/// The button the user pressed.
#[derive(Debug, Clone, Copy, PartialEq, Eq, Structural)]
pub enum DialogButton {
    Confirm,
    Cancel,
}

/// The button layouts a dialog offers.
#[derive(Debug, Clone, Copy, PartialEq, Eq, Structural)]
pub enum DialogButtons {
    ConfirmOnly,
    ConfirmAndCancel,
}

impl DialogButtons {
    /// The buttons of a layout, in the order they are shown.
    pub fn buttons(self) -> (r: Vec<DialogButton>)
        ensures
            self == DialogButtons::ConfirmOnly ==> r@ == seq![DialogButton::Confirm],
            self == DialogButtons::ConfirmAndCancel ==> r@ == seq![DialogButton::Confirm, DialogButton::Cancel],
    {
        match self {
            DialogButtons::ConfirmOnly => vec![DialogButton::Confirm],
            DialogButtons::ConfirmAndCancel => vec![DialogButton::Confirm, DialogButton::Cancel],
        }
    }
}

/// What a dialog shows; every text is already translated by the caller.
#[derive(Debug, Clone, Copy, PartialEq, Eq)]
pub struct DialogRequest<'a> {
    pub title: &'a str,
    pub description: &'a str,
    pub confirm_label: &'a str,
    pub cancel_label: &'a str,
    pub title_kind: DialogTitle,
    pub buttons: DialogButtons,
}

/// Shows dialogs in windows of their own.
pub struct DialogService;

} // verus!
