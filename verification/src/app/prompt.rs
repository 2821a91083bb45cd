//! The strong prompt window: what its confirm button does.
use vstd::prelude::*;

verus! {

/// What confirming the prompt does.
#[derive(Debug, Clone, Copy, PartialEq, Eq, Structural)]
pub enum PromptConfirmAction {
    Dismiss,
    Quit,
}

/// Whether a new ordinary prompt may replace the one that is open: not when the
/// open prompt is the one whose confirmation quits the application.
pub fn prompt_replaceable(current: PromptConfirmAction, window_open: bool) -> (r: bool)
    ensures
        r == !(current == PromptConfirmAction::Quit && window_open),
{
    !(current == PromptConfirmAction::Quit && window_open)
}

} // verus!
