//! The modal-interaction primitives: what each prompt asks the UI to
//! display, and how the user's answer flows back.
//!
//! A prompt runs through three phases per invocation — idle, waiting for
//! the user, resolved — and only an answer of the right shape can resolve
//! it. Displaying the modal and collecting the answer is the UI layer's
//! work; this module decides what to display and what the answer means.

use vstd::prelude::*;

verus! {

/// The visual flavour of a modal dialog.
#[derive(Debug, Clone, Copy, PartialEq, Eq, Structural)]
pub enum DialogKind {
    Info,
    Warning,
}

/// The buttons a modal dialog offers.
#[derive(Debug, Clone, Copy, PartialEq, Eq, Structural)]
pub enum DialogButtons {
    OkOnly,
    YesNo,
}

/// Everything the UI needs to display one modal dialog.
#[derive(Debug, Clone, PartialEq)]
pub struct DialogRequest {
    pub title: String,
    pub message: String,
    pub kind: DialogKind,
    pub buttons: DialogButtons,
}

/// One prompt the bridge can put to the user.
#[derive(Debug, Clone, PartialEq)]
pub enum Prompt {
    /// Tell the user something; resolves on acknowledgement.
    Inform { message: String },
    /// Ask the user yes or no.
    Confirm { message: String },
    /// Let the user pick an existing file to open.
    PickOpen,
    /// Let the user pick a destination, pre-filled with a suggested name.
    PickSave { default_name: String },
}

/// The user's answer. A cancelled picker is an absent selection, not a
/// failure.
#[derive(Debug, Clone, PartialEq)]
pub enum DialogResponse {
    Acknowledged,
    Decision(bool),
    Selection(Option<String>),
}

/// The answer has the shape the prompt calls for.
pub open spec fn response_matches_spec(p: Prompt, r: DialogResponse) -> bool {
    match p {
        Prompt::Inform { .. } => r is Acknowledged,
        Prompt::Confirm { .. } => r is Decision,
        Prompt::PickOpen => r is Selection,
        Prompt::PickSave { .. } => r is Selection,
    }
}

/// Where one prompt invocation stands.
#[derive(Debug, Clone, Copy, PartialEq, Eq, Structural)]
pub enum PromptPhase {
    Idle,
    WaitingForUser,
    Resolved,
}

/// What the host UI is asked to display for a prompt.
#[derive(Debug, Clone, PartialEq)]
pub enum UiAction {
    /// Show a modal dialog.
    Modal(DialogRequest),
    /// Open a file chooser for an existing file.
    ChooseOpen { title: String },
    /// Open a save-file chooser with a suggested file name.
    ChooseSave { title: String, default_name: String },
}

/// One invocation of a prompt, from idle to resolved.
pub struct PromptSession {
    pub prompt: Prompt,
    pub phase: PromptPhase,
    pub response: Option<DialogResponse>,
}

impl PromptSession {
    /// A fresh, idle invocation of the given prompt.
    pub fn new(prompt: Prompt) -> (s: PromptSession)
        ensures
            s.prompt == prompt,
            s.phase is Idle,
            s.response is None,
    {
        PromptSession { prompt, phase: PromptPhase::Idle, response: None }
    }

    /// The modal goes up: from idle to waiting. Only the invoking task
    /// waits; there is no timeout and no cancellation from the caller's
    /// side.
    pub fn wait(&mut self)
        requires
            old(self).phase is Idle,
        ensures
            final(self).prompt == old(self).prompt,
            final(self).phase is WaitingForUser,
            final(self).response is None,
    {
        self.phase = PromptPhase::WaitingForUser;
        self.response = None;
    }

    /// The user dismisses the modal with an answer of the right shape:
    /// from waiting to resolved.
    pub fn resolve(&mut self, response: DialogResponse)
        requires
            old(self).phase is WaitingForUser,
            response_matches_spec(old(self).prompt, response),
        ensures
            final(self).prompt == old(self).prompt,
            final(self).phase is Resolved,
            final(self).response == Some(response),
    {
        self.phase = PromptPhase::Resolved;
        self.response = Some(response);
    }

    /// Whether the user confirmed, for a resolved confirmation prompt.
    pub fn decision(&self) -> (r: bool)
        requires
            self.phase is Resolved,
            self.response matches Some(DialogResponse::Decision(_)),
        ensures
            self.response == Some(DialogResponse::Decision(r)),
    {
        match &self.response {
            Some(DialogResponse::Decision(b)) => *b,
            _ => false,
        }
    }

    /// The chosen path, for a resolved picker prompt; `None` means the
    /// user cancelled.
    pub fn selection(&self) -> (r: Option<String>)
        requires
            self.phase is Resolved,
            self.response matches Some(DialogResponse::Selection(_)),
        ensures
            match r {
                Some(s) => self.response matches Some(DialogResponse::Selection(t))
                    && t matches Some(u) && u@ == s@,
                None => self.response == Some(DialogResponse::Selection(None)),
            },
    {
        match &self.response {
            Some(DialogResponse::Selection(Some(s))) => Some(s.clone()),
            _ => None,
        }
    }
}

/// What the UI must display for the prompt: informational messages as an
/// Info modal with a lone Ok button, confirmations as a Warning modal
/// with Yes and No, and the two pickers as file choosers with their
/// fixed titles. Every modal carries the application's title.
pub fn ui_action(p: &Prompt) -> (r: UiAction)
    ensures
        match p {
            Prompt::Inform { message } => r matches UiAction::Modal(d) && d.title@ == "KiTS POS"@
                && d.message@ == message@ && d.kind is Info && d.buttons is OkOnly,
            Prompt::Confirm { message } => r matches UiAction::Modal(d) && d.title@
                == "KiTS POS"@ && d.message@ == message@ && d.kind is Warning && d.buttons
                is YesNo,
            Prompt::PickOpen => r matches UiAction::ChooseOpen { title } && title@
                == "Select File"@,
            Prompt::PickSave { default_name } => r matches UiAction::ChooseSave {
                title,
                default_name: dn,
            } && title@ == "Save File"@ && dn@ == default_name@,
        },
{
    match p {
        Prompt::Inform { message } => UiAction::Modal(
            DialogRequest {
                title: String::from_str("KiTS POS"),
                message: message.clone(),
                kind: DialogKind::Info,
                buttons: DialogButtons::OkOnly,
            },
        ),
        Prompt::Confirm { message } => UiAction::Modal(
            DialogRequest {
                title: String::from_str("KiTS POS"),
                message: message.clone(),
                kind: DialogKind::Warning,
                buttons: DialogButtons::YesNo,
            },
        ),
        Prompt::PickOpen => UiAction::ChooseOpen { title: String::from_str("Select File") },
        Prompt::PickSave { default_name } => UiAction::ChooseSave {
            title: String::from_str("Save File"),
            default_name: default_name.clone(),
        },
    }
}

/// The informational prompt behind the `show_message` command.
pub fn show_message(message: String) -> (p: Prompt)
    ensures
        p == (Prompt::Inform { message }),
{
    Prompt::Inform { message }
}

/// The confirmation prompt behind the `confirm_action` command.
pub fn confirm_action(message: String) -> (p: Prompt)
    ensures
        p == (Prompt::Confirm { message }),
{
    Prompt::Confirm { message }
}

/// The open-file prompt behind the `select_file` command.
pub fn select_file() -> (p: Prompt)
    ensures
        p == Prompt::PickOpen,
{
    Prompt::PickOpen
}

/// The save-file prompt behind the `save_file_dialog` command.
pub fn save_file_dialog(default_name: String) -> (p: Prompt)
    ensures
        p == (Prompt::PickSave { default_name }),
{
    Prompt::PickSave { default_name }
}

} // verus!
