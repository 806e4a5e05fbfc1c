//! What passes between the window's logic and the shell around it: the
//! commands the shell carries out, and the answers it brings back.

use crate::text::same_text;
use vstd::prelude::*;

verus! {

/// What the user was about to do when asked whether unsaved changes may go.
#[derive(Debug, Clone, Copy, PartialEq, Eq, Structural)]
pub enum PendingAction {
    /// Start an empty document.
    NewFile,
    /// Pick a file and open it.
    OpenFile,
}

/// One thing the shell is asked to do. Commands are carried out in the order
/// in which they are handed over, each to its end before the next one starts.
#[derive(Debug, Clone, PartialEq, Eq)]
pub enum Command {
    /// Show or hide the editor pane.
    ShowEditor(bool),
    /// Show or hide the preview pane.
    ShowPreview(bool),
    /// Press or release the "Write" button.
    SetWriteActive(bool),
    /// Press or release the "Preview" button.
    SetPreviewActive(bool),
    /// Press or release the split-view button.
    SetSplitActive(bool),
    /// Once the window is idle, move the divider to `split_position` of the
    /// split view's width.
    CenterDivider,
    /// Show the page that `render_preview` makes of the buffer's text.
    RefreshPreview,
    /// Give the window this title.
    SetTitle(String),
    /// Replace the text of the buffer.
    ReplaceText(String),
    /// Put this text in the place of the selection, or at the cursor.
    InsertText(String),
    /// Read the clipboard as plain text; answer with `clipboard_read`.
    ReadClipboard,
    /// Find out whether a file is at this path; answer with `file_checked`.
    CheckFile(String),
    /// Read the file at this path; answer with `file_read`.
    ReadFile(String),
    /// Write the buffer's text to this path; answer with `file_written`.
    WriteFile(String),
    /// Let the user pick a file to open; answer with `open_dialog_closed`.
    ChooseFileToOpen,
    /// Let the user pick where to save, starting in this directory; answer
    /// with `save_dialog_closed`.
    ChooseSaveTarget(String),
    /// Ask whether to save, discard or keep the changes before the pending
    /// action; answer with `discard_response`.
    ConfirmDiscard(PendingAction),
    /// Ask whether to save or discard the changes before the window closes;
    /// answer with `close_response`.
    ConfirmClose,
    /// Close the window, which brings a `close_request`.
    CloseWindow,
    /// Show the "about" dialog.
    ShowAbout,
    /// Print this line to the error stream.
    LogError(String),
    /// Call `end_update`: the buttons are in their new places.
    EndUpdate,
    /// Call `clear_modified`: the buffer holds what the document holds.
    ClearModified,
}

/// A command as contracts see it, with text in the place of strings.
pub enum CommandView {
    ShowEditor(bool),
    ShowPreview(bool),
    SetWriteActive(bool),
    SetPreviewActive(bool),
    SetSplitActive(bool),
    CenterDivider,
    RefreshPreview,
    SetTitle(Seq<char>),
    ReplaceText(Seq<char>),
    InsertText(Seq<char>),
    ReadClipboard,
    CheckFile(Seq<char>),
    ReadFile(Seq<char>),
    WriteFile(Seq<char>),
    ChooseFileToOpen,
    ChooseSaveTarget(Seq<char>),
    ConfirmDiscard(PendingAction),
    ConfirmClose,
    CloseWindow,
    ShowAbout,
    LogError(Seq<char>),
    EndUpdate,
    ClearModified,
}

impl View for Command {
    type V = CommandView;

    open spec fn view(&self) -> CommandView {
        match *self {
            Command::ShowEditor(visible) => CommandView::ShowEditor(visible),
            Command::ShowPreview(visible) => CommandView::ShowPreview(visible),
            Command::SetWriteActive(active) => CommandView::SetWriteActive(active),
            Command::SetPreviewActive(active) => CommandView::SetPreviewActive(active),
            Command::SetSplitActive(active) => CommandView::SetSplitActive(active),
            Command::CenterDivider => CommandView::CenterDivider,
            Command::RefreshPreview => CommandView::RefreshPreview,
            Command::SetTitle(title) => CommandView::SetTitle(title@),
            Command::ReplaceText(text) => CommandView::ReplaceText(text@),
            Command::InsertText(text) => CommandView::InsertText(text@),
            Command::ReadClipboard => CommandView::ReadClipboard,
            Command::CheckFile(path) => CommandView::CheckFile(path@),
            Command::ReadFile(path) => CommandView::ReadFile(path@),
            Command::WriteFile(path) => CommandView::WriteFile(path@),
            Command::ChooseFileToOpen => CommandView::ChooseFileToOpen,
            Command::ChooseSaveTarget(folder) => CommandView::ChooseSaveTarget(folder@),
            Command::ConfirmDiscard(pending) => CommandView::ConfirmDiscard(pending),
            Command::ConfirmClose => CommandView::ConfirmClose,
            Command::CloseWindow => CommandView::CloseWindow,
            Command::ShowAbout => CommandView::ShowAbout,
            Command::LogError(line) => CommandView::LogError(line@),
            Command::EndUpdate => CommandView::EndUpdate,
            Command::ClearModified => CommandView::ClearModified,
        }
    }
}

impl DeepView for Command {
    type V = CommandView;

    open spec fn deep_view(&self) -> CommandView {
        self@
    }
}

/// Whether an event goes on to the toolkit's own handling.
#[derive(Debug, Clone, Copy, PartialEq, Eq, Structural)]
pub enum Propagation {
    /// The toolkit goes on with the event.
    Proceed,
    /// The event ends here.
    Stop,
}

/// The answer to an event that the toolkit wants a verdict on.
#[derive(Debug, Clone, PartialEq, Eq)]
pub struct Reaction {
    /// What the toolkit is told.
    pub propagation: Propagation,
    /// What the shell does before it tells the toolkit.
    pub commands: Vec<Command>,
}

/// How a "save as" dialog ended.
#[derive(Debug, Clone, PartialEq, Eq)]
pub enum SaveChoice {
    /// The user picked this path.
    Path(String),
    /// The user picked a place without a path that can be held as text.
    NoPath,
    /// The dialog was dismissed.
    Cancelled,
}

/// What the user answered when asked about unsaved changes.
#[derive(Debug, Clone, Copy, PartialEq, Eq, Structural)]
pub enum DialogResponse {
    /// Save the changes, then go on.
    Save,
    /// Let the changes go.
    Discard,
    /// Stay with the document as it is.
    Cancel,
}

/// The name under which a confirmation dialog knows the answer "save".
pub const RESPONSE_SAVE: &'static str = "save";

/// The name under which a confirmation dialog knows the answer "discard".
pub const RESPONSE_DISCARD: &'static str = "discard";

/// The name under which a confirmation dialog knows the answer "cancel", which
/// is also what closing the dialog means.
pub const RESPONSE_CANCEL: &'static str = "cancel";

impl DialogResponse {
    /// The answer that a dialog names `id`: every name but those of "save" and
    /// "discard" cancels.
    pub open spec fn spec_from_id(id: Seq<char>) -> DialogResponse {
        if id == RESPONSE_SAVE@ {
            DialogResponse::Save
        } else if id == RESPONSE_DISCARD@ {
            DialogResponse::Discard
        } else {
            DialogResponse::Cancel
        }
    }

    /// The name that a confirmation dialog gives to the answer.
    pub open spec fn spec_id(self) -> Seq<char> {
        match self {
            DialogResponse::Save => RESPONSE_SAVE@,
            DialogResponse::Discard => RESPONSE_DISCARD@,
            DialogResponse::Cancel => RESPONSE_CANCEL@,
        }
    }

    /// Reads the answer of a confirmation dialog from its name.
    pub fn from_id(id: &str) -> (response: DialogResponse)
        ensures
            response == Self::spec_from_id(id@),
    {
        if same_text(id, RESPONSE_SAVE) {
            DialogResponse::Save
        } else if same_text(id, RESPONSE_DISCARD) {
            DialogResponse::Discard
        } else {
            DialogResponse::Cancel
        }
    }

    /// The name that a confirmation dialog gives to this answer.
    pub fn id(self) -> (id: &'static str)
        ensures
            id@ == self.spec_id(),
    {
        match self {
            DialogResponse::Save => RESPONSE_SAVE,
            DialogResponse::Discard => RESPONSE_DISCARD,
            DialogResponse::Cancel => RESPONSE_CANCEL,
        }
    }
}

/// No command at all.
pub fn no_commands() -> (commands: Vec<Command>)
    ensures
        commands.deep_view() == Seq::<CommandView>::empty(),
{
    let commands: Vec<Command> = Vec::new();
    assert(commands.deep_view() =~= Seq::<CommandView>::empty());
    commands
}

/// The one command `command`.
pub fn one_command(command: Command) -> (commands: Vec<Command>)
    ensures
        commands.deep_view() == seq![command@],
{
    let mut commands: Vec<Command> = Vec::new();
    commands.push(command);
    assert(commands.deep_view() =~= seq![command@]);
    commands
}

/// Adds `command` at the end of `commands`.
pub fn push_command(commands: &mut Vec<Command>, command: Command)
    ensures
        final(commands).deep_view() == old(commands).deep_view().push(command@),
{
    commands.push(command);
    assert(commands.deep_view() =~= old(commands).deep_view().push(command@));
}

/// Adds the commands of `more` at the end of `commands`, in their order.
pub fn append_commands(commands: &mut Vec<Command>, more: Vec<Command>)
    ensures
        final(commands).deep_view() == old(commands).deep_view() + more.deep_view(),
{
    let mut more = more;
    let ghost before = commands.deep_view();
    let ghost added = more.deep_view();
    commands.append(&mut more);
    assert(commands.deep_view() =~= before + added);
}

} // verus!
