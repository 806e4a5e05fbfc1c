//! The named actions of the window, the keys that start them, and the one
//! key the editor handles itself: pasting as plain text.

use crate::command::{no_commands, one_command, Command, CommandView, Propagation, Reaction};
use crate::text::joined;
use crate::window::{MyMarkdownWindow, WindowModel};
use vstd::prelude::*;

verus! {

/// The key value of the letter `V`.
pub const KEY_V_UPPER: u32 = 86;

/// The key value of the letter `v`.
pub const KEY_V_LOWER: u32 = 118;

/// What stands before an action's name where the application refers to it.
pub const ACTION_PREFIX: &'static str = "win.";

/// An action that the window offers under a name.
#[derive(Debug, Clone, Copy, PartialEq, Eq, Structural)]
pub enum WindowAction {
    New,
    Open,
    Save,
    SaveAs,
    WriteMode,
    PreviewMode,
    ToggleSplit,
    About,
}

impl WindowAction {
    /// The name under which the window registers the action.
    pub open spec fn spec_name(self) -> Seq<char> {
        match self {
            WindowAction::New => "new"@,
            WindowAction::Open => "open"@,
            WindowAction::Save => "save"@,
            WindowAction::SaveAs => "save-as"@,
            WindowAction::WriteMode => "write-mode"@,
            WindowAction::PreviewMode => "preview-mode"@,
            WindowAction::ToggleSplit => "toggle-split"@,
            WindowAction::About => "about"@,
        }
    }

    /// The keys that start the action, in the toolkit's notation; `None` for
    /// an action that only the menu starts.
    pub open spec fn spec_accelerator(self) -> Option<Seq<char>> {
        match self {
            WindowAction::New => Some("<Ctrl>n"@),
            WindowAction::Open => Some("<Ctrl>o"@),
            WindowAction::Save => Some("<Ctrl>s"@),
            WindowAction::SaveAs => Some("<Ctrl><Shift>s"@),
            WindowAction::WriteMode => Some("<Ctrl>1"@),
            WindowAction::PreviewMode => Some("<Ctrl>2"@),
            WindowAction::ToggleSplit => Some("<Ctrl>backslash"@),
            WindowAction::About => None,
        }
    }

    /// The actions in the order in which the window registers them.
    pub open spec fn spec_all() -> Seq<WindowAction> {
        seq![
            WindowAction::New,
            WindowAction::Open,
            WindowAction::Save,
            WindowAction::SaveAs,
            WindowAction::WriteMode,
            WindowAction::PreviewMode,
            WindowAction::ToggleSplit,
            WindowAction::About,
        ]
    }

    /// The name under which the window registers the action.
    pub fn name(self) -> (name: &'static str)
        ensures
            name@ == self.spec_name(),
    {
        match self {
            WindowAction::New => "new",
            WindowAction::Open => "open",
            WindowAction::Save => "save",
            WindowAction::SaveAs => "save-as",
            WindowAction::WriteMode => "write-mode",
            WindowAction::PreviewMode => "preview-mode",
            WindowAction::ToggleSplit => "toggle-split",
            WindowAction::About => "about",
        }
    }

    /// The name by which the application and the menu refer to the action:
    /// `ACTION_PREFIX`, then its name.
    pub fn detailed_name(self) -> (name: String)
        ensures
            name@ == ACTION_PREFIX@ + self.spec_name(),
    {
        joined(ACTION_PREFIX, self.name())
    }

    /// The keys that start the action, if any do.
    pub fn accelerator(self) -> (keys: Option<&'static str>)
        ensures
            keys.deep_view() == self.spec_accelerator(),
    {
        match self {
            WindowAction::New => Some("<Ctrl>n"),
            WindowAction::Open => Some("<Ctrl>o"),
            WindowAction::Save => Some("<Ctrl>s"),
            WindowAction::SaveAs => Some("<Ctrl><Shift>s"),
            WindowAction::WriteMode => Some("<Ctrl>1"),
            WindowAction::PreviewMode => Some("<Ctrl>2"),
            WindowAction::ToggleSplit => Some("<Ctrl>backslash"),
            WindowAction::About => None,
        }
    }

    /// Every action, in the order in which the window registers them.
    pub fn all() -> (actions: Vec<WindowAction>)
        ensures
            actions@ == Self::spec_all(),
    {
        let mut actions: Vec<WindowAction> = Vec::new();
        actions.push(WindowAction::New);
        actions.push(WindowAction::Open);
        actions.push(WindowAction::Save);
        actions.push(WindowAction::SaveAs);
        actions.push(WindowAction::WriteMode);
        actions.push(WindowAction::PreviewMode);
        actions.push(WindowAction::ToggleSplit);
        actions.push(WindowAction::About);
        assert(actions@ =~= Self::spec_all());
        actions
    }
}

impl WindowModel {
    /// The action `action` was started while the split button stood as
    /// `split_active` says. The document actions do what the buttons of the
    /// same name do. The mode actions press the button of their mode, and the
    /// split action turns the split button over; what follows comes with the
    /// button's change.
    pub open spec fn activate_action(self, action: WindowAction, split_active: bool) -> (
        WindowModel,
        Seq<CommandView>,
    ) {
        match action {
            WindowAction::New => self.new_file(),
            WindowAction::Open => (self, self.open_file_dialog()),
            WindowAction::Save => (self, self.save_file()),
            WindowAction::SaveAs => (self, self.save_file_as()),
            WindowAction::WriteMode => (self, seq![CommandView::SetWriteActive(true)]),
            WindowAction::PreviewMode => (self, seq![CommandView::SetPreviewActive(true)]),
            WindowAction::ToggleSplit => (self, seq![CommandView::SetSplitActive(!split_active)]),
            WindowAction::About => (self, seq![CommandView::ShowAbout]),
        }
    }
}

impl MyMarkdownWindow {
    /// Starts `action`; `split_active` says how the split button stands.
    pub fn activate_action(
        &mut self,
        action: WindowAction,
        split_active: bool,
    ) -> (commands: Vec<Command>)
        ensures
            (final(self)@, commands.deep_view()) == old(self)@.activate_action(
                action,
                split_active,
            ),
    {
        match action {
            WindowAction::New => self.new_file(),
            WindowAction::Open => self.open_file_dialog(),
            WindowAction::Save => self.save_file(),
            WindowAction::SaveAs => self.save_file_as(),
            WindowAction::WriteMode => one_command(Command::SetWriteActive(true)),
            WindowAction::PreviewMode => one_command(Command::SetPreviewActive(true)),
            WindowAction::ToggleSplit => one_command(Command::SetSplitActive(!split_active)),
            WindowAction::About => one_command(Command::ShowAbout),
        }
    }
}

/// A key press pastes if the control key is held and the key is `v` or `V`.
pub open spec fn is_paste_shortcut(control: bool, keyval: u32) -> bool {
    control && (keyval == KEY_V_LOWER || keyval == KEY_V_UPPER)
}

/// What a key press in the editor leads to: the paste shortcut reads the
/// clipboard and goes no further, every other key is left to the toolkit.
pub open spec fn spec_key_pressed(control: bool, keyval: u32) -> (Propagation, Seq<CommandView>) {
    if is_paste_shortcut(control, keyval) {
        (Propagation::Stop, seq![CommandView::ReadClipboard])
    } else {
        (Propagation::Proceed, seq![])
    }
}

/// Reacts to a key pressed in the editor; `control` says whether the control
/// key is held, `keyval` is the toolkit's number for the key.
pub fn key_pressed(control: bool, keyval: u32) -> (reaction: Reaction)
    ensures
        (reaction.propagation, reaction.commands.deep_view()) == spec_key_pressed(control, keyval),
{
    if control && (keyval == KEY_V_LOWER || keyval == KEY_V_UPPER) {
        Reaction {
            propagation: Propagation::Stop,
            commands: one_command(Command::ReadClipboard),
        }
    } else {
        Reaction { propagation: Propagation::Proceed, commands: no_commands() }
    }
}

/// What follows from the clipboard's text: it is put in, if there is any.
pub open spec fn spec_clipboard_read(text: Option<String>) -> Seq<CommandView> {
    match text {
        Some(text) => seq![CommandView::InsertText(text@)],
        None => seq![],
    }
}

/// Takes the answer to `Command::ReadClipboard`: the text on the clipboard,
/// or `None` if it holds none or could not be read.
pub fn clipboard_read(text: Option<String>) -> (commands: Vec<Command>)
    ensures
        commands.deep_view() == spec_clipboard_read(text),
{
    match text {
        Some(text) => one_command(Command::InsertText(text)),
        None => no_commands(),
    }
}

} // verus!
