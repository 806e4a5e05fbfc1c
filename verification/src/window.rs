//! The window of the editor as a state machine.
//!
//! Each method of [`MyMarkdownWindow`] takes one thing that happened, changes
//! the state and hands back the commands that follow from it. The contract of
//! a method says what the state and the commands are, by a function of the
//! same name on [`WindowModel`].

use crate::command::{
    append_commands, no_commands, one_command, push_command, Command, CommandView,
};
use crate::view_mode::ViewMode;
use vstd::prelude::*;

verus! {

/// What the window knows of its document and of itself.
#[derive(Debug, Clone, PartialEq, Eq)]
pub struct MyMarkdownWindow {
    /// Where the document is stored, if it is stored anywhere.
    pub current_file: Option<String>,
    /// The layout on screen.
    pub view_mode: ViewMode,
    /// The mode buttons are being moved by the window, not by the user.
    pub updating: bool,
    /// The buffer holds changes that no file holds.
    pub modified: bool,
    /// The window may close although the buffer is modified.
    pub close_confirmed: bool,
    /// The window closes as soon as the "save as" dialog has stored the
    /// document.
    pub close_after_save: bool,
    /// The directory in which a "save as" dialog starts.
    pub initial_dir: String,
}

/// The state of a window as contracts see it.
pub struct WindowModel {
    pub current_file: Option<Seq<char>>,
    pub view_mode: ViewMode,
    pub updating: bool,
    pub modified: bool,
    pub close_confirmed: bool,
    pub close_after_save: bool,
    pub initial_dir: Seq<char>,
}

impl View for MyMarkdownWindow {
    type V = WindowModel;

    open spec fn view(&self) -> WindowModel {
        WindowModel {
            current_file: self.current_file.deep_view(),
            view_mode: self.view_mode,
            updating: self.updating,
            modified: self.modified,
            close_confirmed: self.close_confirmed,
            close_after_save: self.close_after_save,
            initial_dir: self.initial_dir@,
        }
    }
}

impl WindowModel {
    /// The preview follows the buffer: in every mode the page is rendered
    /// anew from the buffer's text.
    pub open spec fn update_preview(self) -> Seq<CommandView> {
        seq![CommandView::RefreshPreview]
    }

    /// The window in the layout `mode`: the panes of that mode are shown, the
    /// divider of a split view is centred, and a preview that comes on screen
    /// is brought up to date. A switch to `Write` mode renders nothing.
    pub open spec fn set_view_mode(self, mode: ViewMode) -> (WindowModel, Seq<CommandView>) {
        let next = WindowModel { view_mode: mode, ..self };
        let panes = seq![
            CommandView::ShowEditor(mode.spec_editor_visible()),
            CommandView::ShowPreview(mode.spec_preview_visible()),
        ];
        let shown = match mode {
            ViewMode::Write => seq![],
            ViewMode::Preview => next.update_preview(),
            ViewMode::Split => seq![CommandView::CenterDivider] + next.update_preview(),
        };
        (next, panes + shown)
    }

    /// The window after the mode buttons were told to show `mode`: it is in
    /// that layout and stays `updating` until the shell has carried out
    /// `buttons`, the new layout and `EndUpdate`.
    pub open spec fn switch_mode(self, buttons: Seq<CommandView>, mode: ViewMode) -> (
        WindowModel,
        Seq<CommandView>,
    ) {
        let (next, layout) = WindowModel { updating: true, ..self }.set_view_mode(mode);
        (next, buttons + layout + seq![CommandView::EndUpdate])
    }

    /// The "Write" or the "Preview" button changed. Where the user pressed it,
    /// the split button is released and the window shows `mode`. A button that
    /// was released, or that the window itself moved, changes nothing.
    pub open spec fn mode_button_toggled(self, mode: ViewMode, active: bool) -> (
        WindowModel,
        Seq<CommandView>,
    ) {
        if active && !self.updating {
            self.switch_mode(seq![CommandView::SetSplitActive(false)], mode)
        } else {
            (self, seq![])
        }
    }

    /// The "Write" button changed.
    pub open spec fn write_toggled(self, active: bool) -> (WindowModel, Seq<CommandView>) {
        self.mode_button_toggled(ViewMode::Write, active)
    }

    /// The "Preview" button changed.
    pub open spec fn preview_toggled(self, active: bool) -> (WindowModel, Seq<CommandView>) {
        self.mode_button_toggled(ViewMode::Preview, active)
    }

    /// The split button changed, while the other two buttons stood as
    /// `write_active` and `preview_active` say. Pressed by the user, it
    /// releases both and splits the window. Released by the user with neither
    /// of the two pressed, it presses "Write" and shows the editor. A change
    /// that the window itself made changes nothing.
    pub open spec fn split_toggled(self, active: bool, write_active: bool, preview_active: bool) -> (
        WindowModel,
        Seq<CommandView>,
    ) {
        if self.updating {
            (self, seq![])
        } else if active {
            self.switch_mode(
                seq![CommandView::SetWriteActive(false), CommandView::SetPreviewActive(false)],
                ViewMode::Split,
            )
        } else if !write_active && !preview_active {
            self.switch_mode(seq![CommandView::SetWriteActive(true)], ViewMode::Write)
        } else {
            (self, seq![])
        }
    }

    /// The buttons are where the window put them: the user moves them again.
    pub open spec fn end_update(self) -> WindowModel {
        WindowModel { updating: false, ..self }
    }
}

impl MyMarkdownWindow {
    /// Brings the preview up to date with the buffer, whatever the mode.
    pub fn update_preview(&self) -> (commands: Vec<Command>)
        ensures
            commands.deep_view() == self@.update_preview(),
    {
        one_command(Command::RefreshPreview)
    }

    /// Switches the window to the layout `mode`.
    pub fn set_view_mode(&mut self, mode: ViewMode) -> (commands: Vec<Command>)
        ensures
            (final(self)@, commands.deep_view()) == old(self)@.set_view_mode(mode),
    {
        self.view_mode = mode;
        let mut commands = one_command(Command::ShowEditor(mode.editor_visible()));
        push_command(&mut commands, Command::ShowPreview(mode.preview_visible()));
        match mode {
            ViewMode::Write => {},
            ViewMode::Preview => {
                let refresh = self.update_preview();
                append_commands(&mut commands, refresh);
            },
            ViewMode::Split => {
                push_command(&mut commands, Command::CenterDivider);
                let refresh = self.update_preview();
                append_commands(&mut commands, refresh);
            },
        }
        assert(commands.deep_view() =~= old(self)@.set_view_mode(mode).1);
        commands
    }

    /// Puts the window in the layout `mode` after the commands in `buttons`,
    /// and keeps it `updating` until the shell has come to `EndUpdate`.
    fn switch_mode(&mut self, buttons: Vec<Command>, mode: ViewMode) -> (commands: Vec<Command>)
        ensures
            (final(self)@, commands.deep_view()) == old(self)@.switch_mode(
                buttons.deep_view(),
                mode,
            ),
    {
        self.updating = true;
        let mut commands = buttons;
        let layout = self.set_view_mode(mode);
        append_commands(&mut commands, layout);
        push_command(&mut commands, Command::EndUpdate);
        commands
    }

    /// Reacts to a change of the "Write" or the "Preview" button.
    fn mode_button_toggled(&mut self, mode: ViewMode, active: bool) -> (commands: Vec<Command>)
        ensures
            (final(self)@, commands.deep_view()) == old(self)@.mode_button_toggled(mode, active),
    {
        if active && !self.updating {
            self.switch_mode(one_command(Command::SetSplitActive(false)), mode)
        } else {
            no_commands()
        }
    }

    /// Reacts to a change of the "Write" button, which is now pressed if
    /// `active`.
    pub fn write_toggled(&mut self, active: bool) -> (commands: Vec<Command>)
        ensures
            (final(self)@, commands.deep_view()) == old(self)@.write_toggled(active),
    {
        self.mode_button_toggled(ViewMode::Write, active)
    }

    /// Reacts to a change of the "Preview" button, which is now pressed if
    /// `active`.
    pub fn preview_toggled(&mut self, active: bool) -> (commands: Vec<Command>)
        ensures
            (final(self)@, commands.deep_view()) == old(self)@.preview_toggled(active),
    {
        self.mode_button_toggled(ViewMode::Preview, active)
    }

    /// Reacts to a change of the split button, which is now pressed if
    /// `active`; `write_active` and `preview_active` say how the other two
    /// buttons stand.
    pub fn split_toggled(
        &mut self,
        active: bool,
        write_active: bool,
        preview_active: bool,
    ) -> (commands: Vec<Command>)
        ensures
            (final(self)@, commands.deep_view()) == old(self)@.split_toggled(
                active,
                write_active,
                preview_active,
            ),
    {
        if self.updating {
            no_commands()
        } else if active {
            let mut buttons = one_command(Command::SetWriteActive(false));
            push_command(&mut buttons, Command::SetPreviewActive(false));
            assert(buttons.deep_view() =~= seq![
                CommandView::SetWriteActive(false),
                CommandView::SetPreviewActive(false),
            ]);
            self.switch_mode(buttons, ViewMode::Split)
        } else if !write_active && !preview_active {
            self.switch_mode(one_command(Command::SetWriteActive(true)), ViewMode::Write)
        } else {
            no_commands()
        }
    }

    /// Ends the time in which changes of the mode buttons are the window's
    /// own. The shell calls this when it comes to `Command::EndUpdate`.
    pub fn end_update(&mut self)
        ensures
            final(self)@ == old(self)@.end_update(),
    {
        self.updating = false;
    }
}

} // verus!
