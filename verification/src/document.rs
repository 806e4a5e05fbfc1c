//! The document of a window: how it is started, opened, changed and stored.

use crate::command::{
    no_commands, one_command, push_command, Command, CommandView, PendingAction, SaveChoice,
};
use crate::paths::{document_title, save_target, spec_document_title, spec_save_target, UNTITLED_TITLE};
use crate::text::joined;
use crate::window::{MyMarkdownWindow, WindowModel};
use vstd::prelude::*;

verus! {

/// What an error line starts with when a file could not be read.
pub const LOAD_ERROR_PREFIX: &'static str = "Error loading file: ";

/// What an error line starts with when a file could not be written.
pub const SAVE_ERROR_PREFIX: &'static str = "Error saving file: ";

impl WindowModel {
    /// The buffer changed: it is modified, and the preview follows it in every
    /// mode.
    pub open spec fn buffer_changed(self) -> (WindowModel, Seq<CommandView>) {
        let next = WindowModel { modified: true, ..self };
        (next, next.update_preview())
    }

    /// The buffer holds what the document holds.
    pub open spec fn clear_modified(self) -> WindowModel {
        WindowModel { modified: false, ..self }
    }

    /// The window gets the title of its file, if the document has one.
    pub open spec fn update_title(self) -> Seq<CommandView> {
        match self.current_file {
            Some(path) => seq![CommandView::SetTitle(spec_document_title(path))],
            None => seq![],
        }
    }

    /// An empty document without a file takes the place of the current one.
    pub open spec fn do_new_file(self) -> (WindowModel, Seq<CommandView>) {
        (
            WindowModel { current_file: None, modified: false, ..self },
            seq![
                CommandView::ReplaceText(Seq::empty()),
                CommandView::SetTitle(UNTITLED_TITLE@),
                CommandView::ClearModified,
            ],
        )
    }

    /// The user asks for a new document: at once if nothing would be lost,
    /// else after a confirmation.
    pub open spec fn new_file(self) -> (WindowModel, Seq<CommandView>) {
        if self.modified {
            (self, seq![CommandView::ConfirmDiscard(PendingAction::NewFile)])
        } else {
            self.do_new_file()
        }
    }

    /// The user asks to open a file: the dialog comes at once if nothing would
    /// be lost, else after a confirmation.
    pub open spec fn open_file_dialog(self) -> Seq<CommandView> {
        if self.modified {
            seq![CommandView::ConfirmDiscard(PendingAction::OpenFile)]
        } else {
            seq![CommandView::ChooseFileToOpen]
        }
    }

    /// The "open" dialog ended with `choice`: a chosen file is read.
    pub open spec fn open_dialog_closed(choice: Option<String>) -> Seq<CommandView> {
        match choice {
            Some(path) => seq![CommandView::ReadFile(path@)],
            None => seq![],
        }
    }

    /// The file at `path` was read, or not. What was read becomes the
    /// document, stored at `path` and unmodified. A failure is logged and
    /// changes nothing.
    pub open spec fn file_read(self, path: Seq<char>, outcome: Result<String, String>) -> (
        WindowModel,
        Seq<CommandView>,
    ) {
        match outcome {
            Ok(content) => (
                WindowModel { current_file: Some(path), ..self },
                seq![
                    CommandView::ReplaceText(content@),
                    CommandView::SetTitle(spec_document_title(path)),
                    CommandView::ClearModified,
                ],
            ),
            Err(error) => (self, seq![CommandView::LogError(LOAD_ERROR_PREFIX@ + error@)]),
        }
    }

    /// The user asks to save: to the document's file if it has one, else to a
    /// place that a dialog asks for.
    pub open spec fn save_file(self) -> Seq<CommandView> {
        match self.current_file {
            Some(path) => seq![CommandView::WriteFile(path)],
            None => self.save_file_as(),
        }
    }

    /// The user asks where to save.
    pub open spec fn save_file_as(self) -> Seq<CommandView> {
        seq![CommandView::ChooseSaveTarget(self.initial_dir)]
    }

    /// The buffer was written to the document's file, or not. After a write
    /// the buffer is unmodified. A failure is logged and changes nothing.
    pub open spec fn file_written(self, outcome: Result<(), String>) -> (
        WindowModel,
        Seq<CommandView>,
    ) {
        match outcome {
            Ok(_) => (WindowModel { modified: false, ..self }, seq![]),
            Err(error) => (self, seq![CommandView::LogError(SAVE_ERROR_PREFIX@ + error@)]),
        }
    }

    /// The "save as" dialog ended with `choice`. A chosen path, completed by
    /// `spec_save_target`, becomes the document's file and is written to; the
    /// window then closes if it was waiting for that. A dismissed dialog ends
    /// the waiting. A choice without a path changes nothing.
    pub open spec fn save_dialog_closed(self, choice: SaveChoice) -> (
        WindowModel,
        Seq<CommandView>,
    ) {
        match choice {
            SaveChoice::Path(path) => {
                let target = spec_save_target(path@);
                let stored = seq![
                    CommandView::WriteFile(target),
                    CommandView::SetTitle(spec_document_title(target)),
                ];
                if self.close_after_save {
                    (
                        WindowModel {
                            current_file: Some(target),
                            close_after_save: false,
                            close_confirmed: true,
                            ..self
                        },
                        stored.push(CommandView::CloseWindow),
                    )
                } else {
                    (WindowModel { current_file: Some(target), ..self }, stored)
                }
            },
            SaveChoice::NoPath => (self, seq![]),
            SaveChoice::Cancelled => (WindowModel { close_after_save: false, ..self }, seq![]),
        }
    }
}

impl MyMarkdownWindow {
    /// Notes that the text of the buffer changed.
    pub fn buffer_changed(&mut self) -> (commands: Vec<Command>)
        ensures
            (final(self)@, commands.deep_view()) == old(self)@.buffer_changed(),
    {
        self.modified = true;
        self.update_preview()
    }

    /// Notes that the buffer holds what the document holds. The shell calls
    /// this when it comes to `Command::ClearModified`.
    pub fn clear_modified(&mut self)
        ensures
            final(self)@ == old(self)@.clear_modified(),
    {
        self.modified = false;
    }

    /// Names the window after the document's file, if it has one.
    pub fn update_title(&self) -> (commands: Vec<Command>)
        ensures
            commands.deep_view() == self@.update_title(),
    {
        match &self.current_file {
            Some(path) => one_command(Command::SetTitle(document_title(path.as_str()))),
            None => no_commands(),
        }
    }

    /// Puts an empty document without a file in the place of the current one.
    pub fn do_new_file(&mut self) -> (commands: Vec<Command>)
        ensures
            (final(self)@, commands.deep_view()) == old(self)@.do_new_file(),
    {
        self.current_file = None;
        self.modified = false;
        let mut commands = one_command(Command::ReplaceText(String::new()));
        push_command(&mut commands, Command::SetTitle(UNTITLED_TITLE.to_owned()));
        push_command(&mut commands, Command::ClearModified);
        assert(commands.deep_view() =~= old(self)@.do_new_file().1);
        commands
    }

    /// Starts a new document, or asks first whether unsaved changes may go.
    pub fn new_file(&mut self) -> (commands: Vec<Command>)
        ensures
            (final(self)@, commands.deep_view()) == old(self)@.new_file(),
    {
        if self.modified {
            one_command(Command::ConfirmDiscard(PendingAction::NewFile))
        } else {
            self.do_new_file()
        }
    }

    /// Lets the user pick a file to open.
    pub fn do_open_file_dialog(&self) -> (commands: Vec<Command>)
        ensures
            commands.deep_view() == seq![CommandView::ChooseFileToOpen],
    {
        one_command(Command::ChooseFileToOpen)
    }

    /// Lets the user pick a file to open, or asks first whether unsaved
    /// changes may go.
    pub fn open_file_dialog(&self) -> (commands: Vec<Command>)
        ensures
            commands.deep_view() == self@.open_file_dialog(),
    {
        if self.modified {
            one_command(Command::ConfirmDiscard(PendingAction::OpenFile))
        } else {
            self.do_open_file_dialog()
        }
    }

    /// Has the file at `path` read, to become the document.
    pub fn load_file(&self, path: String) -> (commands: Vec<Command>)
        ensures
            commands.deep_view() == seq![CommandView::ReadFile(path@)],
    {
        one_command(Command::ReadFile(path))
    }

    /// Takes the answer of the "open" dialog: the path that was chosen, or
    /// `None` if none was.
    pub fn open_dialog_closed(&self, choice: Option<String>) -> (commands: Vec<Command>)
        ensures
            commands.deep_view() == WindowModel::open_dialog_closed(choice),
    {
        match choice {
            Some(path) => self.load_file(path),
            None => no_commands(),
        }
    }

    /// Takes the answer to `Command::ReadFile(path)`: what the file holds, or
    /// why it could not be read.
    pub fn file_read(
        &mut self,
        path: String,
        outcome: Result<String, String>,
    ) -> (commands: Vec<Command>)
        ensures
            (final(self)@, commands.deep_view()) == old(self)@.file_read(path@, outcome),
    {
        match outcome {
            Ok(content) => {
                let title = document_title(path.as_str());
                self.current_file = Some(path);
                let mut commands = one_command(Command::ReplaceText(content));
                push_command(&mut commands, Command::SetTitle(title));
                push_command(&mut commands, Command::ClearModified);
                assert(commands.deep_view() =~= old(self)@.file_read(path@, outcome).1);
                commands
            },
            Err(error) => one_command(
                Command::LogError(joined(LOAD_ERROR_PREFIX, error.as_str())),
            ),
        }
    }

    /// Asks the user where to save the document.
    pub fn save_file_as(&self) -> (commands: Vec<Command>)
        ensures
            commands.deep_view() == self@.save_file_as(),
    {
        one_command(Command::ChooseSaveTarget(self.initial_dir.clone()))
    }

    /// Has the buffer written to `path`.
    pub fn write_file(&self, path: String) -> (commands: Vec<Command>)
        ensures
            commands.deep_view() == seq![CommandView::WriteFile(path@)],
    {
        one_command(Command::WriteFile(path))
    }

    /// Saves the document to its file, or asks where to save it.
    pub fn save_file(&self) -> (commands: Vec<Command>)
        ensures
            commands.deep_view() == self@.save_file(),
    {
        match &self.current_file {
            Some(path) => self.write_file(path.clone()),
            None => self.save_file_as(),
        }
    }

    /// Takes the answer to `Command::WriteFile`: that the file was written,
    /// or why it could not be.
    pub fn file_written(&mut self, outcome: Result<(), String>) -> (commands: Vec<Command>)
        ensures
            (final(self)@, commands.deep_view()) == old(self)@.file_written(outcome),
    {
        match outcome {
            Ok(_) => {
                self.modified = false;
                no_commands()
            },
            Err(error) => one_command(
                Command::LogError(joined(SAVE_ERROR_PREFIX, error.as_str())),
            ),
        }
    }

    /// Takes the answer of the "save as" dialog.
    pub fn save_dialog_closed(&mut self, choice: SaveChoice) -> (commands: Vec<Command>)
        ensures
            (final(self)@, commands.deep_view()) == old(self)@.save_dialog_closed(choice),
    {
        match choice {
            SaveChoice::Path(path) => {
                let target = save_target(path);
                let title = document_title(target.as_str());
                self.current_file = Some(target.clone());
                let mut commands = one_command(Command::WriteFile(target));
                push_command(&mut commands, Command::SetTitle(title));
                if self.close_after_save {
                    self.close_after_save = false;
                    self.close_confirmed = true;
                    push_command(&mut commands, Command::CloseWindow);
                }
                assert(commands.deep_view() =~= old(self)@.save_dialog_closed(choice).1);
                commands
            },
            SaveChoice::NoPath => no_commands(),
            SaveChoice::Cancelled => {
                self.close_after_save = false;
                no_commands()
            },
        }
    }
}

} // verus!
