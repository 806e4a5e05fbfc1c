//! Unsaved changes: what the window asks before it lets them go, and what it
//! does with the answer.

use crate::command::{
    append_commands, no_commands, one_command, push_command, Command, CommandView,
    DialogResponse, PendingAction, Propagation, Reaction,
};
use crate::window::{MyMarkdownWindow, WindowModel};
use vstd::prelude::*;

verus! {

impl WindowModel {
    /// The window may close: nothing would be lost, or the user agreed.
    pub open spec fn may_close(self) -> bool {
        self.close_confirmed || !self.modified
    }

    /// The toolkit asks whether the window may close. It may if `may_close`;
    /// else it stays, and the user is asked about the changes.
    pub open spec fn close_request(self) -> (Propagation, Seq<CommandView>) {
        if self.may_close() {
            (Propagation::Proceed, seq![])
        } else {
            (Propagation::Stop, seq![CommandView::ConfirmClose])
        }
    }

    /// What was put off until the user had answered is done now.
    pub open spec fn continue_with(self, pending: PendingAction) -> (
        WindowModel,
        Seq<CommandView>,
    ) {
        match pending {
            PendingAction::NewFile => self.do_new_file(),
            PendingAction::OpenFile => (self, seq![CommandView::ChooseFileToOpen]),
        }
    }

    /// The user answered whether unsaved changes may go before `pending`.
    /// "Save" stores a document that has a file and goes on; one without a
    /// file is stored through the "save as" dialog, and `pending` is dropped.
    /// "Discard" lets the changes go and goes on. "Cancel" changes nothing.
    pub open spec fn discard_response(self, response: DialogResponse, pending: PendingAction) -> (
        WindowModel,
        Seq<CommandView>,
    ) {
        match response {
            DialogResponse::Save => if self.current_file is Some {
                let (next, then) = self.continue_with(pending);
                (next, self.save_file() + then)
            } else {
                (self, self.save_file_as())
            },
            DialogResponse::Discard => WindowModel { modified: false, ..self }.continue_with(
                pending,
            ),
            DialogResponse::Cancel => (self, seq![]),
        }
    }

    /// The user answered whether to save before the window closes. "Save"
    /// stores a document that has a file and closes the window; one without a
    /// file goes through the "save as" dialog, and the window waits for it.
    /// "Discard" closes the window. "Cancel" changes nothing.
    pub open spec fn close_response(self, response: DialogResponse) -> (
        WindowModel,
        Seq<CommandView>,
    ) {
        match response {
            DialogResponse::Save => {
                let waiting = if self.current_file is None {
                    WindowModel { close_after_save: true, ..self }
                } else {
                    self
                };
                if waiting.current_file is Some && !waiting.close_after_save {
                    (
                        WindowModel { close_confirmed: true, ..waiting },
                        waiting.save_file().push(CommandView::CloseWindow),
                    )
                } else {
                    (waiting, waiting.save_file())
                }
            },
            DialogResponse::Discard => (
                WindowModel { close_confirmed: true, ..self },
                seq![CommandView::CloseWindow],
            ),
            DialogResponse::Cancel => (self, seq![]),
        }
    }
}

impl MyMarkdownWindow {
    /// Answers the toolkit's question whether the window may close.
    pub fn close_request(&self) -> (reaction: Reaction)
        ensures
            (reaction.propagation, reaction.commands.deep_view()) == self@.close_request(),
    {
        if self.close_confirmed || !self.modified {
            Reaction { propagation: Propagation::Proceed, commands: no_commands() }
        } else {
            Reaction {
                propagation: Propagation::Stop,
                commands: one_command(Command::ConfirmClose),
            }
        }
    }

    /// Does what was put off until the user had answered.
    pub fn continue_with(&mut self, pending: PendingAction) -> (commands: Vec<Command>)
        ensures
            (final(self)@, commands.deep_view()) == old(self)@.continue_with(pending),
    {
        match pending {
            PendingAction::NewFile => self.do_new_file(),
            PendingAction::OpenFile => self.do_open_file_dialog(),
        }
    }

    /// Takes the answer to `Command::ConfirmDiscard(pending)`.
    pub fn discard_response(
        &mut self,
        response: DialogResponse,
        pending: PendingAction,
    ) -> (commands: Vec<Command>)
        ensures
            (final(self)@, commands.deep_view()) == old(self)@.discard_response(response, pending),
    {
        match response {
            DialogResponse::Save => {
                if self.current_file.is_some() {
                    let mut commands = self.save_file();
                    let then = self.continue_with(pending);
                    append_commands(&mut commands, then);
                    commands
                } else {
                    self.save_file_as()
                }
            },
            DialogResponse::Discard => {
                self.modified = false;
                self.continue_with(pending)
            },
            DialogResponse::Cancel => no_commands(),
        }
    }

    /// Takes the answer to `Command::ConfirmClose`.
    pub fn close_response(&mut self, response: DialogResponse) -> (commands: Vec<Command>)
        ensures
            (final(self)@, commands.deep_view()) == old(self)@.close_response(response),
    {
        match response {
            DialogResponse::Save => {
                if self.current_file.is_none() {
                    self.close_after_save = true;
                }
                let mut commands = self.save_file();
                if self.current_file.is_some() && !self.close_after_save {
                    self.close_confirmed = true;
                    push_command(&mut commands, Command::CloseWindow);
                }
                commands
            },
            DialogResponse::Discard => {
                self.close_confirmed = true;
                one_command(Command::CloseWindow)
            },
            DialogResponse::Cancel => no_commands(),
        }
    }
}

} // verus!
