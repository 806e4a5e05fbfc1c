//! How a window starts: in `Write` mode, with the document that the command
//! line names or with an empty one.

use crate::command::{append_commands, one_command, push_command, Command, CommandView};
use crate::paths::{markdown_path, spec_markdown_path, UNTITLED_TITLE};
use crate::view_mode::ViewMode;
use crate::window::{MyMarkdownWindow, WindowModel};
use vstd::prelude::*;

verus! {

impl WindowModel {
    /// A window that has no file, shows the editor and has nothing to save.
    pub open spec fn initial(initial_dir: Seq<char>) -> WindowModel {
        WindowModel {
            current_file: None,
            view_mode: ViewMode::Write,
            updating: false,
            modified: false,
            close_confirmed: false,
            close_after_save: false,
            initial_dir,
        }
    }

    /// The document that `filename` names is looked for at
    /// `spec_markdown_path(filename)`.
    pub open spec fn handle_file_arg(filename: Seq<char>) -> Seq<CommandView> {
        seq![CommandView::CheckFile(spec_markdown_path(filename))]
    }

    /// A new window and what brings it on screen: the preview of the empty
    /// buffer, the layout of `Write` mode, the buttons to match, and then the
    /// search for the named document or the title of an unnamed one.
    pub open spec fn new(file_arg: Option<String>, initial_dir: Seq<char>) -> (
        WindowModel,
        Seq<CommandView>,
    ) {
        let (window, layout) = Self::initial(initial_dir).set_view_mode(ViewMode::Write);
        let buttons = seq![
            CommandView::SetWriteActive(true),
            CommandView::SetSplitActive(false),
        ];
        let document = match file_arg {
            Some(filename) => Self::handle_file_arg(filename@),
            None => seq![CommandView::SetTitle(UNTITLED_TITLE@)],
        };
        (window, seq![CommandView::RefreshPreview] + layout + buttons + document)
    }

    /// It is known whether a file is at `path`, the path that the command line
    /// named. A file that is there is read. One that is not becomes the
    /// document's file all the same, to be written by the first "save".
    pub open spec fn file_checked(self, path: Seq<char>, exists: bool) -> (
        WindowModel,
        Seq<CommandView>,
    ) {
        if exists {
            (self, seq![CommandView::ReadFile(path)])
        } else {
            let next = WindowModel { current_file: Some(path), ..self };
            (next, next.update_title())
        }
    }
}

impl MyMarkdownWindow {
    /// Makes the window and the commands that bring it on screen. `file_arg`
    /// is the document named on the command line, `initial_dir` the directory
    /// in which a "save as" dialog starts.
    pub fn new(
        file_arg: Option<String>,
        initial_dir: String,
    ) -> (made: (MyMarkdownWindow, Vec<Command>))
        ensures
            (made.0@, made.1.deep_view()) == WindowModel::new(file_arg, initial_dir@),
    {
        let mut window = MyMarkdownWindow {
            current_file: None,
            view_mode: ViewMode::Write,
            updating: false,
            modified: false,
            close_confirmed: false,
            close_after_save: false,
            initial_dir,
        };
        let mut commands = one_command(Command::RefreshPreview);
        let layout = window.set_view_mode(ViewMode::Write);
        append_commands(&mut commands, layout);
        push_command(&mut commands, Command::SetWriteActive(true));
        push_command(&mut commands, Command::SetSplitActive(false));
        match file_arg {
            Some(filename) => {
                let document = window.handle_file_arg(filename.as_str());
                append_commands(&mut commands, document);
            },
            None => {
                push_command(&mut commands, Command::SetTitle(UNTITLED_TITLE.to_owned()));
            },
        }
        assert(commands.deep_view() =~= WindowModel::new(file_arg, initial_dir@).1);
        (window, commands)
    }

    /// Has the document looked for that the command line names as `filename`.
    pub fn handle_file_arg(&self, filename: &str) -> (commands: Vec<Command>)
        ensures
            commands.deep_view() == WindowModel::handle_file_arg(filename@),
    {
        one_command(Command::CheckFile(markdown_path(filename)))
    }

    /// Takes the answer to `Command::CheckFile(path)`.
    pub fn file_checked(&mut self, path: String, exists: bool) -> (commands: Vec<Command>)
        ensures
            (final(self)@, commands.deep_view()) == old(self)@.file_checked(path@, exists),
    {
        if exists {
            self.load_file(path)
        } else {
            self.current_file = Some(path);
            self.update_title()
        }
    }
}

} // verus!
