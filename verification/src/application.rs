//! The application around the window: what it takes from the command line and
//! from its surroundings, and the window it opens.

use crate::command::Command;
use crate::window::{MyMarkdownWindow, WindowModel};
use vstd::prelude::*;

verus! {

/// The name under which the application is known to the desktop.
pub const APPLICATION_ID: &'static str = "org.gnome.MyMarkdown";

/// Where "save as" starts if neither the working directory nor the home
/// directory can be had.
pub const ROOT_DIR: &'static str = "/";

/// The editor before its window is open.
#[derive(Debug, Clone, PartialEq, Eq)]
pub struct MyMarkdownApp {
    /// The document named on the command line, if one was.
    pub file_arg: Option<String>,
    /// The directory in which a "save as" dialog starts.
    pub initial_dir: String,
}

/// The document that the command line names: its first argument after the
/// program's own name.
pub open spec fn spec_file_argument(args: Seq<String>) -> Option<Seq<char>> {
    if args.len() > 1 {
        Some(args[1]@)
    } else {
        None
    }
}

/// Picks the file argument out of the command line, which starts with the
/// program's name.
pub fn file_argument(args: &Vec<String>) -> (file_arg: Option<String>)
    ensures
        file_arg.deep_view() == spec_file_argument(args@),
{
    if args.len() > 1 {
        Some(args[1].clone())
    } else {
        None
    }
}

/// The directory in which "save as" starts: the working directory if it is
/// known, else the home directory if that is known, else `ROOT_DIR`.
pub open spec fn spec_initial_directory(
    current_dir: Option<String>,
    home_dir: Option<String>,
) -> Seq<char> {
    match current_dir {
        Some(dir) => dir@,
        None => match home_dir {
            Some(dir) => dir@,
            None => ROOT_DIR@,
        },
    }
}

/// Chooses the directory in which "save as" starts.
pub fn initial_directory(current_dir: Option<String>, home_dir: Option<String>) -> (dir: String)
    ensures
        dir@ == spec_initial_directory(current_dir, home_dir),
{
    match current_dir {
        Some(dir) => dir,
        None => match home_dir {
            Some(dir) => dir,
            None => ROOT_DIR.to_owned(),
        },
    }
}

impl MyMarkdownApp {
    /// The application for the document `file_arg`, saving from `initial_dir`.
    pub fn new(file_arg: Option<String>, initial_dir: String) -> (app: MyMarkdownApp)
        ensures
            app.file_arg == file_arg,
            app.initial_dir == initial_dir,
    {
        MyMarkdownApp { file_arg, initial_dir }
    }

    /// Opens the application's window.
    pub fn activate(&self) -> (made: (MyMarkdownWindow, Vec<Command>))
        ensures
            (made.0@, made.1.deep_view()) == WindowModel::new(self.file_arg, self.initial_dir@),
    {
        let file_arg = match &self.file_arg {
            Some(filename) => Some(filename.clone()),
            None => None,
        };
        MyMarkdownWindow::new(file_arg, self.initial_dir.clone())
    }
}

} // verus!
