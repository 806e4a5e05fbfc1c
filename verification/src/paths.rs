//! File paths of documents: the path a command-line argument names, the window
//! title that belongs to a path, and the path a "save as" choice is stored under.
//!
//! Paths are held as text. How a path divides into directory, file name and
//! extension is left to `std::path`, so that the editor agrees with the rest of
//! the system about it.

use crate::text::{ends_with, is_suffix, joined};
use vstd::prelude::*;

verus! {

/// What every document's file name ends with.
pub const MARKDOWN_SUFFIX: &'static str = ".md";

/// The extension given to a document that was saved without one.
pub const MARKDOWN_EXTENSION: &'static str = "md";

/// What follows the file name in the window title.
pub const TITLE_SUFFIX: &'static str = " - MyMarkdown";

/// The window title while the document has no file.
pub const UNTITLED_TITLE: &'static str = "Untitled - MyMarkdown";

/// The final component of `path` as `std::path::Path::file_name` gives it, or
/// `None` where the path has none.
pub uninterp spec fn path_file_name(path: Seq<char>) -> Option<Seq<char>>;

/// Where the last `.` of `name` stands, if `name` holds one.
pub open spec fn last_dot(name: Seq<char>) -> Option<int>
    decreases name.len(),
{
    if name.len() == 0 {
        None
    } else if name.last() == '.' {
        Some(name.len() - 1)
    } else {
        last_dot(name.drop_last())
    }
}

/// The extension of a file named `name`: none if the name holds no `.`, none
/// if its only `.` is its first character, else what follows its last `.`.
pub open spec fn name_extension(name: Seq<char>) -> Option<Seq<char>> {
    match last_dot(name) {
        Some(dot) => if dot == 0 {
            None
        } else {
            Some(name.subrange(dot + 1, name.len() as int))
        },
        None => None,
    }
}

/// The extension of `path`: that of its file name, if it has one.
pub open spec fn path_extension(path: Seq<char>) -> Option<Seq<char>> {
    match path_file_name(path) {
        Some(name) => name_extension(name),
        None => None,
    }
}

/// `path` with its extension set to `extension`, as
/// `std::path::Path::with_extension` gives it.
pub uninterp spec fn path_with_extension(path: Seq<char>, extension: Seq<char>) -> Seq<char>;

/// No character of `text` separates the components of a path.
pub open spec fn has_no_separator(text: Seq<char>) -> bool {
    forall|i: int| 0 <= i < text.len() ==> text[i] != '/' && text[i] != '\\'
}

/// Calls `std::path::Path::file_name`. Trusted: the result is that function's
/// result for `path`, which depends on nothing but the path's text. The name
/// of a path that is valid text is valid text, so the conversion loses
/// nothing.
#[verifier::external_body]
fn file_name_of(path: &str) -> (name: Option<String>)
    ensures
        name.deep_view() == path_file_name(path@),
{
    std::path::Path::new(path).file_name().map(|name| name.to_string_lossy().into_owned())
}

/// Calls `std::path::Path::extension`. Trusted: the result is what that
/// function is documented to return, the extension of the path's file name:
/// `None` if there is no file name, if the name holds no `.`, or if it begins
/// with its only `.`; else the part of the name behind its last `.`.
#[verifier::external_body]
fn extension_of(path: &str) -> (extension: Option<String>)
    ensures
        extension.deep_view() == path_extension(path@),
{
    std::path::Path::new(path).extension().map(|ext| ext.to_string_lossy().into_owned())
}

/// Calls `std::path::Path::with_extension`. Trusted: the result is that
/// function's result for `path` and `extension`. The function panics on an
/// extension that holds a path separator, which `requires` leaves out.
#[verifier::external_body]
fn with_extension(path: &str, extension: &str) -> (changed: String)
    requires
        has_no_separator(extension@),
    ensures
        changed@ == path_with_extension(path@, extension@),
{
    std::path::Path::new(path).with_extension(extension).to_string_lossy().into_owned()
}

/// The path that a file argument stands for: the argument itself where it ends
/// in `.md`, else the argument with `.md` put behind it.
pub open spec fn spec_markdown_path(filename: Seq<char>) -> Seq<char> {
    if is_suffix(MARKDOWN_SUFFIX@, filename) {
        filename
    } else {
        filename + MARKDOWN_SUFFIX@
    }
}

/// Turns the file argument of the command line into the path of a document.
pub fn markdown_path(filename: &str) -> (path: String)
    ensures
        path@ == spec_markdown_path(filename@),
{
    if ends_with(filename, MARKDOWN_SUFFIX) {
        filename.to_owned()
    } else {
        joined(filename, MARKDOWN_SUFFIX)
    }
}

/// The window title for a document whose path has the file name `file_name`;
/// a path without a file name counts as an empty name.
pub open spec fn spec_window_title(file_name: Option<Seq<char>>) -> Seq<char> {
    match file_name {
        Some(name) => name + TITLE_SUFFIX@,
        None => TITLE_SUFFIX@,
    }
}

/// Builds the window title from what `std::path` found to be the file name.
pub fn window_title(file_name: Option<String>) -> (title: String)
    ensures
        title@ == spec_window_title(file_name.deep_view()),
{
    match file_name {
        Some(name) => joined(name.as_str(), TITLE_SUFFIX),
        None => TITLE_SUFFIX.to_owned(),
    }
}

/// The window title of the document stored at `path`.
pub open spec fn spec_document_title(path: Seq<char>) -> Seq<char> {
    spec_window_title(path_file_name(path))
}

/// The window title of the document stored at `path`: its file name, then
/// `TITLE_SUFFIX`.
pub fn document_title(path: &str) -> (title: String)
    ensures
        title@ == spec_document_title(path@),
{
    window_title(file_name_of(path))
}

/// Where a document is stored that the user chose to save at `path`, given the
/// extension `std::path` found in it: at `path` if there is one, else at `path`
/// with the extension `md`.
pub open spec fn spec_with_default_extension(
    path: Seq<char>,
    extension: Option<Seq<char>>,
) -> Seq<char> {
    if extension is None {
        path_with_extension(path, MARKDOWN_EXTENSION@)
    } else {
        path
    }
}

/// Gives `path` the extension `md` unless `extension`, the one it has, is
/// there already.
pub fn with_default_extension(path: String, extension: Option<String>) -> (target: String)
    ensures
        target@ == spec_with_default_extension(path@, extension.deep_view()),
{
    if extension.is_none() {
        proof {
            reveal_strlit("md");
        }
        with_extension(path.as_str(), MARKDOWN_EXTENSION)
    } else {
        path
    }
}

/// Where a document is stored that the user chose to save at `path`.
pub open spec fn spec_save_target(path: Seq<char>) -> Seq<char> {
    spec_with_default_extension(path, path_extension(path))
}

/// Completes the path chosen in a "save as" dialog.
pub fn save_target(path: String) -> (target: String)
    ensures
        target@ == spec_save_target(path@),
{
    let extension = extension_of(path.as_str());
    with_default_extension(path, extension)
}

} // verus!
