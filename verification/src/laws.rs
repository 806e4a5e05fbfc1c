//! What holds of the editor whatever the user does.

use crate::command::{
    CommandView, DialogResponse, Propagation, RESPONSE_CANCEL, RESPONSE_DISCARD, RESPONSE_SAVE,
};
use crate::paths::{spec_markdown_path, MARKDOWN_SUFFIX};
use crate::text::is_suffix;
use crate::view_mode::ViewMode;
use crate::window::WindowModel;
use vstd::prelude::*;

verus! {

/// The path made of a file argument ends in `.md`, and making a path of it
/// again changes nothing.
pub proof fn markdown_path_is_settled(filename: Seq<char>)
    ensures
        is_suffix(MARKDOWN_SUFFIX@, spec_markdown_path(filename)),
        spec_markdown_path(spec_markdown_path(filename)) == spec_markdown_path(filename),
{
    if !is_suffix(MARKDOWN_SUFFIX@, filename) {
        let path = filename + MARKDOWN_SUFFIX@;
        assert(path.subrange(path.len() - MARKDOWN_SUFFIX@.len(), path.len() as int)
            =~= MARKDOWN_SUFFIX@);
    }
}

/// A confirmation dialog that is given the name of an answer and hands it
/// back has given that answer.
pub proof fn response_survives_its_name(response: DialogResponse)
    ensures
        DialogResponse::spec_from_id(response.spec_id()) == response,
{
    reveal_strlit("save");
    reveal_strlit("discard");
    reveal_strlit("cancel");
    assert(RESPONSE_SAVE@.len() == 4);
    assert(RESPONSE_DISCARD@.len() == 7);
    assert(RESPONSE_CANCEL@.len() == 6);
}

/// In every mode at least one pane is on screen, and a switch to a mode
/// renders the preview exactly where that mode shows it.
pub proof fn layout_shows_something(window: WindowModel, mode: ViewMode)
    ensures
        mode.spec_editor_visible() || mode.spec_preview_visible(),
        mode.spec_preview_visible() <==> window.set_view_mode(mode).1.contains(
            CommandView::RefreshPreview,
        ),
{
    let commands = window.set_view_mode(mode).1;
    match mode {
        ViewMode::Write => {
            assert(commands =~= seq![
                CommandView::ShowEditor(true),
                CommandView::ShowPreview(false),
            ]);
        },
        ViewMode::Preview => {
            assert(commands[2] == CommandView::RefreshPreview);
        },
        ViewMode::Split => {
            assert(commands[3] == CommandView::RefreshPreview);
        },
    }
}

/// Every change of the buffer renders the preview once, in every mode, and
/// leaves the document modified and the rest of the window as it was.
pub proof fn preview_follows_the_buffer(window: WindowModel)
    ensures
        window.buffer_changed().1 == seq![CommandView::RefreshPreview],
        window.buffer_changed().0 == (WindowModel { modified: true, ..window }),
{
}

/// While the window moves its mode buttons itself, no change of a button
/// has any effect.
pub proof fn own_button_changes_are_ignored(
    window: WindowModel,
    active: bool,
    write_active: bool,
    preview_active: bool,
)
    requires
        window.updating,
    ensures
        window.write_toggled(active) == (window, Seq::<CommandView>::empty()),
        window.preview_toggled(active) == (window, Seq::<CommandView>::empty()),
        window.split_toggled(active, write_active, preview_active) == (
            window,
            Seq::<CommandView>::empty(),
        ),
{
}

/// A button pressed by the user changes the layout and nothing else, once the
/// shell has come to the end of the commands: "Write" leads to `Write` mode,
/// "Preview" to `Preview` mode, the split button to `Split` mode. The commands
/// end with `EndUpdate`.
pub proof fn pressed_button_sets_its_mode(
    window: WindowModel,
    write_active: bool,
    preview_active: bool,
)
    requires
        !window.updating,
    ensures
        window.write_toggled(true).0.end_update() == (WindowModel {
            view_mode: ViewMode::Write,
            ..window
        }),
        window.preview_toggled(true).0.end_update() == (WindowModel {
            view_mode: ViewMode::Preview,
            ..window
        }),
        window.split_toggled(true, write_active, preview_active).0.end_update() == (WindowModel {
            view_mode: ViewMode::Split,
            ..window
        }),
        window.write_toggled(true).1.last() == CommandView::EndUpdate,
        window.preview_toggled(true).1.last() == CommandView::EndUpdate,
        window.split_toggled(true, write_active, preview_active).1.last()
            == CommandView::EndUpdate,
{
}

/// A window without unsaved changes never asks: it closes, starts a new
/// document and shows the "open" dialog at once.
pub proof fn clean_window_never_asks(window: WindowModel)
    requires
        !window.modified,
    ensures
        window.close_request() == (Propagation::Proceed, Seq::<CommandView>::empty()),
        window.new_file() == window.do_new_file(),
        window.open_file_dialog() == seq![CommandView::ChooseFileToOpen],
{
}

/// After the user agreed to lose the changes, or had them written to the
/// document's file, the window closes when asked once more; after "cancel"
/// the window is as it was.
pub proof fn agreed_close_goes_through(window: WindowModel)
    ensures
        window.close_response(DialogResponse::Discard).0.close_request().0
            == Propagation::Proceed,
        window.current_file is Some && !window.close_after_save ==> window.close_response(
            DialogResponse::Save,
        ).0.close_request().0 == Propagation::Proceed,
        window.close_response(DialogResponse::Cancel) == (window, Seq::<CommandView>::empty()),
{
}

/// Once the shell has carried out the commands of a file that was read, the
/// window holds that file's document and has nothing to lose, whatever the
/// buffer reported while its text was replaced.
pub proof fn loaded_document_is_clean(window: WindowModel, path: Seq<char>, content: String)
    ensures
        ({
            let loaded = window.file_read(path, Ok(content)).0;
            let settled = loaded.buffer_changed().0.clear_modified();
            &&& window.file_read(path, Ok(content)).1.last() == CommandView::ClearModified
            &&& settled.current_file == Some(path)
            &&& !settled.modified
            &&& settled.close_request().0 == Propagation::Proceed
        }),
{
}

/// Once the shell has carried out the commands of a new document, the window
/// holds a document without a file and has nothing to lose.
pub proof fn new_document_is_clean(window: WindowModel)
    ensures
        ({
            let started = window.do_new_file().0;
            let settled = started.buffer_changed().0.clear_modified();
            &&& window.do_new_file().1.last() == CommandView::ClearModified
            &&& settled.current_file is None
            &&& !settled.modified
        }),
{
}

/// A document that was written has nothing to lose; one that could not be
/// written is as it was.
pub proof fn written_document_is_clean(window: WindowModel, error: String)
    ensures
        !window.file_written(Ok(())).0.modified,
        window.file_written(Ok(())).0.close_request().0 == Propagation::Proceed,
        window.file_written(Err(error)).0 == window,
{
}

} // verus!
