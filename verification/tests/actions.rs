use mymarkdown::actions::{
    clipboard_read, key_pressed, ACTION_PREFIX, KEY_V_LOWER, KEY_V_UPPER,
};
use mymarkdown::application::{
    file_argument, initial_directory, APPLICATION_ID, ROOT_DIR,
};
use mymarkdown::{
    Command, MyMarkdownApp, MyMarkdownWindow, PendingAction, Propagation, ViewMode, WindowAction,
};

fn fresh() -> MyMarkdownWindow {
    MyMarkdownWindow::new(None, String::from("/work")).0
}

#[test]
fn actions_in_their_order() {
    assert_eq!(
        WindowAction::all(),
        vec![
            WindowAction::New,
            WindowAction::Open,
            WindowAction::Save,
            WindowAction::SaveAs,
            WindowAction::WriteMode,
            WindowAction::PreviewMode,
            WindowAction::ToggleSplit,
            WindowAction::About,
        ]
    );
}

#[test]
fn actions_have_their_names() {
    assert_eq!(WindowAction::New.name(), "new");
    assert_eq!(WindowAction::Open.name(), "open");
    assert_eq!(WindowAction::Save.name(), "save");
    assert_eq!(WindowAction::SaveAs.name(), "save-as");
    assert_eq!(WindowAction::WriteMode.name(), "write-mode");
    assert_eq!(WindowAction::PreviewMode.name(), "preview-mode");
    assert_eq!(WindowAction::ToggleSplit.name(), "toggle-split");
    assert_eq!(WindowAction::About.name(), "about");
}

#[test]
fn detailed_names_carry_the_prefix() {
    assert_eq!(ACTION_PREFIX, "win.");
    assert_eq!(WindowAction::New.detailed_name(), "win.new");
    assert_eq!(WindowAction::SaveAs.detailed_name(), "win.save-as");
    assert_eq!(WindowAction::ToggleSplit.detailed_name(), "win.toggle-split");
    assert_eq!(WindowAction::About.detailed_name(), "win.about");
}

#[test]
fn actions_have_their_keys() {
    assert_eq!(WindowAction::New.accelerator(), Some("<Ctrl>n"));
    assert_eq!(WindowAction::Open.accelerator(), Some("<Ctrl>o"));
    assert_eq!(WindowAction::Save.accelerator(), Some("<Ctrl>s"));
    assert_eq!(WindowAction::SaveAs.accelerator(), Some("<Ctrl><Shift>s"));
    assert_eq!(WindowAction::WriteMode.accelerator(), Some("<Ctrl>1"));
    assert_eq!(WindowAction::PreviewMode.accelerator(), Some("<Ctrl>2"));
    assert_eq!(WindowAction::ToggleSplit.accelerator(), Some("<Ctrl>backslash"));
    assert_eq!(WindowAction::About.accelerator(), None);
}

#[test]
fn document_actions_do_what_the_buttons_do() {
    let mut window = fresh();
    window.modified = true;
    assert_eq!(
        window.activate_action(WindowAction::New, false),
        vec![Command::ConfirmDiscard(PendingAction::NewFile)]
    );
    assert_eq!(
        window.activate_action(WindowAction::Open, false),
        vec![Command::ConfirmDiscard(PendingAction::OpenFile)]
    );
    assert_eq!(
        window.activate_action(WindowAction::Save, false),
        vec![Command::ChooseSaveTarget(String::from("/work"))]
    );
    window.current_file = Some(String::from("/work/a.md"));
    assert_eq!(
        window.activate_action(WindowAction::Save, false),
        vec![Command::WriteFile(String::from("/work/a.md"))]
    );
    assert_eq!(
        window.activate_action(WindowAction::SaveAs, false),
        vec![Command::ChooseSaveTarget(String::from("/work"))]
    );
    window.modified = false;
    let commands = window.activate_action(WindowAction::New, true);
    assert_eq!(commands.len(), 3);
    assert_eq!(window.current_file, None);
}

#[test]
fn mode_actions_press_the_buttons() {
    let mut window = fresh();
    let before = window.clone();
    assert_eq!(
        window.activate_action(WindowAction::WriteMode, false),
        vec![Command::SetWriteActive(true)]
    );
    assert_eq!(
        window.activate_action(WindowAction::PreviewMode, true),
        vec![Command::SetPreviewActive(true)]
    );
    assert_eq!(
        window.activate_action(WindowAction::ToggleSplit, false),
        vec![Command::SetSplitActive(true)]
    );
    assert_eq!(
        window.activate_action(WindowAction::ToggleSplit, true),
        vec![Command::SetSplitActive(false)]
    );
    assert_eq!(window.activate_action(WindowAction::About, false), vec![Command::ShowAbout]);
    assert_eq!(window, before);
    assert_eq!(window.view_mode, ViewMode::Write);
}

#[test]
fn control_v_pastes_plain_text() {
    assert_eq!(KEY_V_LOWER, 0x76);
    assert_eq!(KEY_V_UPPER, 0x56);
    let reaction = key_pressed(true, KEY_V_LOWER);
    assert_eq!(reaction.propagation, Propagation::Stop);
    assert_eq!(reaction.commands, vec![Command::ReadClipboard]);
    let reaction = key_pressed(true, KEY_V_UPPER);
    assert_eq!(reaction.propagation, Propagation::Stop);
    assert_eq!(reaction.commands, vec![Command::ReadClipboard]);
}

#[test]
fn other_keys_go_to_the_toolkit() {
    for (control, keyval) in [(false, 118), (false, 86), (true, 119), (true, 99), (true, 0), (false, 0)] {
        let reaction = key_pressed(control, keyval);
        assert_eq!(reaction.propagation, Propagation::Proceed);
        assert_eq!(reaction.commands, vec![]);
    }
}

#[test]
fn clipboard_text_is_put_in() {
    assert_eq!(
        clipboard_read(Some(String::from("plain"))),
        vec![Command::InsertText(String::from("plain"))]
    );
    assert_eq!(clipboard_read(Some(String::new())), vec![Command::InsertText(String::new())]);
    assert_eq!(clipboard_read(None), vec![]);
}

#[test]
fn file_argument_is_the_first_after_the_program() {
    assert_eq!(file_argument(&vec![]), None);
    assert_eq!(file_argument(&vec![String::from("mymarkdown")]), None);
    assert_eq!(
        file_argument(&vec![String::from("mymarkdown"), String::from("a.md")]),
        Some(String::from("a.md"))
    );
    assert_eq!(
        file_argument(&vec![String::from("mymarkdown"), String::from("a"), String::from("b")]),
        Some(String::from("a"))
    );
}

#[test]
fn initial_directory_prefers_the_working_directory() {
    assert_eq!(ROOT_DIR, "/");
    assert_eq!(
        initial_directory(Some(String::from("/work")), Some(String::from("/home/pan"))),
        "/work"
    );
    assert_eq!(initial_directory(Some(String::from("/work")), None), "/work");
    assert_eq!(initial_directory(None, Some(String::from("/home/pan"))), "/home/pan");
    assert_eq!(initial_directory(None, None), "/");
}

#[test]
fn application_opens_its_window() {
    assert_eq!(APPLICATION_ID, "org.gnome.MyMarkdown");
    let app = MyMarkdownApp::new(Some(String::from("notes")), String::from("/work"));
    assert_eq!(app.file_arg, Some(String::from("notes")));
    assert_eq!(app.initial_dir, "/work");
    let (window, commands) = app.activate();
    assert_eq!(window.initial_dir, "/work");
    assert_eq!(window.current_file, None);
    assert_eq!(commands.last(), Some(&Command::CheckFile(String::from("notes.md"))));
    let (again, same) = app.activate();
    assert_eq!(again, window);
    assert_eq!(same, commands);
}

#[test]
fn application_without_document_opens_an_untitled_window() {
    let app = MyMarkdownApp::new(None, String::from("/"));
    let (window, commands) = app.activate();
    assert_eq!(window, MyMarkdownWindow::new(None, String::from("/")).0);
    assert_eq!(
        commands.last(),
        Some(&Command::SetTitle(String::from("Untitled - MyMarkdown")))
    );
}
