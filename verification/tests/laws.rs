use mymarkdown::paths::markdown_path;
use mymarkdown::{Command, DialogResponse, MyMarkdownWindow, ViewMode};

#[test]
fn markdown_path_twice_is_markdown_path_once() {
    for name in ["notes", "notes.md", "", ".md", "a.b", "dir/", "x.MD", "é"] {
        let once = markdown_path(name);
        assert!(once.ends_with(".md"));
        assert_eq!(markdown_path(&once), once);
    }
}

#[test]
fn response_names_lead_back_to_the_response() {
    for response in [DialogResponse::Save, DialogResponse::Discard, DialogResponse::Cancel] {
        assert_eq!(DialogResponse::from_id(response.id()), response);
    }
}

#[test]
fn pressed_button_changes_the_mode_and_nothing_else() {
    for start in [ViewMode::Write, ViewMode::Preview, ViewMode::Split] {
        let mut window = MyMarkdownWindow::new(None, String::from("/work")).0;
        window.view_mode = start;
        window.modified = true;
        window.current_file = Some(String::from("/work/a.md"));

        let mut pressed = window.clone();
        let commands = pressed.write_toggled(true);
        assert_eq!(commands.last(), Some(&Command::EndUpdate));
        pressed.end_update();
        let mut expected = window.clone();
        expected.view_mode = ViewMode::Write;
        assert_eq!(pressed, expected);

        let mut pressed = window.clone();
        let commands = pressed.preview_toggled(true);
        assert_eq!(commands.last(), Some(&Command::EndUpdate));
        pressed.end_update();
        expected.view_mode = ViewMode::Preview;
        assert_eq!(pressed, expected);

        let mut pressed = window.clone();
        let commands = pressed.split_toggled(true, false, true);
        assert_eq!(commands.last(), Some(&Command::EndUpdate));
        pressed.end_update();
        expected.view_mode = ViewMode::Split;
        assert_eq!(pressed, expected);
    }
}

#[test]
fn switching_renders_exactly_where_the_preview_shows() {
    for start in [ViewMode::Write, ViewMode::Preview, ViewMode::Split] {
        for mode in [ViewMode::Write, ViewMode::Preview, ViewMode::Split] {
            let mut window = MyMarkdownWindow::new(None, String::from("/work")).0;
            window.view_mode = start;
            assert!(mode.editor_visible() || mode.preview_visible());
            let commands = window.set_view_mode(mode);
            assert_eq!(commands.contains(&Command::RefreshPreview), mode.preview_visible());
        }
    }
}

#[test]
fn every_buffer_change_renders_once() {
    for mode in [ViewMode::Write, ViewMode::Preview, ViewMode::Split] {
        let mut window = MyMarkdownWindow::new(None, String::from("/work")).0;
        window.view_mode = mode;
        let commands = window.buffer_changed();
        let renders = commands.iter().filter(|c| **c == Command::RefreshPreview).count();
        assert_eq!(renders, 1);
        assert_eq!(commands.len(), 1);
    }
}
