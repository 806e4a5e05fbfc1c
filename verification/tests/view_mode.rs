use mymarkdown::view_mode::{split_position, DEFAULT_SPLIT_POSITION};
use mymarkdown::ViewMode;

#[test]
fn default_mode_is_write() {
    assert_eq!(ViewMode::default(), ViewMode::Write);
}

#[test]
fn write_mode_shows_the_editor_alone() {
    assert!(ViewMode::Write.editor_visible());
    assert!(!ViewMode::Write.preview_visible());
}

#[test]
fn preview_mode_shows_the_preview_alone() {
    assert!(!ViewMode::Preview.editor_visible());
    assert!(ViewMode::Preview.preview_visible());
}

#[test]
fn split_mode_shows_both_panes() {
    assert!(ViewMode::Split.editor_visible());
    assert!(ViewMode::Split.preview_visible());
}

#[test]
fn divider_sits_in_the_middle() {
    assert_eq!(split_position(1200), 600);
    assert_eq!(split_position(1001), 500);
    assert_eq!(split_position(1), 0);
    assert_eq!(split_position(i32::MAX), 1073741823);
}

#[test]
fn divider_falls_back_without_a_width() {
    assert_eq!(DEFAULT_SPLIT_POSITION, 600);
    assert_eq!(split_position(0), 600);
    assert_eq!(split_position(-5), 600);
    assert_eq!(split_position(i32::MIN), 600);
}
