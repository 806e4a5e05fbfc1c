//! The three layouts of the window and what each of them shows.

use vstd::prelude::*;

verus! {

/// Divider position used while the width of the split view is not known yet.
pub const DEFAULT_SPLIT_POSITION: i32 = 600;

/// Which of the two panes the window shows.
#[derive(Debug, Clone, Copy, PartialEq, Eq, Structural)]
pub enum ViewMode {
    /// The editor alone.
    Write,
    /// The rendered document alone.
    Preview,
    /// Editor and rendered document side by side.
    Split,
}

impl Default for ViewMode {
    fn default() -> (mode: ViewMode)
        ensures
            mode == ViewMode::Write,
    {
        ViewMode::Write
    }
}

impl ViewMode {
    /// The editor pane is on screen in every mode but `Preview`.
    pub open spec fn spec_editor_visible(self) -> bool {
        self != ViewMode::Preview
    }

    /// The preview pane is on screen in every mode but `Write`.
    pub open spec fn spec_preview_visible(self) -> bool {
        self != ViewMode::Write
    }

    /// Tells whether the editor pane is on screen in this mode.
    #[verifier::when_used_as_spec(spec_editor_visible)]
    pub fn editor_visible(self) -> (visible: bool)
        ensures
            visible == self.spec_editor_visible(),
    {
        match self {
            ViewMode::Write => true,
            ViewMode::Preview => false,
            ViewMode::Split => true,
        }
    }

    /// Tells whether the preview pane is on screen in this mode.
    #[verifier::when_used_as_spec(spec_preview_visible)]
    pub fn preview_visible(self) -> (visible: bool)
        ensures
            visible == self.spec_preview_visible(),
    {
        match self {
            ViewMode::Write => false,
            ViewMode::Preview => true,
            ViewMode::Split => true,
        }
    }
}

/// Where the divider of a split view of the given width belongs: in the middle,
/// or at `DEFAULT_SPLIT_POSITION` while the view has no width.
pub open spec fn spec_split_position(width: i32) -> int {
    if width > 0 {
        width / 2
    } else {
        DEFAULT_SPLIT_POSITION as int
    }
}

/// Computes where the divider of a split view of the given width belongs.
pub fn split_position(width: i32) -> (position: i32)
    ensures
        position == spec_split_position(width),
{
    if width > 0 {
        width / 2
    } else {
        DEFAULT_SPLIT_POSITION
    }
}

} // verus!
