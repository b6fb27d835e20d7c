//! The modal state of keyboard input.
use vstd::prelude::*;

verus! {

#[derive(Clone, Debug)]
pub enum InputMode {
    Normal,
    Insert,
    /// Visual mode: cursor navigates freely; selection only active when `anchored` is true.
    Visual { start_col: usize, start_row: usize, cur_col: usize, cur_row: usize, anchored: bool },
    /// Inline tab-rename: `buf` holds the name being typed.
    RenameTab { buf: String },
    /// Scrollback search: `query` holds the pattern being typed.
    /// `history_pos` is `Some((idx, len))` while previous queries are browsed.
    Search { query: String, history_pos: Option<(usize, usize)> },
    /// Command palette: `query` filters actions; `selected` indexes the filtered list.
    CommandPalette { query: String, selected: usize },
    /// Quit was triggered; waiting for the save-session decision.
    QuitSave,
    /// Screenshot region selector: rectangle centred at (cx, cy) with half extents.
    Screenshot { cx: u32, cy: u32, half_w: u32, half_h: u32 },
    /// A name for the screenshot is being typed.
    ScreenshotName { cx: u32, cy: u32, half_w: u32, half_h: u32, name: String },
}

impl InputMode {
    /// An equal, independent copy of the mode.
    pub fn clone_mode(&self) -> (r: InputMode)
        ensures
            r == *self,
    {
        match self {
            InputMode::Normal => InputMode::Normal,
            InputMode::Insert => InputMode::Insert,
            InputMode::Visual { start_col, start_row, cur_col, cur_row, anchored } => InputMode::Visual {
                start_col: *start_col,
                start_row: *start_row,
                cur_col: *cur_col,
                cur_row: *cur_row,
                anchored: *anchored,
            },
            InputMode::RenameTab { buf } => InputMode::RenameTab { buf: buf.clone() },
            InputMode::Search { query, history_pos } => InputMode::Search { query: query.clone(), history_pos: *history_pos },
            InputMode::CommandPalette { query, selected } => InputMode::CommandPalette { query: query.clone(), selected: *selected },
            InputMode::QuitSave => InputMode::QuitSave,
            InputMode::Screenshot { cx, cy, half_w, half_h } => InputMode::Screenshot {
                cx: *cx,
                cy: *cy,
                half_w: *half_w,
                half_h: *half_h,
            },
            InputMode::ScreenshotName { cx, cy, half_w, half_h, name } => InputMode::ScreenshotName {
                cx: *cx,
                cy: *cy,
                half_w: *half_w,
                half_h: *half_h,
                name: name.clone(),
            },
        }
    }
}

/// Visual mode at the origin, not anchored.
pub open spec fn visual_origin() -> InputMode {
    InputMode::Visual { start_col: 0, start_row: 0, cur_col: 0, cur_row: 0, anchored: false }
}

/// Visual mode at the origin, not anchored.
pub fn visual_mode_init() -> (m: InputMode)
    ensures
        m == visual_origin(),
{
    InputMode::Visual { start_col: 0, start_row: 0, cur_col: 0, cur_row: 0, anchored: false }
}

} // verus!
