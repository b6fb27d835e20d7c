//! Per-pane drawing inputs and cursor placement.
use vstd::prelude::*;
use crate::draw::CursorShape;
use crate::grid::Grid;
use crate::mode::InputMode;

verus! {

/// Everything a pane is drawn from.
pub struct PaneView<'a> {
    pub grid: &'a Grid,
    pub rect: [u32; 4],
    pub scroll_offset: usize,
    pub is_active: bool,
    pub show_cursor: bool,
    /// When false, cells with `blink` set have their glyph hidden.
    pub blink_visible: bool,
    /// Matches `(abs_row, start_col, len)` sorted by `abs_row`.
    pub search_matches: &'a [(usize, usize, usize)],
    pub search_current: Option<usize>,
    /// The hovered hyperlink; only cells carrying it are underlined.
    pub hovered_url: Option<&'a str>,
    pub cursor_shape: CursorShape,
}

/// Whether the cursor is drawn at (`col`, `row`): the visual-mode cursor in
/// the active pane (during its visible blink phase), the terminal cursor
/// otherwise when it is shown.
pub open spec fn cursor_at(pane: &PaneView, mode: InputMode, col: int, row: int, grid: &Grid) -> bool {
    match mode {
        InputMode::Visual { cur_col, cur_row, .. } if pane.is_active => col == cur_col && row == cur_row && pane.blink_visible,
        _ => pane.show_cursor && col == grid.cursor_col && row == grid.cursor_row,
    }
}

pub fn is_cell_cursor(pane: &PaneView, mode: &InputMode, col: usize, row: usize, grid: &Grid) -> (r: bool)
    ensures
        r == cursor_at(pane, *mode, col as int, row as int, grid),
{
    match mode {
        InputMode::Visual { cur_col, cur_row, .. } if pane.is_active => col == *cur_col && row == *cur_row && pane.blink_visible,
        _ => pane.show_cursor && col == grid.cursor_col && row == grid.cursor_row,
    }
}

/// Sets pixel (`sx`, `sy`) when it lies left of and above the far edges of
/// `clip` = (x, y, w, h) and in the buffer.
pub fn blit_pixel(buf: &mut [u32], buf_width: u32, sx: u32, sy: u32, clip: [u32; 4], color: u32)
    requires
        clip@[0] + clip@[2] <= u32::MAX,
        clip@[1] + clip@[3] <= u32::MAX,
        sx < clip@[0] + clip@[2] && sy < clip@[1] + clip@[3] ==> sy * buf_width + sx <= u32::MAX,
    ensures
        final(buf)@ == if sx < clip@[0] + clip@[2] && sy < clip@[1] + clip@[3] && sy * buf_width + sx < old(buf)@.len() {
            old(buf)@.update(sy * buf_width + sx, color)
        } else {
            old(buf)@
        },
{
    let rx = clip[0];
    let ry = clip[1];
    let rw = clip[2];
    let rh = clip[3];
    if sx >= rx + rw || sy >= ry + rh {
        return;
    }
    let idx = (sy * buf_width + sx) as usize;
    if idx < buf.len() {
        buf[idx] = color;
    }
}

/// The pixel size of one cell.
pub struct CellSize {
    pub cell_width: u32,
    pub cell_height: u32,
}

impl CellSize {
    /// How many whole cells fit in `w` by `h` pixels, at least one each way.
    pub fn grid_size_for(&self, w: u32, h: u32) -> (r: (usize, usize))
        requires
            self.cell_width > 0,
            self.cell_height > 0,
        ensures
            r.0 == if w / self.cell_width > 1 { w / self.cell_width } else { 1 },
            r.1 == if h / self.cell_height > 1 { h / self.cell_height } else { 1 },
    {
        let c = w / self.cell_width;
        let r = h / self.cell_height;
        (if c > 1 { c as usize } else { 1 }, if r > 1 { r as usize } else { 1 })
    }
}

} // verus!
