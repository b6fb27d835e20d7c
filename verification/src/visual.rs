//! Visual-mode selection and screenshot-region edits: how the mode's
//! coordinates change when the view scrolls, the anchor moves, or the
//! region is moved and resized.
use vstd::prelude::*;
use crate::mode::InputMode;

verus! {

pub open spec fn sat_sub(a: int, b: int) -> int {
    if a > b { a - b } else { 0 }
}

pub open spec fn min_int(a: int, b: int) -> int {
    if a < b { a } else { b }
}

/// Where visual mode starts: the origin of a scrolled-back view, else the
/// terminal cursor.
pub fn visual_start_pos(scroll_offset: usize, cursor_col: usize, cursor_row: usize) -> (r: (usize, usize))
    ensures
        r == if scroll_offset > 0 { (0usize, 0usize) } else { (cursor_col, cursor_row) },
{
    if scroll_offset > 0 { (0, 0) } else { (cursor_col, cursor_row) }
}

/// Visual mode after the view scrolled up `n` lines: the anchor follows
/// its text down the screen; the cursor too, kept on the last row.
pub open spec fn scrolled_up(m: InputMode, n: int, grid_rows: int) -> InputMode {
    match m {
        InputMode::Visual { start_col, start_row, cur_col, cur_row, anchored } => InputMode::Visual {
            start_col,
            start_row: (start_row + n) as usize,
            cur_col,
            cur_row: min_int(cur_row + n, sat_sub(grid_rows, 1)) as usize,
            anchored,
        },
        _ => m,
    }
}

pub fn adjust_visual_scroll_up(mode: &mut InputMode, n: usize, grid_rows: usize)
    requires
        *old(mode) matches InputMode::Visual { start_row, cur_row, .. } ==> start_row + n <= usize::MAX && cur_row + n <= usize::MAX,
    ensures
        *final(mode) == scrolled_up(*old(mode), n as int, grid_rows as int),
{
    if let InputMode::Visual { start_col, start_row, cur_col, cur_row, anchored } = *mode {
        let last = grid_rows.saturating_sub(1);
        let moved = cur_row + n;
        *mode = InputMode::Visual {
            start_col,
            start_row: start_row + n,
            cur_col,
            cur_row: if moved < last { moved } else { last },
            anchored,
        };
    }
}

/// Visual mode after the view scrolled down `n` lines: anchor and cursor
/// move up with their text, stopping at the top row.
pub open spec fn scrolled_down(m: InputMode, n: int) -> InputMode {
    match m {
        InputMode::Visual { start_col, start_row, cur_col, cur_row, anchored } => InputMode::Visual {
            start_col,
            start_row: sat_sub(start_row as int, n) as usize,
            cur_col,
            cur_row: sat_sub(cur_row as int, n) as usize,
            anchored,
        },
        _ => m,
    }
}

pub fn adjust_visual_scroll_down(mode: &mut InputMode, n: usize)
    ensures
        *final(mode) == scrolled_down(*old(mode), n as int),
{
    if let InputMode::Visual { start_col, start_row, cur_col, cur_row, anchored } = *mode {
        *mode = InputMode::Visual {
            start_col,
            start_row: start_row.saturating_sub(n),
            cur_col,
            cur_row: cur_row.saturating_sub(n),
            anchored,
        };
    }
}

/// Scrolling down undoes scrolling up by as many lines while the cursor
/// was not held on the last row.
pub proof fn lemma_scroll_down_undoes_up(m: InputMode, n: int, grid_rows: int)
    requires
        n >= 0,
        m matches InputMode::Visual { start_row, cur_row, .. } ==> start_row + n <= usize::MAX && cur_row + n <= usize::MAX
            && cur_row + n < grid_rows,
    ensures
        scrolled_down(scrolled_up(m, n, grid_rows), n) == m,
{
    if let InputMode::Visual { start_col, start_row, cur_col, cur_row, anchored } = m {
        let up = scrolled_up(m, n, grid_rows);
        assert(up == InputMode::Visual {
            start_col,
            start_row: (start_row + n) as usize,
            cur_col,
            cur_row: (cur_row + n) as usize,
            anchored,
        });
        assert(((start_row + n) as usize) as int == start_row + n);
        assert(((cur_row + n) as usize) as int == cur_row + n);
    }
}

/// Visual mode with anchor and cursor exchanged, the new cursor kept on
/// the screen's last row or above.
pub open spec fn swapped(m: InputMode, grid_rows: int) -> InputMode {
    match m {
        InputMode::Visual { start_col, start_row, cur_col, cur_row, anchored } => InputMode::Visual {
            start_col: cur_col,
            start_row: cur_row,
            cur_col: start_col,
            cur_row: min_int(start_row as int, sat_sub(grid_rows, 1)) as usize,
            anchored,
        },
        _ => m,
    }
}

pub fn swap_visual_anchor(mode: &mut InputMode, grid_rows: usize)
    ensures
        *final(mode) == swapped(*old(mode), grid_rows as int),
{
    if let InputMode::Visual { start_col, start_row, cur_col, cur_row, anchored } = *mode {
        let last = grid_rows.saturating_sub(1);
        *mode = InputMode::Visual {
            start_col: cur_col,
            start_row: cur_row,
            cur_col: start_col,
            cur_row: if start_row < last { start_row } else { last },
            anchored,
        };
    }
}

/// Exchanging anchor and cursor twice changes nothing while both lie on
/// the screen.
pub proof fn lemma_swap_twice(m: InputMode, grid_rows: int)
    requires
        m matches InputMode::Visual { start_row, cur_row, .. } ==> start_row < grid_rows && cur_row < grid_rows,
    ensures
        swapped(swapped(m, grid_rows), grid_rows) == m,
{
}

/// Visual mode anchored at the cursor.
pub open spec fn anchored_at_cursor(m: InputMode) -> InputMode {
    match m {
        InputMode::Visual { cur_col, cur_row, .. } => InputMode::Visual {
            start_col: cur_col,
            start_row: cur_row,
            cur_col,
            cur_row,
            anchored: true,
        },
        _ => m,
    }
}

pub fn set_visual_anchor(mode: &mut InputMode)
    ensures
        *final(mode) == anchored_at_cursor(*old(mode)),
{
    if let InputMode::Visual { cur_col, cur_row, .. } = *mode {
        *mode = InputMode::Visual { start_col: cur_col, start_row: cur_row, cur_col, cur_row, anchored: true };
    }
}

/// Visual mode after the cursor hit the top and the view scrolled up `n`
/// lines: the anchor follows its text, the cursor stays on the top row.
pub open spec fn boundary_scrolled_up(m: InputMode, n: int) -> InputMode {
    match m {
        InputMode::Visual { start_col, start_row, cur_col, anchored, .. } => InputMode::Visual {
            start_col,
            start_row: (start_row + n) as usize,
            cur_col,
            cur_row: 0,
            anchored,
        },
        _ => m,
    }
}

pub fn visual_boundary_scroll_up(mode: &mut InputMode, n: usize)
    requires
        *old(mode) matches InputMode::Visual { start_row, .. } ==> start_row + n <= usize::MAX,
    ensures
        *final(mode) == boundary_scrolled_up(*old(mode), n as int),
{
    if let InputMode::Visual { start_col, start_row, cur_col, anchored, .. } = *mode {
        *mode = InputMode::Visual { start_col, start_row: start_row + n, cur_col, cur_row: 0, anchored };
    }
}

/// Visual mode after the cursor hit the bottom and the view scrolled down
/// `n` lines: the anchor follows its text, the cursor stays on the last
/// row.
pub open spec fn boundary_scrolled_down(m: InputMode, n: int, grid_rows: int) -> InputMode {
    match m {
        InputMode::Visual { start_col, start_row, cur_col, anchored, .. } => InputMode::Visual {
            start_col,
            start_row: sat_sub(start_row as int, n) as usize,
            cur_col,
            cur_row: sat_sub(grid_rows, 1) as usize,
            anchored,
        },
        _ => m,
    }
}

pub fn visual_boundary_scroll_down(mode: &mut InputMode, n: usize, grid_rows: usize)
    ensures
        *final(mode) == boundary_scrolled_down(*old(mode), n as int, grid_rows as int),
{
    if let InputMode::Visual { start_col, start_row, cur_col, anchored, .. } = *mode {
        *mode = InputMode::Visual {
            start_col,
            start_row: start_row.saturating_sub(n),
            cur_col,
            cur_row: grid_rows.saturating_sub(1),
            anchored,
        };
    }
}

/// The screenshot region moved by (`dx`, `dy`), its centre kept on the
/// screen's positive quadrant.
pub open spec fn moved_region(m: InputMode, dx: int, dy: int) -> InputMode {
    match m {
        InputMode::Screenshot { cx, cy, half_w, half_h } => InputMode::Screenshot {
            cx: if cx + dx > 0 { (cx + dx) as u32 } else { 0 },
            cy: if cy + dy > 0 { (cy + dy) as u32 } else { 0 },
            half_w,
            half_h,
        },
        _ => m,
    }
}

pub fn screenshot_move(mode: &mut InputMode, dx: i32, dy: i32)
    requires
        *old(mode) matches InputMode::Screenshot { cx, cy, .. } ==> cx + dx <= i32::MAX && cy + dy <= i32::MAX
            && cx <= i32::MAX && cy <= i32::MAX,
    ensures
        *final(mode) == moved_region(*old(mode), dx as int, dy as int),
{
    if let InputMode::Screenshot { cx, cy, half_w, half_h } = *mode {
        let nx = (cx as i32) + dx;
        let ny = (cy as i32) + dy;
        *mode = InputMode::Screenshot {
            cx: if nx > 0 { nx as u32 } else { 0 },
            cy: if ny > 0 { ny as u32 } else { 0 },
            half_w,
            half_h,
        };
    }
}

/// The smallest width and height the screenshot region is resized to.
pub const MIN_REGION: i32 = 40;
/// How far one resize step moves an edge.
pub const RESIZE_STEP: i32 = 20;

/// One axis of an edge resize: the far edge moves by `d` steps, not
/// closer than the minimum size to the near edge, which stays; the result
/// is the new centre and half extent.
pub open spec fn resized_axis(c: int, half: int, d: int) -> (int, int) {
    let near = sat_sub(c, half);
    let far0 = c + half + d * RESIZE_STEP;
    let far = if far0 > near + MIN_REGION { far0 } else { near + MIN_REGION };
    (near + (far - near) / 2, (far - near) / 2)
}

pub open spec fn resized_region(m: InputMode, dw: int, dh: int) -> InputMode {
    match m {
        InputMode::Screenshot { cx, cy, half_w, half_h } => InputMode::Screenshot {
            cx: resized_axis(cx as int, half_w as int, dw).0 as u32,
            cy: resized_axis(cy as int, half_h as int, dh).0 as u32,
            half_w: resized_axis(cx as int, half_w as int, dw).1 as u32,
            half_h: resized_axis(cy as int, half_h as int, dh).1 as u32,
        },
        _ => m,
    }
}

/// Whether one axis of an edge resize stays within `i32`.
pub open spec fn axis_fits(c: int, half: int, d: int) -> bool {
    c + half <= i32::MAX && i32::MIN <= d * RESIZE_STEP <= i32::MAX
        && i32::MIN <= c + half + d * RESIZE_STEP <= i32::MAX && sat_sub(c, half) + MIN_REGION <= i32::MAX
}

fn resize_axis(c: u32, half: u32, d: i32) -> (r: (u32, u32))
    requires
        axis_fits(c as int, half as int, d as int),
    ensures
        (r.0 as int, r.1 as int) == resized_axis(c as int, half as int, d as int),
{
    let near = c.saturating_sub(half) as i32;
    let far0 = (c + half) as i32 + d * RESIZE_STEP;
    let far = if far0 > near + MIN_REGION { far0 } else { near + MIN_REGION };
    let halfspan = (far - near) / 2;
    ((near + halfspan) as u32, halfspan as u32)
}

pub fn screenshot_edge_resize(mode: &mut InputMode, dw: i32, dh: i32)
    requires
        *old(mode) matches InputMode::Screenshot { cx, cy, half_w, half_h } ==> axis_fits(cx as int, half_w as int, dw as int)
            && axis_fits(cy as int, half_h as int, dh as int),
    ensures
        *final(mode) == resized_region(*old(mode), dw as int, dh as int),
{
    if let InputMode::Screenshot { cx, cy, half_w, half_h } = *mode {
        let (ncx, nhw) = resize_axis(cx, half_w, dw);
        let (ncy, nhh) = resize_axis(cy, half_h, dh);
        *mode = InputMode::Screenshot { cx: ncx, cy: ncy, half_w: nhw, half_h: nhh };
    }
}

/// An edge resize keeps the near edge where it was and never makes the
/// region narrower than the minimum.
pub proof fn lemma_resize_keeps_near_edge(c: int, half: int, d: int)
    requires
        c >= 0,
        half >= 0,
    ensures
        resized_axis(c, half, d).0 - resized_axis(c, half, d).1 == sat_sub(c, half),
        2 * resized_axis(c, half, d).1 >= MIN_REGION,
{
}

/// Confirming the region asks for the screenshot's name, starting empty.
pub fn screenshot_capture(mode: &mut InputMode) -> (redraw: bool)
    ensures
        redraw == (*old(mode) is Screenshot),
        *old(mode) matches InputMode::Screenshot { cx, cy, half_w, half_h } ==> (*final(mode) matches
            InputMode::ScreenshotName { cx: x, cy: y, half_w: w, half_h: h, name } && x == cx && y == cy && w == half_w
            && h == half_h && name@.len() == 0),
        !(*old(mode) is Screenshot) ==> *final(mode) == *old(mode),
{
    if let InputMode::Screenshot { cx, cy, half_w, half_h } = *mode {
        *mode = InputMode::ScreenshotName { cx, cy, half_w, half_h, name: String::new() };
        true
    } else {
        false
    }
}

/// The mode after switching to `new_mode`: entering visual mode from
/// another mode starts it, unanchored, at `start` (see
/// [`visual_start_pos`]); within visual mode, and for every other mode,
/// the new mode is taken as it is.
pub open spec fn mode_after_set(current: InputMode, new_mode: InputMode, start: (usize, usize)) -> InputMode {
    if (new_mode is Visual) && !(current is Visual) {
        InputMode::Visual { start_col: start.0, start_row: start.1, cur_col: start.0, cur_row: start.1, anchored: false }
    } else {
        new_mode
    }
}

pub fn set_mode(current: &InputMode, new_mode: InputMode, start: (usize, usize)) -> (r: InputMode)
    ensures
        r == mode_after_set(*current, new_mode, start),
{
    let entering = match (&new_mode, current) {
        (InputMode::Visual { .. }, InputMode::Visual { .. }) => false,
        (InputMode::Visual { .. }, _) => true,
        _ => false,
    };
    if entering {
        InputMode::Visual { start_col: start.0, start_row: start.1, cur_col: start.0, cur_row: start.1, anchored: false }
    } else {
        new_mode
    }
}

} // verus!
