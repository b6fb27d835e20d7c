//! Pixel-buffer primitives and per-cell colour decisions of the renderer.
//! A buffer holds `0xAARRGGBB` pixels row-major, `bw` pixels to a row.
use vstd::prelude::*;
use crate::grid::{plain_cell, Cell, Color, Grid};
use crate::mode::InputMode;
use crate::text::{chars_eq, str_chars};

verus! {

/// The colours the renderer takes from the active theme.
pub struct ResolvedTheme {
    pub palette: [Color; 16],
    pub search_match: Color,
    pub search_current: Color,
    pub scrollbar: Color,
}

/// The shape the running program asked the cursor to have.
#[derive(Clone, Copy, Debug, PartialEq, Eq, Structural)]
pub enum CursorShape {
    Block,
    Underline,
    Bar,
}

/// Foreground of text inside a search match: dark, for contrast on the
/// highlight.
pub open spec fn search_match_fg() -> Color {
    Color { r: 0x11, g: 0x11, b: 0x1d }
}

/// What an out-of-range lookup shows.
pub open spec fn blank_cell() -> Cell {
    plain_cell(' ', Color { r: 255, g: 255, b: 255 }, Color { r: 0x12, g: 0x12, b: 0x12 })
}

pub open spec fn sat_sub(a: int, b: int) -> int {
    if a > b { a - b } else { 0 }
}

/// The row of scrollback-then-live lines that viewport row `row` shows when
/// the view is scrolled `scroll` lines back.
pub open spec fn view_line(g: &Grid, scroll: int, row: int) -> int {
    sat_sub(g.scrollback@.len() as int, scroll) + row
}

/// Whether viewport row `row` falls on a live row while scrolled back.
pub open spec fn on_live_row(g: &Grid, scroll: int, row: int) -> bool {
    scroll != 0 && view_line(g, scroll, row) >= g.scrollback@.len()
        && view_line(g, scroll, row) - g.scrollback@.len() < g.rows
}

/// The cell shown at viewport position (`col`, `row`).
pub open spec fn get_cell_spec(g: &Grid, scroll: int, row: int, col: int) -> Cell {
    if scroll == 0 {
        if col < g.cols && row < g.rows { g.cell_at(col, row) } else { blank_cell() }
    } else {
        let sb_len = g.scrollback@.len() as int;
        let line = view_line(g, scroll, row);
        if line < sb_len {
            if col < g.sb()[line].len() { g.sb()[line][col] } else { blank_cell() }
        } else if line - sb_len < g.rows {
            g.cell_at(col, line - sb_len)
        } else {
            blank_cell()
        }
    }
}

pub fn make_blank_cell() -> (c: Cell)
    ensures
        c == blank_cell(),
{
    crate::grid::make_plain_cell(' ', Color { r: 255, g: 255, b: 255 }, Color { r: 0x12, g: 0x12, b: 0x12 })
}

/// The cell shown at viewport position (`col`, `row`) with the view
/// scrolled `scroll_offset` lines back; a blank cell outside the grid and
/// past the end of a short scrollback line.
pub fn get_cell(grid: &Grid, scroll_offset: usize, row: usize, col: usize) -> (c: Cell)
    requires
        grid.wf(),
        view_line(grid, scroll_offset as int, row as int) <= usize::MAX,
        on_live_row(grid, scroll_offset as int, row as int) ==> col < grid.cols,
    ensures
        c == get_cell_spec(grid, scroll_offset as int, row as int, col as int),
{
    if scroll_offset == 0 {
        return if col < grid.cols && row < grid.rows {
            grid.cell(col, row).duplicate()
        } else {
            make_blank_cell()
        };
    }
    let sb_len = grid.scrollback.len();
    let sb_row = sb_len.saturating_sub(scroll_offset) + row;
    if sb_row < sb_len {
        let line = &grid.scrollback[sb_row];
        assert(grid.sb()[sb_row as int] == line@);
        if col < line.len() {
            line[col].duplicate()
        } else {
            make_blank_cell()
        }
    } else {
        let live_row = sb_row - sb_len;
        if live_row < grid.rows {
            grid.cell(col, live_row).duplicate()
        } else {
            make_blank_cell()
        }
    }
}

/// The pixel value of an opaque colour.
pub open spec fn pixel_of(c: Color) -> u32 {
    (0xFF00_0000 + c.r as int * 0x1_0000 + c.g as int * 0x100 + c.b as int) as u32
}

pub fn color_u32(c: Color) -> (p: u32)
    ensures
        p == pixel_of(c),
        p == 0xFF00_0000 + c.r * 0x1_0000 + c.g * 0x100 + c.b,
{
    let r = c.r as u32;
    let g = c.g as u32;
    let b = c.b as u32;
    let p = (0xFFu32 << 24) | (r << 16) | (g << 8) | b;
    assert(p == 0xFF00_0000 + r * 0x1_0000 + g * 0x100 + b) by (bit_vector)
        requires
            r < 256,
            g < 256,
            b < 256,
            p == (0xFFu32 << 24) | (r << 16) | (g << 8) | b;
    p
}

/// The label and badge colour of the status bar for `mode`.
pub open spec fn mode_style_spec(mode: InputMode, passthrough: bool, theme: &ResolvedTheme) -> (Seq<char>, u32) {
    match mode {
        InputMode::Normal => ("NORMAL"@, pixel_of(theme.palette@[4])),
        InputMode::Insert => (
            if passthrough { "INSERT PASS"@ } else { "INSERT"@ },
            pixel_of(theme.palette@[2]),
        ),
        InputMode::Visual { .. } => ("VISUAL"@, pixel_of(theme.palette@[5])),
        InputMode::RenameTab { .. } => ("RENAME"@, pixel_of(theme.palette@[3])),
        InputMode::Search { .. } => ("SEARCH"@, pixel_of(theme.palette@[3])),
        InputMode::CommandPalette { .. } => ("PALETTE"@, pixel_of(theme.palette@[6])),
        InputMode::QuitSave => ("INSERT"@, pixel_of(theme.palette@[2])),
        InputMode::Screenshot { .. } => ("SHOT"@, pixel_of(theme.palette@[3])),
        InputMode::ScreenshotName { .. } => ("SHOT"@, pixel_of(theme.palette@[3])),
    }
}

pub fn mode_style(mode: &InputMode, passthrough: bool, theme: &ResolvedTheme) -> (r: (&'static str, u32))
    ensures
        (r.0@, r.1) == mode_style_spec(*mode, passthrough, theme),
{
    match mode {
        InputMode::Normal => ("NORMAL", color_u32(theme.palette[4])),
        InputMode::Insert => {
            let label = if passthrough { "INSERT PASS" } else { "INSERT" };
            (label, color_u32(theme.palette[2]))
        },
        InputMode::Visual { .. } => ("VISUAL", color_u32(theme.palette[5])),
        InputMode::RenameTab { .. } => ("RENAME", color_u32(theme.palette[3])),
        InputMode::Search { .. } => ("SEARCH", color_u32(theme.palette[3])),
        InputMode::CommandPalette { .. } => ("PALETTE", color_u32(theme.palette[6])),
        InputMode::QuitSave => ("INSERT", color_u32(theme.palette[2])),
        InputMode::Screenshot { .. } => ("SHOT", color_u32(theme.palette[3])),
        InputMode::ScreenshotName { .. } => ("SHOT", color_u32(theme.palette[3])),
    }
}

/// Whether a glyph `draw_w` wide at (`cell_x`, `cell_y`) would cross the
/// right or bottom padding of the pane rectangle (`rx`, `ry`, `rw`, `rh`).
pub fn cell_out_of_pane_bounds(
    cell_x: u32,
    cell_y: u32,
    draw_w: u32,
    cell_height: u32,
    rx: u32,
    ry: u32,
    rw: u32,
    rh: u32,
    padding: u32,
) -> (r: bool)
    requires
        cell_x + draw_w <= u32::MAX,
        cell_y + cell_height <= u32::MAX,
        rx + sat_sub(rw as int, padding as int) <= u32::MAX,
        ry + sat_sub(rh as int, padding as int) <= u32::MAX,
    ensures
        r == (cell_x + draw_w > rx + sat_sub(rw as int, padding as int)
            || cell_y + cell_height > ry + sat_sub(rh as int, padding as int)),
{
    cell_x + draw_w > rx + rw.saturating_sub(padding) || cell_y + cell_height > ry + rh.saturating_sub(padding)
}

/// A cell's glyph is drawn unless it is a space or blinks in its off phase.
pub fn should_draw_glyph(cell: &Cell, blink_visible: bool) -> (r: bool)
    ensures
        r == (cell.c != ' ' && (!cell.blink || blink_visible)),
{
    cell.c != ' ' && (!cell.blink || blink_visible)
}

/// A cell is under the hovered link when both carry the same URL.
pub fn cell_url_hovered(cell_url: Option<&str>, hovered_url: Option<&str>) -> (r: bool)
    ensures
        r == (cell_url.is_some() && hovered_url.is_some() && cell_url.unwrap()@ == hovered_url.unwrap()@),
{
    match (cell_url, hovered_url) {
        (Some(cu), Some(hu)) => {
            let a = str_chars(cu);
            let b = str_chars(hu);
            chars_eq(&a, &b)
        },
        _ => false,
    }
}

/// The index of the pixel `dx` right of and `dy` below (`x`, `y`).
pub open spec fn rect_pos(bw: int, x: int, y: int, dx: int, dy: int) -> int {
    (y + dy) * bw + x + dx
}

/// Whether pixel `i` lies in rows `y .. y + hs` (and, in row `y + hs`,
/// columns `x .. x + ws`) of the `w` by `h` rectangle at (`x`, `y`).
pub open spec fn rect_covers_upto(bw: int, x: int, y: int, w: int, i: int, hs: int, ws: int) -> bool {
    (exists|dx: int, dy: int| 0 <= dx < w && 0 <= dy < hs && i == #[trigger] rect_pos(bw, x, y, dx, dy))
        || (exists|dx: int| 0 <= dx < ws && i == #[trigger] rect_pos(bw, x, y, dx, hs))
}

/// Whether pixel `i` lies in the `w` by `h` rectangle at (`x`, `y`).
pub open spec fn rect_covers(bw: int, x: int, y: int, w: int, h: int, i: int) -> bool {
    exists|dx: int, dy: int| 0 <= dx < w && 0 <= dy < h && i == #[trigger] rect_pos(bw, x, y, dx, dy)
}

/// The largest index the rectangle touches fits in 32 bits.
pub open spec fn rect_fits(bw: int, x: int, y: int, w: int, h: int) -> bool {
    w == 0 || h == 0 || (y + h - 1 <= u32::MAX && (y + h - 1) * bw + x + w - 1 <= u32::MAX)
}

/// Paints the `w` by `h` rectangle at (`x`, `y`) with `color`, skipping
/// pixels past the end of the buffer.
pub fn fill_rect(buf: &mut [u32], bw: u32, x: u32, y: u32, w: u32, h: u32, color: u32)
    requires
        rect_fits(bw as int, x as int, y as int, w as int, h as int),
    ensures
        final(buf)@.len() == old(buf)@.len(),
        forall|i: int| 0 <= i < old(buf)@.len() ==> #[trigger] final(buf)@[i] == if rect_covers(
            bw as int, x as int, y as int, w as int, h as int, i) { color } else { old(buf)@[i] },
{
    let ghost b0 = buf@;
    let mut dy: u32 = 0;
    while dy < h
        invariant
            dy <= h,
            buf@.len() == b0.len(),
            rect_fits(bw as int, x as int, y as int, w as int, h as int),
            forall|i: int| 0 <= i < b0.len() ==> #[trigger] buf@[i] == if rect_covers_upto(
                bw as int, x as int, y as int, w as int, i, dy as int, 0) { color } else { b0[i] },
        decreases h - dy,
    {
        let mut dx: u32 = 0;
        while dx < w
            invariant
                dy < h,
                dx <= w,
                buf@.len() == b0.len(),
                rect_fits(bw as int, x as int, y as int, w as int, h as int),
                forall|i: int| 0 <= i < b0.len() ==> #[trigger] buf@[i] == if rect_covers_upto(
                    bw as int, x as int, y as int, w as int, i, dy as int, dx as int) { color } else { b0[i] },
            decreases w - dx,
        {
            proof {
                assert((y + dy) * bw <= (y + h - 1) * bw) by (nonlinear_arith)
                    requires dy <= h - 1;
            }
            let idx = ((y + dy) * bw + x + dx) as usize;
            let ghost before = buf@;
            if idx < buf.len() {
                buf[idx] = color;
            }
            proof {
                assert forall|i: int| 0 <= i < b0.len() implies #[trigger] buf@[i] == if rect_covers_upto(
                    bw as int, x as int, y as int, w as int, i, dy as int, dx + 1) { color } else { b0[i] } by {
                    if i == idx {
                        assert(i == rect_pos(bw as int, x as int, y as int, dx as int, dy as int));
                    } else {
                        assert(buf@[i] == before[i]);
                        if rect_covers_upto(bw as int, x as int, y as int, w as int, i, dy as int, dx + 1) {
                            if !(exists|a: int, b: int| 0 <= a < w && 0 <= b < dy && i == rect_pos(bw as int, x as int, y as int, a, b)) {
                                let a = choose|a: int| 0 <= a < dx + 1 && i == rect_pos(bw as int, x as int, y as int, a, dy as int);
                                assert(a != dx);
                            }
                        }
                    }
                }
            }
            dx = dx + 1;
        }
        proof {
            assert forall|i: int| 0 <= i < b0.len() implies #[trigger] buf@[i] == if rect_covers_upto(
                bw as int, x as int, y as int, w as int, i, dy + 1, 0) { color } else { b0[i] } by {
                let p = rect_covers_upto(bw as int, x as int, y as int, w as int, i, dy as int, w as int);
                let q = rect_covers_upto(bw as int, x as int, y as int, w as int, i, dy + 1, 0);
                if p {
                    if exists|a: int| 0 <= a < w && i == rect_pos(bw as int, x as int, y as int, a, dy as int) {
                        let a = choose|a: int| 0 <= a < w && i == rect_pos(bw as int, x as int, y as int, a, dy as int);
                        assert(0 <= a < w && 0 <= dy < dy + 1 && i == rect_pos(bw as int, x as int, y as int, a, dy as int));
                    } else {
                        let (a, b) = choose|a: int, b: int| 0 <= a < w && 0 <= b < dy && i == rect_pos(bw as int, x as int, y as int, a, b);
                        assert(0 <= a < w && 0 <= b < dy + 1 && i == rect_pos(bw as int, x as int, y as int, a, b));
                    }
                }
                if q {
                    let (a, b) = choose|a: int, b: int| 0 <= a < w && 0 <= b < dy + 1 && i == rect_pos(bw as int, x as int, y as int, a, b);
                    if b < dy {
                        assert(0 <= a < w && 0 <= b < dy && i == rect_pos(bw as int, x as int, y as int, a, b));
                    } else {
                        assert(0 <= a < w && i == rect_pos(bw as int, x as int, y as int, a, dy as int));
                    }
                }
            }
        }
        dy = dy + 1;
    }
    proof {
        assert forall|i: int| 0 <= i < b0.len() implies #[trigger] buf@[i] == if rect_covers(
            bw as int, x as int, y as int, w as int, h as int, i) { color } else { b0[i] } by {
            let q = rect_covers_upto(bw as int, x as int, y as int, w as int, i, h as int, 0);
            if q {
                let (a, b) = choose|a: int, b: int| 0 <= a < w && 0 <= b < h && i == rect_pos(bw as int, x as int, y as int, a, b);
                assert(0 <= a < w && 0 <= b < h && i == rect_pos(bw as int, x as int, y as int, a, b));
            }
            if rect_covers(bw as int, x as int, y as int, w as int, h as int, i) {
                let (a, b) = choose|a: int, b: int| 0 <= a < w && 0 <= b < h && i == rect_pos(bw as int, x as int, y as int, a, b);
                assert(0 <= a < w && 0 <= b < h && i == rect_pos(bw as int, x as int, y as int, a, b));
            }
        }
    }
}

/// Paints the pane rectangle `rect` = (x, y, w, h) with `color`.
pub fn fill_pane_background(buf: &mut [u32], buf_width: u32, rect: [u32; 4], color: u32)
    requires
        rect_fits(buf_width as int, rect@[0] as int, rect@[1] as int, rect@[2] as int, rect@[3] as int),
    ensures
        final(buf)@.len() == old(buf)@.len(),
        forall|i: int| 0 <= i < old(buf)@.len() ==> #[trigger] final(buf)@[i] == if rect_covers(
            buf_width as int, rect@[0] as int, rect@[1] as int, rect@[2] as int, rect@[3] as int, i) { color } else { old(buf)@[i] },
{
    let rx = rect[0];
    let ry = rect[1];
    let rw = rect[2];
    let rh = rect[3];
    fill_rect(buf, buf_width, rx, ry, rw, rh, color);
}

/// A pixel at a third of its brightness, opaque.
pub open spec fn dimmed(p: u32) -> u32 {
    (0xFF00_0000 + ((p / 0x1_0000) % 256) / 3 * 0x1_0000 + ((p / 0x100) % 256) / 3 * 0x100 + (p % 256) / 3) as u32
}

fn dim_pixel(p: u32) -> (r: u32)
    ensures
        r == dimmed(p),
{
    let r = ((p >> 16) & 0xFF) / 3;
    let g = ((p >> 8) & 0xFF) / 3;
    let b = (p & 0xFF) / 3;
    let out = 0xff00_0000u32 | (r << 16) | (g << 8) | b;
    assert(out == 0xFF00_0000 + ((p / 0x1_0000) % 256) / 3 * 0x1_0000 + ((p / 0x100) % 256) / 3 * 0x100 + (p % 256) / 3)
        by (bit_vector)
        requires
            r == ((p >> 16) & 0xFF) / 3,
            g == ((p >> 8) & 0xFF) / 3,
            b == (p & 0xFF) / 3,
            out == 0xff00_0000u32 | (r << 16) | (g << 8) | b;
    out
}

/// Darkens every pixel to a third of its brightness.
pub fn dim_buffer(buf: &mut [u32])
    ensures
        final(buf)@.len() == old(buf)@.len(),
        forall|i: int| 0 <= i < old(buf)@.len() ==> #[trigger] final(buf)@[i] == dimmed(old(buf)@[i]),
{
    let ghost b0 = buf@;
    let n = buf.len();
    let mut i: usize = 0;
    while i < n
        invariant
            n == b0.len(),
            buf@.len() == n,
            i <= n,
            forall|k: int| 0 <= k < i ==> #[trigger] buf@[k] == dimmed(b0[k]),
            forall|k: int| i <= k < n ==> #[trigger] buf@[k] == b0[k],
        decreases n - i,
    {
        let p = buf[i];
        buf[i] = dim_pixel(p);
        i = i + 1;
    }
}

/// Sets pixel `idx` when the buffer has it.
pub fn write_pixel(buf: &mut [u32], idx: usize, color: u32)
    ensures
        final(buf)@ == if idx < old(buf)@.len() { old(buf)@.update(idx as int, color) } else { old(buf)@ },
{
    if idx < buf.len() {
        buf[idx] = color;
    }
}

/// Whether pixel `i` is one of the first `n` pixels of the horizontal line
/// `row` rows below (`x`, `y`).
pub open spec fn hline_hit(bw: int, x: int, y: int, row: int, n: int, i: int) -> bool {
    exists|a: int| 0 <= a < n && i == #[trigger] rect_pos(bw, x, y, a, row)
}

/// Whether pixel `i` is one of the first `n` pixels of the vertical line
/// `col` columns right of (`x`, `y`).
pub open spec fn vline_hit(bw: int, x: int, y: int, col: int, n: int, i: int) -> bool {
    exists|b: int| 0 <= b < n && i == #[trigger] rect_pos(bw, x, y, col, b)
}

/// The pixels of the one-pixel border of the `w` by `h` rectangle at
/// (`x`, `y`): its top and bottom rows and its left and right columns.
pub open spec fn border_covers(bw: int, x: int, y: int, w: int, h: int, i: int) -> bool {
    border_covers_upto(bw, x, y, w, h, i, w, h)
}

pub open spec fn border_covers_upto(bw: int, x: int, y: int, w: int, h: int, i: int, ws: int, hs: int) -> bool {
    hline_hit(bw, x, y, 0, ws, i) || hline_hit(bw, x, y, h - 1, ws, i)
        || vline_hit(bw, x, y, 0, hs, i) || vline_hit(bw, x, y, w - 1, hs, i)
}

/// Draws the one-pixel border of the `w` by `h` rectangle at (`x`, `y`),
/// skipping pixels past the end of the buffer.
pub fn draw_rect_border(buf: &mut [u32], bw: u32, x: u32, y: u32, w: u32, h: u32, color: u32)
    requires
        w > 0 ==> y + h >= 1 && y + h <= u32::MAX && y * bw + x + w - 1 <= u32::MAX
            && (y + h - 1) * bw + x + w - 1 <= u32::MAX,
        h > 0 ==> x + w >= 1 && y + h <= u32::MAX && (y + h - 1) * bw + x + w <= u32::MAX,
    ensures
        final(buf)@.len() == old(buf)@.len(),
        forall|i: int| 0 <= i < old(buf)@.len() ==> #[trigger] final(buf)@[i] == if border_covers(
            bw as int, x as int, y as int, w as int, h as int, i) { color } else { old(buf)@[i] },
{
    let ghost b0 = buf@;
    let ghost (bwi, xi, yi, wi, hi) = (bw as int, x as int, y as int, w as int, h as int);
    let ghost hb = hi - 1;
    let ghost wb = wi - 1;
    let mut dx: u32 = 0;
    while dx < w
        invariant
            dx <= w,
            buf@.len() == b0.len(),
            bwi == bw, xi == x, yi == y, wi == w, hi == h, hb == hi - 1, wb == wi - 1,
            w > 0 ==> y + h >= 1 && y + h <= u32::MAX && y * bw + x + w - 1 <= u32::MAX
                && (y + h - 1) * bw + x + w - 1 <= u32::MAX,
            forall|i: int| 0 <= i < b0.len() ==> #[trigger] buf@[i] == if border_covers_upto(
                bwi, xi, yi, wi, hi, i, dx as int, 0) { color } else { b0[i] },
        decreases w - dx,
    {
        let i1 = (y * bw + x + dx) as usize;
        let i2 = ((y + h - 1) * bw + x + dx) as usize;
        assert(i1 == rect_pos(bwi, xi, yi, dx as int, 0));
        assert(i2 == rect_pos(bwi, xi, yi, dx as int, hi - 1));
        let ghost before = buf@;
        write_pixel(buf, i1, color);
        write_pixel(buf, i2, color);
        proof {
            assert forall|i: int| 0 <= i < b0.len() implies #[trigger] buf@[i] == if border_covers_upto(
                bwi, xi, yi, wi, hi, i, dx + 1, 0) { color } else { b0[i] } by {
                if i == i1 {
                    assert(hline_hit(bwi, xi, yi, 0, dx + 1, i));
                } else if i == i2 {
                    assert(hline_hit(bwi, xi, yi, hi - 1, dx + 1, i));
                } else {
                    assert(buf@[i] == before[i]);
                    if hline_hit(bwi, xi, yi, 0, dx + 1, i) {
                        let a = choose|a: int| 0 <= a < dx + 1 && i == rect_pos(bwi, xi, yi, a, 0);
                        assert(a != dx);
                        assert(hline_hit(bwi, xi, yi, 0, dx as int, i));
                    }
                    if hline_hit(bwi, xi, yi, hi - 1, dx + 1, i) {
                        let a = choose|a: int| 0 <= a < dx + 1 && i == rect_pos(bwi, xi, yi, a, hb);
                        assert(a != dx);
                        assert(hline_hit(bwi, xi, yi, hi - 1, dx as int, i));
                    }
                    if hline_hit(bwi, xi, yi, 0, dx as int, i) {
                        let a = choose|a: int| 0 <= a < dx && i == rect_pos(bwi, xi, yi, a, 0);
                        assert(hline_hit(bwi, xi, yi, 0, dx + 1, i));
                    }
                    if hline_hit(bwi, xi, yi, hi - 1, dx as int, i) {
                        let a = choose|a: int| 0 <= a < dx && i == rect_pos(bwi, xi, yi, a, hb);
                        assert(hline_hit(bwi, xi, yi, hi - 1, dx + 1, i));
                    }
                }
            }
        }
        dx = dx + 1;
    }
    let mut dy: u32 = 0;
    while dy < h
        invariant
            dy <= h,
            buf@.len() == b0.len(),
            bwi == bw, xi == x, yi == y, wi == w, hi == h, hb == hi - 1, wb == wi - 1,
            h > 0 ==> x + w >= 1 && y + h <= u32::MAX && (y + h - 1) * bw + x + w <= u32::MAX,
            forall|i: int| 0 <= i < b0.len() ==> #[trigger] buf@[i] == if border_covers_upto(
                bwi, xi, yi, wi, hi, i, wi, dy as int) { color } else { b0[i] },
        decreases h - dy,
    {
        proof {
            assert((y + dy) * bw <= (y + h - 1) * bw) by (nonlinear_arith)
                requires dy <= h - 1;
        }
        let j1 = ((y + dy) * bw + x) as usize;
        let j2 = ((y + dy) * bw + x + w - 1) as usize;
        assert(j1 == rect_pos(bwi, xi, yi, 0, dy as int));
        assert(j2 == rect_pos(bwi, xi, yi, wi - 1, dy as int));
        let ghost before = buf@;
        write_pixel(buf, j1, color);
        write_pixel(buf, j2, color);
        proof {
            assert forall|i: int| 0 <= i < b0.len() implies #[trigger] buf@[i] == if border_covers_upto(
                bwi, xi, yi, wi, hi, i, wi, dy + 1) { color } else { b0[i] } by {
                if i == j1 {
                    assert(vline_hit(bwi, xi, yi, 0, dy + 1, i));
                } else if i == j2 {
                    assert(vline_hit(bwi, xi, yi, wi - 1, dy + 1, i));
                } else {
                    assert(buf@[i] == before[i]);
                    if vline_hit(bwi, xi, yi, 0, dy + 1, i) {
                        let b = choose|b: int| 0 <= b < dy + 1 && i == rect_pos(bwi, xi, yi, 0, b);
                        assert(b != dy);
                        assert(vline_hit(bwi, xi, yi, 0, dy as int, i));
                    }
                    if vline_hit(bwi, xi, yi, wi - 1, dy + 1, i) {
                        let b = choose|b: int| 0 <= b < dy + 1 && i == rect_pos(bwi, xi, yi, wb, b);
                        assert(b != dy);
                        assert(vline_hit(bwi, xi, yi, wi - 1, dy as int, i));
                    }
                    if vline_hit(bwi, xi, yi, 0, dy as int, i) {
                        let b = choose|b: int| 0 <= b < dy && i == rect_pos(bwi, xi, yi, 0, b);
                        assert(vline_hit(bwi, xi, yi, 0, dy + 1, i));
                    }
                    if vline_hit(bwi, xi, yi, wi - 1, dy as int, i) {
                        let b = choose|b: int| 0 <= b < dy && i == rect_pos(bwi, xi, yi, wb, b);
                        assert(vline_hit(bwi, xi, yi, wi - 1, dy + 1, i));
                    }
                }
            }
        }
        dy = dy + 1;
    }
}

/// Whether any match on row `abs_row`, looked for from index `lo` on,
/// covers column `col`, and whether the last such match is the current one.
pub open spec fn highlight_scan(m: Seq<(usize, usize, usize)>, current: Option<usize>, abs_row: int, col: int, i: int, acc: (bool, bool)) -> (bool, bool)
    decreases m.len() - i,
{
    if i < 0 || i >= m.len() || m[i].0 != abs_row {
        acc
    } else {
        let (mr, mc, ml) = m[i];
        let next = if col >= mc && col < mc + ml { (true, current == Some(i as usize)) } else { acc };
        highlight_scan(m, current, abs_row, col, i + 1, next)
    }
}

/// Whether match `mt` (`(row, start_col, len)`) covers column `col`.
pub open spec fn covers(mt: (usize, usize, usize), col: int) -> bool {
    mt.1 <= col < mt.1 + mt.2
}

/// Match `i` lies in the run of matches on row `row` that starts at index
/// `lo`: every match from `lo` to `i` is on that row.
pub open spec fn in_run(m: Seq<(usize, usize, usize)>, row: int, lo: int, i: int) -> bool {
    &&& lo <= i < m.len()
    &&& forall|j: int| lo <= j <= i ==> (#[trigger] m[j]).0 == row
}

/// A match in `lo..i` covers `col`.
spec fn any_cover(m: Seq<(usize, usize, usize)>, col: int, lo: int, i: int) -> bool {
    exists|k: int| lo <= k < i && covers(#[trigger] m[k], col)
}

/// The last match in `lo..i` that covers `col` is the current one.
spec fn last_cover_current(m: Seq<(usize, usize, usize)>, current: Option<usize>, col: int, lo: int, i: int) -> bool {
    exists|k: int|
        lo <= k < i && covers(#[trigger] m[k], col) && current == Some(k as usize) && forall|k2: int|
            k < k2 < i ==> !covers(#[trigger] m[k2], col)
}

proof fn lemma_scan_run(
    m: Seq<(usize, usize, usize)>,
    current: Option<usize>,
    row: int,
    col: int,
    lo: int,
    i: int,
    acc: (bool, bool),
)
    requires
        0 <= lo <= i <= m.len(),
        forall|j: int| lo <= j < i ==> (#[trigger] m[j]).0 == row,
        acc.0 == any_cover(m, col, lo, i),
        acc.1 == last_cover_current(m, current, col, lo, i),
    ensures
        highlight_scan(m, current, row, col, i, acc).0 == exists|k: int| in_run(m, row, lo, k) && covers(#[trigger] m[k], col),
        highlight_scan(m, current, row, col, i, acc).1 == exists|k: int|
            in_run(m, row, lo, k) && covers(#[trigger] m[k], col) && current == Some(k as usize) && forall|k2: int|
                k < k2 && in_run(m, row, lo, k2) ==> !covers(#[trigger] m[k2], col),
    decreases m.len() - i,
{
    let r = highlight_scan(m, current, row, col, i, acc);
    if i >= m.len() || m[i].0 != row {
        // The run is lo..i.
        assert forall|k: int| in_run(m, row, lo, k) implies k < i by {
            if k >= i {
                assert(m[i].0 == row);
            }
        }
        assert forall|k: int| lo <= k < i implies in_run(m, row, lo, k) by {}
        if r.0 {
            let k = choose|k: int| lo <= k < i && covers(#[trigger] m[k], col);
            assert(in_run(m, row, lo, k));
        }
        if r.1 {
            let k = choose|k: int|
                lo <= k < i && covers(#[trigger] m[k], col) && current == Some(k as usize) && forall|k2: int|
                    k < k2 < i ==> !covers(#[trigger] m[k2], col);
            assert(in_run(m, row, lo, k));
            assert forall|k2: int| k < k2 && in_run(m, row, lo, k2) implies !covers(#[trigger] m[k2], col) by {}
        }
        assert((exists|k: int|
            in_run(m, row, lo, k) && covers(#[trigger] m[k], col) && current == Some(k as usize) && forall|k2: int|
                k < k2 && in_run(m, row, lo, k2) ==> !covers(#[trigger] m[k2], col)) ==> r.1) by {
            if exists|k: int|
                in_run(m, row, lo, k) && covers(#[trigger] m[k], col) && current == Some(k as usize) && forall|k2: int|
                    k < k2 && in_run(m, row, lo, k2) ==> !covers(#[trigger] m[k2], col) {
                let k = choose|k: int|
                    in_run(m, row, lo, k) && covers(#[trigger] m[k], col) && current == Some(k as usize) && forall|k2: int|
                        k < k2 && in_run(m, row, lo, k2) ==> !covers(#[trigger] m[k2], col);
                assert forall|k2: int| k < k2 < i implies !covers(#[trigger] m[k2], col) by {
                    assert(in_run(m, row, lo, k2));
                }
            }
        }
    } else {
        let c = covers(m[i], col);
        let next = if c { (true, current == Some(i as usize)) } else { acc };
        assert(next.0 == any_cover(m, col, lo, i + 1)) by {
            if c {
                assert(lo <= i < i + 1 && covers(m[i], col));
            } else {
                if any_cover(m, col, lo, i + 1) {
                    let k = choose|k: int| lo <= k < i + 1 && covers(#[trigger] m[k], col);
                    assert(k < i);
                }
            }
        }
        assert(next.1 == last_cover_current(m, current, col, lo, i + 1)) by {
            if c {
                if current == Some(i as usize) {
                    assert forall|k2: int| i < k2 < i + 1 implies !covers(#[trigger] m[k2], col) by {}
                    assert(lo <= i < i + 1 && covers(m[i], col));
                }
                if last_cover_current(m, current, col, lo, i + 1) {
                    let k = choose|k: int|
                        lo <= k < i + 1 && covers(#[trigger] m[k], col) && current == Some(k as usize) && forall|k2: int|
                            k < k2 < i + 1 ==> !covers(#[trigger] m[k2], col);
                    if k < i {
                        assert(!covers(m[i], col));
                    }
                }
            } else {
                if last_cover_current(m, current, col, lo, i) {
                    let k = choose|k: int|
                        lo <= k < i && covers(#[trigger] m[k], col) && current == Some(k as usize) && forall|k2: int|
                            k < k2 < i ==> !covers(#[trigger] m[k2], col);
                    assert forall|k2: int| k < k2 < i + 1 implies !covers(#[trigger] m[k2], col) by {}
                }
                if last_cover_current(m, current, col, lo, i + 1) {
                    let k = choose|k: int|
                        lo <= k < i + 1 && covers(#[trigger] m[k], col) && current == Some(k as usize) && forall|k2: int|
                            k < k2 < i + 1 ==> !covers(#[trigger] m[k2], col);
                    assert(k < i);
                    assert forall|k2: int| k < k2 < i implies !covers(#[trigger] m[k2], col) by {}
                }
            }
        }
        lemma_scan_run(m, current, row, col, lo, i + 1, next);
    }
}

/// What the highlight scan answers, in terms of the matches alone: the
/// cell is in a match when some match of the run on its row (from index
/// `lo`) covers it, and it is in the current match exactly when the last
/// such covering match is the current one.
pub proof fn lemma_search_highlight_meaning(
    m: Seq<(usize, usize, usize)>,
    current: Option<usize>,
    row: int,
    col: int,
    lo: int,
)
    requires
        0 <= lo,
    ensures
        highlight_scan(m, current, row, col, lo, (false, false)).0 == exists|k: int|
            in_run(m, row, lo, k) && covers(#[trigger] m[k], col),
        highlight_scan(m, current, row, col, lo, (false, false)).1 == exists|k: int|
            in_run(m, row, lo, k) && covers(#[trigger] m[k], col) && current == Some(k as usize) && forall|k2: int|
                k < k2 && in_run(m, row, lo, k2) ==> !covers(#[trigger] m[k2], col),
{
    if lo <= m.len() {
        lemma_scan_run(m, current, row, col, lo, lo, (false, false));
    } else {
        assert forall|k: int| !in_run(m, row, lo, k) by {}
    }
}

/// For matches `(row, start_col, len)` sorted by row: scanning from index
/// `row_match_lo` while the matches lie on `abs_row`, whether one covers
/// `col`, and whether the last covering one is the current match.
pub fn search_highlight(
    matches: &[(usize, usize, usize)],
    current: Option<usize>,
    abs_row: usize,
    col: usize,
    row_match_lo: usize,
) -> (r: (bool, bool))
    ensures
        r == highlight_scan(matches@, current, abs_row as int, col as int, row_match_lo as int, (false, false)),
        r.0 == exists|k: int| in_run(matches@, abs_row as int, row_match_lo as int, k) && covers(#[trigger] matches@[k], col as int),
        r.1 == exists|k: int|
            in_run(matches@, abs_row as int, row_match_lo as int, k) && covers(#[trigger] matches@[k], col as int)
                && current == Some(k as usize) && forall|k2: int|
                k < k2 && in_run(matches@, abs_row as int, row_match_lo as int, k2) ==> !covers(#[trigger] matches@[k2], col as int),
{
    proof {
        lemma_search_highlight_meaning(matches@, current, abs_row as int, col as int, row_match_lo as int);
    }
    let mut in_match = false;
    let mut is_current = false;
    let mut i: usize = row_match_lo;
    let n = matches.len();
    while i < n && matches[i].0 == abs_row
        invariant
            n == matches@.len(),
            row_match_lo <= i,
            highlight_scan(matches@, current, abs_row as int, col as int, row_match_lo as int, (false, false))
                == highlight_scan(matches@, current, abs_row as int, col as int, i as int, (in_match, is_current)),
        decreases n - i,
    {
        let (mr, mc, ml) = matches[i];
        if col >= mc && (col as u128) < (mc as u128) + (ml as u128) {
            in_match = true;
            is_current = match current {
                Some(c) => c == i,
                None => false,
            };
        }
        i = i + 1;
    }
    (in_match, is_current)
}

/// The background pixel of a cell: cursor, selection, current match, match
/// or the cell's own background, first that applies.
pub open spec fn bg_choice(
    is_cursor: bool,
    cursor_shape: CursorShape,
    is_selected: bool,
    is_current_match: bool,
    in_match: bool,
    bg: Color,
    cursor_color: Color,
    selection_color: Color,
    theme: &ResolvedTheme,
) -> u32 {
    if is_cursor && cursor_shape == CursorShape::Block {
        pixel_of(cursor_color)
    } else if is_selected {
        pixel_of(selection_color)
    } else if is_current_match {
        pixel_of(theme.search_current)
    } else if in_match {
        pixel_of(theme.search_match)
    } else {
        pixel_of(bg)
    }
}

pub fn resolve_bg_color(
    is_cursor: bool,
    cursor_shape: CursorShape,
    is_selected: bool,
    is_current_match: bool,
    in_match: bool,
    bg: Color,
    cursor_color: Color,
    selection_color: Color,
    theme: &ResolvedTheme,
) -> (p: u32)
    ensures
        p == bg_choice(is_cursor, cursor_shape, is_selected, is_current_match, in_match, bg, cursor_color, selection_color, theme),
{
    if is_cursor && cursor_shape == CursorShape::Block {
        color_u32(cursor_color)
    } else if is_selected {
        color_u32(selection_color)
    } else if is_current_match {
        color_u32(theme.search_current)
    } else if in_match {
        color_u32(theme.search_match)
    } else {
        color_u32(bg)
    }
}

/// A colour at half brightness, each channel halved and rounded down.
pub open spec fn half(c: Color) -> Color {
    Color { r: (c.r / 2) as u8, g: (c.g / 2) as u8, b: (c.b / 2) as u8 }
}

/// The background pixel and foreground colour a cell is drawn in: colours
/// swapped for reverse video, the foreground halved for dim text, the
/// background by [`bg_choice`], and the dark match foreground inside a
/// search match unless the cursor is there.
pub open spec fn cell_colors(
    cell: &Cell,
    is_cursor: bool,
    is_selected: bool,
    in_match: bool,
    is_current_match: bool,
    cursor_shape: CursorShape,
    cursor_color: Color,
    selection_color: Color,
    theme: &ResolvedTheme,
) -> (u32, Color) {
    let fg0 = if cell.reverse { cell.bg } else { cell.fg };
    let bg0 = if cell.reverse { cell.fg } else { cell.bg };
    let fg1 = if cell.dim { half(fg0) } else { fg0 };
    let bg32 = bg_choice(is_cursor, cursor_shape, is_selected, is_current_match, in_match, bg0, cursor_color, selection_color, theme);
    let fg2 = if (in_match || is_current_match) && !is_cursor { search_match_fg() } else { fg1 };
    (bg32, fg2)
}

pub fn resolve_cell_colors(
    cell: &Cell,
    is_cursor: bool,
    is_selected: bool,
    in_match: bool,
    is_current_match: bool,
    cursor_shape: CursorShape,
    cursor_color: Color,
    selection_color: Color,
    theme: &ResolvedTheme,
) -> (r: (u32, Color))
    ensures
        r == cell_colors(cell, is_cursor, is_selected, in_match, is_current_match, cursor_shape, cursor_color, selection_color, theme),
{
    let (fg, bg) = if cell.reverse { (cell.bg, cell.fg) } else { (cell.fg, cell.bg) };
    let fg = if cell.dim {
        Color { r: fg.r / 2, g: fg.g / 2, b: fg.b / 2 }
    } else {
        fg
    };
    let bg32 = resolve_bg_color(is_cursor, cursor_shape, is_selected, is_current_match, in_match, bg, cursor_color, selection_color, theme);
    let fg = if (in_match || is_current_match) && !is_cursor {
        Color { r: 0x11, g: 0x11, b: 0x1d }
    } else {
        fg
    };
    (bg32, fg)
}

/// Whether (`col`, `row`) lies in the selection from (`sc`, `sr`) to
/// (`ec`, `er`), endpoints in either order, both included, in reading order.
pub open spec fn in_selection(sel: Option<(usize, usize, usize, usize)>, col: int, row: int) -> bool {
    match sel {
        None => false,
        Some((sc, sr, ec, er)) => {
            let forward = sr < er || (sr == er && sc <= ec);
            let (r0, c0, r1, c1) = if forward { (sr, sc, er, ec) } else { (er, ec, sr, sc) };
            (row > r0 || (row == r0 && col >= c0)) && (row < r1 || (row == r1 && col <= c1))
        },
    }
}

pub fn is_cell_selected(selection_range: Option<(usize, usize, usize, usize)>, col: usize, row: usize) -> (r: bool)
    ensures
        r == in_selection(selection_range, col as int, row as int),
{
    match selection_range {
        None => false,
        Some((sc, sr, ec, er)) => {
            let forward = sr < er || (sr == er && sc <= ec);
            let (r0, c0, r1, c1) = if forward { (sr, sc, er, ec) } else { (er, ec, sr, sc) };
            (row > r0 || (row == r0 && col >= c0)) && (row < r1 || (row == r1 && col <= c1))
        },
    }
}

/// A selection holds the same cells whichever endpoint came first.
pub proof fn lemma_selection_symmetric(sc: usize, sr: usize, ec: usize, er: usize, col: int, row: int)
    ensures
        in_selection(Some((sc, sr, ec, er)), col, row) == in_selection(Some((ec, er, sc, sr)), col, row),
{
}

/// Both endpoints of a selection are selected.
pub proof fn lemma_selection_endpoints(sc: usize, sr: usize, ec: usize, er: usize)
    ensures
        in_selection(Some((sc, sr, ec, er)), sc as int, sr as int),
        in_selection(Some((sc, sr, ec, er)), ec as int, er as int),
{
}

/// Pixel indices of a horizontal run in row `y` from column `x` up to,
/// not including, `x_end`.
pub open spec fn hrun_covers(bw: int, y: int, x: int, x_end: int, i: int) -> bool {
    exists|sx: int| x <= sx < x_end && i == #[trigger] rect_pos(bw, 0, y, sx, 0)
}

pub open spec fn min_int(a: int, b: int) -> int {
    if a < b { a } else { b }
}

pub open spec fn max_int(a: int, b: int) -> int {
    if a > b { a } else { b }
}

/// Draws row `y` from column `x`, `w` pixels long, cut at the right edge of
/// `clip` = (x, y, w, h); nothing when row `y` lies outside `clip`.
pub fn draw_clipped_hline(buf: &mut [u32], buf_width: u32, y: u32, x: u32, w: u32, clip: [u32; 4], color: u32)
    requires
        x + w <= u32::MAX,
        clip@[0] + clip@[2] <= u32::MAX,
        clip@[1] + clip@[3] <= u32::MAX,
        clip@[1] <= y < clip@[1] + clip@[3] && x < min_int(x + w, clip@[0] + clip@[2])
            ==> y * buf_width + min_int(x + w, clip@[0] + clip@[2]) - 1 <= u32::MAX,
    ensures
        final(buf)@.len() == old(buf)@.len(),
        forall|i: int| 0 <= i < old(buf)@.len() ==> #[trigger] final(buf)@[i] == if clip@[1] <= y < clip@[1] + clip@[3]
            && hrun_covers(buf_width as int, y as int, x as int, min_int(x + w, clip@[0] + clip@[2]), i) { color } else { old(buf)@[i] },
{
    let rx = clip[0];
    let ry = clip[1];
    let rw = clip[2];
    let rh = clip[3];
    let ghost b0 = buf@;
    if y < ry || y >= ry + rh {
        return;
    }
    let x_end = if x + w < rx + rw { x + w } else { rx + rw };
    let mut sx: u32 = x;
    while sx < x_end
        invariant
            x <= sx,
            x <= x_end ==> sx <= x_end,
            x > x_end ==> sx == x,
            sx < x_end ==> y * buf_width + x_end - 1 <= u32::MAX,
            x_end == min_int(x + w, rx + rw),
            buf@.len() == b0.len(),
            forall|i: int| 0 <= i < b0.len() ==> #[trigger] buf@[i] == if hrun_covers(
                buf_width as int, y as int, x as int, sx as int, i) { color } else { b0[i] },
        decreases x_end - sx,
    {
        let idx = (y * buf_width + sx) as usize;
        let ghost before = buf@;
        if idx < buf.len() {
            buf[idx] = color;
        }
        proof {
            assert forall|i: int| 0 <= i < b0.len() implies #[trigger] buf@[i] == if hrun_covers(
                buf_width as int, y as int, x as int, sx + 1, i) { color } else { b0[i] } by {
                if i == idx {
                    assert(x <= sx < sx + 1 && i == rect_pos(buf_width as int, 0, y as int, sx as int, 0));
                } else {
                    assert(buf@[i] == before[i]);
                    if hrun_covers(buf_width as int, y as int, x as int, sx + 1, i) {
                        let a = choose|a: int| x <= a < sx + 1 && i == rect_pos(buf_width as int, 0, y as int, a, 0);
                        assert(a != sx);
                    }
                }
            }
        }
        sx = sx + 1;
    }
    proof {
        assert forall|i: int| 0 <= i < b0.len() implies #[trigger] buf@[i] == if hrun_covers(
            buf_width as int, y as int, x as int, x_end as int, i) { color } else { b0[i] } by {
            if hrun_covers(buf_width as int, y as int, x as int, sx as int, i) {
                let a = choose|a: int| x <= a < sx && i == rect_pos(buf_width as int, 0, y as int, a, 0);
                assert(x <= a < x_end && i == rect_pos(buf_width as int, 0, y as int, a, 0));
            }
            if hrun_covers(buf_width as int, y as int, x as int, x_end as int, i) {
                let a = choose|a: int| x <= a < x_end && i == rect_pos(buf_width as int, 0, y as int, a, 0);
                assert(x <= a < sx && i == rect_pos(buf_width as int, 0, y as int, a, 0));
            }
        }
    }
}

/// Pixel indices of a vertical run in column `x` from row `y0` up to, not
/// including, `y_end`.
pub open spec fn vrun_covers(bw: int, x: int, y0: int, y_end: int, i: int) -> bool {
    exists|sy: int| y0 <= sy < y_end && i == #[trigger] rect_pos(bw, x, 0, 0, sy)
}

/// Draws column `x` from row `y`, `h` pixels long, cut to the rows of
/// `clip` = (x, y, w, h); nothing when column `x` lies outside `clip`.
pub fn draw_clipped_vline(buf: &mut [u32], buf_width: u32, x: u32, y: u32, h: u32, clip: [u32; 4], color: u32)
    requires
        y + h <= u32::MAX,
        clip@[0] + clip@[2] <= u32::MAX,
        clip@[1] + clip@[3] <= u32::MAX,
        clip@[0] <= x < clip@[0] + clip@[2] && max_int(y as int, clip@[1] as int) < min_int(y + h, clip@[1] + clip@[3])
            ==> (min_int(y + h, clip@[1] + clip@[3]) - 1) * buf_width + x <= u32::MAX,
    ensures
        final(buf)@.len() == old(buf)@.len(),
        forall|i: int| 0 <= i < old(buf)@.len() ==> #[trigger] final(buf)@[i] == if clip@[0] <= x < clip@[0] + clip@[2]
            && vrun_covers(buf_width as int, x as int, max_int(y as int, clip@[1] as int), min_int(y + h, clip@[1] + clip@[3]), i)
            { color } else { old(buf)@[i] },
{
    let rx = clip[0];
    let ry = clip[1];
    let rw = clip[2];
    let rh = clip[3];
    let ghost b0 = buf@;
    if x < rx || x >= rx + rw {
        return;
    }
    let y_end = if y + h < ry + rh { y + h } else { ry + rh };
    let y0 = if y > ry { y } else { ry };
    let mut sy: u32 = y0;
    while sy < y_end
        invariant
            y0 <= sy,
            y0 <= y_end ==> sy <= y_end,
            y0 > y_end ==> sy == y0,
            y0 == max_int(y as int, ry as int),
            y0 < y_end ==> (y_end - 1) * buf_width + x <= u32::MAX,
            y_end == min_int(y + h, ry + rh),
            buf@.len() == b0.len(),
            forall|i: int| 0 <= i < b0.len() ==> #[trigger] buf@[i] == if vrun_covers(
                buf_width as int, x as int, y0 as int, sy as int, i) { color } else { b0[i] },
        decreases y_end - sy,
    {
        proof {
            assert(sy * buf_width <= (y_end - 1) * buf_width) by (nonlinear_arith)
                requires sy <= y_end - 1;
        }
        let idx = (sy * buf_width + x) as usize;
        let ghost before = buf@;
        if idx < buf.len() {
            buf[idx] = color;
        }
        proof {
            assert forall|i: int| 0 <= i < b0.len() implies #[trigger] buf@[i] == if vrun_covers(
                buf_width as int, x as int, y0 as int, sy + 1, i) { color } else { b0[i] } by {
                if i == idx {
                    assert(y0 <= sy < sy + 1 && i == rect_pos(buf_width as int, x as int, 0, 0, sy as int));
                } else {
                    assert(buf@[i] == before[i]);
                    if vrun_covers(buf_width as int, x as int, y0 as int, sy + 1, i) {
                        let a = choose|a: int| y0 <= a < sy + 1 && i == rect_pos(buf_width as int, x as int, 0, 0, a);
                        assert(a != sy);
                    }
                }
            }
        }
        sy = sy + 1;
    }
    proof {
        assert forall|i: int| 0 <= i < b0.len() implies #[trigger] buf@[i] == if vrun_covers(
            buf_width as int, x as int, y0 as int, y_end as int, i) { color } else { b0[i] } by {
            if vrun_covers(buf_width as int, x as int, y0 as int, sy as int, i) {
                let a = choose|a: int| y0 <= a < sy && i == rect_pos(buf_width as int, x as int, 0, 0, a);
                assert(y0 <= a < y_end && i == rect_pos(buf_width as int, x as int, 0, 0, a));
            }
            if vrun_covers(buf_width as int, x as int, y0 as int, y_end as int, i) {
                let a = choose|a: int| y0 <= a < y_end && i == rect_pos(buf_width as int, x as int, 0, 0, a);
                assert(y0 <= a < sy && i == rect_pos(buf_width as int, x as int, 0, 0, a));
            }
        }
    }
}

} // verus!
