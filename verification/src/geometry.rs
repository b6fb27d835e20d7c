//! Lookups from viewport coordinates into the grid.
use vstd::prelude::*;
use crate::draw::view_line;
use crate::grid::{clone_url, Grid};

verus! {

/// The hyperlink of live cell (`col`, `row`); nothing outside the grid.
pub open spec fn live_url(g: &Grid, col: int, row: int) -> Option<String> {
    if 0 <= col < g.cols && 0 <= row < g.rows {
        g.cell_at(col, row).url
    } else {
        None
    }
}

/// The hyperlink of the cell shown at viewport position (`col`, `row`) with
/// the view scrolled `scroll` lines back; nothing outside the grid, past
/// the end of a short scrollback line, or on a cell without a link.
pub open spec fn url_at(g: &Grid, scroll: int, col: int, row: int) -> Option<String> {
    if scroll == 0 {
        live_url(g, col, row)
    } else {
        let sb_len = g.scrollback@.len() as int;
        let line = view_line(g, scroll, row);
        if line < sb_len {
            if col < g.sb()[line].len() { g.sb()[line][col].url } else { None }
        } else if line - sb_len < g.rows {
            live_url(g, col, line - sb_len)
        } else {
            None
        }
    }
}

/// The hyperlink (OSC 8) of the cell at viewport position (`col`, `row`)
/// with the view scrolled `scroll_offset` lines back; `None` when the
/// coordinates are out of bounds or the cell carries no link.
pub fn cell_url_at_scroll(grid: &Grid, scroll_offset: usize, col: usize, row: usize) -> (r: Option<String>)
    requires
        grid.wf(),
        scroll_offset > 0 ==> view_line(grid, scroll_offset as int, row as int) <= usize::MAX,
    ensures
        r == url_at(grid, scroll_offset as int, col as int, row as int),
        (scroll_offset == 0 && (col >= grid.cols || row >= grid.rows)) ==> r is None,
{
    if scroll_offset == 0 {
        if col < grid.cols && row < grid.rows {
            return clone_url(&grid.cell(col, row).url);
        }
        return None;
    }
    let sb_len = grid.scrollback.len();
    let sb_start = sb_len.saturating_sub(scroll_offset);
    let sb_row = sb_start + row;
    if sb_row < sb_len {
        let line = &grid.scrollback[sb_row];
        assert(grid.sb()[sb_row as int] == line@);
        if col < line.len() {
            clone_url(&line[col].url)
        } else {
            None
        }
    } else {
        let live_row = sb_row - sb_len;
        if live_row < grid.rows && col < grid.cols {
            clone_url(&grid.cell(col, live_row).url)
        } else {
            None
        }
    }
}

} // verus!
