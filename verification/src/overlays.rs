//! Placement helpers of the overlay dialogs and badges.
use vstd::prelude::*;
use crate::text::{chars_to_string, decimal, push_decimal, push_str};

verus! {

/// Most entries the command palette lists at once.
pub const PALETTE_MAX_VISIBLE: usize = 10;

/// The entries `start..end` of a list of `len` the palette shows with
/// entry `selected` chosen: up to ten from `selected - 9` (0 when that is
/// negative), so the selection stays on screen.
pub open spec fn palette_window_spec(len: int, selected: int) -> (int, int) {
    let start = if selected >= 9 { selected - 9 } else { 0 };
    let end = if start >= len { start } else if start + 10 <= len { start + 10 } else { len };
    (start, end)
}

/// The range of entries the command palette draws; see
/// [`palette_window_spec`].
pub fn palette_window(len: usize, selected: usize) -> (r: (usize, usize))
    ensures
        (r.0 as int, r.1 as int) == palette_window_spec(len as int, selected as int),
        r.0 <= r.1,
        r.1 <= len || r.0 == r.1,
        r.1 - r.0 <= PALETTE_MAX_VISIBLE,
        selected < len ==> r.0 <= selected < r.1,
{
    let start = selected.saturating_sub(PALETTE_MAX_VISIBLE - 1);
    let end = if start >= len {
        start
    } else if len - start >= PALETTE_MAX_VISIBLE {
        start + PALETTE_MAX_VISIBLE
    } else {
        len
    };
    (start, end)
}

/// Rows of the configuration panel's footer (hint and status).
pub const CONFIG_FOOTER_ROWS: u32 = 2;

/// The vertical layout of the configuration panel.
pub struct ConfigPanelLayout {
    /// How many field rows fit: at least four.
    pub max_visible: u32,
    /// Height of the panel: title, header gap, rows and footer.
    pub panel_h: u32,
    /// Top edge of the panel, centred on the screen.
    pub py: u32,
    /// Position of the selected field among the visible ones (0 when it is
    /// hidden).
    pub sel_pos: usize,
    /// The first visible field drawn, so that the selection stays in view.
    pub scroll_start: usize,
}

/// How many field rows fit on a screen `bh` high with rows `row_h` high
/// under a status bar `status_h` high: what is left after the title,
/// header and footer rows, at least four.
pub open spec fn config_max_visible(bh: int, row_h: int, status_h: int) -> int {
    let avail = bh - (status_h + row_h * 2 + row_h * 2);
    let fit = if avail > 0 { avail / row_h } else { 0 };
    if fit > 4 { fit } else { 4 }
}

/// The first index of `sel` in `vis`, 0 when it is not there.
pub open spec fn position_of(vis: Seq<usize>, sel: usize) -> int
    decreases vis.len(),
{
    if vis.len() == 0 {
        0
    } else if vis.last() == sel && !vis.drop_last().contains(sel) {
        vis.len() - 1
    } else {
        position_of(vis.drop_last(), sel)
    }
}

/// The configuration panel's layout on a screen `bh` high, with rows
/// `row_h` high and a status bar `status_h` high, showing the fields
/// `visible` with field `selected` chosen.
pub fn config_panel_layout(bh: u32, row_h: u32, status_h: u32, visible: &[usize], selected: usize) -> (r: ConfigPanelLayout)
    requires
        row_h > 0,
        status_h + 4 * row_h <= u32::MAX,
        bh + 8 * row_h <= u32::MAX,
    ensures
        r.max_visible == config_max_visible(bh as int, row_h as int, status_h as int),
        r.panel_h == row_h * (r.max_visible + 2 + CONFIG_FOOTER_ROWS),
        r.py == (if bh >= r.panel_h { (bh - r.panel_h) / 2 } else { 0 }),
        r.sel_pos == position_of(visible@, selected),
        r.scroll_start == (if r.sel_pos >= r.max_visible - 1 { r.sel_pos - (r.max_visible - 1) } else { 0 }),
{
    let reserved = status_h + row_h * 2 + row_h * CONFIG_FOOTER_ROWS;
    let fit = bh.saturating_sub(reserved) / row_h;
    let max_visible = if fit > 4 { fit } else { 4 };
    assert(fit * row_h <= bh) by (nonlinear_arith)
        requires fit == bh.saturating_sub(reserved) / row_h, row_h > 0, bh.saturating_sub(reserved) <= bh;
    assert(row_h * (max_visible + 4) <= bh + 8 * row_h) by (nonlinear_arith)
        requires fit * row_h <= bh, max_visible == (if fit > 4 { fit } else { 4 }), row_h > 0;
    let panel_h = row_h * (max_visible + 2 + CONFIG_FOOTER_ROWS);
    let py = bh.saturating_sub(panel_h) / 2;
    let mut pos: usize = 0;
    let mut found = false;
    let mut i: usize = 0;
    while i < visible.len()
        invariant
            i <= visible@.len(),
            found ==> pos < i && visible@[pos as int] == selected && !visible@.subrange(0, pos as int).contains(selected),
            !found ==> pos == 0 && !visible@.subrange(0, i as int).contains(selected),
        decreases visible@.len() - i,
    {
        if !found && visible[i] == selected {
            found = true;
            pos = i;
            assert(visible@.subrange(0, i as int) =~= visible@.subrange(0, pos as int));
        }
        proof {
            if !found {
                assert(visible@.subrange(0, i as int + 1) =~= visible@.subrange(0, i as int).push(visible@[i as int]));
            }
        }
        i = i + 1;
    }
    proof {
        if !found {
            assert(visible@.subrange(0, visible@.len() as int) =~= visible@);
        }
        lemma_position_of(visible@, selected, found, pos as int);
    }
    let scroll_start = pos.saturating_sub((max_visible - 1) as usize);
    ConfigPanelLayout { max_visible, panel_h, py, sel_pos: pos, scroll_start }
}

proof fn lemma_position_of(vis: Seq<usize>, sel: usize, found: bool, pos: int)
    requires
        found ==> 0 <= pos < vis.len() && vis[pos] == sel && !vis.subrange(0, pos).contains(sel),
        !found ==> pos == 0 && !vis.contains(sel),
    ensures
        position_of(vis, sel) == pos,
    decreases vis.len(),
{
    if vis.len() > 0 {
        let init = vis.drop_last();
        if found && pos == vis.len() - 1 {
            assert(vis.subrange(0, pos) =~= init);
        } else {
            if found {
                assert(init.subrange(0, pos) =~= vis.subrange(0, pos));
                assert(init[pos] == vis[pos]);
                lemma_position_of(init, sel, found, pos);
                if vis.last() == sel {
                    assert(init.contains(sel)) by {
                        assert(init[pos] == sel);
                    }
                }
            } else {
                assert forall|k: int| 0 <= k < init.len() implies init[k] != sel by {
                    assert(init[k] == vis[k]);
                }
                lemma_position_of(init, sel, found, pos);
                assert(vis[vis.len() - 1] != sel);
            }
        }
    }
}

/// The palette's query line, `> <query>_`.
pub fn palette_query_text(query: &str) -> (r: String)
    ensures
        r@ == "> "@ + query@ + "_"@,
{
    let mut out: Vec<char> = Vec::new();
    push_str(&mut out, "> ");
    push_str(&mut out, query);
    push_str(&mut out, "_");
    chars_to_string(out.as_slice())
}

/// The palette's count, `<shown>/<total>`.
pub fn palette_count_text(shown: usize, total: usize) -> (r: String)
    ensures
        r@ == decimal(shown as nat) + "/"@ + decimal(total as nat),
{
    let mut out: Vec<char> = Vec::new();
    push_decimal(&mut out, shown as u64);
    push_str(&mut out, "/");
    push_decimal(&mut out, total as u64);
    chars_to_string(out.as_slice())
}

/// Where the hint line under a selection rectangle spanning rows `top` to
/// `bottom` goes on a screen `bh` pixels high: 4 pixels below it when a
/// line of height `line_h` fits there, else 4 pixels above it when that
/// fits, else against the bottom edge.
pub open spec fn hint_y(top: int, bottom: int, line_h: int, bh: int) -> int {
    if bottom + 4 + line_h <= bh {
        bottom + 4
    } else if top >= line_h + 4 {
        top - line_h - 4
    } else if bh > line_h + 4 {
        bh - (line_h + 4)
    } else {
        0
    }
}

pub fn hint_text_y(top: u32, bottom: u32, line_h: u32, bh: u32) -> (y: u32)
    requires
        bottom + 4 + line_h <= u32::MAX,
    ensures
        y == hint_y(top as int, bottom as int, line_h as int, bh as int),
{
    if bottom + 4 + line_h <= bh {
        bottom + 4
    } else if top >= line_h + 4 {
        top - line_h - 4
    } else {
        bh.saturating_sub(line_h + 4)
    }
}

/// The marker of a section heading: `[+]` when collapsed, `[-]` when open.
pub fn collapse_indicator(is_collapsed: bool) -> (r: &'static str)
    ensures
        r@ == if is_collapsed { "[+]"@ } else { "[-]"@ },
{
    if is_collapsed { "[+]" } else { "[-]" }
}

/// Sets pixel (`sx`, `sy`) of a `bw` by `bh` screen when it lies on the
/// screen and in the buffer.
pub fn badge_pixel(buf: &mut [u32], bw: u32, bh: u32, sx: u32, sy: u32, color: u32)
    requires
        sx < bw && sy < bh ==> sy * bw + sx <= u32::MAX,
    ensures
        final(buf)@ == if sx < bw && sy < bh && sy * bw + sx < old(buf)@.len() {
            old(buf)@.update(sy * bw + sx, color)
        } else {
            old(buf)@
        },
{
    if sx >= bw || sy >= bh {
        return;
    }
    let idx = (sy * bw + sx) as usize;
    if idx < buf.len() {
        buf[idx] = color;
    }
}

} // verus!
