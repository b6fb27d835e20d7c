//! Word motions of visual mode (`w`, `b`, `e`) over the visible grid,
//! walking cells in reading order and wrapping across rows.
use vstd::prelude::*;
use crate::draw::{sat_sub, view_line};
use crate::grid::Grid;
use crate::text::{alphanumeric, is_alphanumeric};

verus! {

/// Letters, digits and `_` make up words.
pub open spec fn word_char(c: char) -> bool {
    alphanumeric(c) || c == '_'
}

pub fn is_word(c: char) -> (r: bool)
    ensures
        r == word_char(c),
{
    is_alphanumeric(c) || c == '_'
}

/// The character shown at viewport position (`col`, `row`) with the view
/// scrolled `scroll` lines back; a space outside the grid and past the end
/// of a short scrollback line.
pub open spec fn char_at_spec(g: &Grid, scroll: int, row: int, col: int) -> char {
    if col >= g.cols {
        ' '
    } else if scroll == 0 {
        if row < g.rows { g.cell_at(col, row).c } else { ' ' }
    } else {
        let sb_len = g.scrollback@.len() as int;
        let line = view_line(g, scroll, row);
        if line < sb_len {
            if col < g.sb()[line].len() { g.sb()[line][col].c } else { ' ' }
        } else if line - sb_len < g.rows {
            g.cell_at(col, line - sb_len).c
        } else {
            ' '
        }
    }
}

pub fn char_at(grid: &Grid, scroll_offset: usize, row: usize, col: usize) -> (c: char)
    requires
        grid.wf(),
        view_line(grid, scroll_offset as int, row as int) <= usize::MAX,
    ensures
        c == char_at_spec(grid, scroll_offset as int, row as int, col as int),
{
    if col >= grid.cols {
        return ' ';
    }
    if scroll_offset == 0 {
        return if row < grid.rows { grid.cell(col, row).c } else { ' ' };
    }
    let sb_len = grid.scrollback.len();
    let abs_row = sb_len.saturating_sub(scroll_offset) + row;
    if abs_row < sb_len {
        let line = &grid.scrollback[abs_row];
        assert(grid.sb()[abs_row as int] == line@);
        if col < line.len() { line[col].c } else { ' ' }
    } else {
        let live = abs_row - sb_len;
        if live < grid.rows { grid.cell(col, live).c } else { ' ' }
    }
}

/// The next position in reading order: right, or to the start of the next
/// row, or none from the last cell.
pub open spec fn next_pos(col: int, row: int, cols: int, rows: int) -> Option<(int, int)> {
    if col + 1 < cols {
        Some((col + 1, row))
    } else if row + 1 < rows {
        Some((0, row + 1))
    } else {
        None
    }
}

/// The previous position in reading order: left, or to the end of the
/// previous row, or none from the origin.
pub open spec fn prev_pos(col: int, row: int, cols: int) -> Option<(int, int)> {
    if col > 0 {
        Some((col - 1, row))
    } else if row > 0 {
        Some((cols - 1, row - 1))
    } else {
        None
    }
}

pub fn step_forward(col: usize, row: usize, cols: usize, rows: usize) -> (r: Option<(usize, usize)>)
    requires
        col < usize::MAX,
        row < usize::MAX,
    ensures
        match r {
            Some((c, w)) => next_pos(col as int, row as int, cols as int, rows as int) == Some((c as int, w as int)),
            None => next_pos(col as int, row as int, cols as int, rows as int) is None,
        },
{
    if col + 1 < cols {
        Some((col + 1, row))
    } else if row + 1 < rows {
        Some((0, row + 1))
    } else {
        None
    }
}

pub fn step_back(col: usize, row: usize, cols: usize) -> (r: Option<(usize, usize)>)
    requires
        col == 0 && row > 0 ==> cols > 0,
    ensures
        match r {
            Some((c, w)) => prev_pos(col as int, row as int, cols as int) == Some((c as int, w as int)),
            None => prev_pos(col as int, row as int, cols as int) is None,
        },
{
    if col > 0 {
        Some((col - 1, row))
    } else if row > 0 {
        Some((cols - 1, row - 1))
    } else {
        None
    }
}

/// Stepping back undoes stepping forward, inside the grid.
pub proof fn lemma_step_back_undoes_forward(col: int, row: int, cols: int, rows: int)
    requires
        0 <= col < cols,
        0 <= row < rows,
        next_pos(col, row, cols, rows) is Some,
    ensures
        ({
            let (c, r) = next_pos(col, row, cols, rows)->0;
            prev_pos(c, r, cols) == Some((col, row))
        }),
{
}

/// Stepping forward undoes stepping back, inside the grid.
pub proof fn lemma_step_forward_undoes_back(col: int, row: int, cols: int, rows: int)
    requires
        0 <= col < cols,
        0 <= row < rows,
        prev_pos(col, row, cols) is Some,
    ensures
        ({
            let (c, r) = prev_pos(col, row, cols)->0;
            next_pos(c, r, cols, rows) == Some((col, row))
        }),
{
}

/// Where the first run ends when moving to the next word: the first later
/// position that leaves a word (when starting in one) or that reaches a
/// space or a word (when starting elsewhere); the last cell if none does.
pub open spec fn run_end(g: &Grid, scroll: int, in_word: bool, col: int, row: int) -> (int, int)
    decreases g.rows - row, g.cols - col,
{
    match next_pos(col, row, g.cols as int, g.rows as int) {
        None => (col, row),
        Some((nc, nr)) => {
            let ch = char_at_spec(g, scroll, nr, nc);
            if (in_word && !word_char(ch)) || (!in_word && (ch == ' ' || word_char(ch))) {
                (nc, nr)
            } else {
                run_end(g, scroll, in_word, nc, nr)
            }
        },
    }
}

/// The first position from (`col`, `row`) on that holds no space; the last
/// cell if all do.
pub open spec fn skip_spaces_fwd(g: &Grid, scroll: int, col: int, row: int) -> (int, int)
    decreases g.rows - row, g.cols - col,
{
    if char_at_spec(g, scroll, row, col) != ' ' {
        (col, row)
    } else {
        match next_pos(col, row, g.cols as int, g.rows as int) {
            None => (col, row),
            Some((nc, nr)) => skip_spaces_fwd(g, scroll, nc, nr),
        }
    }
}

/// Where `w` lands from (`col`, `row`): past the current run, then past
/// any spaces.
pub open spec fn word_forward_spec(g: &Grid, scroll: int, col: int, row: int) -> (int, int) {
    let in_word = word_char(char_at_spec(g, scroll, row, col));
    let (c, r) = run_end(g, scroll, in_word, col, row);
    skip_spaces_fwd(g, scroll, c, r)
}

/// The rows the motions read lie in the scrollback-then-live lines.
pub open spec fn motion_ok(g: &Grid, scroll: int, col: int, row: int) -> bool {
    &&& g.wf()
    &&& col < usize::MAX
    &&& row < usize::MAX
    &&& view_line(g, scroll, row) <= usize::MAX
    &&& sat_sub(g.scrollback@.len() as int, scroll) + g.rows <= usize::MAX
}

/// Start of the next word (`w`): skips the rest of the current run, then
/// any spaces.
pub fn word_forward(grid: &Grid, scroll_offset: usize, col: usize, row: usize) -> (p: (usize, usize))
    requires
        motion_ok(grid, scroll_offset as int, col as int, row as int),
    ensures
        (p.0 as int, p.1 as int) == word_forward_spec(grid, scroll_offset as int, col as int, row as int),
{
    let cols = grid.cols;
    let rows = grid.rows;
    let ghost s = scroll_offset as int;
    let cur_is_word = is_word(char_at(grid, scroll_offset, row, col));
    let ghost target = run_end(grid, s, cur_is_word, col as int, row as int);
    let mut c = col;
    let mut r = row;
    loop
        invariant_except_break
            target == run_end(grid, s, cur_is_word, c as int, r as int),
        invariant
            motion_ok(grid, s, col as int, row as int),
            cols == grid.cols,
            rows == grid.rows,
            s == scroll_offset,
            c < usize::MAX,
            r < usize::MAX,
            view_line(grid, s, r as int) <= usize::MAX,
            target == run_end(grid, s, cur_is_word, col as int, row as int),
        ensures
            target == (c as int, r as int),
        decreases rows - r, cols - c,
    {
        match step_forward(c, r, cols, rows) {
            None => {
                break;
            },
            Some((nc, nr)) => {
                let next_char = char_at(grid, scroll_offset, nr, nc);
                c = nc;
                r = nr;
                if (cur_is_word && !is_word(next_char)) || (!cur_is_word && (next_char == ' ' || is_word(next_char))) {
                    break;
                }
            },
        }
    }
    let ghost target2 = skip_spaces_fwd(grid, s, c as int, r as int);
    loop
        invariant
            motion_ok(grid, s, col as int, row as int),
            cols == grid.cols,
            rows == grid.rows,
            s == scroll_offset,
            c < usize::MAX,
            r < usize::MAX,
            view_line(grid, s, r as int) <= usize::MAX,
            target2 == skip_spaces_fwd(grid, s, c as int, r as int),
        ensures
            target2 == (c as int, r as int),
        decreases rows - r, cols - c,
    {
        if char_at(grid, scroll_offset, r, c) != ' ' {
            break;
        }
        match step_forward(c, r, cols, rows) {
            None => {
                break;
            },
            Some((nc, nr)) => {
                c = nc;
                r = nr;
            },
        }
    }
    (c, r)
}

/// Moving back over spaces: the first position from (`col`, `row`)
/// backwards that holds no space; the origin if all do.
pub open spec fn skip_spaces_back(g: &Grid, scroll: int, col: int, row: int) -> (int, int)
    decreases row, col,
{
    if char_at_spec(g, scroll, row, col) != ' ' {
        (col, row)
    } else {
        match prev_pos(col, row, g.cols as int) {
            None => (col, row),
            Some((pc, pr)) => skip_spaces_back(g, scroll, pc, pr),
        }
    }
}

/// Moving back to the start of a run: while the previous cell holds a
/// character of the same kind as `in_word` says and no space.
pub open spec fn run_start(g: &Grid, scroll: int, in_word: bool, col: int, row: int) -> (int, int)
    decreases row, col,
{
    match prev_pos(col, row, g.cols as int) {
        None => (col, row),
        Some((pc, pr)) => {
            let prev = char_at_spec(g, scroll, pr, pc);
            if in_word != word_char(prev) || prev == ' ' {
                (col, row)
            } else {
                run_start(g, scroll, in_word, pc, pr)
            }
        },
    }
}

/// Where `b` lands from (`col`, `row`): one step back, back over spaces,
/// then back to the start of the run found there.
pub open spec fn word_backward_spec(g: &Grid, scroll: int, col: int, row: int) -> (int, int) {
    match prev_pos(col, row, g.cols as int) {
        None => (col, row),
        Some((sc, sr)) => {
            let (c, r) = skip_spaces_back(g, scroll, sc, sr);
            run_start(g, scroll, word_char(char_at_spec(g, scroll, r, c)), c, r)
        },
    }
}

/// Start of the previous word (`b`).
pub fn word_backward(grid: &Grid, scroll_offset: usize, col: usize, row: usize) -> (p: (usize, usize))
    requires
        motion_ok(grid, scroll_offset as int, col as int, row as int),
        grid.cols > 0 || row == 0,
    ensures
        (p.0 as int, p.1 as int) == word_backward_spec(grid, scroll_offset as int, col as int, row as int),
{
    let cols = grid.cols;
    let ghost s = scroll_offset as int;
    let (sc, sr) = match step_back(col, row, cols) {
        None => {
            return (col, row);
        },
        Some(p) => p,
    };
    let mut c = sc;
    let mut r = sr;
    let ghost target = skip_spaces_back(grid, s, sc as int, sr as int);
    loop
        invariant
            motion_ok(grid, s, col as int, row as int),
            cols == grid.cols,
            s == scroll_offset,
            r <= row,
            cols > 0 || r == 0,
            target == skip_spaces_back(grid, s, c as int, r as int),
        ensures
            target == (c as int, r as int),
            r <= row,
            cols > 0 || r == 0,
        decreases r, c,
    {
        if char_at(grid, scroll_offset, r, c) != ' ' {
            break;
        }
        match step_back(c, r, cols) {
            None => {
                break;
            },
            Some((nc, nr)) => {
                c = nc;
                r = nr;
            },
        }
    }
    let target_is_word = is_word(char_at(grid, scroll_offset, r, c));
    let ghost target2 = run_start(grid, s, target_is_word, c as int, r as int);
    loop
        invariant
            motion_ok(grid, s, col as int, row as int),
            cols == grid.cols,
            s == scroll_offset,
            r <= row,
            cols > 0 || r == 0,
            target2 == run_start(grid, s, target_is_word, c as int, r as int),
        ensures
            target2 == (c as int, r as int),
        decreases r, c,
    {
        match step_back(c, r, cols) {
            None => {
                break;
            },
            Some((nc, nr)) => {
                let prev = char_at(grid, scroll_offset, nr, nc);
                if target_is_word != is_word(prev) || prev == ' ' {
                    break;
                }
                c = nc;
                r = nr;
            },
        }
    }
    (c, r)
}

/// Moving forward to the end of the word at (`col`, `row`): while the next
/// cell is a word character too; no move off a non-word cell.
pub open spec fn word_tail(g: &Grid, scroll: int, col: int, row: int) -> (int, int)
    decreases g.rows - row, g.cols - col,
{
    if !word_char(char_at_spec(g, scroll, row, col)) {
        (col, row)
    } else {
        match next_pos(col, row, g.cols as int, g.rows as int) {
            None => (col, row),
            Some((nc, nr)) => if !word_char(char_at_spec(g, scroll, nr, nc)) {
                (col, row)
            } else {
                word_tail(g, scroll, nc, nr)
            },
        }
    }
}

/// Where `e` lands from (`col`, `row`): one step forward when already on
/// the last character of a word (no move at the last cell), forward over
/// spaces, then to the end of the word found there.
pub open spec fn word_end_spec(g: &Grid, scroll: int, col: int, row: int) -> (int, int) {
    let cur = char_at_spec(g, scroll, row, col);
    let next = match next_pos(col, row, g.cols as int, g.rows as int) {
        Some((nc, nr)) => char_at_spec(g, scroll, nr, nc),
        None => ' ',
    };
    let at_end = word_char(cur) && !word_char(next);
    if at_end && next_pos(col, row, g.cols as int, g.rows as int) is None {
        (col, row)
    } else {
        let (c0, r0) = if at_end { next_pos(col, row, g.cols as int, g.rows as int)->0 } else { (col, row) };
        let (c1, r1) = skip_spaces_fwd(g, scroll, c0, r0);
        word_tail(g, scroll, c1, r1)
    }
}

/// End of the current or next word (`e`).
pub fn word_end(grid: &Grid, scroll_offset: usize, col: usize, row: usize) -> (p: (usize, usize))
    requires
        motion_ok(grid, scroll_offset as int, col as int, row as int),
    ensures
        (p.0 as int, p.1 as int) == word_end_spec(grid, scroll_offset as int, col as int, row as int),
{
    let cols = grid.cols;
    let rows = grid.rows;
    let ghost s = scroll_offset as int;
    let mut c = col;
    let mut r = row;
    let cur = char_at(grid, scroll_offset, r, c);
    let next = match step_forward(c, r, cols, rows) {
        Some((nc, nr)) => char_at(grid, scroll_offset, nr, nc),
        None => ' ',
    };
    let at_word_end = is_word(cur) && !is_word(next);
    if at_word_end {
        match step_forward(c, r, cols, rows) {
            None => {
                return (c, r);
            },
            Some((nc, nr)) => {
                c = nc;
                r = nr;
            },
        }
    }
    let ghost (c0, r0) = (c as int, r as int);
    loop
        invariant
            motion_ok(grid, s, col as int, row as int),
            cols == grid.cols,
            rows == grid.rows,
            s == scroll_offset,
            c < usize::MAX,
            r < usize::MAX,
            view_line(grid, s, r as int) <= usize::MAX,
            skip_spaces_fwd(grid, s, c0, r0) == skip_spaces_fwd(grid, s, c as int, r as int),
        ensures
            skip_spaces_fwd(grid, s, c0, r0) == (c as int, r as int),
            c < usize::MAX,
            r < usize::MAX,
            view_line(grid, s, r as int) <= usize::MAX,
        decreases rows - r, cols - c,
    {
        if char_at(grid, scroll_offset, r, c) != ' ' {
            break;
        }
        match step_forward(c, r, cols, rows) {
            None => {
                break;
            },
            Some((nc, nr)) => {
                c = nc;
                r = nr;
            },
        }
    }
    let ghost (c1, r1) = (c as int, r as int);
    loop
        invariant
            motion_ok(grid, s, col as int, row as int),
            cols == grid.cols,
            rows == grid.rows,
            s == scroll_offset,
            c < usize::MAX,
            r < usize::MAX,
            view_line(grid, s, r as int) <= usize::MAX,
            word_tail(grid, s, c1, r1) == word_tail(grid, s, c as int, r as int),
        ensures
            word_tail(grid, s, c1, r1) == (c as int, r as int),
        decreases rows - r, cols - c,
    {
        let cur_is_word = is_word(char_at(grid, scroll_offset, r, c));
        let next_pos_opt = step_forward(c, r, cols, rows);
        match next_pos_opt {
            None => {
                break;
            },
            Some((nc, nr)) => {
                let next_is_word = is_word(char_at(grid, scroll_offset, nr, nc));
                if cur_is_word && !next_is_word {
                    break;
                }
                if !cur_is_word {
                    break;
                }
                c = nc;
                r = nr;
            },
        }
    }
    (c, r)
}


/// Position `a` comes no later than `b` in reading order.
pub open spec fn pos_le(a: (int, int), b: (int, int)) -> bool {
    a.1 < b.1 || (a.1 == b.1 && a.0 <= b.0)
}

/// Position `p` is a cell of a `cols` by `rows` screen.
pub open spec fn on_screen(p: (int, int), cols: int, rows: int) -> bool {
    0 <= p.0 < cols && 0 <= p.1 < rows
}

proof fn lemma_run_end_forward(g: &Grid, scroll: int, in_word: bool, col: int, row: int)
    requires
        on_screen((col, row), g.cols as int, g.rows as int),
    ensures
        on_screen(run_end(g, scroll, in_word, col, row), g.cols as int, g.rows as int),
        pos_le((col, row), run_end(g, scroll, in_word, col, row)),
    decreases g.rows - row, g.cols - col,
{
    if let Some((nc, nr)) = next_pos(col, row, g.cols as int, g.rows as int) {
        lemma_run_end_forward(g, scroll, in_word, nc, nr);
    }
}

proof fn lemma_skip_spaces_forward(g: &Grid, scroll: int, col: int, row: int)
    requires
        on_screen((col, row), g.cols as int, g.rows as int),
    ensures
        on_screen(skip_spaces_fwd(g, scroll, col, row), g.cols as int, g.rows as int),
        pos_le((col, row), skip_spaces_fwd(g, scroll, col, row)),
    decreases g.rows - row, g.cols - col,
{
    if let Some((nc, nr)) = next_pos(col, row, g.cols as int, g.rows as int) {
        lemma_skip_spaces_forward(g, scroll, nc, nr);
    }
}

proof fn lemma_word_tail_forward(g: &Grid, scroll: int, col: int, row: int)
    requires
        on_screen((col, row), g.cols as int, g.rows as int),
    ensures
        on_screen(word_tail(g, scroll, col, row), g.cols as int, g.rows as int),
        pos_le((col, row), word_tail(g, scroll, col, row)),
    decreases g.rows - row, g.cols - col,
{
    if let Some((nc, nr)) = next_pos(col, row, g.cols as int, g.rows as int) {
        lemma_word_tail_forward(g, scroll, nc, nr);
    }
}

proof fn lemma_skip_spaces_backward(g: &Grid, scroll: int, col: int, row: int)
    requires
        on_screen((col, row), g.cols as int, g.rows as int),
    ensures
        on_screen(skip_spaces_back(g, scroll, col, row), g.cols as int, g.rows as int),
        pos_le(skip_spaces_back(g, scroll, col, row), (col, row)),
    decreases row, col,
{
    if let Some((pc, pr)) = prev_pos(col, row, g.cols as int) {
        lemma_skip_spaces_backward(g, scroll, pc, pr);
    }
}

proof fn lemma_run_start_backward(g: &Grid, scroll: int, in_word: bool, col: int, row: int)
    requires
        on_screen((col, row), g.cols as int, g.rows as int),
    ensures
        on_screen(run_start(g, scroll, in_word, col, row), g.cols as int, g.rows as int),
        pos_le(run_start(g, scroll, in_word, col, row), (col, row)),
    decreases row, col,
{
    if let Some((pc, pr)) = prev_pos(col, row, g.cols as int) {
        lemma_run_start_backward(g, scroll, in_word, pc, pr);
    }
}

/// The word motions keep the cursor on the screen; `w` and `e` never move
/// it back and `b` never moves it forward, in reading order.
pub proof fn lemma_word_motions_direction(g: &Grid, scroll: int, col: int, row: int)
    requires
        on_screen((col, row), g.cols as int, g.rows as int),
    ensures
        on_screen(word_forward_spec(g, scroll, col, row), g.cols as int, g.rows as int),
        pos_le((col, row), word_forward_spec(g, scroll, col, row)),
        on_screen(word_end_spec(g, scroll, col, row), g.cols as int, g.rows as int),
        pos_le((col, row), word_end_spec(g, scroll, col, row)),
        on_screen(word_backward_spec(g, scroll, col, row), g.cols as int, g.rows as int),
        pos_le(word_backward_spec(g, scroll, col, row), (col, row)),
{
    let in_word = word_char(char_at_spec(g, scroll, row, col));
    lemma_run_end_forward(g, scroll, in_word, col, row);
    let (c, r) = run_end(g, scroll, in_word, col, row);
    lemma_skip_spaces_forward(g, scroll, c, r);

    let cur = char_at_spec(g, scroll, row, col);
    let nx = next_pos(col, row, g.cols as int, g.rows as int);
    let next = match nx {
        Some((nc, nr)) => char_at_spec(g, scroll, nr, nc),
        None => ' ',
    };
    let at_end = word_char(cur) && !word_char(next);
    if !(at_end && nx is None) {
        let (c0, r0) = if at_end { nx->0 } else { (col, row) };
        lemma_skip_spaces_forward(g, scroll, c0, r0);
        let (c1, r1) = skip_spaces_fwd(g, scroll, c0, r0);
        lemma_word_tail_forward(g, scroll, c1, r1);
    }

    if let Some((sc, sr)) = prev_pos(col, row, g.cols as int) {
        lemma_skip_spaces_backward(g, scroll, sc, sr);
        let (b0, b1) = skip_spaces_back(g, scroll, sc, sr);
        lemma_run_start_backward(g, scroll, word_char(char_at_spec(g, scroll, b1, b0)), b0, b1);
    }
}

/// Whether the cell at `t` holds a word character (alphanumeric or `_`).
pub open spec fn word_at(g: &Grid, scroll: int, t: (int, int)) -> bool {
    word_char(char_at_spec(g, scroll, t.1, t.0))
}

/// Whether the cell at `t` holds a space.
pub open spec fn space_at(g: &Grid, scroll: int, t: (int, int)) -> bool {
    char_at_spec(g, scroll, t.1, t.0) == ' '
}

proof fn lemma_between_prev(t: (int, int), x: (int, int), cols: int, rows: int)
    requires
        on_screen(t, cols, rows),
        on_screen(x, cols, rows),
        pos_lt(t, x),
    ensures
        prev_pos(x.0, x.1, cols) is Some,
        pos_le(t, prev_pos(x.0, x.1, cols)->0),
        pos_lt(prev_pos(x.0, x.1, cols)->0, x),
        on_screen(prev_pos(x.0, x.1, cols)->0, cols, rows),
{
}

proof fn lemma_skip_back_spaces(g: &Grid, scroll: int, col: int, row: int)
    requires
        on_screen((col, row), g.cols as int, g.rows as int),
    ensures
        ({
            let q = skip_spaces_back(g, scroll, col, row);
            &&& on_screen(q, g.cols as int, g.rows as int)
            &&& pos_le(q, (col, row))
            &&& (!space_at(g, scroll, q) || prev_pos(q.0, q.1, g.cols as int) is None)
            &&& forall|tc: int, tr: int|
                on_screen((tc, tr), g.cols as int, g.rows as int) && pos_lt(q, (tc, tr)) && pos_le((tc, tr), (col, row))
                    ==> #[trigger] char_at_spec(g, scroll, tr, tc) == ' '
        }),
    decreases row, col,
{
    if char_at_spec(g, scroll, row, col) == ' ' {
        if let Some((pc, pr)) = prev_pos(col, row, g.cols as int) {
            lemma_skip_back_spaces(g, scroll, pc, pr);
            let q = skip_spaces_back(g, scroll, pc, pr);
            assert forall|tc: int, tr: int|
                on_screen((tc, tr), g.cols as int, g.rows as int) && pos_lt(q, (tc, tr)) && pos_le((tc, tr), (col, row))
                    implies #[trigger] char_at_spec(g, scroll, tr, tc) == ' ' by {
                if (tc, tr) != (col, row) {
                    lemma_between_prev((tc, tr), (col, row), g.cols as int, g.rows as int);
                }
            }
        }
    }
}

proof fn lemma_run_start_run(g: &Grid, scroll: int, in_word: bool, col: int, row: int)
    requires
        on_screen((col, row), g.cols as int, g.rows as int),
    ensures
        ({
            let p = run_start(g, scroll, in_word, col, row);
            &&& on_screen(p, g.cols as int, g.rows as int)
            &&& pos_le(p, (col, row))
            &&& (prev_pos(p.0, p.1, g.cols as int) matches Some(pp) ==> space_at(g, scroll, pp) || word_at(g, scroll, pp) != in_word)
            &&& forall|tc: int, tr: int|
                on_screen((tc, tr), g.cols as int, g.rows as int) && pos_le(p, (tc, tr)) && pos_lt((tc, tr), (col, row))
                    ==> #[trigger] char_at_spec(g, scroll, tr, tc) != ' ' && word_char(char_at_spec(g, scroll, tr, tc)) == in_word
        }),
    decreases row, col,
{
    if let Some((pc, pr)) = prev_pos(col, row, g.cols as int) {
        let prev = char_at_spec(g, scroll, pr, pc);
        if !(in_word != word_char(prev) || prev == ' ') {
            lemma_run_start_run(g, scroll, in_word, pc, pr);
            let p = run_start(g, scroll, in_word, pc, pr);
            assert forall|tc: int, tr: int|
                on_screen((tc, tr), g.cols as int, g.rows as int) && pos_le(p, (tc, tr)) && pos_lt((tc, tr), (col, row))
                    implies #[trigger] char_at_spec(g, scroll, tr, tc) != ' ' && word_char(char_at_spec(g, scroll, tr, tc)) == in_word by {
                lemma_between_prev((tc, tr), (col, row), g.cols as int, g.rows as int);
            }
        }
    }
}

/// Where `b` lands starts a run, and the cells it jumps over are that run
/// and spaces: from the cursor (not at the origin) `b` moves strictly
/// back to a cell at the origin or after a space or a character of the
/// other word class; every cell from there up to the cursor is either
/// followed only by spaces up to the cursor, or is no space and has the
/// landing cell's word class.
pub proof fn lemma_word_backward_run_start(g: &Grid, scroll: int, col: int, row: int)
    requires
        on_screen((col, row), g.cols as int, g.rows as int),
        prev_pos(col, row, g.cols as int) is Some,
    ensures
        ({
            let p = word_backward_spec(g, scroll, col, row);
            &&& on_screen(p, g.cols as int, g.rows as int)
            &&& pos_lt(p, (col, row))
            &&& (prev_pos(p.0, p.1, g.cols as int) matches Some(pp) ==> space_at(g, scroll, pp) || word_at(g, scroll, pp) != word_at(g, scroll, p))
            &&& forall|tc: int, tr: int|
                on_screen((tc, tr), g.cols as int, g.rows as int) && pos_le(p, (tc, tr)) && pos_lt((tc, tr), (col, row))
                    ==> (#[trigger] char_at_spec(g, scroll, tr, tc) != ' ' ==> word_char(char_at_spec(g, scroll, tr, tc)) == word_at(g, scroll, p))
                    && (char_at_spec(g, scroll, tr, tc) == ' ' ==> forall|uc: int, ur: int|
                        on_screen((uc, ur), g.cols as int, g.rows as int) && pos_le((tc, tr), (uc, ur)) && pos_lt((uc, ur), (col, row))
                            ==> #[trigger] char_at_spec(g, scroll, ur, uc) == ' ')
        }),
{
    let cols = g.cols as int;
    let rows = g.rows as int;
    let (sc, sr) = prev_pos(col, row, cols)->0;
    lemma_skip_back_spaces(g, scroll, sc, sr);
    let q = skip_spaces_back(g, scroll, sc, sr);
    let w = word_at(g, scroll, q);
    lemma_run_start_run(g, scroll, w, q.0, q.1);
    let p = run_start(g, scroll, w, q.0, q.1);
    assert(p == word_backward_spec(g, scroll, col, row));
    if space_at(g, scroll, q) {
        // Spaces all the way back to the origin: `b` stays on the first cell.
        assert(p == q);
    }
    assert(word_at(g, scroll, p) == w) by {
        if p != q {
            assert(pos_lt(p, q));
            assert(char_at_spec(g, scroll, p.1, p.0) != ' ');
        }
    }
    assert forall|tc: int, tr: int|
        on_screen((tc, tr), cols, rows) && pos_le(p, (tc, tr)) && pos_lt((tc, tr), (col, row))
            implies (#[trigger] char_at_spec(g, scroll, tr, tc) != ' ' ==> word_char(char_at_spec(g, scroll, tr, tc)) == word_at(g, scroll, p))
            && (char_at_spec(g, scroll, tr, tc) == ' ' ==> forall|uc: int, ur: int|
                on_screen((uc, ur), cols, rows) && pos_le((tc, tr), (uc, ur)) && pos_lt((uc, ur), (col, row))
                    ==> #[trigger] char_at_spec(g, scroll, ur, uc) == ' ') by {
        lemma_between_prev((tc, tr), (col, row), cols, rows);
        if char_at_spec(g, scroll, tr, tc) == ' ' {
            assert forall|uc: int, ur: int|
                on_screen((uc, ur), cols, rows) && pos_le((tc, tr), (uc, ur)) && pos_lt((uc, ur), (col, row))
                    implies #[trigger] char_at_spec(g, scroll, ur, uc) == ' ' by {
                lemma_between_prev((uc, ur), (col, row), cols, rows);
                if !pos_lt(q, (uc, ur)) {
                    if pos_lt((uc, ur), q) {
                        assert(char_at_spec(g, scroll, ur, uc) != ' ');
                    }
                }
            }
        }
    }
}

/// Whether the run that `in_word` describes ends at a cell holding `ch`.
pub open spec fn run_stops(in_word: bool, ch: char) -> bool {
    (in_word && !word_char(ch)) || (!in_word && (ch == ' ' || word_char(ch)))
}

proof fn lemma_run_end_run(g: &Grid, scroll: int, in_word: bool, col: int, row: int)
    requires
        on_screen((col, row), g.cols as int, g.rows as int),
    ensures
        ({
            let e = run_end(g, scroll, in_word, col, row);
            &&& on_screen(e, g.cols as int, g.rows as int)
            &&& pos_le((col, row), e)
            &&& (e == (col, row) ==> next_pos(col, row, g.cols as int, g.rows as int) is None)
            &&& (e != (col, row) ==> next_pos(e.0, e.1, g.cols as int, g.rows as int) is None
                || run_stops(in_word, char_at_spec(g, scroll, e.1, e.0)))
            &&& forall|tc: int, tr: int|
                on_screen((tc, tr), g.cols as int, g.rows as int) && pos_lt((col, row), (tc, tr)) && pos_lt((tc, tr), e)
                    ==> word_char(#[trigger] char_at_spec(g, scroll, tr, tc)) == in_word && (!in_word ==> char_at_spec(g, scroll, tr, tc) != ' ')
        }),
    decreases g.rows - row, g.cols - col,
{
    if let Some((nc, nr)) = next_pos(col, row, g.cols as int, g.rows as int) {
        let ch = char_at_spec(g, scroll, nr, nc);
        if !run_stops(in_word, ch) {
            lemma_run_end_run(g, scroll, in_word, nc, nr);
            let e = run_end(g, scroll, in_word, nc, nr);
            assert forall|tc: int, tr: int|
                on_screen((tc, tr), g.cols as int, g.rows as int) && pos_lt((col, row), (tc, tr)) && pos_lt((tc, tr), e)
                    implies word_char(#[trigger] char_at_spec(g, scroll, tr, tc)) == in_word && (!in_word ==> char_at_spec(g, scroll, tr, tc) != ' ') by {
                if (tc, tr) != (nc, nr) {
                    assert(pos_lt((nc, nr), (tc, tr)));
                }
            }
        }
    }
}

proof fn lemma_skip_fwd_spaces(g: &Grid, scroll: int, col: int, row: int)
    requires
        on_screen((col, row), g.cols as int, g.rows as int),
    ensures
        ({
            let q = skip_spaces_fwd(g, scroll, col, row);
            &&& on_screen(q, g.cols as int, g.rows as int)
            &&& pos_le((col, row), q)
            &&& (!space_at(g, scroll, q) || next_pos(q.0, q.1, g.cols as int, g.rows as int) is None)
            &&& forall|tc: int, tr: int|
                on_screen((tc, tr), g.cols as int, g.rows as int) && pos_le((col, row), (tc, tr)) && pos_lt((tc, tr), q)
                    ==> #[trigger] char_at_spec(g, scroll, tr, tc) == ' '
        }),
    decreases g.rows - row, g.cols - col,
{
    if char_at_spec(g, scroll, row, col) == ' ' {
        if let Some((nc, nr)) = next_pos(col, row, g.cols as int, g.rows as int) {
            lemma_skip_fwd_spaces(g, scroll, nc, nr);
            let q = skip_spaces_fwd(g, scroll, nc, nr);
            assert forall|tc: int, tr: int|
                on_screen((tc, tr), g.cols as int, g.rows as int) && pos_le((col, row), (tc, tr)) && pos_lt((tc, tr), q)
                    implies #[trigger] char_at_spec(g, scroll, tr, tc) == ' ' by {
                if (tc, tr) != (col, row) {
                    assert(pos_le((nc, nr), (tc, tr)));
                }
            }
        }
    }
}

/// Where `w` lands starts the next run: it is the last cell, or a cell
/// holding no space whose previous cell holds a space or a character of
/// the other word class; and the cells it jumps over are the rest of the
/// cursor's run (the cursor's word class) followed only by spaces.  (A
/// space counts as part of a word run only if `char::is_alphanumeric`
/// said a space were alphanumeric.)
pub proof fn lemma_word_forward_next_run(g: &Grid, scroll: int, col: int, row: int)
    requires
        on_screen((col, row), g.cols as int, g.rows as int),
    ensures
        ({
            let p = word_forward_spec(g, scroll, col, row);
            &&& on_screen(p, g.cols as int, g.rows as int)
            &&& (next_pos(p.0, p.1, g.cols as int, g.rows as int) is Some ==> !space_at(g, scroll, p))
            &&& (next_pos(p.0, p.1, g.cols as int, g.rows as int) is Some ==> (prev_pos(p.0, p.1, g.cols as int) matches Some(pp)
                && (space_at(g, scroll, pp) || word_at(g, scroll, pp) != word_at(g, scroll, p))))
            &&& forall|tc: int, tr: int|
                on_screen((tc, tr), g.cols as int, g.rows as int) && pos_lt((col, row), (tc, tr)) && pos_lt((tc, tr), p)
                    ==> (#[trigger] char_at_spec(g, scroll, tr, tc) != ' ' ==> word_char(char_at_spec(g, scroll, tr, tc)) == word_at(g, scroll, (col, row)))
                    && (char_at_spec(g, scroll, tr, tc) == ' ' ==> (word_char(' ') && word_at(g, scroll, (col, row)))
                        || forall|uc: int, ur: int|
                        on_screen((uc, ur), g.cols as int, g.rows as int) && pos_le((tc, tr), (uc, ur)) && pos_lt((uc, ur), p)
                            ==> #[trigger] char_at_spec(g, scroll, ur, uc) == ' ')
        }),
{
    let cols = g.cols as int;
    let rows = g.rows as int;
    let w = word_at(g, scroll, (col, row));
    lemma_run_end_run(g, scroll, w, col, row);
    let e = run_end(g, scroll, w, col, row);
    lemma_skip_fwd_spaces(g, scroll, e.0, e.1);
    let p = skip_spaces_fwd(g, scroll, e.0, e.1);
    assert(p == word_forward_spec(g, scroll, col, row));
    if next_pos(p.0, p.1, cols, rows) is Some {
        assert(!space_at(g, scroll, p));
        if p == e {
            // `e` is no last cell, so the run stopped at it.
            assert(e != (col, row));
            assert(run_stops(w, char_at_spec(g, scroll, e.1, e.0)));
            lemma_between_prev((col, row), e, cols, rows);
            let pp = prev_pos(e.0, e.1, cols)->0;
            if pp != (col, row) {
                assert(pos_lt((col, row), pp));
                assert(word_char(char_at_spec(g, scroll, pp.1, pp.0)) == w);
            }
        } else {
            assert(pos_lt(e, p));
            lemma_between_prev(e, p, cols, rows);
            let pp = prev_pos(p.0, p.1, cols)->0;
            assert(char_at_spec(g, scroll, pp.1, pp.0) == ' ');
        }
    }
    assert forall|tc: int, tr: int|
        on_screen((tc, tr), cols, rows) && pos_lt((col, row), (tc, tr)) && pos_lt((tc, tr), p)
            implies (#[trigger] char_at_spec(g, scroll, tr, tc) != ' ' ==> word_char(char_at_spec(g, scroll, tr, tc)) == w)
            && (char_at_spec(g, scroll, tr, tc) == ' ' ==> (word_char(' ') && w) || forall|uc: int, ur: int|
                on_screen((uc, ur), cols, rows) && pos_le((tc, tr), (uc, ur)) && pos_lt((uc, ur), p)
                    ==> #[trigger] char_at_spec(g, scroll, ur, uc) == ' ') by {
        if char_at_spec(g, scroll, tr, tc) == ' ' && !pos_lt((tc, tr), e) {
            assert forall|uc: int, ur: int|
                on_screen((uc, ur), cols, rows) && pos_le((tc, tr), (uc, ur)) && pos_lt((uc, ur), p)
                    implies #[trigger] char_at_spec(g, scroll, ur, uc) == ' ' by {
                assert(pos_le(e, (uc, ur)));
            }
        } else if char_at_spec(g, scroll, tr, tc) != ' ' {
            if !pos_lt((tc, tr), e) {
                assert(pos_le(e, (tc, tr)));
                assert(char_at_spec(g, scroll, tr, tc) == ' ');
            }
        }
    }
}

proof fn lemma_after_next(x: (int, int), t: (int, int), cols: int, rows: int)
    requires
        on_screen(x, cols, rows),
        on_screen(t, cols, rows),
        pos_lt(x, t),
    ensures
        next_pos(x.0, x.1, cols, rows) matches Some(n) && pos_le(n, t) && on_screen(n, cols, rows) && pos_lt(x, n),
{
}

proof fn lemma_word_tail_run(g: &Grid, scroll: int, col: int, row: int)
    requires
        on_screen((col, row), g.cols as int, g.rows as int),
    ensures
        ({
            let y = word_tail(g, scroll, col, row);
            &&& on_screen(y, g.cols as int, g.rows as int)
            &&& pos_le((col, row), y)
            &&& (!word_at(g, scroll, (col, row)) ==> y == (col, row))
            &&& (word_at(g, scroll, y) ==> (next_pos(y.0, y.1, g.cols as int, g.rows as int) matches Some(n) ==> !word_at(g, scroll, n)))
            &&& forall|tc: int, tr: int|
                on_screen((tc, tr), g.cols as int, g.rows as int) && pos_le((col, row), (tc, tr)) && pos_le((tc, tr), y) && y != (col, row)
                    ==> word_char(#[trigger] char_at_spec(g, scroll, tr, tc))
        }),
    decreases g.rows - row, g.cols - col,
{
    if word_at(g, scroll, (col, row)) {
        if let Some((nc, nr)) = next_pos(col, row, g.cols as int, g.rows as int) {
            if word_char(char_at_spec(g, scroll, nr, nc)) {
                lemma_word_tail_run(g, scroll, nc, nr);
                let y = word_tail(g, scroll, nc, nr);
                assert forall|tc: int, tr: int|
                    on_screen((tc, tr), g.cols as int, g.rows as int) && pos_le((col, row), (tc, tr)) && pos_le((tc, tr), y) && y != (col, row)
                        implies word_char(#[trigger] char_at_spec(g, scroll, tr, tc)) by {
                    if (tc, tr) != (col, row) {
                        lemma_after_next((col, row), (tc, tr), g.cols as int, g.rows as int);
                    }
                }
            }
        }
    }
}

/// Where `e` lands ends a word or stays put: a landing cell holding a word
/// character is the last cell or is followed by a non-word cell; the cells
/// it passes over are spaces or word characters only (it never crosses
/// punctuation); and once it has passed a word character (no space),
/// every cell up to the landing cell is a word character.
pub proof fn lemma_word_end_lands_on_word_end(g: &Grid, scroll: int, col: int, row: int)
    requires
        on_screen((col, row), g.cols as int, g.rows as int),
    ensures
        ({
            let p = word_end_spec(g, scroll, col, row);
            &&& on_screen(p, g.cols as int, g.rows as int)
            &&& (word_at(g, scroll, p) ==> (next_pos(p.0, p.1, g.cols as int, g.rows as int) matches Some(n) ==> !word_at(g, scroll, n)))
            &&& forall|tc: int, tr: int|
                on_screen((tc, tr), g.cols as int, g.rows as int) && pos_lt((col, row), (tc, tr)) && pos_lt((tc, tr), p)
                    ==> #[trigger] char_at_spec(g, scroll, tr, tc) == ' ' || word_char(char_at_spec(g, scroll, tr, tc))
            &&& forall|tc: int, tr: int, uc: int, ur: int|
                on_screen((tc, tr), g.cols as int, g.rows as int) && on_screen((uc, ur), g.cols as int, g.rows as int)
                    && pos_lt((col, row), (tc, tr)) && pos_le((tc, tr), (uc, ur)) && pos_le((uc, ur), p)
                    && word_char(#[trigger] char_at_spec(g, scroll, tr, tc)) && char_at_spec(g, scroll, tr, tc) != ' '
                    ==> word_char(#[trigger] char_at_spec(g, scroll, ur, uc))
        }),
{
    let cols = g.cols as int;
    let rows = g.rows as int;
    let cur = char_at_spec(g, scroll, row, col);
    let nx = next_pos(col, row, cols, rows);
    let next = match nx {
        Some((nc, nr)) => char_at_spec(g, scroll, nr, nc),
        None => ' ',
    };
    let at_end = word_char(cur) && !word_char(next);
    if at_end && nx is None {
        return;
    }
    let s0 = if at_end { nx->0 } else { (col, row) };
    lemma_skip_fwd_spaces(g, scroll, s0.0, s0.1);
    let q = skip_spaces_fwd(g, scroll, s0.0, s0.1);
    lemma_word_tail_run(g, scroll, q.0, q.1);
    let p = word_tail(g, scroll, q.0, q.1);
    assert(p == word_end_spec(g, scroll, col, row));
    assert forall|tc: int, tr: int|
        on_screen((tc, tr), cols, rows) && pos_lt((col, row), (tc, tr)) && pos_lt((tc, tr), p)
            implies #[trigger] char_at_spec(g, scroll, tr, tc) == ' ' || word_char(char_at_spec(g, scroll, tr, tc)) by {
        lemma_after_next((col, row), (tc, tr), cols, rows);
        if pos_lt((tc, tr), q) {
            assert(pos_le(s0, (tc, tr)));
        }
    }
    assert forall|tc: int, tr: int, uc: int, ur: int|
        on_screen((tc, tr), cols, rows) && on_screen((uc, ur), cols, rows)
            && pos_lt((col, row), (tc, tr)) && pos_le((tc, tr), (uc, ur)) && pos_le((uc, ur), p)
            && word_char(#[trigger] char_at_spec(g, scroll, tr, tc)) && char_at_spec(g, scroll, tr, tc) != ' '
            implies word_char(#[trigger] char_at_spec(g, scroll, ur, uc)) by {
        lemma_after_next((col, row), (tc, tr), cols, rows);
        assert(pos_le(s0, (tc, tr)));
        // Cells from `s0` before `q` are spaces, so the word character is at or after `q`.
        assert(pos_le(q, (tc, tr)));
        if p == q {
            assert((uc, ur) == (tc, tr));
        }
    }
}

/// Position `a` comes strictly before `b` in reading order.
pub open spec fn pos_lt(a: (int, int), b: (int, int)) -> bool {
    a.1 < b.1 || (a.1 == b.1 && a.0 < b.0)
}

/// The word motions make progress: `w` moves strictly forward unless the
/// cursor is on the last cell, where it stays; `b` moves strictly back
/// unless the cursor is at the origin, where it stays; `e` on the last
/// character of a word moves strictly forward unless that is the last cell.
pub proof fn lemma_word_motions_progress(g: &Grid, scroll: int, col: int, row: int)
    requires
        on_screen((col, row), g.cols as int, g.rows as int),
    ensures
        next_pos(col, row, g.cols as int, g.rows as int) is Some ==> pos_lt((col, row), word_forward_spec(g, scroll, col, row)),
        next_pos(col, row, g.cols as int, g.rows as int) is None ==> word_forward_spec(g, scroll, col, row) == (col, row),
        prev_pos(col, row, g.cols as int) is Some ==> pos_lt(word_backward_spec(g, scroll, col, row), (col, row)),
        prev_pos(col, row, g.cols as int) is None ==> word_backward_spec(g, scroll, col, row) == (col, row),
        ({
            let nx = next_pos(col, row, g.cols as int, g.rows as int);
            (nx matches Some((nc, nr)) && word_char(char_at_spec(g, scroll, row, col))
                && !word_char(char_at_spec(g, scroll, nr, nc))) ==> pos_lt((col, row), word_end_spec(g, scroll, col, row))
        }),
{
    let cols = g.cols as int;
    let rows = g.rows as int;
    let in_word = word_char(char_at_spec(g, scroll, row, col));
    match next_pos(col, row, cols, rows) {
        Some((nc, nr)) => {
            let ch = char_at_spec(g, scroll, nr, nc);
            if !((in_word && !word_char(ch)) || (!in_word && (ch == ' ' || word_char(ch)))) {
                lemma_run_end_forward(g, scroll, in_word, nc, nr);
            }
            let (c, r) = run_end(g, scroll, in_word, col, row);
            assert(pos_le((nc, nr), (c, r)));
            lemma_run_end_forward(g, scroll, in_word, col, row);
            lemma_skip_spaces_forward(g, scroll, c, r);
            if word_char(char_at_spec(g, scroll, row, col)) && !word_char(ch) {
                lemma_skip_spaces_forward(g, scroll, nc, nr);
                let (c1, r1) = skip_spaces_fwd(g, scroll, nc, nr);
                lemma_word_tail_forward(g, scroll, c1, r1);
            }
        },
        None => {
            assert(run_end(g, scroll, in_word, col, row) == (col, row));
        },
    }
    if let Some((sc, sr)) = prev_pos(col, row, cols) {
        lemma_skip_spaces_backward(g, scroll, sc, sr);
        let (b0, b1) = skip_spaces_back(g, scroll, sc, sr);
        lemma_run_start_backward(g, scroll, word_char(char_at_spec(g, scroll, b1, b0)), b0, b1);
    }
}

} // verus!
