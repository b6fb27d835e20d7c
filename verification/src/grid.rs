//! Screen model of a terminal: colours, cells, the live grid and the lines
//! that scrolled off its top.
use vstd::prelude::*;

verus! {

/// A 24-bit RGB colour.
#[derive(Clone, Copy, Debug, PartialEq, Eq, Structural)]
pub struct Color {
    pub r: u8,
    pub g: u8,
    pub b: u8,
}

impl Color {
    pub fn rgb(r: u8, g: u8, b: u8) -> (c: Color)
        ensures
            c == (Color { r, g, b }),
    {
        Color { r, g, b }
    }

    pub fn white() -> (c: Color)
        ensures
            c == (Color { r: 255, g: 255, b: 255 }),
    {
        Color { r: 255, g: 255, b: 255 }
    }

    pub fn black() -> (c: Color)
        ensures
            c == (Color { r: 0, g: 0, b: 0 }),
    {
        Color { r: 0, g: 0, b: 0 }
    }

    /// Default cursor colour.
    pub fn cursor() -> (c: Color)
        ensures
            c == (Color { r: 0, g: 128, b: 255 }),
    {
        Color { r: 0, g: 128, b: 255 }
    }

    /// Default selection colour.
    pub fn selection() -> (c: Color)
        ensures
            c == (Color { r: 64, g: 64, b: 128 }),
    {
        Color { r: 64, g: 64, b: 128 }
    }
}

/// The colours a grid is created with.
#[derive(Clone, Copy, Debug)]
pub struct GridColors {
    pub fg: Color,
    pub bg: Color,
    pub cursor: Color,
    pub selection: Color,
    pub palette: [Color; 16],
}

/// One character cell with its attributes and an optional hyperlink.
#[derive(Debug)]
pub struct Cell {
    pub c: char,
    pub fg: Color,
    pub bg: Color,
    pub bold: bool,
    pub dim: bool,
    pub italic: bool,
    pub underline: bool,
    pub strikethrough: bool,
    pub overline: bool,
    pub reverse: bool,
    pub blink: bool,
    pub wide: bool,
    pub wide_cont: bool,
    pub url: Option<String>,
}

/// A cell holding `c` in the colours `fg` on `bg`, with no attribute set.
pub open spec fn plain_cell(c: char, fg: Color, bg: Color) -> Cell {
    Cell {
        c,
        fg,
        bg,
        bold: false,
        dim: false,
        italic: false,
        underline: false,
        strikethrough: false,
        overline: false,
        reverse: false,
        blink: false,
        wide: false,
        wide_cont: false,
        url: None,
    }
}

pub fn make_plain_cell(c: char, fg: Color, bg: Color) -> (r: Cell)
    ensures
        r == plain_cell(c, fg, bg),
{
    Cell {
        c,
        fg,
        bg,
        bold: false,
        dim: false,
        italic: false,
        underline: false,
        strikethrough: false,
        overline: false,
        reverse: false,
        blink: false,
        wide: false,
        wide_cont: false,
        url: None,
    }
}

pub fn clone_url(u: &Option<String>) -> (r: Option<String>)
    ensures
        r == *u,
{
    match u {
        Some(s) => Some(s.clone()),
        None => None,
    }
}

impl Cell {
    /// An independent copy of the cell.
    pub fn duplicate(&self) -> (r: Cell)
        ensures
            r == *self,
    {
        Cell {
            c: self.c,
            fg: self.fg,
            bg: self.bg,
            bold: self.bold,
            dim: self.dim,
            italic: self.italic,
            underline: self.underline,
            strikethrough: self.strikethrough,
            overline: self.overline,
            reverse: self.reverse,
            blink: self.blink,
            wide: self.wide,
            wide_cont: self.wide_cont,
            url: clone_url(&self.url),
        }
    }
}

/// The live screen (`rows` lines of `cols` cells, row-major in `cells`)
/// and the scrollback, oldest line first.
pub struct Grid {
    pub cols: usize,
    pub rows: usize,
    pub cells: Vec<Cell>,
    pub scrollback: Vec<Vec<Cell>>,
    pub scrollback_limit: usize,
    pub cursor_col: usize,
    pub cursor_row: usize,
    pub colors: GridColors,
}

/// The scrollback after `line` scrolled off the top: the oldest lines are
/// dropped so that at most `limit` remain.
pub open spec fn push_capped(sb: Seq<Seq<Cell>>, line: Seq<Cell>, limit: nat) -> Seq<Seq<Cell>> {
    let s = sb.push(line);
    if s.len() > limit {
        s.subrange(s.len() - limit, s.len() as int)
    } else {
        s
    }
}

/// The live cells and scrollback after the top line scrolled off.
pub open spec fn scrolled_once(cells: Seq<Cell>, sb: Seq<Seq<Cell>>, cols: nat, blank: Cell, limit: nat) -> (Seq<Cell>, Seq<Seq<Cell>>) {
    (
        cells.subrange(cols as int, cells.len() as int) + Seq::new(cols, |i: int| blank),
        push_capped(sb, cells.subrange(0, cols as int), limit),
    )
}

/// The live cells and scrollback after `n` lines scrolled off, one at a
/// time.
pub open spec fn scrolled_n(cells: Seq<Cell>, sb: Seq<Seq<Cell>>, cols: nat, blank: Cell, limit: nat, n: nat) -> (Seq<Cell>, Seq<Seq<Cell>>)
    decreases n,
{
    if n == 0 {
        (cells, sb)
    } else {
        let (c1, s1) = scrolled_once(cells, sb, cols, blank, limit);
        scrolled_n(c1, s1, cols, blank, limit, (n - 1) as nat)
    }
}

/// Where a character written to `g` lands, and the cells and scrollback
/// just before it is stored: the cursor row brought onto the screen, and a
/// cursor past the last column wrapped to the start of the next row,
/// scrolling the screen up when that row would be below the last.
pub open spec fn write_position(g: Grid) -> (Seq<Cell>, Seq<Seq<Cell>>, int, int) {
    let row0 = if g.cursor_row >= g.rows { g.rows - 1 } else { g.cursor_row as int };
    if g.cursor_col < g.cols {
        (g.cells@, g.sb(), g.cursor_col as int, row0)
    } else if row0 + 1 < g.rows {
        (g.cells@, g.sb(), 0, row0 + 1)
    } else {
        let (c1, s1) = scrolled_once(g.cells@, g.sb(), g.cols as nat, g.blank(), g.scrollback_limit as nat);
        (c1, s1, 0, g.rows - 1)
    }
}

impl Grid {
    /// The cell vector matches the dimensions.
    pub open spec fn wf(&self) -> bool {
        self.cells@.len() == self.cols * self.rows
    }

    pub open spec fn cell_at(&self, col: int, row: int) -> Cell {
        self.cells@[row * self.cols + col]
    }

    /// The scrollback as sequences of cells.
    pub open spec fn sb(&self) -> Seq<Seq<Cell>> {
        self.scrollback@.map_values(|l: Vec<Cell>| l@)
    }

    pub open spec fn blank(&self) -> Cell {
        plain_cell(' ', self.colors.fg, self.colors.bg)
    }

    /// A grid of blank cells in `colors`, with an empty scrollback that keeps
    /// at most `scrollback_limit` lines and the cursor at the origin.
    pub fn with_colors(cols: usize, rows: usize, colors: GridColors, scrollback_limit: usize) -> (g: Grid)
        requires
            cols * rows <= usize::MAX,
        ensures
            g.wf(),
            g.cols == cols,
            g.rows == rows,
            g.colors == colors,
            g.scrollback_limit == scrollback_limit,
            g.scrollback@.len() == 0,
            g.cursor_col == 0,
            g.cursor_row == 0,
            forall|i: int| 0 <= i < g.cells@.len() ==> #[trigger] g.cells@[i] == g.blank(),
    {
        let n: usize = cols * rows;
        let mut cells: Vec<Cell> = Vec::new();
        let mut i: usize = 0;
        while i < n
            invariant
                i <= n,
                cells@.len() == i,
                forall|k: int| 0 <= k < i ==> #[trigger] cells@[k] == plain_cell(' ', colors.fg, colors.bg),
            decreases n - i,
        {
            cells.push(make_plain_cell(' ', colors.fg, colors.bg));
            i = i + 1;
        }
        Grid {
            cols,
            rows,
            cells,
            scrollback: Vec::new(),
            scrollback_limit,
            cursor_col: 0,
            cursor_row: 0,
            colors,
        }
    }

    /// The cell at column `col` of live row `row`.
    pub fn cell(&self, col: usize, row: usize) -> (r: &Cell)
        requires
            self.wf(),
            col < self.cols,
            row < self.rows,
        ensures
            *r == self.cell_at(col as int, row as int),
    {
        proof { lemma_index_in_grid(col as int, row as int, self.cols as int, self.rows as int); }
        let _n = self.cells.len();
        &self.cells[row * self.cols + col]
    }

    /// Moves the top live line into the scrollback and appends a blank line
    /// at the bottom.
    #[verifier::loop_isolation(false)]
    pub fn scroll_line(&mut self)
        requires
            old(self).wf(),
            old(self).rows > 0,
        ensures
            final(self).wf(),
            final(self).cols == old(self).cols,
            final(self).rows == old(self).rows,
            final(self).colors == old(self).colors,
            final(self).scrollback_limit == old(self).scrollback_limit,
            final(self).cursor_col == old(self).cursor_col,
            final(self).cursor_row == old(self).cursor_row,
            final(self).cells@ == old(self).cells@.subrange(old(self).cols as int, old(self).cells@.len() as int)
                + Seq::new(old(self).cols as nat, |i: int| old(self).blank()),
            final(self).sb() == push_capped(
                old(self).sb(),
                old(self).cells@.subrange(0, old(self).cols as int),
                old(self).scrollback_limit as nat,
            ),
    {
        let cols = self.cols;
        let n = self.cells.len();
        proof {
            assert(cols <= n) by (nonlinear_arith)
                requires n == cols * self.rows, self.rows > 0;
        }
        let ghost old_cells = self.cells@;
        let ghost old_sb = self.sb();
        let mut top: Vec<Cell> = Vec::new();
        let mut rest: Vec<Cell> = Vec::new();
        let mut i: usize = 0;
        while i < n
            invariant
                cols <= n,
                n == old_cells.len(),
                self.cells@ == old_cells,
                i <= n,
                i < cols ==> top@.len() == i && rest@.len() == 0,
                i >= cols ==> top@.len() == cols && rest@.len() == i - cols,
                forall|k: int| 0 <= k < top@.len() ==> #[trigger] top@[k] == old_cells[k],
                forall|k: int| 0 <= k < rest@.len() ==> #[trigger] rest@[k] == old_cells[k + cols],
            decreases n - i,
        {
            let c = self.cells[i].duplicate();
            if i < cols {
                top.push(c);
            } else {
                rest.push(c);
            }
            i = i + 1;
        }
        let fg = self.colors.fg;
        let bg = self.colors.bg;
        let mut j: usize = 0;
        while j < cols
            invariant
                cols <= n,
                n == old_cells.len(),
                rest@.len() == n - cols + j,
                j <= cols,
                fg == self.colors.fg,
                bg == self.colors.bg,
                forall|k: int| 0 <= k < n - cols ==> #[trigger] rest@[k] == old_cells[k + cols],
                forall|k: int| n - cols <= k < rest@.len() ==> #[trigger] rest@[k] == plain_cell(' ', fg, bg),
            decreases cols - j,
        {
            rest.push(make_plain_cell(' ', fg, bg));
            j = j + 1;
        }
        assert(rest@ =~= old_cells.subrange(cols as int, n as int) + Seq::new(cols as nat, |i: int| self.blank()));
        assert(top@ =~= old_cells.subrange(0, cols as int));
        self.cells = rest;
        let limit = self.scrollback_limit;
        let ghost rows0 = self.rows;
        let ghost colors0 = self.colors;
        let ghost cc0 = self.cursor_col;
        let ghost cr0 = self.cursor_row;
        let ghost cells1 = self.cells@;
        let ghost pushed = old_sb.push(top@);
        self.scrollback.push(top);
        assert(self.sb() =~= pushed);
        while self.scrollback.len() > limit
            invariant
                limit == self.scrollback_limit,
                pushed.len() >= self.sb().len(),
                self.sb().len() >= limit || self.sb().len() == pushed.len(),
                self.sb() == pushed.subrange(pushed.len() - self.sb().len(), pushed.len() as int),
                self.cells@ == cells1,
                self.cols == cols,
                self.rows == rows0,
                self.colors == colors0,
                self.cursor_col == cc0,
                self.cursor_row == cr0,
            decreases self.scrollback.len(),
        {
            let ghost before = self.sb();
            self.scrollback.remove(0);
            assert(self.sb() =~= before.subrange(1, before.len() as int));
            assert(self.sb() =~= pushed.subrange(pushed.len() - self.sb().len(), pushed.len() as int));
        }
        proof {
            if pushed.len() > limit {
                assert(self.sb().len() == limit);
            } else {
                assert(self.sb() =~= pushed);
            }
        }
    }

    /// Scrolls the live screen up `n` lines, one at a time, as
    /// [`Grid::scroll_line`] does.
    pub fn scroll_up(&mut self, n: usize)
        requires
            old(self).wf(),
            old(self).rows > 0,
        ensures
            final(self).wf(),
            final(self).cols == old(self).cols,
            final(self).rows == old(self).rows,
            final(self).colors == old(self).colors,
            final(self).scrollback_limit == old(self).scrollback_limit,
            final(self).cursor_col == old(self).cursor_col,
            final(self).cursor_row == old(self).cursor_row,
            (final(self).cells@, final(self).sb()) == scrolled_n(
                old(self).cells@,
                old(self).sb(),
                old(self).cols as nat,
                old(self).blank(),
                old(self).scrollback_limit as nat,
                n as nat,
            ),
    {
        let ghost c0 = self.cells@;
        let ghost s0 = self.sb();
        let mut i: usize = 0;
        while i < n
            invariant
                self.wf(),
                self.rows == old(self).rows,
                self.cols == old(self).cols,
                self.colors == old(self).colors,
                self.scrollback_limit == old(self).scrollback_limit,
                self.cursor_col == old(self).cursor_col,
                self.cursor_row == old(self).cursor_row,
                self.rows > 0,
                i <= n,
                c0 == old(self).cells@,
                s0 == old(self).sb(),
                scrolled_n(c0, s0, self.cols as nat, self.blank(), self.scrollback_limit as nat, n as nat)
                    == scrolled_n(self.cells@, self.sb(), self.cols as nat, self.blank(), self.scrollback_limit as nat, (n - i) as nat),
            decreases n - i,
        {
            self.scroll_line();
            i = i + 1;
        }
    }

    /// Advances the cursor to the next line, scrolling at the bottom.
    pub fn line_feed(&mut self)
        requires
            old(self).wf(),
            old(self).rows > 0,
        ensures
            final(self).wf(),
            final(self).cols == old(self).cols,
            final(self).rows == old(self).rows,
            final(self).colors == old(self).colors,
            final(self).scrollback_limit == old(self).scrollback_limit,
            final(self).cursor_col == old(self).cursor_col,
            old(self).cursor_row + 1 < old(self).rows ==> {
                &&& final(self).cursor_row == old(self).cursor_row + 1
                &&& final(self).cells@ == old(self).cells@
                &&& final(self).scrollback@ == old(self).scrollback@
            },
            old(self).cursor_row + 1 >= old(self).rows ==> {
                &&& final(self).cursor_row == old(self).rows - 1
                &&& final(self).cells@ == old(self).cells@.subrange(old(self).cols as int, old(self).cells@.len() as int)
                    + Seq::new(old(self).cols as nat, |i: int| old(self).blank())
                &&& final(self).sb() == push_capped(
                    old(self).sb(),
                    old(self).cells@.subrange(0, old(self).cols as int),
                    old(self).scrollback_limit as nat,
                )
            },
    {
        if self.cursor_row < self.rows - 1 {
            self.cursor_row = self.cursor_row + 1;
        } else {
            self.scroll_line();
            self.cursor_row = self.rows - 1;
        }
    }

    /// Writes `c` at the cursor in the grid's colours and advances the
    /// cursor.  A cursor past the last column first wraps to the start of
    /// the next line (scrolling at the bottom); a cursor below the last
    /// row is first brought back onto the last row.
    pub fn write_char(&mut self, c: char)
        requires
            old(self).wf(),
            old(self).cols > 0,
            old(self).rows > 0,
        ensures
            final(self).wf(),
            final(self).cols == old(self).cols,
            final(self).rows == old(self).rows,
            final(self).colors == old(self).colors,
            final(self).scrollback_limit == old(self).scrollback_limit,
            ({
                let (cells1, sb1, col1, row1) = write_position(*old(self));
                &&& final(self).cells@ == cells1.update(row1 * old(self).cols + col1, plain_cell(c, old(self).colors.fg, old(self).colors.bg))
                &&& final(self).sb() == sb1
                &&& final(self).cursor_col == col1 + 1
                &&& final(self).cursor_row == row1
            }),
            old(self).cursor_col < old(self).cols && old(self).cursor_row < old(self).rows ==> {
                &&& final(self).cells@ == old(self).cells@.update(
                    old(self).cursor_row * old(self).cols + old(self).cursor_col,
                    plain_cell(c, old(self).colors.fg, old(self).colors.bg),
                )
                &&& final(self).cursor_col == old(self).cursor_col + 1
                &&& final(self).cursor_row == old(self).cursor_row
                &&& final(self).scrollback@ == old(self).scrollback@
            },
            final(self).cursor_col >= 1,
            final(self).cursor_col <= final(self).cols,
            final(self).cursor_row < final(self).rows,
            final(self).cell_at(final(self).cursor_col - 1, final(self).cursor_row as int)
                == plain_cell(c, old(self).colors.fg, old(self).colors.bg),
    {
        if self.cursor_row >= self.rows {
            self.cursor_row = self.rows - 1;
        }
        if self.cursor_col >= self.cols {
            self.cursor_col = 0;
            self.line_feed();
        }
        let col = self.cursor_col;
        let row = self.cursor_row;
        proof { lemma_index_in_grid(col as int, row as int, self.cols as int, self.rows as int); }
        let _n = self.cells.len();
        let idx = row * self.cols + col;
        let cell = make_plain_cell(c, self.colors.fg, self.colors.bg);
        self.cells.set(idx, cell);
        self.cursor_col = col + 1;
    }
}

/// `row * cols + col` indexes a cell of a `cols` by `rows` grid.
pub proof fn lemma_index_in_grid(col: int, row: int, cols: int, rows: int)
    requires
        0 <= col < cols,
        0 <= row < rows,
    ensures
        0 <= row * cols + col < cols * rows,
{
    assert(0 <= row * cols + col < cols * rows) by (nonlinear_arith)
        requires 0 <= col < cols, 0 <= row < rows;
}

} // verus!
