//! Scrollback search: finding a pattern in the lines of a grid and placing
//! the view on a match.
use vstd::prelude::*;
use crate::grid::{Cell, Grid};
use crate::text::{chars_to_string, str_chars};

verus! {

/// How many bytes UTF-8 takes for `c`.
pub open spec fn utf8_width(c: char) -> int {
    if (c as u32) < 0x80 {
        1
    } else if (c as u32) < 0x800 {
        2
    } else if (c as u32) < 0x10000 {
        3
    } else {
        4
    }
}

/// The byte offset of character `k` of `s` in its UTF-8 encoding.
pub open spec fn byte_offset(s: Seq<char>, k: int) -> int
    decreases k,
{
    if k <= 0 || k > s.len() {
        0
    } else {
        byte_offset(s, k - 1) + utf8_width(s[k - 1])
    }
}

/// Whether byte offset `b` starts a character of `s` or is its end.
pub open spec fn char_boundary(s: Seq<char>, b: int) -> bool {
    exists|k: int| 0 <= k <= s.len() && #[trigger] byte_offset(s, k) == b
}

/// Match spans as byte ranges: each ordered and on character boundaries,
/// each ending before the next starts, and each starting after the one
/// before (an empty span is never followed by one at the same place).
pub open spec fn spans_ok(sp: Seq<(usize, usize)>, text: Seq<char>) -> bool {
    &&& forall|i: int| 0 <= i < sp.len() ==> (#[trigger] sp[i]).0 <= sp[i].1 && char_boundary(text, sp[i].0 as int)
        && char_boundary(text, sp[i].1 as int)
    &&& forall|i: int, j: int| 0 <= i < j < sp.len() ==> (#[trigger] sp[i]).1 <= (#[trigger] sp[j]).0
    &&& forall|i: int, j: int| 0 <= i < j < sp.len() ==> (#[trigger] sp[i]).0 < (#[trigger] sp[j]).0
}

#[verifier::external_type_specification]
#[verifier::external_body]
pub struct ExRegex(regex::Regex);

/// Whether `regex::Regex::new` accepts the pattern `pattern`.
pub uninterp spec fn regex_compiles(pattern: Seq<char>) -> bool;

/// What `Regex::find_iter` reports for the regular expression `pattern`
/// in `text`: the byte range of each successive match.
pub uninterp spec fn regex_spans(pattern: Seq<char>, text: Seq<char>) -> Seq<(usize, usize)>;

/// A compiled regular expression, viewed as the pattern it was compiled
/// from.
pub struct SearchPattern {
    re: regex::Regex,
    pattern: Ghost<Seq<char>>,
}

impl View for SearchPattern {
    type V = Seq<char>;

    closed spec fn view(&self) -> Seq<char> {
        self.pattern@
    }
}

/// Calls `regex::Regex::new`: the compiled pattern, nothing for a pattern
/// the crate rejects.
#[verifier::external_body]
fn compile_regex(pattern: &str) -> (r: Option<SearchPattern>)
    ensures
        r.is_some() == regex_compiles(pattern@),
        r matches Some(p) ==> p@ == pattern@,
{
    regex::Regex::new(pattern).ok().map(|re| SearchPattern { re, pattern: Ghost(pattern@) })
}

/// Calls `Regex::find_iter` and collects each match's byte range
/// (`Match::start`, `Match::end`): the named result for the pattern and
/// the text.  The crate documents the matches as successive and
/// non-overlapping, each with `start <= end`, both on character
/// boundaries; its iterator skips an empty match that ends where the
/// previous match ended, so no two matches start at the same byte.
#[verifier::external_body]
fn find_spans(p: &SearchPattern, text: &str) -> (r: Vec<(usize, usize)>)
    ensures
        r@ == regex_spans(p@, text@),
        spans_ok(r@, text@),
{
    p.re.find_iter(text).map(|m| (m.start(), m.end())).collect()
}

/// Byte offsets always grow with the character index.
pub proof fn lemma_byte_offset_increasing(s: Seq<char>, j: int, k: int)
    requires
        0 <= j <= k <= s.len(),
    ensures
        byte_offset(s, j) + (k - j) <= byte_offset(s, k),
    decreases k - j,
{
    if j < k {
        lemma_byte_offset_increasing(s, j, k - 1);
    }
}

/// Distinct character indices have distinct byte offsets.
pub proof fn lemma_byte_offset_unique(s: Seq<char>, j: int, k: int)
    requires
        0 <= j <= s.len(),
        0 <= k <= s.len(),
        byte_offset(s, j) == byte_offset(s, k),
    ensures
        j == k,
{
    if j < k {
        lemma_byte_offset_increasing(s, j, k);
    } else if k < j {
        lemma_byte_offset_increasing(s, k, j);
    }
}

/// The character index at which byte offset `b` of `line` falls.
pub open spec fn char_at_byte(line: Seq<char>, b: int) -> int {
    choose|k: int| 0 <= k <= line.len() && byte_offset(line, k) == b
}

/// The match a byte span of `line` gives on row `row`: the row, the
/// column of the span's first character and its length in characters.
pub open spec fn span_match(row: int, line: Seq<char>, span: (usize, usize)) -> (usize, usize, usize) {
    let a = char_at_byte(line, span.0 as int);
    let b = char_at_byte(line, span.1 as int);
    (row as usize, a as usize, (b - a) as usize)
}

/// The matches the spans `spans` of `line` give on row `row`, in order.
pub open spec fn line_matches(row: int, line: Seq<char>, spans: Seq<(usize, usize)>) -> Seq<(usize, usize, usize)> {
    spans.map_values(|sp: (usize, usize)| span_match(row, line, sp))
}

/// The matches a line of characters shows for spans found in its text:
/// for each span, the line row, the column of its first character and its
/// length in characters.
pub fn matches_in_line(abs_row: usize, line: &[char], spans: &[(usize, usize)]) -> (r: Vec<(usize, usize, usize)>)
    requires
        spans_ok(spans@, line@),
    ensures
        r@ == line_matches(abs_row as int, line@, spans@),
        r@.len() == spans@.len(),
        forall|i: int, j: int| 0 <= i < j < r@.len() ==> (#[trigger] r@[i]).1 < (#[trigger] r@[j]).1,
        forall|i: int| 0 <= i < r@.len() ==> {
            let (row, col, len) = #[trigger] r@[i];
            &&& row == abs_row
            &&& col + len <= line@.len()
            &&& byte_offset(line@, col as int) == spans@[i].0
            &&& byte_offset(line@, col + len) == spans@[i].1
        },
{
    let n = line.len();
    let mut offs: Vec<u128> = Vec::new();
    offs.push(0);
    let mut k: usize = 0;
    while k < n
        invariant
            n == line@.len(),
            k <= n,
            offs@.len() == k + 1,
            forall|j: int| 0 <= j <= k ==> #[trigger] offs@[j] == byte_offset(line@, j),
            forall|j: int| 0 <= j <= k ==> offs@[j] <= 4 * j,
        decreases n - k,
    {
        let c = line[k] as u32;
        let w: u128 = if c < 0x80 { 1 } else if c < 0x800 { 2 } else if c < 0x10000 { 3 } else { 4 };
        let prev = offs[k];
        offs.push(prev + w);
        k = k + 1;
    }
    let mut out: Vec<(usize, usize, usize)> = Vec::new();
    let mut i: usize = 0;
    while i < spans.len()
        invariant
            n == line@.len(),
            spans_ok(spans@, line@),
            offs@.len() == n + 1,
            forall|j: int| 0 <= j <= n ==> #[trigger] offs@[j] == byte_offset(line@, j),
            i <= spans@.len(),
            out@.len() == i,
            forall|t: int| 0 <= t < i ==> #[trigger] out@[t] == span_match(abs_row as int, line@, spans@[t]),
            forall|t: int| 0 <= t < i ==> {
                let (row, col, len) = #[trigger] out@[t];
                &&& row == abs_row
                &&& col + len <= line@.len()
                &&& byte_offset(line@, col as int) == spans@[t].0
                &&& byte_offset(line@, col + len) == spans@[t].1
            },
        decreases spans@.len() - i,
    {
        let (s, e) = spans[i];
        assert(spans@[i as int].0 <= spans@[i as int].1);
        let mut a: usize = 0;
        while a < n && offs[a] != s as u128
            invariant
                a <= n,
                offs@.len() == n + 1,
                forall|j: int| 0 <= j <= n ==> #[trigger] offs@[j] == byte_offset(line@, j),
                forall|j: int| 0 <= j < a ==> byte_offset(line@, j) != s,
            decreases n - a,
        {
            a = a + 1;
        }
        proof {
            let ka = choose|ka: int| 0 <= ka <= line@.len() && #[trigger] byte_offset(line@, ka) == s;
            if offs@[a as int] != s as u128 {
                assert(a == n);
                assert(ka < n || byte_offset(line@, n as int) == s);
            }
        }
        let mut b: usize = a;
        while b < n && offs[b] != e as u128
            invariant
                a <= b <= n,
                offs@.len() == n + 1,
                forall|j: int| 0 <= j <= n ==> #[trigger] offs@[j] == byte_offset(line@, j),
                forall|j: int| a <= j < b ==> byte_offset(line@, j) != e,
            decreases n - b,
        {
            b = b + 1;
        }
        proof {
            let kb = choose|kb: int| 0 <= kb <= line@.len() && #[trigger] byte_offset(line@, kb) == e;
            assert(byte_offset(line@, a as int) == s);
            if kb < a {
                lemma_byte_offset_increasing(line@, kb, a as int);
            }
            if offs@[b as int] != e as u128 {
                assert(b == n);
                assert(kb < n || byte_offset(line@, n as int) == e);
            }
        }
        proof {
            let ka = char_at_byte(line@, s as int);
            let kb = char_at_byte(line@, e as int);
            lemma_byte_offset_unique(line@, a as int, ka);
            lemma_byte_offset_unique(line@, b as int, kb);
        }
        out.push((abs_row, a, b - a));
        i = i + 1;
    }
    assert(out@ =~= line_matches(abs_row as int, line@, spans@));
    assert forall|x: int, y: int| 0 <= x < y < out@.len() implies (#[trigger] out@[x]).1 < (#[trigger] out@[y]).1 by {
        assert(spans@[x].0 < spans@[y].0);
        if out@[y].1 <= out@[x].1 {
            lemma_byte_offset_increasing(line@, out@[y].1 as int, out@[x].1 as int);
        }
    }
    out
}

/// Every match lies in a line of the grid: its row among the scrollback
/// then live lines, its characters within the row's length.
pub open spec fn match_in_grid(g: &Grid, m: (usize, usize, usize)) -> bool {
    let (row, col, len) = m;
    let sb_len = g.scrollback@.len();
    &&& row < sb_len + g.rows
    &&& row < sb_len ==> col + len <= g.scrollback@[row as int]@.len()
    &&& row >= sb_len ==> col + len <= g.cols
}

/// The characters of line `row` of the scrollback-then-live lines of `g`.
pub open spec fn line_text(g: &Grid, row: int) -> Seq<char> {
    let sb = g.scrollback@.len() as int;
    if row < sb {
        g.scrollback@[row]@.map_values(|c: Cell| c.c)
    } else {
        Seq::new(g.cols as nat, |c: int| g.cell_at(c, row - sb).c)
    }
}

/// The matches of the regular expression `pattern` in the first `n`
/// scrollback-then-live lines of `g`, line by line.
pub open spec fn grid_matches(g: &Grid, pattern: Seq<char>, n: int) -> Seq<(usize, usize, usize)>
    decreases n,
{
    if n <= 0 {
        Seq::empty()
    } else {
        let line = line_text(g, n - 1);
        grid_matches(g, pattern, n - 1) + line_matches(n - 1, line, regex_spans(pattern, line))
    }
}

/// Finds every match of the regular expression `query` in the scrollback
/// lines and then the live rows of `grid`: `(abs_row, start_col,
/// match_len)` in characters, `abs_row` counting scrollback lines first.
/// Nothing for an empty query or one that is no valid regular expression.
pub fn compute_search_matches(grid: &Grid, query: &str) -> (r: Vec<(usize, usize, usize)>)
    requires
        grid.wf(),
        grid.scrollback@.len() + grid.rows <= usize::MAX,
    ensures
        query@.len() == 0 || !regex_compiles(query@) ==> r@.len() == 0,
        query@.len() > 0 && regex_compiles(query@) ==> r@ == grid_matches(
            grid,
            query@,
            grid.scrollback@.len() + grid.rows,
        ),
        forall|i: int| 0 <= i < r@.len() ==> match_in_grid(grid, #[trigger] r@[i]),
        forall|i: int, j: int| 0 <= i < j < r@.len() ==> (#[trigger] r@[i]).0 <= (#[trigger] r@[j]).0,
        forall|i: int, j: int| 0 <= i < j < r@.len() && (#[trigger] r@[i]).0 == (#[trigger] r@[j]).0 ==> r@[i].1 < r@[j].1,
{
    let mut matches: Vec<(usize, usize, usize)> = Vec::new();
    let qc = str_chars(query);
    if qc.len() == 0 {
        return matches;
    }
    let re = match compile_regex(query) {
        Some(r) => r,
        None => {
            return matches;
        },
    };
    let sb_len = grid.scrollback.len();
    let mut row: usize = 0;
    while row < sb_len + grid.rows
        invariant
            grid.wf(),
            sb_len == grid.scrollback@.len(),
            sb_len + grid.rows <= usize::MAX,
            row <= sb_len + grid.rows,
            re@ == query@,
            matches@ == grid_matches(grid, query@, row as int),
            forall|i: int| 0 <= i < matches@.len() ==> match_in_grid(grid, #[trigger] matches@[i]),
            forall|i: int| 0 <= i < matches@.len() ==> (#[trigger] matches@[i]).0 < row,
            forall|i: int, j: int| 0 <= i < j < matches@.len() ==> (#[trigger] matches@[i]).0 <= (#[trigger] matches@[j]).0,
            forall|i: int, j: int| 0 <= i < j < matches@.len() && (#[trigger] matches@[i]).0 == (#[trigger] matches@[j]).0 ==> matches@[i].1 < matches@[j].1,
        decreases sb_len + grid.rows - row,
    {
        let mut chars: Vec<char> = Vec::new();
        if row < sb_len {
            let line = &grid.scrollback[row];
            let mut c: usize = 0;
            while c < line.len()
                invariant
                    c <= line@.len(),
                    chars@.len() == c,
                    forall|j: int| 0 <= j < c ==> #[trigger] chars@[j] == line@[j].c,
                decreases line@.len() - c,
            {
                chars.push(line[c].c);
                c = c + 1;
            }
        } else {
            let live = row - sb_len;
            let mut c: usize = 0;
            while c < grid.cols
                invariant
                    grid.wf(),
                    live < grid.rows,
                    c <= grid.cols,
                    chars@.len() == c,
                    forall|j: int| 0 <= j < c ==> #[trigger] chars@[j] == grid.cell_at(j, live as int).c,
                decreases grid.cols - c,
            {
                chars.push(grid.cell(c, live).c);
                c = c + 1;
            }
        }
        assert(chars@ =~= line_text(grid, row as int));
        let text = chars_to_string(chars.as_slice());
        let spans = find_spans(&re, text.as_str());
        let found = matches_in_line(row, chars.as_slice(), spans.as_slice());
        let ghost before = matches@;
        assert(found@ == line_matches(row as int, line_text(grid, row as int), regex_spans(query@, line_text(grid, row as int))));
        let mut k: usize = 0;
        while k < found.len()
            invariant
                before == grid_matches(grid, query@, row as int),
                found@ == line_matches(row as int, line_text(grid, row as int), regex_spans(query@, line_text(grid, row as int))),
                re@ == query@,
                grid.wf(),
                sb_len == grid.scrollback@.len(),
                row < sb_len + grid.rows,
                row < sb_len ==> chars@.len() == grid.scrollback@[row as int]@.len(),
                row >= sb_len ==> chars@.len() == grid.cols,
                forall|t: int| 0 <= t < found@.len() ==> (#[trigger] found@[t]).0 == row && found@[t].1 + found@[t].2 <= chars@.len(),
                k <= found@.len(),
                matches@.len() == before.len() + k,
                forall|t: int| 0 <= t < before.len() ==> matches@[t] == before[t],
                forall|t: int| 0 <= t < k ==> matches@[before.len() + t] == found@[t],
                forall|i: int| 0 <= i < before.len() ==> match_in_grid(grid, #[trigger] before[i]),
                forall|i: int| 0 <= i < before.len() ==> (#[trigger] before[i]).0 < row,
                forall|i: int, j: int| 0 <= i < j < before.len() ==> (#[trigger] before[i]).0 <= (#[trigger] before[j]).0,
                forall|i: int, j: int| 0 <= i < j < before.len() && (#[trigger] before[i]).0 == (#[trigger] before[j]).0 ==> before[i].1 < before[j].1,
                forall|i: int, j: int| 0 <= i < j < found@.len() ==> (#[trigger] found@[i]).1 < (#[trigger] found@[j]).1,
                forall|i: int, j: int| 0 <= i < j < matches@.len() && (#[trigger] matches@[i]).0 == (#[trigger] matches@[j]).0 ==> matches@[i].1 < matches@[j].1,
                forall|i: int| 0 <= i < matches@.len() ==> match_in_grid(grid, #[trigger] matches@[i]),
                forall|i: int| 0 <= i < matches@.len() ==> (#[trigger] matches@[i]).0 <= row,
                forall|i: int, j: int| 0 <= i < j < matches@.len() ==> (#[trigger] matches@[i]).0 <= (#[trigger] matches@[j]).0,
            decreases found@.len() - k,
        {
            let m = found[k];
            let ghost prev = matches@;
            matches.push(m);
            proof {
                let bl = before.len() as int;
                assert forall|i: int, j: int|
                    0 <= i < j < matches@.len() && (#[trigger] matches@[i]).0 == (#[trigger] matches@[j]).0 implies matches@[i].1 < matches@[j].1 by {
                    if j < prev.len() {
                        assert(matches@[i] == prev[i] && matches@[j] == prev[j]);
                    } else {
                        assert(matches@[j] == found@[k as int]);
                        if i < bl {
                            assert(matches@[i] == before[i]);
                        } else {
                            assert(matches@[i] == found@[i - bl]);
                        }
                    }
                }
            }
            k = k + 1;
        }
        assert(matches@ =~= before + found@);
        row = row + 1;
    }
    matches
}

/// The scroll offset that shows line `abs_row` of the scrollback-then-live
/// lines in the middle of a `grid_rows`-row view, as far as the
/// scrollback allows; no offset for a live line.
pub open spec fn scroll_offset_for(abs_row: int, sb_len: int, grid_rows: int) -> int {
    if abs_row >= sb_len {
        0
    } else {
        let want = sb_len + grid_rows / 2 - abs_row;
        if want < sb_len { want } else { sb_len }
    }
}

/// The scroll offset needed to centre line `abs_row` in the viewport; 0
/// when `abs_row` is a live grid row.
pub fn compute_scroll_offset(abs_row: usize, sb_len: usize, grid_rows: usize) -> (r: usize)
    requires
        sb_len + grid_rows / 2 <= usize::MAX,
    ensures
        r == scroll_offset_for(abs_row as int, sb_len as int, grid_rows as int),
        r <= sb_len,
{
    if abs_row >= sb_len {
        0
    } else {
        let target_row = grid_rows / 2;
        let want = (sb_len + target_row).saturating_sub(abs_row);
        if want < sb_len { want } else { sb_len }
    }
}

/// Scrolling to a match puts its line on screen: with the view scrolled
/// back by the computed offset, the line's row in the viewport lies
/// between the top and the bottom row.
pub proof fn lemma_scroll_shows_line(abs_row: int, sb_len: int, grid_rows: int)
    requires
        0 <= abs_row,
        0 <= sb_len,
        0 < grid_rows,
        abs_row < sb_len + grid_rows,
    ensures
        ({
            let off = scroll_offset_for(abs_row, sb_len, grid_rows);
            let top = sb_len - off;
            0 <= off <= sb_len && top <= abs_row < top + grid_rows
        }),
{
}

} // verus!
