//! Configuration values and the colour notation of the configuration file.
use vstd::prelude::*;
use crate::grid::Color;
use crate::text::{owned, str_chars};

verus! {

/// The characters of `s` after every leading `#`.
pub open spec fn strip_hashes(s: Seq<char>) -> Seq<char>
    decreases s.len(),
{
    if s.len() > 0 && s[0] == '#' {
        strip_hashes(s.skip(1))
    } else {
        s
    }
}

pub open spec fn is_hex_digit(c: char) -> bool {
    ('0' <= c && c <= '9') || ('a' <= c && c <= 'f') || ('A' <= c && c <= 'F')
}

pub open spec fn hex_digit_value(c: char) -> int {
    if '0' <= c && c <= '9' {
        c as int - '0' as int
    } else if 'a' <= c && c <= 'f' {
        c as int - 'a' as int + 10
    } else {
        c as int - 'A' as int + 10
    }
}

/// The number written by the hexadecimal digits `d`, most significant first.
pub open spec fn hex_value(d: Seq<char>) -> int
    decreases d.len(),
{
    if d.len() == 0 {
        0
    } else {
        16 * hex_value(d.drop_last()) + hex_digit_value(d.last())
    }
}

/// The digits of an unsigned number: an optional `+` in front of at least
/// one digit.
pub open spec fn unsigned_digits(t: Seq<char>) -> Seq<char> {
    if t.len() > 0 && t[0] == '+' {
        t.skip(1)
    } else {
        t
    }
}

/// What `u32::from_str_radix(t, 16)` gives: the value when `t` is an
/// optional `+` followed by one or more hexadecimal digits whose value fits
/// in 32 bits, and nothing otherwise.
pub open spec fn parse_u32_hex(t: Seq<char>) -> Option<int> {
    let d = unsigned_digits(t);
    if d.len() > 0 && (forall|i: int| 0 <= i < d.len() ==> is_hex_digit(#[trigger] d[i])) && hex_value(d) <= u32::MAX {
        Some(hex_value(d))
    } else {
        None
    }
}

/// The colour a `#rrggbb` string denotes: the hexadecimal number after the
/// leading `#`s split into its three low bytes, black where it is no
/// 32-bit hexadecimal number.
pub open spec fn hex_color(s: Seq<char>) -> Color {
    let n = match parse_u32_hex(strip_hashes(s)) {
        Some(v) => v,
        None => 0,
    };
    Color { r: ((n / 65536) % 256) as u8, g: ((n / 256) % 256) as u8, b: (n % 256) as u8 }
}

/// The hexadecimal digit for `v` (below 16), in lower or upper case.
pub open spec fn hex_digit_char(v: int, upper: bool) -> char {
    if v < 10 {
        ('0' as int + v) as char
    } else if upper {
        ('A' as int + v - 10) as char
    } else {
        ('a' as int + v - 10) as char
    }
}

/// A byte as two hexadecimal digits, as `{:02x}` (or `{:02X}`) writes it.
pub open spec fn hex_byte(b: u8, upper: bool) -> Seq<char> {
    seq![hex_digit_char(b as int / 16, upper), hex_digit_char(b as int % 16, upper)]
}

/// A colour written as six hexadecimal digits, `rrggbb`.
pub open spec fn hex_rgb(r: u8, g: u8, b: u8, upper: bool) -> Seq<char> {
    hex_byte(r, upper) + hex_byte(g, upper) + hex_byte(b, upper)
}

proof fn lemma_hex_digit_roundtrip(v: int, upper: bool)
    requires
        0 <= v < 16,
    ensures
        is_hex_digit(hex_digit_char(v, upper)),
        hex_digit_value(hex_digit_char(v, upper)) == v,
        hex_digit_char(v, upper) != '#',
        hex_digit_char(v, upper) != '+',
{
}

/// Writing a colour's three bytes as hexadecimal digits, with or without a
/// leading `#` and in either case, and parsing the text gives the colour
/// back.
pub proof fn lemma_parse_hex_roundtrip(r: u8, g: u8, b: u8, upper: bool)
    ensures
        hex_color("#"@ + hex_rgb(r, g, b, upper)) == (Color { r, g, b }),
        hex_color(hex_rgb(r, g, b, upper)) == (Color { r, g, b }),
{
    let d = hex_rgb(r, g, b, upper);
    let vs = seq![r as int / 16, r as int % 16, g as int / 16, g as int % 16, b as int / 16, b as int % 16];
    assert forall|i: int| 0 <= i < 6 implies #[trigger] d[i] == hex_digit_char(vs[i], upper) && 0 <= vs[i] < 16 by {
    }
    assert forall|i: int| 0 <= i < d.len() implies is_hex_digit(#[trigger] d[i]) by {
        lemma_hex_digit_roundtrip(vs[i], upper);
    }
    lemma_hex_digit_roundtrip(vs[0], upper);
    lemma_hex_digit_roundtrip(vs[1], upper);
    lemma_hex_digit_roundtrip(vs[2], upper);
    lemma_hex_digit_roundtrip(vs[3], upper);
    lemma_hex_digit_roundtrip(vs[4], upper);
    lemma_hex_digit_roundtrip(vs[5], upper);
    let s = "#"@ + d;
    reveal_strlit("#");
    assert(s[0] == '#');
    assert(s.skip(1) =~= d);
    assert(strip_hashes(d) == d);
    assert(strip_hashes(s) == d);
    assert(unsigned_digits(d) == d);
    assert(d.drop_last().drop_last().drop_last().drop_last().drop_last().drop_last().len() == 0);
    reveal_with_fuel(hex_value, 7);
    let n = hex_value(d);
    assert(n == ((((vs[0] * 16 + vs[1]) * 16 + vs[2]) * 16 + vs[3]) * 16 + vs[4]) * 16 + vs[5]);
    assert(n == r as int * 65536 + g as int * 256 + b as int);
    assert(n <= u32::MAX);
    let rr = r as int;
    let gg = g as int;
    let bb = b as int;
    assert((rr * 65536 + gg * 256 + bb) / 65536 == rr) by (nonlinear_arith)
        requires 0 <= rr < 256, 0 <= gg < 256, 0 <= bb < 256;
    assert((rr * 65536 + gg * 256 + bb) / 256 == rr * 256 + gg) by (nonlinear_arith)
        requires 0 <= rr < 256, 0 <= gg < 256, 0 <= bb < 256;
    assert((rr * 256 + gg) % 256 == gg) by (nonlinear_arith)
        requires 0 <= rr < 256, 0 <= gg < 256;
    assert((rr * 65536 + gg * 256 + bb) % 256 == bb) by (nonlinear_arith)
        requires 0 <= rr < 256, 0 <= gg < 256, 0 <= bb < 256;
}

proof fn lemma_hex_value_nonneg(d: Seq<char>)
    requires
        forall|i: int| 0 <= i < d.len() ==> is_hex_digit(#[trigger] d[i]),
    ensures
        hex_value(d) >= 0,
    decreases d.len(),
{
    if d.len() > 0 {
        let p = d.drop_last();
        assert forall|i: int| 0 <= i < p.len() implies is_hex_digit(#[trigger] p[i]) by {
            assert(p[i] == d[i]);
        }
        lemma_hex_value_nonneg(p);
        assert(is_hex_digit(d[d.len() - 1]));
    }
}

fn hex_digit(c: char) -> (r: Option<u32>)
    ensures
        r.is_some() == is_hex_digit(c),
        r.is_some() ==> r.unwrap() == hex_digit_value(c) && r.unwrap() < 16,
{
    if '0' <= c && c <= '9' {
        Some((c as u32) - ('0' as u32))
    } else if 'a' <= c && c <= 'f' {
        Some((c as u32) - ('a' as u32) + 10)
    } else if 'A' <= c && c <= 'F' {
        Some((c as u32) - ('A' as u32) + 10)
    } else {
        None
    }
}

/// `u32::from_str_radix(t, 16)` on the characters `t`, `None` for an error.
fn parse_u32_hex_chars(t: &[char]) -> (r: Option<u32>)
    ensures
        r.is_some() == parse_u32_hex(t@).is_some(),
        r.is_some() ==> r.unwrap() == parse_u32_hex(t@).unwrap(),
{
    let n = t.len();
    let start: usize = if n > 0 && t[0] == '+' { 1 } else { 0 };
    let ghost d = unsigned_digits(t@);
    assert(d =~= t@.subrange(start as int, n as int));
    if start >= n {
        return None;
    }
    let mut acc: u64 = 0;
    let mut i: usize = start;
    let mut over = false;
    while i < n
        invariant
            n == t@.len(),
            d == unsigned_digits(t@),
            start == 0 || start == 1,
            start == 1 <==> (t@.len() > 0 && t@[0] == '+'),
            start <= i <= n,
            d =~= t@.subrange(start as int, n as int),
            forall|k: int| start <= k < i ==> is_hex_digit(#[trigger] t@[k]),
            !over ==> acc == hex_value(t@.subrange(start as int, i as int)) && acc <= u32::MAX,
            over ==> hex_value(t@.subrange(start as int, i as int)) > u32::MAX,
        decreases n - i,
    {
        let dv = hex_digit(t[i]);
        match dv {
            None => {
                assert(d[i - start] == t@[i as int]);
                assert(!is_hex_digit(d[i - start]));
                return None;
            },
            Some(v) => {
                let ghost p = t@.subrange(start as int, i as int);
                let ghost q = t@.subrange(start as int, i + 1);
                assert(q.drop_last() =~= p);
                assert(q.last() == t@[i as int]);
                proof {
                    assert forall|k: int| 0 <= k < p.len() implies is_hex_digit(#[trigger] p[k]) by {
                        assert(p[k] == t@[start + k]);
                    }
                    lemma_hex_value_nonneg(p);
                }
                if !over {
                    acc = acc * 16 + v as u64;
                    if acc > 0xFFFF_FFFFu64 {
                        over = true;
                    }
                }
            },
        }
        i = i + 1;
    }
    assert(t@.subrange(start as int, n as int) =~= d);
    if over {
        None
    } else {
        Some(acc as u32)
    }
}

/// `s.trim_start_matches('#')`.
fn strip_hash_chars(s: &[char]) -> (r: Vec<char>)
    ensures
        r@ == strip_hashes(s@),
{
    let mut i: usize = 0;
    assert(s@.skip(0) =~= s@);
    while i < s.len() && s[i] == '#'
        invariant
            i <= s.len(),
            strip_hashes(s@) == strip_hashes(s@.skip(i as int)),
        decreases s.len() - i,
    {
        assert(s@.skip(i as int).skip(1) =~= s@.skip(i + 1));
        i = i + 1;
    }
    let mut out: Vec<char> = Vec::new();
    let mut j: usize = i;
    while j < s.len()
        invariant
            i <= j <= s.len(),
            out@ =~= s@.subrange(i as int, j as int),
        decreases s.len() - j,
    {
        out.push(s[j]);
        j = j + 1;
    }
    assert(out@ =~= s@.skip(i as int));
    out
}

/// Parses a colour written as `#rrggbb` (any number of leading `#`, or
/// none).  A string that is not a hexadecimal number gives black.
pub fn parse_hex(s: &str) -> (c: Color)
    ensures
        c == hex_color(s@),
{
    let chars = str_chars(s);
    let digits = strip_hash_chars(&chars);
    let n: u32 = match parse_u32_hex_chars(&digits) {
        Some(v) => v,
        None => 0,
    };
    let r = ((n >> 16) & 0xFF) as u8;
    let g = ((n >> 8) & 0xFF) as u8;
    let b = (n & 0xFF) as u8;
    assert((n >> 16) & 0xFF == (n / 65536) % 256) by (bit_vector);
    assert((n >> 8) & 0xFF == (n / 256) % 256) by (bit_vector);
    assert(n & 0xFF == n % 256) by (bit_vector);
    Color { r, g, b }
}

/// Window settings.
pub struct WindowConfig {
    pub width: u32,
    pub height: u32,
    pub title: String,
    pub cursor_blink_ms: u32,
}

/// Shell settings: the program to run, the user's login shell when `None`.
pub struct ShellConfig {
    pub program: Option<String>,
}

/// Colour settings, each colour in `#rrggbb` notation.
pub struct ColorsConfig {
    pub background: String,
    pub foreground: String,
    pub cursor: String,
    pub selection: String,
    /// The 16 ANSI colours: black, red, green, yellow, blue, magenta, cyan,
    /// white, then the bright variant of each.
    pub palette: Vec<String>,
}

/// The palette a list of colour strings gives: entry `i` parsed for the
/// first sixteen entries, black for the entries the list lacks.
pub open spec fn palette_spec(p: Seq<Seq<char>>) -> Seq<Color> {
    Seq::new(16, |i: int| if i < p.len() { hex_color(p[i]) } else { Color { r: 0, g: 0, b: 0 } })
}

impl ColorsConfig {
    pub fn bg(&self) -> (c: Color)
        ensures
            c == hex_color(self.background@),
    {
        parse_hex(self.background.as_str())
    }

    pub fn fg(&self) -> (c: Color)
        ensures
            c == hex_color(self.foreground@),
    {
        parse_hex(self.foreground.as_str())
    }

    pub fn cursor(&self) -> (c: Color)
        ensures
            c == hex_color(self.cursor@),
    {
        parse_hex(self.cursor.as_str())
    }

    pub fn selection(&self) -> (c: Color)
        ensures
            c == hex_color(self.selection@),
    {
        parse_hex(self.selection.as_str())
    }

    pub fn palette_colors(&self) -> (out: [Color; 16])
        ensures
            out@ == palette_spec(self.palette@.map_values(|s: String| s@)),
    {
        let black = Color { r: 0, g: 0, b: 0 };
        let mut out: [Color; 16] = [black; 16];
        let ghost p = self.palette@.map_values(|s: String| s@);
        let mut i: usize = 0;
        while i < 16
            invariant
                i <= 16,
                p == self.palette@.map_values(|s: String| s@),
                p.len() == self.palette@.len(),
                black == (Color { r: 0, g: 0, b: 0 }),
                out@.len() == 16,
                forall|k: int| 0 <= k < i ==> #[trigger] out@[k] == palette_spec(p)[k],
                forall|k: int| i <= k < 16 ==> #[trigger] out@[k] == black,
            decreases 16 - i,
        {
            if i < self.palette.len() {
                let c = parse_hex(self.palette[i].as_str());
                assert(p[i as int] == self.palette@[i as int]@);
                out[i] = c;
            } else {
                assert(palette_spec(p)[i as int] == black);
            }
            i = i + 1;
        }
        assert(out@ =~= palette_spec(p));
        out
    }
}

/// Terminal settings.
pub struct TerminalConfig {
    pub scrollback_lines: usize,
}

/// Status-bar settings: the text template shown on the right.
pub struct StatusBarConfig {
    pub right: String,
}

/// Whether URLs in the output are detected by default.
pub fn default_detect_urls() -> (r: bool)
    ensures
        r,
{
    true
}

/// How many lines the scrollback keeps by default.
pub fn default_scrollback_lines() -> (r: usize)
    ensures
        r == 10_000,
{
    10_000
}

/// The default right-hand status-bar template: the working directory.
pub fn default_status_bar_right() -> (r: String)
    ensures
        r@ == "%pwd"@,
{
    owned("%pwd")
}

impl Default for TerminalConfig {
    fn default() -> (r: TerminalConfig)
        ensures
            r.scrollback_lines == 10_000,
    {
        TerminalConfig { scrollback_lines: default_scrollback_lines() }
    }
}

impl Default for StatusBarConfig {
    fn default() -> (r: StatusBarConfig)
        ensures
            r.right@ == "%pwd"@,
    {
        StatusBarConfig { right: default_status_bar_right() }
    }
}

} // verus!
