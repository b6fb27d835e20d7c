//! Screenshot helpers: the crop's bytes, pixel conversion and file names.
use vstd::prelude::*;
use crate::text::{chars_to_string, is_ws, push_all, push_str, skip_ws_from, str_chars, trim, trim_spec};

verus! {

/// The red, green and blue bytes of a `0xAARRGGBB` pixel.
pub open spec fn rgb_of(p: u32) -> Seq<u8> {
    seq![((p / 0x1_0000) % 256) as u8, ((p / 0x100) % 256) as u8, (p % 256) as u8]
}

pub fn pixel_to_rgb(p: u32) -> (r: [u8; 3])
    ensures
        r@ == rgb_of(p),
{
    let a = ((p >> 16) & 0xff) as u8;
    let b = ((p >> 8) & 0xff) as u8;
    let c = (p & 0xff) as u8;
    assert((p >> 16) & 0xff == (p / 0x1_0000) % 256) by (bit_vector);
    assert((p >> 8) & 0xff == (p / 0x100) % 256) by (bit_vector);
    assert(p & 0xff == p % 256) by (bit_vector);
    let r = [a, b, c];
    assert(r@ =~= rgb_of(p));
    r
}

/// Splitting a pixel into bytes and packing them back gives the pixel,
/// opaque.
pub proof fn lemma_rgb_roundtrip(p: u32)
    ensures
        0xFF00_0000 + rgb_of(p)[0] * 0x1_0000 + rgb_of(p)[1] * 0x100 + rgb_of(p)[2] == 0xFF00_0000 + p % 0x100_0000,
{
    assert(((p / 0x1_0000) % 256) * 0x1_0000 + ((p / 0x100) % 256) * 0x100 + p % 256 == p % 0x100_0000) by (bit_vector);
}

/// The pixel at `idx` of `buf`, or 0 past its end.
pub open spec fn pixel_at(buf: Seq<u32>, idx: int) -> u32 {
    if 0 <= idx < buf.len() {
        buf[idx]
    } else {
        0
    }
}

/// The bytes of the first `n` pixels of row `row` of a crop starting at
/// column `x`, in a buffer `bw` pixels wide.
pub open spec fn crop_row_rgb(buf: Seq<u32>, bw: int, x: int, row: int, n: int) -> Seq<u8>
    decreases n,
{
    if n <= 0 {
        Seq::empty()
    } else {
        crop_row_rgb(buf, bw, x, row, n - 1) + rgb_of(pixel_at(buf, row * bw + x + n - 1))
    }
}

/// The bytes of the first `m` rows of the `w`-wide crop whose top-left
/// corner is `(x, y)`, row by row.
pub open spec fn crop_rgb_spec(buf: Seq<u32>, bw: int, x: int, y: int, w: int, m: int) -> Seq<u8>
    decreases m,
{
    if m <= 0 {
        Seq::empty()
    } else {
        crop_rgb_spec(buf, bw, x, y, w, m - 1) + crop_row_rgb(buf, bw, x, y + m - 1, w)
    }
}

/// Whether the crop's row and column ranges, and the index
/// `row * bw + col` of each of its pixels, fit in 32 bits.
pub open spec fn crop_fits(bw: int, x: int, y: int, w: int, h: int) -> bool {
    &&& y + h <= u32::MAX
    &&& h > 0 ==> x + w <= u32::MAX
    &&& h > 0 && w > 0 ==> (y + h - 1) * bw + (x + w - 1) <= u32::MAX
}

/// The RGB bytes of the `w` x `h` crop at `(x, y)` of a buffer `bw` pixels
/// wide, row by row; pixels past the end of the buffer are black.
pub fn crop_rgb(buf: &[u32], bw: u32, x: u32, y: u32, w: u32, h: u32) -> (r: Vec<u8>)
    requires
        crop_fits(bw as int, x as int, y as int, w as int, h as int),
    ensures
        r@ == crop_rgb_spec(buf@, bw as int, x as int, y as int, w as int, h as int),
{
    let mut out: Vec<u8> = Vec::new();
    let mut row: u32 = y;
    while row < y + h
        invariant
            crop_fits(bw as int, x as int, y as int, w as int, h as int),
            y <= row <= y + h,
            out@ == crop_rgb_spec(buf@, bw as int, x as int, y as int, w as int, row - y),
        decreases y + h - row,
    {
        let ghost before = out@;
        let mut col: u32 = x;
        while col < x + w
            invariant
                crop_fits(bw as int, x as int, y as int, w as int, h as int),
                y <= row < y + h,
                x <= col <= x + w,
                out@ == before + crop_row_rgb(buf@, bw as int, x as int, row as int, col - x),
            decreases x + w - col,
        {
            assert(row * bw <= (y + h - 1) * bw) by (nonlinear_arith)
                requires
                    row <= y + h - 1,
                    bw >= 0,
            ;
            let idx = (row * bw + col) as usize;
            let p = if idx < buf.len() {
                buf[idx]
            } else {
                0
            };
            let rgb = pixel_to_rgb(p);
            out.push(rgb[0]);
            out.push(rgb[1]);
            out.push(rgb[2]);
            assert(out@ =~= before + crop_row_rgb(buf@, bw as int, x as int, row as int, col - x + 1));
            col = col + 1;
        }
        assert(out@ =~= crop_rgb_spec(buf@, bw as int, x as int, y as int, w as int, row - y + 1));
        row = row + 1;
    }
    out
}

/// Characters a file name may not hold on common file systems, and the
/// space; each becomes `-`.
pub open spec fn unsafe_name_char(c: char) -> bool {
    c == '/' || c == '\\' || c == ':' || c == '*' || c == '?' || c == '"' || c == '<' || c == '>' || c == '|' || c == ' '
}

pub open spec fn sanitized(s: Seq<char>) -> Seq<char> {
    s.map_values(|c: char| if unsafe_name_char(c) { '-' } else { c })
}

fn sanitize_chars(chars: &[char]) -> (r: Vec<char>)
    ensures
        r@ == sanitized(chars@),
{
    let mut out: Vec<char> = Vec::new();
    let mut i: usize = 0;
    while i < chars.len()
        invariant
            i <= chars@.len(),
            out@ =~= sanitized(chars@).subrange(0, i as int),
        decreases chars@.len() - i,
    {
        let c = chars[i];
        let m = c == '/' || c == '\\' || c == ':' || c == '*' || c == '?' || c == '"' || c == '<' || c == '>' || c == '|' || c == ' ';
        out.push(if m { '-' } else { c });
        i = i + 1;
    }
    assert(out@ =~= sanitized(chars@));
    out
}

/// A screenshot name with path separators, reserved characters and spaces
/// replaced by `-`.
pub fn sanitize_screenshot_name(raw: &str) -> (r: String)
    ensures
        r@ == sanitized(raw@),
{
    let chars = str_chars(raw);
    let out = sanitize_chars(chars.as_slice());
    chars_to_string(out.as_slice())
}

/// The file a screenshot is saved to: the trimmed name, cleaned, with
/// `.png`; `mmterm-<stamp>.png` when the name is blank.
pub open spec fn screenshot_file_name_spec(name: Seq<char>, stamp: Seq<char>) -> Seq<char> {
    let t = trim_spec(name);
    if t.len() == 0 {
        "mmterm-"@ + stamp + ".png"@
    } else {
        sanitized(t) + ".png"@
    }
}

/// The file name for a screenshot called `name` (as typed), taken at the
/// local time `stamp` (`%Y%m%dT%H%M%S`).
pub fn screenshot_file_name(name: &str, stamp: &str) -> (r: String)
    ensures
        r@ == screenshot_file_name_spec(name@, stamp@),
{
    let chars = str_chars(name);
    let t = trim(chars.as_slice());
    let mut out: Vec<char> = Vec::new();
    if t.len() == 0 {
        push_str(&mut out, "mmterm-");
        push_str(&mut out, stamp);
    } else {
        let clean = sanitize_chars(t.as_slice());
        push_all(&mut out, clean.as_slice());
    }
    push_str(&mut out, ".png");
    assert(out@ =~= screenshot_file_name_spec(name@, stamp@));
    chars_to_string(out.as_slice())
}

proof fn lemma_skip_blank(s: Seq<char>, i: int)
    requires
        0 <= i <= s.len(),
        forall|k: int| 0 <= k < s.len() ==> is_ws(#[trigger] s[k]),
    ensures
        skip_ws_from(s, i) == s.len(),
    decreases s.len() - i,
{
    if i < s.len() {
        lemma_skip_blank(s, i + 1);
    }
}

/// A name made only of whitespace (or empty) gives the time-stamped file
/// name.
pub proof fn lemma_blank_name_uses_stamp(name: Seq<char>, stamp: Seq<char>)
    requires
        forall|k: int| 0 <= k < name.len() ==> is_ws(#[trigger] name[k]),
    ensures
        screenshot_file_name_spec(name, stamp) == "mmterm-"@ + stamp + ".png"@,
{
    lemma_skip_blank(name, 0);
    assert(trim_spec(name).len() == 0);
}

/// A cleaned name has the length of the raw one and none of the replaced
/// characters, and cleaning it again changes nothing.
pub proof fn lemma_sanitized_clean(s: Seq<char>)
    ensures
        sanitized(s).len() == s.len(),
        forall|i: int| 0 <= i < s.len() ==> !unsafe_name_char(#[trigger] sanitized(s)[i]),
        sanitized(sanitized(s)) == sanitized(s),
{
    assert(sanitized(sanitized(s)) =~= sanitized(s));
}

} // verus!
