//! Glyph cache keys and rasterised glyphs.
use vstd::prelude::*;

verus! {

/// What a rasterised glyph is cached under.
#[derive(Clone, Copy, Debug, PartialEq, Eq, Structural, Hash)]
pub struct GlyphKey {
    pub c: char,
    pub px: u32,
    pub bold: bool,
    pub italic: bool,
}

/// Everything needed to place a glyph in its cell.
pub struct GlyphInfo {
    /// One alpha byte per pixel, or four RGBA bytes per pixel when `color`.
    pub bitmap: Vec<u8>,
    pub width: u32,
    pub height: u32,
    /// Pixels from the baseline down to the bottom of the bitmap.
    pub ymin: i32,
    pub advance: u32,
    /// The bitmap is RGBA (a colour emoji), not an outline's coverage.
    pub color: bool,
}

impl GlyphInfo {
    /// The bitmap holds exactly the bytes its size calls for.
    pub open spec fn wf(&self) -> bool {
        self.bitmap@.len() == self.width * self.height * if self.color { 4int } else { 1int }
    }
}

} // verus!
