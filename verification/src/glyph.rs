use vstd::prelude::*;

verus! {

/// The pixel rows of a rasterized glyph, as the font backend hands them out.
///
/// A backend returns either a plain coverage mask with three channels per
/// pixel (an antialiased luminance mask) or four channels per pixel, where
/// the fourth channel is the coverage itself.
pub enum GlyphBuffer {
    Rgb(Vec<u8>),
    Rgba(Vec<u8>),
}

/// A rasterized glyph: bearings, extent and advance in integer device pixels,
/// and its pixel buffer.
pub struct Glyph {
    pub left: i32,
    pub top: i32,
    pub width: i32,
    pub height: i32,
    pub advance: i32,
    pub buffer: GlyphBuffer,
}

/// Horizontal space a glyph reserves in the output bitmap: the larger of its
/// rendered extent (`left + width`) and a floor of five device pixels, so
/// that glyphs with tiny or negative bearings still occupy a visible slot.
pub open spec fn spec_slot_width(g: Glyph) -> int {
    if g.left + g.width >= 5 {
        g.left + g.width
    } else {
        5
    }
}

/// Width of the output bitmap: the sum of the slot widths of all accepted
/// glyphs, left to right.
pub open spec fn spec_total_width(gs: Seq<Glyph>) -> int
    decreases gs.len(),
{
    if gs.len() == 0 {
        0
    } else {
        spec_total_width(gs.drop_last()) + spec_slot_width(gs.last())
    }
}

/// Each glyph contributes at least five device pixels of width.
pub proof fn lemma_total_width_lower_bound(gs: Seq<Glyph>)
    ensures
        spec_total_width(gs) >= 5 * gs.len(),
    decreases gs.len(),
{
    if gs.len() > 0 {
        lemma_total_width_lower_bound(gs.drop_last());
    }
}

/// Number of whole pixels held by a glyph buffer; trailing bytes that do not
/// form a whole pixel contribute nothing.
pub open spec fn spec_pixel_count(b: GlyphBuffer) -> int {
    match b {
        GlyphBuffer::Rgb(v) => v@.len() as int / 3,
        GlyphBuffer::Rgba(v) => v@.len() as int / 4,
    }
}

/// Coverage of the `i`-th pixel of a glyph buffer: the fourth channel when
/// the buffer carries one, otherwise the unweighted average of the three
/// color channels, treating the mask as a luminance coverage map.
pub open spec fn spec_coverage(b: GlyphBuffer, i: int) -> u8
    recommends
        0 <= i < spec_pixel_count(b),
{
    match b {
        GlyphBuffer::Rgb(v) => (((v@[3 * i] + v@[3 * i + 1] + v@[3 * i + 2]) as int) / 3) as u8,
        GlyphBuffer::Rgba(v) => v@[4 * i + 3],
    }
}

} // verus!
