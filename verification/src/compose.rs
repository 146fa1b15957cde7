use vstd::prelude::*;

use crate::canvas;
use crate::canvas::{draw_of, pixmap_data, pixmap_height, pixmap_width, tint_of};
use crate::color::Rgba8;
use crate::glyph::{
    lemma_total_width_lower_bound, spec_coverage, spec_pixel_count, spec_total_width, Glyph,
    GlyphBuffer,
};

verus! {

/// One byte of the tinted source buffer built for a glyph. Four bytes per
/// pixel; the premultiplied red channel is written to the first two slots,
/// green to the third and alpha to the fourth. This channel layout is
/// inherited from the glyph-buffer handling and is preserved deliberately.
pub open spec fn spec_tinted_byte(color: Rgba8, b: GlyphBuffer, j: int) -> u8 {
    let t = tint_of(color.r, color.g, color.b, spec_coverage(b, j / 4));
    if j % 4 == 0 || j % 4 == 1 {
        t.0
    } else if j % 4 == 2 {
        t.1
    } else {
        t.3
    }
}

/// The source buffer handed to the blitter for one glyph: every whole pixel
/// of the glyph buffer, tinted with the base color.
pub open spec fn spec_tinted(color: Rgba8, b: GlyphBuffer) -> Seq<u8> {
    Seq::new((4 * spec_pixel_count(b)) as nat, |j: int| spec_tinted_byte(color, b, j))
}

/// Builds the tinted source buffer for one glyph.
pub fn build_tinted(color: Rgba8, b: &GlyphBuffer) -> (out: Vec<u8>)
    ensures
        out@ == spec_tinted(color, *b),
{
    let mut out: Vec<u8> = Vec::new();
    match b {
        GlyphBuffer::Rgb(v) => {
            let npx: usize = v.len() / 3;
            let mut i: usize = 0;
            while i < npx
                invariant
                    *b == GlyphBuffer::Rgb(*v),
                    v@.len() <= usize::MAX,
                    npx == v@.len() / 3,
                    i <= npx,
                    out@.len() == 4 * i,
                    forall|j: int| 0 <= j < 4 * i ==> out@[j] == spec_tinted_byte(color, *b, j),
                decreases npx - i,
            {
                proof {
                    assert(3 * (npx as int) <= v@.len());
                }
                let sum: u32 = v[3 * i] as u32 + v[3 * i + 1] as u32 + v[3 * i + 2] as u32;
                let cov: u8 = (sum / 3) as u8;
                assert(cov == spec_coverage(*b, i as int));
                let t = canvas::tint(color.r, color.g, color.b, cov);
                out.push(t.0);
                out.push(t.0);
                out.push(t.1);
                out.push(t.3);
                i += 1;
            }
        },
        GlyphBuffer::Rgba(v) => {
            let npx: usize = v.len() / 4;
            let mut i: usize = 0;
            while i < npx
                invariant
                    *b == GlyphBuffer::Rgba(*v),
                    v@.len() <= usize::MAX,
                    npx == v@.len() / 4,
                    i <= npx,
                    out@.len() == 4 * i,
                    forall|j: int| 0 <= j < 4 * i ==> out@[j] == spec_tinted_byte(color, *b, j),
                decreases npx - i,
            {
                proof {
                    assert(4 * (npx as int) <= v@.len());
                }
                let cov: u8 = v[4 * i + 3];
                assert(cov == spec_coverage(*b, i as int));
                let t = canvas::tint(color.r, color.g, color.b, cov);
                out.push(t.0);
                out.push(t.0);
                out.push(t.1);
                out.push(t.3);
                i += 1;
            }
        },
    }
    proof {
        assert(out@ =~= spec_tinted(color, *b));
    }
    out
}

/// Clamps a value to the i32 range.
pub open spec fn spec_sat_i32(v: int) -> int {
    if v < i32::MIN {
        i32::MIN as int
    } else if v > i32::MAX {
        i32::MAX as int
    } else {
        v
    }
}

fn sat_i32(v: i128) -> (r: i32)
    ensures
        r as int == spec_sat_i32(v as int),
{
    if v < i32::MIN as i128 {
        i32::MIN
    } else if v > i32::MAX as i128 {
        i32::MAX
    } else {
        v as i32
    }
}

/// The horizontal caret position at which glyph `i` is placed: the sum of the
/// advances of the glyphs before it and of the kerning adjustments applied
/// before each of them.
pub open spec fn spec_caret(gs: Seq<Glyph>, ks: Seq<i32>, i: int) -> int
    decreases i,
{
    if i <= 0 {
        0
    } else {
        spec_caret(gs, ks, i - 1) + gs[i - 1].advance + (if i - 1 < ks.len() {
            ks[i - 1] as int
        } else {
            0
        })
    }
}

/// Source dimensions under which the blitter accepts a glyph's buffer, read
/// as the unsigned reinterpretation of the glyph's extent fields.
pub open spec fn spec_src_width(g: Glyph) -> int {
    (g.width as u32) as int
}

pub open spec fn spec_src_height(g: Glyph) -> int {
    (g.height as u32) as int
}

/// Whether a glyph's tinted buffer can be viewed as a pixel source and so is
/// blitted; a glyph that cannot contributes its slot width and advance but no
/// pixels.
pub open spec fn spec_drawable(g: Glyph, src_len: int) -> bool {
    let w = spec_src_width(g);
    let h = spec_src_height(g);
    1 <= w && 1 <= h && 4 * w <= u32::MAX && 4 * w * h <= usize::MAX && 4 * w * h <= src_len
}

/// Horizontal blit position of glyph `i`: its left bearing plus the caret,
/// clamped to the i32 range.
pub open spec fn spec_draw_x(gs: Seq<Glyph>, ks: Seq<i32>, i: int) -> int {
    spec_sat_i32(gs[i].left + spec_caret(gs, ks, i))
}

/// Vertical blit position of a glyph: the bitmap height minus the glyph's top
/// bearing plus the rounded descent, clamped to the i32 range.
pub open spec fn spec_draw_y(g: Glyph, height: int, descent: int) -> int {
    spec_sat_i32(height - g.top + descent)
}

/// The output pixel bytes after the first `i` glyphs have been composed onto
/// a zero-initialized bitmap of `w` by `h` pixels.
pub open spec fn spec_composed_upto(
    gs: Seq<Glyph>,
    ks: Seq<i32>,
    w: int,
    h: int,
    descent: int,
    color: Rgba8,
    i: int,
) -> Seq<u8>
    decreases i,
{
    if i <= 0 {
        Seq::new((4 * w * h) as nat, |j: int| 0u8)
    } else {
        let prev = spec_composed_upto(gs, ks, w, h, descent, color, i - 1);
        let g = gs[i - 1];
        let src = spec_tinted(color, g.buffer);
        if spec_drawable(g, src.len() as int) {
            draw_of(
                prev,
                w,
                h,
                src,
                spec_src_width(g),
                spec_src_height(g),
                spec_draw_x(gs, ks, i - 1),
                spec_draw_y(g, h, descent),
            )
        } else {
            prev
        }
    }
}

/// The output pixel bytes after all glyphs have been composed.
pub open spec fn spec_composed(
    gs: Seq<Glyph>,
    ks: Seq<i32>,
    w: int,
    h: int,
    descent: int,
    color: Rgba8,
) -> Seq<u8> {
    spec_composed_upto(gs, ks, w, h, descent, color, gs.len() as int)
}

/// Dimensions under which a bitmap is allocated: both positive, and small
/// enough that the byte length stays within the blitter's limits.
pub open spec fn spec_dims_ok(w: int, h: int) -> bool {
    1 <= w && 1 <= h && 4 * w * h <= 0x7FFF_FFFF
}

/// The dimensions of the bitmap that composition produces, or `None` when no
/// glyph was accepted or the dimensions are degenerate. The color is a
/// parameter only so that its absence from the result can be stated.
pub open spec fn spec_render_dims(gs: Seq<Glyph>, line_height: int, color: Rgba8) -> Option<
    (int, int),
> {
    if gs.len() > 0 && spec_dims_ok(spec_total_width(gs), line_height) {
        Some((spec_total_width(gs), line_height))
    } else {
        None
    }
}

/// Color-only change law: changing the fill color changes neither whether a
/// bitmap is produced nor its dimensions.
pub proof fn lemma_color_change_keeps_dims(gs: Seq<Glyph>, line_height: int, c1: Rgba8, c2: Rgba8)
    ensures
        spec_render_dims(gs, line_height, c1) == spec_render_dims(gs, line_height, c2),
{
}

/// Composes the accepted glyphs into a bitmap: the width is the sum of the
/// glyphs' slot widths, the height is the rounded line height, and the pixels
/// are the glyphs' tinted buffers blitted left to right at caret positions
/// advanced by each glyph's advance and the kerning between neighbours.
/// Returns `None` exactly when no glyph was accepted or the dimensions are
/// degenerate.
pub fn compose(
    glyphs: &Vec<Glyph>,
    kerns: &Vec<i32>,
    line_height: i32,
    descent: i32,
    color: Rgba8,
) -> (r: Option<tiny_skia::Pixmap>)
    requires
        glyphs@.len() == 0 || kerns@.len() == glyphs@.len() - 1,
    ensures
        (r is Some) <==> (spec_render_dims(glyphs@, line_height as int, color) is Some),
        r matches Some(p) ==> {
            &&& pixmap_width(p) == spec_total_width(glyphs@)
            &&& pixmap_height(p) == line_height
            &&& pixmap_data(p).len() == 4 * spec_total_width(glyphs@) * line_height
            &&& pixmap_data(p) == spec_composed(
                glyphs@,
                kerns@,
                spec_total_width(glyphs@),
                line_height as int,
                descent as int,
                color,
            )
        },
{
    let n: usize = glyphs.len();
    if n == 0 {
        return None;
    }
    proof {
        lemma_total_width_lower_bound(glyphs@);
    }
    let mut total: i128 = 0;
    let mut i: usize = 0;
    while i < n
        invariant
            n == glyphs@.len(),
            i <= n,
            total == spec_total_width(glyphs@.take(i as int)),
            total <= 0x1_0000_0000i128 * (i as i128),
            5 * (i as i128) <= total,
        decreases n - i,
    {
        let g = &glyphs[i];
        let lw: i64 = g.left as i64 + g.width as i64;
        let slot: i64 = if lw >= 5 {
            lw
        } else {
            5
        };
        proof {
            assert(glyphs@.take(i as int + 1).drop_last() =~= glyphs@.take(i as int));
            assert(glyphs@.take(i as int + 1).last() == glyphs@[i as int]);
        }
        total = total + slot as i128;
        i += 1;
    }
    proof {
        assert(glyphs@.take(n as int) =~= glyphs@);
    }
    if line_height < 1 || total > 0x7FFF_FFFFi128 {
        proof {
            let w = spec_total_width(glyphs@);
            let h = line_height as int;
            if 1 <= h && w > 0x7FFF_FFFF {
                assert(4 * w * h > 0x7FFF_FFFF) by (nonlinear_arith)
                    requires
                        1 <= h,
                        w > 0x7FFF_FFFF,
                ;
            }
        }
        return None;
    }
    let h128: i128 = line_height as i128;
    proof {
        assert(0 <= 4 * total * h128 <= 0x7FFF_FFFFi128 * 0x7FFF_FFFFi128 * 4)
            by (nonlinear_arith)
            requires
                1 <= total <= 0x7FFF_FFFFi128,
                1 <= h128 <= 0x7FFF_FFFFi128,
        ;
    }
    if 4i128 * total * h128 > 0x7FFF_FFFFi128 {
        return None;
    }
    let wu: u32 = total as u32;
    let hu: u32 = line_height as u32;
    let ghost gs = glyphs@;
    let ghost ks = kerns@;
    let ghost w_int = spec_total_width(gs);
    let mut pm: tiny_skia::Pixmap = match canvas::new_pixmap(wu, hu) {
        Some(p) => p,
        None => {
            return None;
        },
    };
    let mut caret: i128 = 0;
    let mut idx: usize = 0;
    while idx < n
        invariant
            n == gs.len(),
            gs == glyphs@,
            ks == kerns@,
            0 < n,
            ks.len() == n - 1,
            idx <= n,
            caret == spec_caret(gs, ks, idx as int),
            -(0x1_0000_0000i128 * (idx as i128)) <= caret,
            caret <= 0x1_0000_0000i128 * (idx as i128),
            1 <= line_height,
            pixmap_width(pm) == w_int,
            pixmap_height(pm) == line_height,
            pixmap_data(pm).len() == 4 * w_int * line_height,
            pixmap_data(pm) == spec_composed_upto(
                gs,
                ks,
                w_int,
                line_height as int,
                descent as int,
                color,
                idx as int,
            ),
        decreases n - idx,
    {
        let g = &glyphs[idx];
        let buf = build_tinted(color, &g.buffer);
        let wsrc: u32 = #[verifier::truncate] (g.width as u32);
        let hsrc: u32 = #[verifier::truncate] (g.height as u32);
        let w128: u128 = wsrc as u128;
        let hs128: u128 = hsrc as u128;
        proof {
            assert((4u128 * w128) * hs128 <= 0x4_0000_0000_0000_0000u128) by (nonlinear_arith)
                requires
                    w128 <= 0xFFFF_FFFFu128,
                    hs128 <= 0xFFFF_FFFFu128,
            ;
        }
        let prod: u128 = 4u128 * w128 * hs128;
        let drawable: bool = 1 <= wsrc && 1 <= hsrc && 4u64 * (wsrc as u64) <= 0xFFFF_FFFFu64
            && prod <= usize::MAX as u128 && prod <= buf.len() as u128;
        assert(drawable == spec_drawable(gs[idx as int], spec_tinted(color, gs[idx as int].buffer).len() as int));
        let x: i32 = sat_i32(g.left as i128 + caret);
        let y: i32 = sat_i32(line_height as i128 - g.top as i128 + descent as i128);
        if drawable {
            canvas::draw_onto(&mut pm, x, y, &buf, wsrc, hsrc);
        }
        proof {
            assert(pixmap_data(pm) == spec_composed_upto(
                gs,
                ks,
                w_int,
                line_height as int,
                descent as int,
                color,
                idx as int + 1,
            ));
        }
        caret = caret + g.advance as i128;
        if idx + 1 < n {
            caret = caret + kerns[idx] as i128;
        }
        idx += 1;
    }
    Some(pm)
}

} // verus!
