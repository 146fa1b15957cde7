use vstd::prelude::*;

verus! {

#[verifier::external_type_specification]
#[verifier::external_body]
pub struct ExPixmap(tiny_skia::Pixmap);

/// The pixel bytes of a pixmap: premultiplied RGBA, four bytes per pixel,
/// rows left to right, top to bottom.
pub uninterp spec fn pixmap_data(p: tiny_skia::Pixmap) -> Seq<u8>;

/// The width of a pixmap in pixels.
pub uninterp spec fn pixmap_width(p: tiny_skia::Pixmap) -> nat;

/// The height of a pixmap in pixels.
pub uninterp spec fn pixmap_height(p: tiny_skia::Pixmap) -> nat;

/// The premultiplied RGBA channels that tiny_skia produces for a base color
/// whose alpha was replaced by a coverage value. A pure function of its
/// arguments; its exact value goes through tiny_skia's float arithmetic and
/// is not restated here.
pub uninterp spec fn tint_of(r: u8, g: u8, b: u8, coverage: u8) -> (u8, u8, u8, u8);

/// The pixel bytes after blitting a source pixel buffer onto a destination at
/// an offset, with tiny_skia's source-over compositing, identity transform
/// and full opacity. A pure function of its arguments; the blitter's exact
/// per-pixel arithmetic is not restated here.
pub uninterp spec fn draw_of(
    dst: Seq<u8>,
    dst_width: int,
    dst_height: int,
    src: Seq<u8>,
    src_width: int,
    src_height: int,
    x: int,
    y: int,
) -> Seq<u8>;

/// Relies on tiny_skia::Color::from_rgba8, Color::premultiply and
/// PremultipliedColor::to_color_u8: builds the base color with its alpha
/// replaced by the coverage value, premultiplies it, and hands back the
/// four u8 channels.
#[verifier::external_body]
pub(crate) fn tint(r: u8, g: u8, b: u8, coverage: u8) -> (t: (u8, u8, u8, u8))
    ensures
        t == tint_of(r, g, b, coverage),
{
    let c = tiny_skia::Color::from_rgba8(r, g, b, coverage).premultiply().to_color_u8();
    (c.red(), c.green(), c.blue(), c.alpha())
}

/// Relies on tiny_skia::Pixmap::new: a zero-initialized RGBA8 buffer of the
/// given dimensions; `None` exactly when a dimension is zero. The size bound
/// in `requires` keeps the internal length computations of tiny_skia from
/// failing and the allocation from aborting.
#[verifier::external_body]
pub(crate) fn new_pixmap(width: u32, height: u32) -> (r: Option<tiny_skia::Pixmap>)
    requires
        4 * width * height <= 0x7FFF_FFFF,
    ensures
        (r is Some) <==> (1 <= width && 1 <= height),
        r matches Some(p) ==> pixmap_width(p) == width && pixmap_height(p) == height
            && pixmap_data(p) == Seq::new((4 * width * height) as nat, |i: int| 0u8),
{
    tiny_skia::Pixmap::new(width, height)
}

/// Relies on tiny_skia::PixmapRef::from_bytes and Pixmap::draw_pixmap: views
/// the byte buffer as a `width` by `height` premultiplied RGBA8 source (the
/// `requires` are exactly the conditions under which that view exists) and
/// blits it onto the destination at `(x, y)` with the default pixmap paint
/// (source-over, full opacity) and the identity transform.
#[verifier::external_body]
pub(crate) fn draw_onto(
    dst: &mut tiny_skia::Pixmap,
    x: i32,
    y: i32,
    bytes: &Vec<u8>,
    width: u32,
    height: u32,
)
    requires
        1 <= width,
        1 <= height,
        4 * width <= u32::MAX,
        4 * width * height <= usize::MAX,
        4 * width * height <= bytes@.len(),
    ensures
        pixmap_width(*final(dst)) == pixmap_width(*old(dst)),
        pixmap_height(*final(dst)) == pixmap_height(*old(dst)),
        pixmap_data(*final(dst)).len() == pixmap_data(*old(dst)).len(),
        pixmap_data(*final(dst)) == draw_of(
            pixmap_data(*old(dst)),
            pixmap_width(*old(dst)) as int,
            pixmap_height(*old(dst)) as int,
            bytes@,
            width as int,
            height as int,
            x as int,
            y as int,
        ),
{
    if let Some(src) = tiny_skia::PixmapRef::from_bytes(bytes, width, height) {
        let paint = tiny_skia::PixmapPaint::default();
        dst.draw_pixmap(x, y, src, &paint, tiny_skia::Transform::identity(), None);
    }
}

} // verus!
