use vstd::prelude::*;
use crossfont::Rasterize;

use crate::glyph::{Glyph, GlyphBuffer};

verus! {

#[verifier::external_type_specification]
#[verifier::external_body]
pub struct ExRasterizer(crossfont::Rasterizer);

#[verifier::external_type_specification]
#[verifier::external_body]
pub struct ExFontDesc(crossfont::FontDesc);

#[verifier::external_type_specification]
#[verifier::external_body]
pub struct ExFontKey(crossfont::FontKey);

#[verifier::external_type_specification]
#[verifier::external_body]
pub struct ExSize(crossfont::Size);

#[verifier::external_type_specification]
#[verifier::external_body]
pub struct ExError(crossfont::Error);

/// Why the font backend could not produce a font, a glyph or metrics.
///
/// The variants mirror the font backend's own error cases, shed of the
/// backend's payloads.
#[derive(Debug, Clone)]
pub enum FontError {
    /// No font matches the requested description.
    FontNotFound,
    /// The face has no metrics to report.
    MetricsNotFound,
    /// The requested character has no glyph in the font.
    MissingGlyph,
    /// The font key is not known to the rasterizer.
    UnknownFontKey,
    /// An error reported by the platform's font system.
    Platform(String),
}

/// Relies on the variants of crossfont::Error; maps each to the matching
/// variant of this library's error type, dropping the backend's payloads.
#[verifier::external_body]
fn from_backend_error(e: crossfont::Error) -> FontError {
    match e {
        crossfont::Error::FontNotFound(_) => FontError::FontNotFound,
        crossfont::Error::MetricsNotFound => FontError::MetricsNotFound,
        crossfont::Error::MissingGlyph(_) => FontError::MissingGlyph,
        crossfont::Error::UnknownFontKey => FontError::UnknownFontKey,
        crossfont::Error::PlatformError(s) => FontError::Platform(s),
    }
}

/// Relies on crossfont::Rasterizer::new (the Rasterize trait): opens a fresh
/// rasterizer instance. Whether it succeeds depends on the platform's font
/// system, so nothing is promised of the outcome.
#[verifier::external_body]
pub(crate) fn new_rasterizer() -> Result<crossfont::Rasterizer, FontError> {
    match crossfont::Rasterizer::new() {
        Ok(r) => Ok(r),
        Err(e) => Err(from_backend_error(e)),
    }
}

/// Relies on crossfont::FontDesc::new: describes a sans-serif family with
/// normal slant and weight, the one fixed font description this renderer uses.
#[verifier::external_body]
pub(crate) fn sans_serif_descriptor() -> crossfont::FontDesc {
    crossfont::FontDesc::new(
        "sans-serif",
        crossfont::Style::Description {
            slant: crossfont::Slant::Normal,
            weight: crossfont::Weight::Normal,
        },
    )
}

/// Relies on crossfont::Size::new: the fixed nominal size of ten points.
#[verifier::external_body]
pub(crate) fn nominal_size() -> crossfont::Size {
    crossfont::Size::new(10u8.into())
}

/// Relies on crossfont::Size::scale: the nominal size scaled by the device
/// pixel ratio, which is how a scale change reaches the rasterizer.
#[verifier::external_body]
pub(crate) fn scaled_size(base: crossfont::Size, scale: u16) -> crossfont::Size {
    base.scale(scale.into())
}

/// Relies on crossfont::Rasterizer::load_font (the Rasterize trait): resolves
/// a font description to a font handle. The outcome depends on the fonts
/// installed on the machine, so nothing is promised of it.
#[verifier::external_body]
pub(crate) fn load_font(
    r: &mut crossfont::Rasterizer,
    desc: &crossfont::FontDesc,
    size: crossfont::Size,
) -> Result<crossfont::FontKey, FontError> {
    match r.load_font(desc, size) {
        Ok(key) => Ok(key),
        Err(e) => Err(from_backend_error(e)),
    }
}

/// Relies on crossfont::Rasterizer::get_glyph (the Rasterize trait):
/// rasterizes one character at the given size. The glyph's bearings, extent,
/// horizontal advance and pixel buffer are handed back as plain values; the
/// outcome depends on the fonts installed on the machine, so nothing is
/// promised of it.
#[verifier::external_body]
pub(crate) fn get_glyph(
    r: &mut crossfont::Rasterizer,
    font_key: crossfont::FontKey,
    character: char,
    size: crossfont::Size,
) -> Result<Glyph, FontError> {
    match r.get_glyph(crossfont::GlyphKey { font_key, character, size }) {
        Ok(g) => {
            let buffer = match g.buffer {
                crossfont::BitmapBuffer::Rgb(v) => GlyphBuffer::Rgb(v),
                crossfont::BitmapBuffer::Rgba(v) => GlyphBuffer::Rgba(v),
            };
            let (advance, _) = g.advance;
            Ok(Glyph { left: g.left, top: g.top, width: g.width, height: g.height, advance, buffer })
        },
        Err(e) => Err(from_backend_error(e)),
    }
}

/// Relies on crossfont::Rasterizer::metrics (the Rasterize trait): the line
/// metrics of the loaded face, with line height and descent rounded to whole
/// device pixels, which is all this renderer reads of them. The values depend
/// on the fonts installed on the machine, so nothing is promised of them.
#[verifier::external_body]
pub(crate) fn metrics_rounded(
    r: &crossfont::Rasterizer,
    font_key: crossfont::FontKey,
    size: crossfont::Size,
) -> Result<(i32, i32), FontError> {
    match r.metrics(font_key, size) {
        Ok(m) => Ok((m.line_height.round() as i32, m.descent.round() as i32)),
        Err(e) => Err(from_backend_error(e)),
    }
}

/// Relies on crossfont::Rasterizer::kerning (the Rasterize trait): the
/// horizontal kerning between two characters, truncated to whole device
/// pixels; the vertical part is dropped. The value depends on the fonts
/// installed on the machine, so nothing is promised of it.
#[verifier::external_body]
pub(crate) fn kerning_x(
    r: &mut crossfont::Rasterizer,
    font_key: crossfont::FontKey,
    left: char,
    right: char,
    size: crossfont::Size,
) -> i32 {
    let (x, _) = r.kerning(
        crossfont::GlyphKey { font_key, character: left, size },
        crossfont::GlyphKey { font_key, character: right, size },
    );
    x as i32
}

} // verus!
