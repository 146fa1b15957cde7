use vstd::prelude::*;

verus! {

/// A non-premultiplied RGBA color, eight bits per channel.
///
/// This is the base fill color of the rendered title. During composition the
/// alpha channel is replaced by each glyph pixel's coverage value before the
/// color is premultiplied, so `a` never reaches the output directly.
#[derive(Clone, Copy, PartialEq, Eq, Structural, Debug)]
pub struct Rgba8 {
    pub r: u8,
    pub g: u8,
    pub b: u8,
    pub a: u8,
}

} // verus!
