//! Renders a short line of text (a window or tab title) into an in-memory
//! premultiplied RGBA bitmap and caches the result until the text, the scale
//! factor or the color changes.

pub mod canvas;
pub mod color;
pub mod compose;
pub mod font;
pub mod glyph;
pub mod title;
