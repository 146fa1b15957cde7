use vstd::prelude::*;
use vstd::string::StrSliceExecFns;
use vstd::string::StringExecFns;

use crate::canvas::{pixmap_data, pixmap_height, pixmap_width};
use crate::color::Rgba8;
use crate::compose;
use crate::compose::{spec_composed, spec_render_dims};
use crate::font;
use crate::font::FontError;
use crate::glyph::{lemma_total_width_lower_bound, Glyph};

verus! {

/// The line metrics this renderer reads of the loaded face, rounded to whole
/// device pixels: the output bitmap is as high as the line, and glyphs sit on
/// a baseline lifted by the descent.
#[derive(Clone, Copy, PartialEq, Eq, Structural, Debug)]
pub struct Metrics {
    pub line_height_px: i32,
    pub descent_px: i32,
}

/// Whether `cache` is the outcome of one full render pass over the accepted
/// glyphs `gs` with the kerning adjustments `ks`: absent exactly when no
/// glyph was accepted or the dimensions are degenerate, and otherwise a
/// bitmap whose width is the sum of the glyphs' slot widths, whose height is
/// the rounded line height, and whose pixels are the tinted glyph buffers
/// blitted at their caret positions.
pub open spec fn render_outcome(
    cache: Option<tiny_skia::Pixmap>,
    gs: Seq<Glyph>,
    ks: Seq<i32>,
    m: Metrics,
    color: Rgba8,
) -> bool {
    &&& ks.len() == (if gs.len() == 0 {
        0int
    } else {
        gs.len() - 1
    })
    &&& match spec_render_dims(gs, m.line_height_px as int, color) {
        Some(dims) => {
            &&& cache matches Some(p)
            &&& pixmap_width(p) == dims.0
            &&& pixmap_height(p) == dims.1
            &&& pixmap_data(p).len() == 4 * dims.0 * dims.1
            &&& pixmap_data(p) == spec_composed(gs, ks, dims.0, dims.1, m.descent_px as int, color)
        },
        None => cache is None,
    }
}

/// The cached bitmap reflects one render pass over the current state: there
/// is a sequence of accepted glyphs, at most one per character of the title,
/// whose composition under the current metrics and color is exactly the
/// cache. Which glyphs the font backend accepts, and with which buffers, is
/// the backend's choice, so they are quantified.
pub open spec fn rendered(t: TitleText) -> bool {
    exists|gs: Seq<Glyph>, ks: Seq<i32>|
        #[trigger] render_outcome(t.cache(), gs, ks, t.metrics_px(), t.fill_color())
            && gs.len() <= t.title_chars().len()
}

/// Empty-title law: whenever the cache reflects a render pass and the title
/// is empty, the cache is absent — for every color, scale and set of metrics.
pub proof fn lemma_empty_title_yields_empty(t: TitleText)
    requires
        rendered(t),
        t.title_chars().len() == 0,
    ensures
        t.cache() is None,
{
    let (gs, ks) = choose|gs: Seq<Glyph>, ks: Seq<i32>|
        #[trigger] render_outcome(t.cache(), gs, ks, t.metrics_px(), t.fill_color())
            && gs.len() <= t.title_chars().len();
    assert(gs.len() == 0);
    assert(spec_render_dims(gs, t.metrics_px().line_height_px as int, t.fill_color()) is None);
}

/// Renders a short line of text into a cached premultiplied RGBA bitmap.
///
/// The font description and nominal size are fixed at construction; callers
/// mutate the text, the scale factor and the color, and each mutator
/// re-renders only on a genuine change.
pub struct TitleText {
    title: String,
    font_desc: crossfont::FontDesc,
    font_key: crossfont::FontKey,
    size: crossfont::Size,
    scaled_size: crossfont::Size,
    scale: u32,
    metrics: Metrics,
    rasterizer: crossfont::Rasterizer,
    color: Rgba8,
    pixmap: Option<tiny_skia::Pixmap>,
}

impl TitleText {
    /// The characters of the current title.
    pub closed spec fn title_chars(&self) -> Seq<char> {
        self.title@
    }

    /// The current device pixel ratio.
    pub closed spec fn scale_factor(&self) -> u32 {
        self.scale
    }

    /// The current base fill color.
    pub closed spec fn fill_color(&self) -> Rgba8 {
        self.color
    }

    /// The current rounded line metrics.
    pub closed spec fn metrics_px(&self) -> Metrics {
        self.metrics
    }

    /// The cached bitmap, absent when the last render produced none.
    pub closed spec fn cache(&self) -> Option<tiny_skia::Pixmap> {
        self.pixmap
    }

    /// Reloads the reference glyph and refreshes the rounded line metrics;
    /// on failure the old metrics are kept.
    fn update_metrics(&mut self) -> (r: Result<(), FontError>)
        ensures
            final(self).title == old(self).title,
            final(self).font_desc == old(self).font_desc,
            final(self).font_key == old(self).font_key,
            final(self).size == old(self).size,
            final(self).scaled_size == old(self).scaled_size,
            final(self).scale == old(self).scale,
            final(self).color == old(self).color,
            final(self).pixmap == old(self).pixmap,
            r is Err ==> final(self).metrics == old(self).metrics,
    {
        match font::get_glyph(&mut self.rasterizer, self.font_key, 'm', self.scaled_size) {
            Ok(_) => {},
            Err(e) => {
                return Err(e);
            },
        }
        match font::metrics_rounded(&self.rasterizer, self.font_key, self.scaled_size) {
            Ok(m) => {
                self.metrics = Metrics { line_height_px: m.0, descent_px: m.1 };
                Ok(())
            },
            Err(e) => Err(e),
        }
    }

    /// Runs the render pass over the current state and replaces the cache
    /// with its outcome.
    fn rerender(&mut self)
        ensures
            final(self).title == old(self).title,
            final(self).font_desc == old(self).font_desc,
            final(self).font_key == old(self).font_key,
            final(self).size == old(self).size,
            final(self).scaled_size == old(self).scaled_size,
            final(self).scale == old(self).scale,
            final(self).metrics == old(self).metrics,
            final(self).color == old(self).color,
            rendered(*final(self)),
            old(self).title@.len() == 0 ==> final(self).pixmap is None,
            final(self).pixmap matches Some(p) ==> pixmap_height(p)
                == old(self).metrics.line_height_px && pixmap_width(p) >= 5,
    {
        let n: usize = self.title.as_str().unicode_len();
        let mut glyphs: Vec<Glyph> = Vec::new();
        let mut accepted: Vec<char> = Vec::new();
        let mut i: usize = 0;
        while i < n
            invariant
                self.title == old(self).title,
                self.font_desc == old(self).font_desc,
                self.font_key == old(self).font_key,
                self.size == old(self).size,
                self.scaled_size == old(self).scaled_size,
                self.scale == old(self).scale,
                self.metrics == old(self).metrics,
                self.color == old(self).color,
                self.pixmap == old(self).pixmap,
                n == self.title@.len(),
                glyphs@.len() == accepted@.len(),
                glyphs@.len() <= i,
                i <= n,
            decreases n - i,
        {
            let ch: char = self.title.as_str().get_char(i);
            match font::get_glyph(&mut self.rasterizer, self.font_key, ch, self.scaled_size) {
                Ok(g) => {
                    glyphs.push(g);
                    accepted.push(ch);
                },
                Err(_) => {},
            }
            i += 1;
        }
        let mut kerns: Vec<i32> = Vec::new();
        if glyphs.len() > 0 {
            let mut j: usize = 1;
            while j < glyphs.len()
                invariant
                    self.title == old(self).title,
                    self.font_desc == old(self).font_desc,
                    self.font_key == old(self).font_key,
                    self.size == old(self).size,
                    self.scaled_size == old(self).scaled_size,
                    self.scale == old(self).scale,
                    self.metrics == old(self).metrics,
                    self.color == old(self).color,
                    self.pixmap == old(self).pixmap,
                    accepted@.len() == glyphs@.len(),
                    1 <= j,
                    j <= glyphs@.len(),
                    kerns@.len() == j - 1,
                decreases glyphs@.len() - j,
            {
                let k: i32 = font::kerning_x(
                    &mut self.rasterizer,
                    self.font_key,
                    accepted[j - 1],
                    accepted[j],
                    self.scaled_size,
                );
                kerns.push(k);
                j += 1;
            }
        }
        let result = compose::compose(
            &glyphs,
            &kerns,
            self.metrics.line_height_px,
            self.metrics.descent_px,
            self.color,
        );
        proof {
            if spec_render_dims(glyphs@, self.metrics.line_height_px as int, self.color)
                is Some {
                lemma_total_width_lower_bound(glyphs@);
            }
            assert(render_outcome(result, glyphs@, kerns@, self.metrics, self.color));
        }
        self.pixmap = result;
        proof {
            assert(render_outcome(
                (*self).cache(),
                glyphs@,
                kerns@,
                (*self).metrics_px(),
                (*self).fill_color(),
            ));
            assert(rendered(*self));
        }
    }

    /// Creates a renderer for the fixed sans-serif description at the nominal
    /// size, with empty text, scale one and the given color; the cache starts
    /// absent. Fails when the font cannot be loaded or gives no metrics.
    pub fn new(color: Rgba8) -> (r: Result<TitleText, FontError>)
        ensures
            r matches Ok(t) ==> {
                &&& t.title_chars().len() == 0
                &&& t.scale_factor() == 1
                &&& t.fill_color() == color
                &&& t.cache() is None
                &&& rendered(t)
            },
    {
        let font_desc = font::sans_serif_descriptor();
        let mut rasterizer = match font::new_rasterizer() {
            Ok(r) => r,
            Err(e) => {
                return Err(e);
            },
        };
        let size = font::nominal_size();
        let font_key = match font::load_font(&mut rasterizer, &font_desc, size) {
            Ok(k) => k,
            Err(e) => {
                return Err(e);
            },
        };
        // Load one reference glyph so the backend materializes face metrics;
        // the character itself has no meaning.
        match font::get_glyph(&mut rasterizer, font_key, 'm', size) {
            Ok(_) => {},
            Err(e) => {
                return Err(e);
            },
        }
        let m = match font::metrics_rounded(&rasterizer, font_key, size) {
            Ok(m) => m,
            Err(e) => {
                return Err(e);
            },
        };
        let scaled_size = font::scaled_size(size, 1);
        let title = String::from_str("");
        proof {
            reveal_strlit("");
        }
        let mut this = TitleText {
            title,
            font_desc,
            font_key,
            size,
            scaled_size,
            scale: 1,
            metrics: Metrics { line_height_px: m.0, descent_px: m.1 },
            rasterizer,
            color,
            pixmap: None,
        };
        this.rerender();
        Ok(this)
    }

    /// Sets the title. Equal text is a no-op; on change the text is stored
    /// and the bitmap is re-rendered.
    pub fn update_title(&mut self, title: &str)
        ensures
            old(self).title_chars() == title@ ==> *final(self) == *old(self),
            old(self).title_chars() != title@ ==> {
                &&& final(self).title_chars() == title@
                &&& final(self).scale_factor() == old(self).scale_factor()
                &&& final(self).metrics_px() == old(self).metrics_px()
                &&& final(self).fill_color() == old(self).fill_color()
                &&& rendered(*final(self))
                &&& (title@.len() == 0 ==> final(self).cache() is None)
                &&& (final(self).cache() matches Some(p) ==> pixmap_height(p)
                    == final(self).metrics_px().line_height_px && pixmap_width(p) >= 5)
            },
    {
        if !str_eq(self.title.as_str(), title) {
            self.title = String::from_str(title);
            self.rerender();
        }
    }

    /// Sets the device pixel ratio. An equal scale is a no-op; on change the
    /// scale reaches the rasterizer through the scaled font size, the line
    /// metrics are refreshed (kept unchanged if the refresh fails), and the
    /// bitmap is re-rendered.
    pub fn update_scale(&mut self, scale: u32)
        requires
            1 <= scale,
        ensures
            old(self).scale_factor() == scale ==> *final(self) == *old(self),
            old(self).scale_factor() != scale ==> {
                &&& final(self).scale_factor() == scale
                &&& final(self).title_chars() == old(self).title_chars()
                &&& final(self).fill_color() == old(self).fill_color()
                &&& rendered(*final(self))
                &&& (old(self).title_chars().len() == 0 ==> final(self).cache() is None)
                &&& (final(self).cache() matches Some(p) ==> pixmap_height(p)
                    == final(self).metrics_px().line_height_px && pixmap_width(p) >= 5)
            },
    {
        if self.scale != scale {
            self.scale = scale;
            let clamped: u16 = if scale > 0xFFFF {
                0xFFFF
            } else {
                scale as u16
            };
            self.scaled_size = font::scaled_size(self.size, clamped);
            let _ = self.update_metrics();
            self.rerender();
        }
    }

    /// Sets the base fill color. An equal color is a no-op; on change the
    /// color is stored and the bitmap is re-rendered.
    pub fn update_color(&mut self, color: Rgba8)
        ensures
            old(self).fill_color() == color ==> *final(self) == *old(self),
            old(self).fill_color() != color ==> {
                &&& final(self).fill_color() == color
                &&& final(self).title_chars() == old(self).title_chars()
                &&& final(self).scale_factor() == old(self).scale_factor()
                &&& final(self).metrics_px() == old(self).metrics_px()
                &&& rendered(*final(self))
                &&& (old(self).title_chars().len() == 0 ==> final(self).cache() is None)
                &&& (final(self).cache() matches Some(p) ==> pixmap_height(p)
                    == final(self).metrics_px().line_height_px && pixmap_width(p) >= 5)
            },
    {
        if !(self.color == color) {
            self.color = color;
            self.rerender();
        }
    }

    /// The cached bitmap, or absence when the last render produced none.
    /// Reading never renders.
    pub fn pixmap(&self) -> (r: Option<&tiny_skia::Pixmap>)
        ensures
            (r is Some) == (self.cache() is Some),
            r matches Some(p) ==> (self.cache() matches Some(q) && *p == q),
    {
        self.pixmap.as_ref()
    }
}

/// Character-for-character string equality, decided without assuming ASCII.
fn str_eq(a: &str, b: &str) -> (r: bool)
    ensures
        r == (a@ == b@),
{
    let la: usize = a.unicode_len();
    let lb: usize = b.unicode_len();
    if la != lb {
        proof {
            assert(a@ != b@) by {
                if a@ == b@ {
                    assert(a@.len() == b@.len());
                }
            }
        }
        return false;
    }
    let mut i: usize = 0;
    while i < la
        invariant
            la == a@.len(),
            lb == b@.len(),
            la == lb,
            i <= la,
            forall|j: int| 0 <= j < i ==> a@[j] == b@[j],
        decreases la - i,
    {
        let ca: char = a.get_char(i);
        let cb: char = b.get_char(i);
        if ca != cb {
            proof {
                assert(a@ != b@) by {
                    if a@ == b@ {
                        assert(a@[i as int] == b@[i as int]);
                    }
                }
            }
            return false;
        }
        i += 1;
    }
    proof {
        assert(a@ =~= b@);
    }
    true
}

} // verus!
