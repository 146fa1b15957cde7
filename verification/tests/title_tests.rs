use crossfont::Rasterize;
use title_render::color::Rgba8;
use title_render::title::TitleText;

const RED: Rgba8 = Rgba8 { r: 255, g: 0, b: 0, a: 255 };
const GREEN: Rgba8 = Rgba8 { r: 0, g: 255, b: 0, a: 255 };

/// Queries the same backend the library uses: loads the fixed sans-serif
/// description at ten points, loads the reference glyph at the scaled size,
/// and reports the rounded (line height, descent).
fn own_metrics(scale: f32) -> (i32, i32) {
    let desc = crossfont::FontDesc::new(
        "sans-serif",
        crossfont::Style::Description {
            slant: crossfont::Slant::Normal,
            weight: crossfont::Weight::Normal,
        },
    );
    let mut r = crossfont::Rasterizer::new().unwrap();
    let size = crossfont::Size::new(10.0);
    let key = r.load_font(&desc, size).unwrap();
    let scaled = size.scale(scale);
    r.get_glyph(crossfont::GlyphKey { font_key: key, character: 'm', size: scaled })
        .unwrap();
    let m = r.metrics(key, scaled).unwrap();
    (m.line_height.round() as i32, m.descent.round() as i32)
}

/// The slot widths `max(left + width, 5)` of the given characters, queried
/// from the library's backend independently.
fn own_slots(chars: &str, scale: f32) -> Vec<i32> {
    let desc = crossfont::FontDesc::new(
        "sans-serif",
        crossfont::Style::Description {
            slant: crossfont::Slant::Normal,
            weight: crossfont::Weight::Normal,
        },
    );
    let mut r = crossfont::Rasterizer::new().unwrap();
    let size = crossfont::Size::new(10.0);
    let key = r.load_font(&desc, size).unwrap();
    let scaled = size.scale(scale);
    chars
        .chars()
        .map(|character| {
            let g = r
                .get_glyph(crossfont::GlyphKey { font_key: key, character, size: scaled })
                .unwrap();
            (g.left + g.width).max(5)
        })
        .collect()
}

#[test]
fn never_set_a_title_yields_absent() {
    let t = TitleText::new(RED).unwrap();
    assert!(t.pixmap().is_none());
}

#[test]
fn empty_title_yields_absent_for_all_colors_and_scales() {
    let mut t = TitleText::new(RED).unwrap();
    t.update_color(GREEN);
    t.update_scale(2);
    t.update_title("");
    assert!(t.pixmap().is_none());
    t.update_title("x");
    assert!(t.pixmap().is_some());
    t.update_title("");
    assert!(t.pixmap().is_none());
}

#[test]
fn single_character_title_renders_red_pixels() {
    let mut t = TitleText::new(RED).unwrap();
    t.update_title("A");
    let p = t.pixmap().expect("title 'A' should render");
    assert!(p.width() >= 5);
    let (line_height, _) = own_metrics(1.0);
    assert_eq!(p.height(), line_height as u32);
    // Some pixel must carry coverage, tinted red: positive alpha and red,
    // and a zero blue channel (the base color has no green; the bitmap's
    // blue slot holds the premultiplied green channel).
    let data = p.data();
    let mut found = false;
    let mut partial = false;
    for px in data.chunks(4) {
        if px[3] > 0 {
            assert!(px[0] > 0, "red must scale with coverage");
            assert_eq!(px[2], 0, "green of the base color is zero");
            // For an opaque pure-red base the premultiplied red channel
            // equals the coverage, which is also the alpha channel.
            assert!(
                (px[0] as i32 - px[3] as i32).abs() <= 1,
                "premultiplied red must track the coverage"
            );
            if px[3] < 250 {
                partial = true;
            }
            found = true;
        }
    }
    assert!(found, "at least one pixel must have non-zero alpha");
    assert!(partial, "an antialiased glyph has partially covered pixels");
}

#[test]
fn width_is_sum_of_slot_widths() {
    let mut t = TitleText::new(RED).unwrap();
    t.update_title("A");
    let w1 = t.pixmap().unwrap().width();
    let slots = own_slots("A", 1.0);
    assert_eq!(w1 as i32, slots[0]);

    t.update_title("AB");
    let w2 = t.pixmap().unwrap().width();
    let slots = own_slots("AB", 1.0);
    assert_eq!(w2 as i32, slots[0] + slots[1]);
}

#[test]
fn narrow_glyph_reserves_five_pixels() {
    // A period is narrower than five device pixels at ten points, so its
    // slot is the five-pixel floor.
    let slots = own_slots(".", 1.0);
    if slots[0] == 5 {
        let mut t = TitleText::new(RED).unwrap();
        t.update_title(".");
        assert_eq!(t.pixmap().unwrap().width(), 5);
    }
}

#[test]
fn height_is_rounded_line_height_independent_of_content() {
    let (line_height, _) = own_metrics(1.0);
    let mut t = TitleText::new(RED).unwrap();
    t.update_title("A");
    assert_eq!(t.pixmap().unwrap().height(), line_height as u32);
    t.update_title("some longer title");
    assert_eq!(t.pixmap().unwrap().height(), line_height as u32);
    t.update_title("gjpq");
    assert_eq!(t.pixmap().unwrap().height(), line_height as u32);
}

#[test]
fn color_only_change_keeps_dimensions_and_alters_pixels() {
    let mut t = TitleText::new(RED).unwrap();
    t.update_title("A");
    let (w, h, before) = {
        let p = t.pixmap().unwrap();
        (p.width(), p.height(), p.data().to_vec())
    };
    t.update_color(GREEN);
    let p = t.pixmap().unwrap();
    assert_eq!(p.width(), w);
    assert_eq!(p.height(), h);
    assert_ne!(p.data(), before.as_slice(), "pixels must change with the color");
}

#[test]
fn equal_title_is_a_noop() {
    let mut t = TitleText::new(RED).unwrap();
    t.update_title("A");
    let before = t.pixmap().unwrap().data().to_vec();
    t.update_title("A");
    assert_eq!(t.pixmap().unwrap().data(), before.as_slice());
}

#[test]
fn equal_color_is_a_noop() {
    let mut t = TitleText::new(RED).unwrap();
    t.update_title("A");
    let before = t.pixmap().unwrap().data().to_vec();
    t.update_color(RED);
    assert_eq!(t.pixmap().unwrap().data(), before.as_slice());
}

#[test]
fn equal_scale_is_a_noop() {
    let mut t = TitleText::new(RED).unwrap();
    t.update_scale(2);
    t.update_title("A");
    let before = t.pixmap().unwrap().data().to_vec();
    t.update_scale(2);
    assert_eq!(t.pixmap().unwrap().data(), before.as_slice());
}

#[test]
fn missing_glyphs_yield_absent_not_error() {
    // Plane-15 private-use characters have no glyph in the fonts this
    // machine installs, so every lookup fails and the cache clears.
    let mut t = TitleText::new(RED).unwrap();
    t.update_title("\u{F0000}\u{F0001}");
    assert!(t.pixmap().is_none());
}

#[test]
fn scale_change_changes_metrics_and_height() {
    let mut t = TitleText::new(RED).unwrap();
    t.update_title("AB");
    let h1 = t.pixmap().unwrap().height();
    t.update_scale(2);
    let p = t.pixmap().expect("title must stay rendered after a scale change");
    let (line_height_scaled, _) = own_metrics(2.0);
    assert_eq!(p.height(), line_height_scaled as u32);
    assert_ne!(p.height(), h1, "doubling the scale must change the height");
    let slots = own_slots("AB", 2.0);
    assert_eq!(p.width() as i32, slots[0] + slots[1]);
}
