use spongify::geometry::SizeDim;
use spongify::glyph::GlyphRasterKey;
use spongify::layout::{
    get_filling_glyphs, FontSize, GlyphPlacement, HorizontalAlign, LaidOutGlyph, LayoutSettings,
    TextLayout, VerticalAlign, WrapStyle,
};
use std::cell::RefCell;

fn glyph(index: u16, x: i32, y: i32, control: bool) -> LaidOutGlyph {
    LaidOutGlyph {
        placement: GlyphPlacement {
            key: GlyphRasterKey { glyph_index: index, px_bits: 0, font_hash: 0 },
            x,
            y,
        },
        control,
    }
}

#[test]
fn caption_settings_centre_and_wrap_words() {
    let settings = LayoutSettings::caption(SizeDim(640, 120));
    assert_eq!(
        settings,
        LayoutSettings {
            max_width: 640,
            max_height: 120,
            horizontal_align: HorizontalAlign::Center,
            vertical_align: VerticalAlign::Top,
            wrap_style: WrapStyle::Word,
            wrap_hard_breaks: true,
        }
    );
}

#[test]
fn layout_is_asked_once_with_the_caption_settings() {
    let asked: RefCell<Vec<(LayoutSettings, FontSize, String)>> = RefCell::new(Vec::new());
    let layout = |settings: LayoutSettings, size: FontSize, text: &str| {
        asked.borrow_mut().push((settings, size, text.to_string()));
        TextLayout { glyphs: Vec::new(), height: 0 }
    };
    let size = FontSize { numerator: 481, denominator: 8 };
    let filled = get_filling_glyphs(SizeDim(30, 20), &layout, size, "taco\ntruck");
    assert!(filled.placements.is_empty());
    assert_eq!(filled.height, 0);
    assert_eq!(
        *asked.borrow(),
        vec![(LayoutSettings::caption(SizeDim(30, 20)), size, String::from("taco\ntruck"))]
    );
}

#[test]
fn control_characters_are_left_out_and_the_order_is_kept() {
    let layout = |_settings: LayoutSettings, _size: FontSize, _text: &str| TextLayout {
        glyphs: vec![
            glyph(7, 0, 0, true),
            glyph(1, 1, 2, false),
            glyph(2, 3, 4, false),
            glyph(8, 5, 6, true),
            glyph(8, 7, 8, true),
            glyph(3, -9, -10, false),
            glyph(9, 0, 0, true),
        ],
        height: 37,
    };
    let filled =
        get_filling_glyphs(SizeDim(30, 20), &layout, FontSize { numerator: 1, denominator: 8 }, "");
    assert_eq!(filled.height, 37);
    assert_eq!(
        filled.placements,
        vec![
            glyph(1, 1, 2, false).placement,
            glyph(2, 3, 4, false).placement,
            glyph(3, -9, -10, false).placement,
        ]
    );
}

#[test]
fn text_of_control_characters_only_shows_nothing() {
    let layout = |_settings: LayoutSettings, _size: FontSize, _text: &str| TextLayout {
        glyphs: vec![glyph(7, 0, 0, true), glyph(7, 0, 12, true)],
        height: 24,
    };
    let filled = get_filling_glyphs(
        SizeDim(0, 0),
        &layout,
        FontSize { numerator: 0, denominator: 8 },
        "\n\n",
    );
    assert!(filled.placements.is_empty());
    assert_eq!(filled.height, 24);
}
