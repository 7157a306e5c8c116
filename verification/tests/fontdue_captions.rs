//! Captions laid out and drawn by fontdue, in a font that is made here: every letter from
//! `a` to `z` is the same upright box, and the space is empty.

use fontdue::layout::{self, CoordinateSystem, Layout};
use fontdue::{Font, FontSettings};
use spongify::canvas::RgbaCanvas;
use spongify::geometry::SizeDim;
use spongify::glyph::{GlyphRasterKey, Metrics, RasterizedGlyph};
use spongify::imagemacro::{caption_region, font_size, generate_image};
use spongify::layout::{
    get_filling_glyphs, FontSize, GlyphPlacement, HorizontalAlign, LaidOutGlyph, LayoutSettings,
    TextLayout, VerticalAlign, WrapStyle,
};
use std::cell::Cell;

fn be16(out: &mut Vec<u8>, value: u16) {
    out.extend_from_slice(&value.to_be_bytes());
}

fn be16s(out: &mut Vec<u8>, value: i16) {
    out.extend_from_slice(&value.to_be_bytes());
}

fn be32(out: &mut Vec<u8>, value: u32) {
    out.extend_from_slice(&value.to_be_bytes());
}

/// A box from (100, 0) to (500, 700), in a font of 1000 units to the em.
fn box_outline() -> Vec<u8> {
    let mut glyph = Vec::new();
    be16s(&mut glyph, 1); // one contour
    for bound in [100, 0, 500, 700] {
        be16s(&mut glyph, bound);
    }
    be16(&mut glyph, 3); // the contour ends with the fourth point
    be16(&mut glyph, 0); // no instructions
    glyph.extend_from_slice(&[1, 1, 1, 1]); // four points on the curve
    for dx in [100, 0, 400, 0] {
        be16s(&mut glyph, dx);
    }
    for dy in [0, 700, 0, -700] {
        be16s(&mut glyph, dy);
    }
    glyph
}

/// A TrueType font with an empty glyph 0, an empty space (glyph 1, 500 units wide) and the
/// letters `a` to `z` (glyphs 2 to 27, each the box, 600 units wide). The line is 800
/// units above the baseline and 200 below.
fn box_font() -> Vec<u8> {
    let letters: u16 = 26;
    let glyphs: u16 = letters + 2;

    let mut glyf = Vec::new();
    let mut loca = Vec::new();
    be32(&mut loca, 0);
    be32(&mut loca, 0);
    be32(&mut loca, 0);
    for _ in 0..letters {
        glyf.extend_from_slice(&box_outline());
        be32(&mut loca, glyf.len() as u32);
    }

    let mut cmap = Vec::new();
    be16(&mut cmap, 0); // version
    be16(&mut cmap, 1); // one subtable
    be16(&mut cmap, 3); // Windows
    be16(&mut cmap, 1); // Unicode, basic plane
    be32(&mut cmap, 12);
    be16(&mut cmap, 4); // format
    be16(&mut cmap, 40); // length
    be16(&mut cmap, 0); // language
    be16(&mut cmap, 6); // three segments, times two
    be16(&mut cmap, 4);
    be16(&mut cmap, 1);
    be16(&mut cmap, 2);
    for end in [0x20, 0x7a, 0xffff] {
        be16(&mut cmap, end);
    }
    be16(&mut cmap, 0);
    for start in [0x20, 0x61, 0xffff] {
        be16(&mut cmap, start);
    }
    for delta in [1 - 0x20, 2 - 0x61, 1] {
        be16s(&mut cmap, delta);
    }
    for _ in 0..3 {
        be16(&mut cmap, 0);
    }

    let mut head = Vec::new();
    be32(&mut head, 0x0001_0000); // version
    be32(&mut head, 0x0001_0000); // revision
    be32(&mut head, 0); // checksum adjustment
    be32(&mut head, 0x5f0f_3cf5); // magic number
    be16(&mut head, 0); // flags
    be16(&mut head, 1000); // units to the em
    head.extend_from_slice(&[0; 16]); // created, modified
    for bound in [0, 0, 500, 700] {
        be16s(&mut head, bound);
    }
    be16(&mut head, 0); // style
    be16(&mut head, 8); // smallest readable size
    be16s(&mut head, 2); // direction hint
    be16s(&mut head, 1); // long offsets in `loca`
    be16s(&mut head, 0); // glyph data format

    let mut hhea = Vec::new();
    be32(&mut hhea, 0x0001_0000);
    be16s(&mut hhea, 800); // ascender
    be16s(&mut hhea, -200); // descender
    be16s(&mut hhea, 0); // line gap
    be16(&mut hhea, 600); // largest advance
    hhea.extend_from_slice(&[0; 22]);
    be16(&mut hhea, glyphs); // number of metrics

    let mut hmtx = Vec::new();
    for (advance, bearing) in [(500, 0), (500, 0)] {
        be16(&mut hmtx, advance);
        be16s(&mut hmtx, bearing);
    }
    for _ in 0..letters {
        be16(&mut hmtx, 600);
        be16s(&mut hmtx, 100);
    }

    let mut maxp = Vec::new();
    be32(&mut maxp, 0x0001_0000);
    be16(&mut maxp, glyphs);
    maxp.extend_from_slice(&[0; 26]);

    let tables: [(&[u8; 4], Vec<u8>); 7] = [
        (b"cmap", cmap),
        (b"glyf", glyf),
        (b"head", head),
        (b"hhea", hhea),
        (b"hmtx", hmtx),
        (b"loca", loca),
        (b"maxp", maxp),
    ];
    let mut font = Vec::new();
    be32(&mut font, 0x0001_0000);
    be16(&mut font, tables.len() as u16);
    be16(&mut font, 64);
    be16(&mut font, 2);
    be16(&mut font, 48);
    let mut offset = 12 + 16 * tables.len();
    for (tag, table) in &tables {
        font.extend_from_slice(&tag[..]);
        be32(&mut font, 0);
        be32(&mut font, offset as u32);
        be32(&mut font, table.len() as u32);
        offset += (table.len() + 3) / 4 * 4;
    }
    for (_, table) in &tables {
        font.extend_from_slice(table);
        while font.len() % 4 != 0 {
            font.push(0);
        }
    }
    font
}

fn font() -> Font {
    Font::from_bytes(box_font(), FontSettings::default()).expect("the font made here is read")
}

fn lay_out(font: &Font, settings: LayoutSettings, size: FontSize, text: &str) -> TextLayout {
    let mut laid: Layout = Layout::new(CoordinateSystem::PositiveYDown);
    laid.reset(&layout::LayoutSettings {
        max_height: Some(settings.max_height as f32),
        max_width: Some(settings.max_width as f32),
        horizontal_align: match settings.horizontal_align {
            HorizontalAlign::Left => layout::HorizontalAlign::Left,
            HorizontalAlign::Center => layout::HorizontalAlign::Center,
            HorizontalAlign::Right => layout::HorizontalAlign::Right,
        },
        vertical_align: match settings.vertical_align {
            VerticalAlign::Top => layout::VerticalAlign::Top,
            VerticalAlign::Middle => layout::VerticalAlign::Middle,
            VerticalAlign::Bottom => layout::VerticalAlign::Bottom,
        },
        wrap_style: match settings.wrap_style {
            WrapStyle::Word => layout::WrapStyle::Word,
            WrapStyle::Letter => layout::WrapStyle::Letter,
        },
        wrap_hard_breaks: settings.wrap_hard_breaks,
        ..Default::default()
    });
    laid.append(
        &[font],
        &layout::TextStyle {
            text,
            px: size.numerator as f32 / size.denominator as f32,
            font_index: 0,
            user_data: (),
        },
    );
    TextLayout {
        glyphs: laid
            .glyphs()
            .iter()
            .map(|glyph| LaidOutGlyph {
                placement: GlyphPlacement {
                    key: GlyphRasterKey {
                        glyph_index: glyph.key.glyph_index,
                        px_bits: glyph.key.px.to_bits(),
                        font_hash: glyph.key.font_hash,
                    },
                    x: glyph.x as i32,
                    y: glyph.y as i32,
                },
                control: glyph.char_data.is_control(),
            })
            .collect(),
        height: laid.height() as u32,
    }
}

fn rasterize(font: &Font, key: GlyphRasterKey) -> RasterizedGlyph {
    let (metrics, coverage) = font.rasterize_config(layout::GlyphRasterConfig {
        glyph_index: key.glyph_index,
        px: f32::from_bits(key.px_bits),
        font_hash: key.font_hash,
    });
    RasterizedGlyph::new(
        Metrics { width: metrics.width, height: metrics.height, bearing_x: 0, bearing_y: 0 },
        coverage,
    )
    .unwrap()
}

/// A picture 100 wide and 80 high, black and opaque: its font size is 10 pixels, at which
/// a letter is 6 pixels wide with a box of 4 by 7 in it, a space is 5 pixels wide and a
/// line is 10 pixels high.
fn black() -> RgbaCanvas {
    RgbaCanvas::from_raw(100, 80, [0, 0, 0, 255].repeat(100 * 80)).unwrap()
}

/// The rows and the columns of the picture in which some pixel is not black.
fn lit(raw: &[u8], width: usize) -> (Vec<usize>, Vec<usize>) {
    let mut rows = Vec::new();
    let mut columns = Vec::new();
    for (i, pixel) in raw.chunks(4).enumerate() {
        if pixel[0] != 0 {
            if !rows.contains(&(i / width)) {
                rows.push(i / width);
            }
            if !columns.contains(&(i % width)) {
                columns.push(i % width);
            }
        }
    }
    columns.sort();
    (rows, columns)
}

#[test]
fn two_words_in_ample_room_stand_on_one_line() {
    let font = font();
    let region = SizeDim(100, 20);
    let filled = get_filling_glyphs(
        region,
        &|settings: LayoutSettings, size: FontSize, text: &str| {
            lay_out(&font, settings, size, text)
        },
        font_size(80),
        "taco truck",
    );
    assert_eq!(filled.height, 10);
    assert_eq!(filled.placements.len(), 10);
    // One line: every letter at the same height, and the space, whose picture is empty,
    // on the baseline.
    let rows: Vec<i32> = filled.placements.iter().map(|p| p.y).collect();
    assert_eq!(rows, vec![1, 1, 1, 1, 8, 1, 1, 1, 1, 1]);
    // Two words, each letter 6 pixels after the one before, with a space of 5 between
    // them; the line is 59 pixels long and stands in the middle of the 100.
    let columns: Vec<i32> = filled.placements.iter().map(|p| p.x).collect();
    assert_eq!(columns[..4], [21, 27, 33, 39]);
    assert_eq!(columns[5..], [50, 56, 62, 68, 74]);
    // The same letter is the same glyph.
    assert_eq!(filled.placements[0].key, filled.placements[5].key);
    assert_eq!(filled.placements[2].key, filled.placements[8].key);
    assert_ne!(filled.placements[0].key, filled.placements[1].key);
    assert_eq!(filled.placements[0].key.px_bits, 10.0f32.to_bits());
}

#[test]
fn no_word_is_broken_where_the_widest_word_fits() {
    let font = font();
    // At 10 pixels `truck` is 30 pixels long: the widest word.
    for width in [30, 31, 40, 58] {
        let filled = get_filling_glyphs(
            SizeDim(width, 20),
            &|settings: LayoutSettings, size: FontSize, text: &str| {
                lay_out(&font, settings, size, text)
            },
            font_size(80),
            "taco truck",
        );
        assert_eq!(filled.height, 20);
        let rows: Vec<i32> = filled.placements.iter().map(|p| p.y).collect();
        assert_eq!(rows[..4], [1, 1, 1, 1]);
        assert_eq!(rows[5..], [11, 11, 11, 11, 11]);
    }
}

#[test]
fn line_breaks_in_the_text_end_the_line_and_show_nothing() {
    let font = font();
    let filled = get_filling_glyphs(
        SizeDim(100, 20),
        &|settings: LayoutSettings, size: FontSize, text: &str| {
            lay_out(&font, settings, size, text)
        },
        font_size(80),
        "ab\ncd",
    );
    assert_eq!(filled.height, 20);
    let places: Vec<(i32, i32)> = filled.placements.iter().map(|p| (p.x, p.y)).collect();
    assert_eq!(places, vec![(45, 1), (51, 1), (45, 11), (51, 11)]);
}

#[test]
fn top_caption_is_drawn_under_the_top_edge() {
    let font = font();
    let out = generate_image(
        black(),
        Some("taco truck"),
        None,
        &|settings: LayoutSettings, size: FontSize, text: &str| {
            lay_out(&font, settings, size, text)
        },
        |key: GlyphRasterKey| rasterize(&font, key),
    );
    let raw = out.into_raw();
    let (rows, columns) = lit(&raw, 100);
    assert_eq!(rows, (1..8).collect::<Vec<usize>>());
    // Ten boxes of four columns each, but for the space, which has none.
    let mut expected = Vec::new();
    for start in [21, 27, 33, 39, 50, 56, 62, 68, 74] {
        expected.extend(start..start + 4);
    }
    assert_eq!(columns, expected);
    // A box is covered fully: white, and opaque as the picture was.
    assert_eq!(raw[(3 * 100 + 22) * 4..(3 * 100 + 22) * 4 + 4], [255, 255, 255, 255]);
}

#[test]
fn bottom_caption_ends_at_the_bottom_edge_however_many_lines_it_has() {
    let font = font();
    let layout =
        |settings: LayoutSettings, size: FontSize, text: &str| lay_out(&font, settings, size, text);
    // One line, 10 pixels high: it starts in row 70, and its boxes in the row after.
    let one = generate_image(black(), None, Some("taco truck"), &layout, |key: GlyphRasterKey| {
        rasterize(&font, key)
    })
    .into_raw();
    assert_eq!(lit(&one, 100).0, (71..78).collect::<Vec<usize>>());
    // Two lines, 20 pixels high: they start in row 60.
    let two = generate_image(
        black(),
        None,
        Some("taco truck and a taco truck"),
        &layout,
        |key: GlyphRasterKey| rasterize(&font, key),
    )
    .into_raw();
    let mut expected: Vec<usize> = (61..68).collect();
    expected.extend(71..78);
    assert_eq!(lit(&two, 100).0, expected);
}

#[test]
fn glyphs_of_both_captions_are_drawn_once() {
    let font = font();
    let drawn = Cell::new(0);
    generate_image(
        black(),
        Some("taco truck"),
        Some("truck taco"),
        &|settings: LayoutSettings, size: FontSize, text: &str| {
            lay_out(&font, settings, size, text)
        },
        |key: GlyphRasterKey| {
            drawn.set(drawn.get() + 1);
            rasterize(&font, key)
        },
    );
    // t, a, c, o, the space, r, u and k.
    assert_eq!(drawn.get(), 8);
}

#[test]
fn the_region_and_the_font_size_are_those_of_the_picture() {
    let region = caption_region(SizeDim(100, 80));
    assert_eq!((region.width(), region.height()), (100, 20));
    assert_eq!(font_size(80), FontSize { numerator: 80, denominator: 8 });
}
