//! Image macros: a picture with a caption at its top, at its bottom, or both.

use crate::canvas::{lemma_same_pixels_same_picture, CanvasView, Color, RgbaCanvas};
use crate::compose::{is_merge, merge_image};
use crate::geometry::{SizeDim, Vec2};
use crate::glyph::{
    draws_one_picture, lemma_one_picture_for_a_key, made_by, GlyphCache, GlyphRasterKey,
    GlyphTable, RasterizedGlyph,
};
use crate::layout::{
    get_filling_glyphs, lays_out, visible, FontSize, LayoutSettings, TextLayout,
};
use crate::mask::MaskView;
use crate::render::{
    extends, gains, has_all, lemma_painted_by_pictures, lemma_shown_by_pictures, render_text,
    shows,
};
use vstd::prelude::*;

verus! {

/// The number of glyphs that the store of one macro has room for from the start.
pub const GLYPH_CAPACITY: usize = 1024;

/// The font size for a picture of the given height: an eighth of the height.
pub open spec fn spec_font_size(image_height: u32) -> FontSize {
    FontSize { numerator: image_height, denominator: 8 }
}

/// The font size for a picture of the given height: an eighth of the height.
#[verifier::when_used_as_spec(spec_font_size)]
pub fn font_size(image_height: u32) -> (size: FontSize)
    ensures
        size == spec_font_size(image_height),
{
    FontSize { numerator: image_height, denominator: 8 }
}

/// The region of a caption on a picture of the given size: as wide as the picture, a
/// quarter as high.
pub open spec fn spec_caption_region(image: SizeDim) -> SizeDim {
    SizeDim(image.0, image.1 / 4)
}

/// The region of a caption on a picture of the given size.
#[verifier::when_used_as_spec(spec_caption_region)]
pub fn caption_region(image: SizeDim) -> (region: SizeDim)
    ensures
        region == spec_caption_region(image),
{
    image.map_height(|h: u32| -> (quarter: u32)
        ensures
            quarter == h / 4,
        { h / 4 })
}

/// Where the mask of a caption is laid on a picture `image_height` high: a top caption at
/// the picture's top left corner; a bottom caption, whose text is `text_height` high, so
/// far up from the bottom that the text ends at the picture's bottom edge.
pub open spec fn spec_caption_position(bottom: bool, image_height: u32, text_height: u32) -> Vec2<
    i64,
> {
    if bottom {
        Vec2(0, (image_height - text_height) as i64)
    } else {
        Vec2(0, 0)
    }
}

/// Where the mask of a caption is laid on a picture.
#[verifier::when_used_as_spec(spec_caption_position)]
pub fn caption_position(bottom: bool, image_height: u32, text_height: u32) -> (position: Vec2<i64>)
    ensures
        position == spec_caption_position(bottom, image_height, text_height),
        bottom ==> position.1 + text_height == image_height,
{
    if bottom {
        Vec2::new(0, image_height as i64 - text_height as i64)
    } else {
        Vec2::new(0, 0)
    }
}

/// Whether `after` is the picture `before` with `text` on it as a caption, at the top or
/// at the bottom, in white: for some answer of `layout` to the text as a caption in the
/// caption's region, at the picture's font size, the glyphs of the answer that are to be
/// shown have their pictures in `table`, and the mask that shows them with these pictures
/// is laid on the picture at the caption's position.
pub open spec fn is_captioned<L: Fn(LayoutSettings, FontSize, &str) -> TextLayout>(
    after: CanvasView,
    before: CanvasView,
    layout: L,
    text: &str,
    bottom: bool,
    table: GlyphTable,
) -> bool {
    let region = caption_region(SizeDim(before.width as u32, before.height as u32));
    exists|laid: TextLayout, mask: MaskView|
        #![trigger lays_out(layout, region, font_size(before.height as u32), text, laid), shows(mask, region, visible(laid.glyphs@), table)]
        {
            let position = caption_position(bottom, before.height as u32, laid.height);
            &&& lays_out(layout, region, font_size(before.height as u32), text, laid)
            &&& has_all(table, visible(laid.glyphs@))
            &&& shows(mask, region, visible(laid.glyphs@), table)
            &&& is_merge(after, before, mask, Color::white(), position.0 as int, position.1 as int)
        }
}

/// A caption made with the pictures of a table is a caption made with the pictures of any
/// table that has these pictures too.
pub proof fn lemma_captioned_by_pictures<L: Fn(LayoutSettings, FontSize, &str) -> TextLayout>(
    after: CanvasView,
    before: CanvasView,
    layout: L,
    text: &str,
    bottom: bool,
    table: GlyphTable,
    other: GlyphTable,
)
    requires
        is_captioned(after, before, layout, text, bottom, table),
        extends(other, table),
    ensures
        is_captioned(after, before, layout, text, bottom, other),
{
    let region = caption_region(SizeDim(before.width as u32, before.height as u32));
    let size = font_size(before.height as u32);
    let (laid, mask) = choose|laid: TextLayout, mask: MaskView|
        #![trigger lays_out(layout, region, size, text, laid), shows(mask, region, visible(laid.glyphs@), table)]
        {
            let position = caption_position(bottom, before.height as u32, laid.height);
            &&& lays_out(layout, region, size, text, laid)
            &&& has_all(table, visible(laid.glyphs@))
            &&& shows(mask, region, visible(laid.glyphs@), table)
            &&& is_merge(after, before, mask, Color::white(), position.0 as int, position.1 as int)
        };
    lemma_shown_by_pictures(mask, region, visible(laid.glyphs@), table, other);
    assert(lays_out(layout, region, size, text, laid));
    assert(shows(mask, region, visible(laid.glyphs@), other));
}

/// Puts `text` on the picture as a caption, at the top or at the bottom, with the pictures
/// of glyphs that `cache` has, which `rasterizer` makes where they are not kept yet.
pub fn add_caption<
    L: Fn(LayoutSettings, FontSize, &str) -> TextLayout,
    R: Fn(GlyphRasterKey) -> RasterizedGlyph,
>(
    image: &mut RgbaCanvas,
    cache: &mut GlyphCache,
    rasterizer: &R,
    layout: &L,
    text: &str,
    bottom: bool,
)
    requires
        forall|settings: LayoutSettings, size: FontSize, any: &str|
            call_requires(*layout, (settings, size, any)),
        forall|key: GlyphRasterKey| call_requires(*rasterizer, (key,)),
    ensures
        extends(final(cache)@, old(cache)@),
        made_by(old(cache)@, *rasterizer) ==> made_by(final(cache)@, *rasterizer),
        is_captioned(final(image)@, old(image)@, *layout, text, bottom, final(cache)@),
{
    let width = image.width();
    let height = image.height();
    let region = caption_region(SizeDim(width, height));
    let size = font_size(height);
    assert(region.spec_area() <= usize::MAX) by (nonlinear_arith)
        requires
            region.0 == width,
            region.1 == height / 4,
            4 * (width * height) <= usize::MAX,
    ;
    let filled = get_filling_glyphs(region, layout, size, text);
    let mask = render_text(cache, rasterizer, filled.placements.as_slice(), region);
    let position = caption_position(bottom, height, filled.height);
    merge_image(image, &mask, Color::white(), position);
    proof {
        let laid = choose|laid: TextLayout| #[trigger]
            lays_out(*layout, region, size, text, laid) && filled.placements@ == visible(
                laid.glyphs@,
            ) && filled.height == laid.height;
        assert(old(image)@.width as u32 == width && old(image)@.height as u32 == height);
        assert(lays_out(*layout, region, size, text, laid));
        assert(shows(mask@, region, visible(laid.glyphs@), cache@));
    }
}

/// Whether `out` is the macro of the picture `base` with the given captions: the picture
/// itself where no caption is given; else, with pictures of glyphs such as `rasterizer`
/// gives, one for each glyph whichever caption it stands in, the picture with the one
/// caption that is given on it, or, where both are given, the picture with the top caption
/// on it, and on that the bottom caption.
pub open spec fn is_macro<
    L: Fn(LayoutSettings, FontSize, &str) -> TextLayout,
    R: Fn(GlyphRasterKey) -> RasterizedGlyph,
>(
    out: CanvasView,
    base: CanvasView,
    top_text: Option<&str>,
    bottom_text: Option<&str>,
    layout: L,
    rasterizer: R,
) -> bool {
    match (top_text, bottom_text) {
        (None, None) => out == base,
        (Some(top), None) => exists|table: GlyphTable|
            #![trigger made_by(table, rasterizer)]
            made_by(table, rasterizer) && is_captioned(out, base, layout, top, false, table),
        (None, Some(bottom)) => exists|table: GlyphTable|
            #![trigger made_by(table, rasterizer)]
            made_by(table, rasterizer) && is_captioned(out, base, layout, bottom, true, table),
        (Some(top), Some(bottom)) => exists|table: GlyphTable, middle: CanvasView|
            #![trigger made_by(table, rasterizer), is_captioned(middle, base, layout, top, false, table)]
            made_by(table, rasterizer) && is_captioned(middle, base, layout, top, false, table)
                && is_captioned(out, middle, layout, bottom, true, table),
    }
}

/// Whether `layout` gives for each request one answer only.
pub open spec fn lays_out_one_way<L: Fn(LayoutSettings, FontSize, &str) -> TextLayout>(
    layout: L,
) -> bool {
    forall|settings: LayoutSettings, size: FontSize, text: &str, one: TextLayout, other: TextLayout|
        #![trigger call_ensures(layout, (settings, size, text), one), call_ensures(layout, (settings, size, text), other)]
        call_ensures(layout, (settings, size, text), one) && call_ensures(
            layout,
            (settings, size, text),
            other,
        ) ==> one.glyphs@ == other.glyphs@ && one.height == other.height
}

/// With a layout and a rasterizer that answer each request in one way, a caption on a
/// picture is one picture, sample for sample, whatever else the tables hold.
pub proof fn lemma_caption_is_determined<
    L: Fn(LayoutSettings, FontSize, &str) -> TextLayout,
    R: Fn(GlyphRasterKey) -> RasterizedGlyph,
>(
    one: CanvasView,
    other: CanvasView,
    before: CanvasView,
    layout: L,
    rasterizer: R,
    text: &str,
    bottom: bool,
    table: GlyphTable,
    table2: GlyphTable,
)
    requires
        lays_out_one_way(layout),
        draws_one_picture(rasterizer),
        made_by(table, rasterizer),
        made_by(table2, rasterizer),
        is_captioned(one, before, layout, text, bottom, table),
        is_captioned(other, before, layout, text, bottom, table2),
    ensures
        one == other,
{
    let region = caption_region(SizeDim(before.width as u32, before.height as u32));
    let size = font_size(before.height as u32);
    let (laid, mask) = choose|laid: TextLayout, mask: MaskView|
        #![trigger lays_out(layout, region, size, text, laid), shows(mask, region, visible(laid.glyphs@), table)]
        {
            let position = caption_position(bottom, before.height as u32, laid.height);
            &&& lays_out(layout, region, size, text, laid)
            &&& has_all(table, visible(laid.glyphs@))
            &&& shows(mask, region, visible(laid.glyphs@), table)
            &&& is_merge(one, before, mask, Color::white(), position.0 as int, position.1 as int)
        };
    let (laid2, mask2) = choose|laid: TextLayout, mask: MaskView|
        #![trigger lays_out(layout, region, size, text, laid), shows(mask, region, visible(laid.glyphs@), table2)]
        {
            let position = caption_position(bottom, before.height as u32, laid.height);
            &&& lays_out(layout, region, size, text, laid)
            &&& has_all(table2, visible(laid.glyphs@))
            &&& shows(mask, region, visible(laid.glyphs@), table2)
            &&& is_merge(other, before, mask, Color::white(), position.0 as int, position.1 as int)
        };
    let placements = visible(laid.glyphs@);
    assert(laid.glyphs@ == laid2.glyphs@ && laid.height == laid2.height);
    assert forall|i: int| 0 <= i < placements.len() implies table[#[trigger] placements[i].key]
        == table2[placements[i].key] by {
        let key = placements[i].key;
        assert(table.contains_key(key));
        assert(table2.contains_key(key));
        lemma_one_picture_for_a_key(rasterizer, key, table[key], table2[key]);
    }
    let position = caption_position(bottom, before.height as u32, laid.height);
    assert forall|x: int, y: int| one.contains(x, y) implies #[trigger] one.at(x, y) == other.at(
        x,
        y,
    ) by {
        let mx = x - position.0;
        let my = y - position.1;
        if mask.contains(mx, my) {
            lemma_painted_by_pictures(0, placements, table, table2, mx, my);
            assert(mask.at(mx, my) == mask2.at(mx, my));
        }
    }
    lemma_same_pixels_same_picture(one, other);
}

/// Making a macro twice of the same picture with the same captions, by a layout and a
/// rasterizer that answer each request in one way, gives the same picture twice, sample
/// for sample.
pub proof fn lemma_macro_is_determined<
    L: Fn(LayoutSettings, FontSize, &str) -> TextLayout,
    R: Fn(GlyphRasterKey) -> RasterizedGlyph,
>(
    one: CanvasView,
    other: CanvasView,
    base: CanvasView,
    top_text: Option<&str>,
    bottom_text: Option<&str>,
    layout: L,
    rasterizer: R,
)
    requires
        lays_out_one_way(layout),
        draws_one_picture(rasterizer),
        is_macro(one, base, top_text, bottom_text, layout, rasterizer),
        is_macro(other, base, top_text, bottom_text, layout, rasterizer),
    ensures
        one == other,
{
    match (top_text, bottom_text) {
        (None, None) => {},
        (Some(top), None) => {
            let table = choose|table: GlyphTable|
                #![trigger made_by(table, rasterizer)]
                made_by(table, rasterizer) && is_captioned(one, base, layout, top, false, table);
            let table2 = choose|table: GlyphTable|
                #![trigger made_by(table, rasterizer)]
                made_by(table, rasterizer) && is_captioned(other, base, layout, top, false, table);
            lemma_caption_is_determined(
                one,
                other,
                base,
                layout,
                rasterizer,
                top,
                false,
                table,
                table2,
            );
        },
        (None, Some(bottom)) => {
            let table = choose|table: GlyphTable|
                #![trigger made_by(table, rasterizer)]
                made_by(table, rasterizer) && is_captioned(one, base, layout, bottom, true, table);
            let table2 = choose|table: GlyphTable|
                #![trigger made_by(table, rasterizer)]
                made_by(table, rasterizer) && is_captioned(
                    other,
                    base,
                    layout,
                    bottom,
                    true,
                    table,
                );
            lemma_caption_is_determined(
                one,
                other,
                base,
                layout,
                rasterizer,
                bottom,
                true,
                table,
                table2,
            );
        },
        (Some(top), Some(bottom)) => {
            let (table, middle) = choose|table: GlyphTable, middle: CanvasView|
                #![trigger made_by(table, rasterizer), is_captioned(middle, base, layout, top, false, table)]
                made_by(table, rasterizer) && is_captioned(middle, base, layout, top, false, table)
                    && is_captioned(one, middle, layout, bottom, true, table);
            let (table2, middle2) = choose|table: GlyphTable, middle: CanvasView|
                #![trigger made_by(table, rasterizer), is_captioned(middle, base, layout, top, false, table)]
                made_by(table, rasterizer) && is_captioned(middle, base, layout, top, false, table)
                    && is_captioned(other, middle, layout, bottom, true, table);
            lemma_caption_is_determined(
                middle,
                middle2,
                base,
                layout,
                rasterizer,
                top,
                false,
                table,
                table2,
            );
            lemma_caption_is_determined(
                one,
                other,
                middle,
                layout,
                rasterizer,
                bottom,
                true,
                table,
                table2,
            );
        },
    }
}

/// The macro of the picture `base` with the given captions, where there is one only.
pub open spec fn macro_by<
    L: Fn(LayoutSettings, FontSize, &str) -> TextLayout,
    R: Fn(GlyphRasterKey) -> RasterizedGlyph,
>(
    base: CanvasView,
    top_text: Option<&str>,
    bottom_text: Option<&str>,
    layout: L,
    rasterizer: R,
) -> CanvasView {
    choose|out: CanvasView| is_macro(out, base, top_text, bottom_text, layout, rasterizer)
}

/// Makes the macro of the picture `image`: the captions that are given are laid out by
/// `layout`, their glyphs are drawn by `rasterizer`, each glyph once for both captions,
/// and the result is laid on the picture in white, the top caption at the top, the bottom
/// caption so that it ends at the bottom edge. A caption that is not given is left out.
/// With a layout and a rasterizer that answer each request in one way, every call with
/// the same picture and the same captions gives the same macro, sample for sample.
pub fn generate_image<
    L: Fn(LayoutSettings, FontSize, &str) -> TextLayout,
    R: Fn(GlyphRasterKey) -> RasterizedGlyph,
>(
    image: RgbaCanvas,
    top_text: Option<&str>,
    bottom_text: Option<&str>,
    layout: &L,
    rasterizer: R,
) -> (out: RgbaCanvas)
    requires
        forall|settings: LayoutSettings, size: FontSize, any: &str|
            call_requires(*layout, (settings, size, any)),
        forall|key: GlyphRasterKey| call_requires(rasterizer, (key,)),
    ensures
        out@.width == image@.width,
        out@.height == image@.height,
        top_text is None && bottom_text is None ==> out@ == image@,
        is_macro(out@, image@, top_text, bottom_text, *layout, rasterizer),
        lays_out_one_way(*layout) && draws_one_picture(rasterizer) ==> out@ == macro_by(
            image@,
            top_text,
            bottom_text,
            *layout,
            rasterizer,
        ),
{
    let mut image = image;
    let ghost base = image@;
    let mut cache = GlyphCache::with_capacity(GLYPH_CAPACITY);

    if let Some(text) = top_text {
        add_caption(&mut image, &mut cache, &rasterizer, layout, text, false);
    }
    let ghost middle = image@;
    let ghost first = cache@;

    if let Some(text) = bottom_text {
        add_caption(&mut image, &mut cache, &rasterizer, layout, text, true);
    }
    proof {
        if let Some(top) = top_text {
            lemma_captioned_by_pictures(middle, base, *layout, top, false, first, cache@);
        }
        assert(made_by(cache@, rasterizer));
        assert(is_macro(image@, base, top_text, bottom_text, *layout, rasterizer));
        if lays_out_one_way(*layout) && draws_one_picture(rasterizer) {
            lemma_macro_is_determined(
                image@,
                macro_by(base, top_text, bottom_text, *layout, rasterizer),
                base,
                top_text,
                bottom_text,
                *layout,
                rasterizer,
            );
        }
    }
    image
}

} // verus!
