//! What is asked of the laying out of a text, and what comes back from it.

use crate::geometry::SizeDim;
use crate::glyph::GlyphRasterKey;
use vstd::prelude::*;

verus! {

/// Where a line stands between the left and the right edge of its region.
#[derive(Clone, Copy, Debug, PartialEq, Eq, Structural)]
pub enum HorizontalAlign {
    Left,
    Center,
    Right,
}

/// Where the lines stand between the top and the bottom edge of their region.
#[derive(Clone, Copy, Debug, PartialEq, Eq, Structural)]
pub enum VerticalAlign {
    Top,
    Middle,
    Bottom,
}

/// Where a line that is too long may be broken.
#[derive(Clone, Copy, Debug, PartialEq, Eq, Structural)]
pub enum WrapStyle {
    /// Between words only.
    Word,
    /// After any letter.
    Letter,
}

/// How a text is to be laid out in its region.
#[derive(Clone, Copy, Debug, PartialEq, Eq, Structural)]
pub struct LayoutSettings {
    /// The region's width in pixels: lines longer than this are wrapped.
    pub max_width: u32,
    /// The region's height in pixels.
    pub max_height: u32,
    pub horizontal_align: HorizontalAlign,
    pub vertical_align: VerticalAlign,
    pub wrap_style: WrapStyle,
    /// Whether a line break in the text ends the line.
    pub wrap_hard_breaks: bool,
}

impl LayoutSettings {
    /// The settings for a caption in a region of the given size: each line centred, the
    /// lines at the top, broken between words and at the text's own line breaks.
    pub open spec fn spec_caption(size: SizeDim) -> LayoutSettings {
        LayoutSettings {
            max_width: size.0,
            max_height: size.1,
            horizontal_align: HorizontalAlign::Center,
            vertical_align: VerticalAlign::Top,
            wrap_style: WrapStyle::Word,
            wrap_hard_breaks: true,
        }
    }

    /// The settings for a caption in a region of the given size.
    #[verifier::when_used_as_spec(spec_caption)]
    pub fn caption(size: SizeDim) -> (settings: LayoutSettings)
        ensures
            settings == LayoutSettings::spec_caption(size),
    {
        LayoutSettings {
            max_width: size.width(),
            max_height: size.height(),
            horizontal_align: HorizontalAlign::Center,
            vertical_align: VerticalAlign::Top,
            wrap_style: WrapStyle::Word,
            wrap_hard_breaks: true,
        }
    }
}

/// A font size in pixels, as a fraction: `numerator / denominator`.
#[derive(Clone, Copy, Debug, PartialEq, Eq, Structural)]
pub struct FontSize {
    pub numerator: u32,
    pub denominator: u32,
}

/// A glyph with the place that it is put at in the text's region. The region's top left
/// corner is `(0, 0)`, and `y` grows downwards. The top left corner of the glyph's picture
/// lies at this place moved by the picture's bearing.
#[derive(Clone, Copy, Debug, PartialEq, Eq, Structural)]
pub struct GlyphPlacement {
    pub key: GlyphRasterKey,
    pub x: i32,
    pub y: i32,
}

/// One character of a text that has been laid out.
#[derive(Clone, Copy, Debug, PartialEq, Eq, Structural)]
pub struct LaidOutGlyph {
    /// The character's glyph and its place.
    pub placement: GlyphPlacement,
    /// Whether the character is a control character, such as a line break: it has a part
    /// in the layout and nothing to show.
    pub control: bool,
}

/// A text that has been laid out.
pub struct TextLayout {
    /// The text's characters in their order.
    pub glyphs: Vec<LaidOutGlyph>,
    /// The height of all its lines together, in pixels.
    pub height: u32,
}

/// The glyphs that a laid out text shows: those of `glyphs` that are no control
/// characters, in their order.
pub open spec fn visible(glyphs: Seq<LaidOutGlyph>) -> Seq<GlyphPlacement>
    decreases glyphs.len(),
{
    if glyphs.len() == 0 {
        Seq::empty()
    } else if glyphs.last().control {
        visible(glyphs.drop_last())
    } else {
        visible(glyphs.drop_last()).push(glyphs.last().placement)
    }
}

/// A text's glyphs that are to be shown, and the text's height.
pub struct FilledText {
    pub placements: Vec<GlyphPlacement>,
    /// The height of all the text's lines together, in pixels.
    pub height: u32,
}

/// Whether `layout`, asked to lay out `text` at `font_size` as a caption in a region of
/// `size`, can answer `laid`.
pub open spec fn lays_out<L: Fn(LayoutSettings, FontSize, &str) -> TextLayout>(
    layout: L,
    size: SizeDim,
    font_size: FontSize,
    text: &str,
    laid: TextLayout,
) -> bool {
    call_ensures(layout, (LayoutSettings::caption(size), font_size, text), laid)
}

/// Has `text` laid out as a caption that fills a region of `size`, and takes from the
/// answer what is to be shown.
pub fn get_filling_glyphs<L: Fn(LayoutSettings, FontSize, &str) -> TextLayout>(
    size: SizeDim,
    layout: &L,
    font_size: FontSize,
    text: &str,
) -> (filled: FilledText)
    requires
        call_requires(*layout, (LayoutSettings::caption(size), font_size, text)),
    ensures
        exists|laid: TextLayout| #[trigger]
            lays_out(*layout, size, font_size, text, laid) && filled.placements@ == visible(
                laid.glyphs@,
            ) && filled.height == laid.height,
{
    let laid = layout(LayoutSettings::caption(size), font_size, text);
    let mut placements: Vec<GlyphPlacement> = Vec::new();
    let mut i: usize = 0;
    while i < laid.glyphs.len()
        invariant
            i <= laid.glyphs.len(),
            placements@ == visible(laid.glyphs@.take(i as int)),
        decreases laid.glyphs.len() - i,
    {
        let glyph = laid.glyphs[i];
        assert(laid.glyphs@.take(i + 1).drop_last() == laid.glyphs@.take(i as int));
        if !glyph.control {
            placements.push(glyph.placement);
        }
        i = i + 1;
    }
    assert(laid.glyphs@.take(laid.glyphs.len() as int) == laid.glyphs@);
    let filled = FilledText { placements, height: laid.height };
    assert(lays_out(*layout, size, font_size, text, laid));
    filled
}

} // verus!
