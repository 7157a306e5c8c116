//! Painting glyphs into a coverage mask.

use crate::geometry::SizeDim;
use crate::glyph::{
    made_by, GlyphCache, GlyphRasterKey, GlyphTable, GlyphView, RasterizedGlyph,
};
use crate::layout::GlyphPlacement;
use crate::mask::{CoverageMask, MaskView};
use vstd::prelude::*;

verus! {

/// The column of the mask in which the left edge of the glyph's picture lies.
pub open spec fn origin_x(placement: GlyphPlacement, glyph: GlyphView) -> int {
    placement.x + glyph.metrics.bearing_x
}

/// The row of the mask in which the top edge of the glyph's picture lies.
pub open spec fn origin_y(placement: GlyphPlacement, glyph: GlyphView) -> int {
    placement.y + glyph.metrics.bearing_y
}

/// Whether the picture of the glyph, put at its place, lies over the pixel `(x, y)`.
pub open spec fn covers(placement: GlyphPlacement, glyph: GlyphView, x: int, y: int) -> bool {
    glyph.contains(x - origin_x(placement, glyph), y - origin_y(placement, glyph))
}

/// The coverage of the pixel `(x, y)` once the glyph has been painted over a pixel that
/// had the coverage `under`: the glyph's own coverage where its picture lies over the
/// pixel, whatever it is, and `under` elsewhere.
pub open spec fn stamped(
    under: u8,
    placement: GlyphPlacement,
    glyph: GlyphView,
    x: int,
    y: int,
) -> u8 {
    if covers(placement, glyph, x, y) {
        glyph.at(x - origin_x(placement, glyph), y - origin_y(placement, glyph))
    } else {
        under
    }
}

/// The coverage of the pixel `(x, y)` once the glyphs of `placements` have been painted in
/// their order, with their pictures from `table`, over a pixel that had the coverage
/// `start`: a later glyph takes the place of an earlier one.
pub open spec fn painted(
    start: u8,
    placements: Seq<GlyphPlacement>,
    table: GlyphTable,
    x: int,
    y: int,
) -> u8
    decreases placements.len(),
{
    if placements.len() == 0 {
        start
    } else {
        stamped(
            painted(start, placements.drop_last(), table, x, y),
            placements.last(),
            table[placements.last().key],
            x,
            y,
        )
    }
}

/// Whether `table` has a picture for each glyph of `placements`.
pub open spec fn has_all(table: GlyphTable, placements: Seq<GlyphPlacement>) -> bool {
    forall|i: int| 0 <= i < placements.len() ==> table.contains_key(#[trigger] placements[i].key)
}

/// Whether `larger` has every picture of `smaller`, under the same key.
pub open spec fn extends(larger: GlyphTable, smaller: GlyphTable) -> bool {
    forall|key: GlyphRasterKey| #[trigger]
        smaller.contains_key(key) ==> larger.contains_key(key) && larger[key] == smaller[key]
}

/// Two tables that have the same picture for each glyph of `placements` paint the same.
pub proof fn lemma_painted_by_pictures(
    start: u8,
    placements: Seq<GlyphPlacement>,
    table: GlyphTable,
    other: GlyphTable,
    x: int,
    y: int,
)
    requires
        forall|i: int| 0 <= i < placements.len() ==> table[#[trigger] placements[i].key] == other[placements[i].key],
    ensures
        painted(start, placements, table, x, y) == painted(start, placements, other, x, y),
    decreases placements.len(),
{
    if placements.len() > 0 {
        let front = placements.drop_last();
        assert forall|i: int| 0 <= i < front.len() implies table[#[trigger] front[i].key]
            == other[front[i].key] by {
            assert(front[i] == placements[i]);
        }
        lemma_painted_by_pictures(start, front, table, other, x, y);
    }
}

/// Paints one glyph into the mask, at its place: each pixel of its picture that lies in
/// the mask takes the picture's coverage, and what lies outside the mask is left out.
pub fn paint_glyph(mask: &mut CoverageMask, placement: GlyphPlacement, glyph: &RasterizedGlyph)
    ensures
        final(mask)@.width == old(mask)@.width,
        final(mask)@.height == old(mask)@.height,
        forall|x: int, y: int|
            old(mask)@.contains(x, y) ==> #[trigger] final(mask)@.at(x, y) == stamped(
                old(mask)@.at(x, y),
                placement,
                glyph@,
                x,
                y,
            ),
{
    let metrics = glyph.metrics();
    let left: i128 = placement.x as i128 + metrics.bearing_x as i128;
    let top: i128 = placement.y as i128 + metrics.bearing_y as i128;
    let width = mask.width();
    let height = mask.height();
    let mut gx: usize = 0;
    while gx < metrics.width
        invariant
            gx <= metrics.width,
            metrics == glyph@.metrics,
            left == origin_x(placement, glyph@),
            top == origin_y(placement, glyph@),
            width == mask@.width,
            height == mask@.height,
            mask@.width == old(mask)@.width,
            mask@.height == old(mask)@.height,
            forall|x: int, y: int|
                old(mask)@.contains(x, y) ==> #[trigger] mask@.at(x, y) == (if covers(
                    placement,
                    glyph@,
                    x,
                    y,
                ) && x - left < gx {
                    glyph@.at(x - left, y - top)
                } else {
                    old(mask)@.at(x, y)
                }),
        decreases metrics.width - gx,
    {
        let mut gy: usize = 0;
        while gy < metrics.height
            invariant
                gx < metrics.width,
                gy <= metrics.height,
                metrics == glyph@.metrics,
                left == origin_x(placement, glyph@),
                top == origin_y(placement, glyph@),
                width == mask@.width,
                height == mask@.height,
                mask@.width == old(mask)@.width,
                mask@.height == old(mask)@.height,
                    forall|x: int, y: int|
                    old(mask)@.contains(x, y) ==> #[trigger] mask@.at(x, y) == (if covers(
                        placement,
                        glyph@,
                        x,
                        y,
                    ) && (x - left < gx || (x - left == gx && y - top < gy)) {
                        glyph@.at(x - left, y - top)
                    } else {
                        old(mask)@.at(x, y)
                    }),
            decreases metrics.height - gy,
        {
            let coverage = glyph.coverage_at(gx, gy);
            let x: i128 = left + gx as i128;
            let y: i128 = top + gy as i128;
            if 0 <= x && x < width as i128 && 0 <= y && y < height as i128 {
                mask.put(x as u32, y as u32, coverage);
            }
            gy = gy + 1;
        }
        gx = gx + 1;
    }
}

/// Whether `after` is the mask `before` with the glyphs of `placements` painted into it in
/// their order, with their pictures from `table`.
pub open spec fn paints(
    after: MaskView,
    before: MaskView,
    placements: Seq<GlyphPlacement>,
    table: GlyphTable,
) -> bool {
    &&& after.width == before.width
    &&& after.height == before.height
    &&& forall|x: int, y: int|
        before.contains(x, y) ==> #[trigger] after.at(x, y) == painted(
            before.at(x, y),
            placements,
            table,
            x,
            y,
        )
}

/// Whether `after` is `before` with pictures added for the glyphs of `placements` only:
/// what was kept is kept as it was, each of the glyphs has a picture, and no picture is
/// there that was not kept before and is none of theirs.
pub open spec fn gains(after: GlyphTable, before: GlyphTable, placements: Seq<GlyphPlacement>) -> bool {
    &&& extends(after, before)
    &&& has_all(after, placements)
    &&& forall|key: GlyphRasterKey| #[trigger]
        after.contains_key(key) ==> before.contains_key(key) || exists|i: int|
            0 <= i < placements.len() && #[trigger] placements[i].key == key
}

/// Paints the glyphs into the mask in their order, each with the picture that `cache` has
/// for it, which `rasterizer` makes where it is not kept yet.
pub fn render_glyphs<R: Fn(GlyphRasterKey) -> RasterizedGlyph>(
    glyphs: &[GlyphPlacement],
    cache: &mut GlyphCache,
    rasterizer: &R,
    mask: &mut CoverageMask,
)
    requires
        forall|key: GlyphRasterKey| call_requires(*rasterizer, (key,)),
    ensures
        gains(final(cache)@, old(cache)@, glyphs@),
        made_by(old(cache)@, *rasterizer) ==> made_by(final(cache)@, *rasterizer),
        paints(final(mask)@, old(mask)@, glyphs@, final(cache)@),
{
    let mut i: usize = 0;
    while i < glyphs.len()
        invariant
            i <= glyphs.len(),
            forall|key: GlyphRasterKey| call_requires(*rasterizer, (key,)),
            extends(cache@, old(cache)@),
            has_all(cache@, glyphs@.take(i as int)),
            forall|key: GlyphRasterKey| #[trigger]
                cache@.contains_key(key) ==> old(cache)@.contains_key(key) || exists|j: int|
                    0 <= j < glyphs@.len() && #[trigger] glyphs@[j].key == key,
            made_by(old(cache)@, *rasterizer) ==> made_by(cache@, *rasterizer),
            paints(mask@, old(mask)@, glyphs@.take(i as int), cache@),
        decreases glyphs.len() - i,
    {
        let placement = glyphs[i];
        let ghost table = cache@;
        let ghost before = mask@;
        let glyph = cache.get_or_rasterize(rasterizer, placement.key);
        paint_glyph(mask, placement, &glyph);
        proof {
            let front = glyphs@.take(i as int);
            let upto = glyphs@.take(i + 1);
            assert(upto.drop_last() == front);
            assert(upto.last() == placement);
            assert(glyphs@[i as int].key == placement.key);
            assert forall|j: int| 0 <= j < upto.len() implies cache@.contains_key(
                #[trigger] upto[j].key,
            ) by {
                if j < i {
                    assert(front[j] == upto[j]);
                }
            }
            assert forall|x: int, y: int| old(mask)@.contains(x, y) implies #[trigger] mask@.at(
                x,
                y,
            ) == painted(old(mask)@.at(x, y), upto, cache@, x, y) by {
                assert forall|j: int| 0 <= j < front.len() implies table[#[trigger] front[j].key]
                    == cache@[front[j].key] by {
                    assert(table.contains_key(front[j].key));
                }
                lemma_painted_by_pictures(old(mask)@.at(x, y), front, table, cache@, x, y);
                assert(before.contains(x, y));
            }
        }
        i = i + 1;
    }
    assert(glyphs@.take(glyphs.len() as int) == glyphs@);
}

/// Whether `mask` is what the glyphs of `placements`, with their pictures from `table`,
/// look like in a region of `size` in which nothing else is painted.
pub open spec fn shows(
    mask: MaskView,
    size: SizeDim,
    placements: Seq<GlyphPlacement>,
    table: GlyphTable,
) -> bool {
    &&& mask.width == size.0
    &&& mask.height == size.1
    &&& forall|x: int, y: int|
        mask.contains(x, y) ==> #[trigger] mask.at(x, y) == painted(0, placements, table, x, y)
}

/// A table that has the same pictures for the glyphs shows them in the same way.
pub proof fn lemma_shown_by_pictures(
    mask: MaskView,
    size: SizeDim,
    placements: Seq<GlyphPlacement>,
    table: GlyphTable,
    other: GlyphTable,
)
    requires
        shows(mask, size, placements, table),
        has_all(table, placements),
        extends(other, table),
    ensures
        shows(mask, size, placements, other),
        has_all(other, placements),
{
    assert forall|x: int, y: int| mask.contains(x, y) implies #[trigger] mask.at(x, y) == painted(
        0,
        placements,
        other,
        x,
        y,
    ) by {
        assert forall|i: int| 0 <= i < placements.len() implies table[#[trigger] placements[i].key]
            == other[placements[i].key] by {
            assert(table.contains_key(placements[i].key));
        }
        lemma_painted_by_pictures(0, placements, table, other, x, y);
    }
    assert forall|i: int| 0 <= i < placements.len() implies other.contains_key(
        #[trigger] placements[i].key,
    ) by {
        assert(table.contains_key(placements[i].key));
    }
}

/// Create an overlay image for the glyphs of a text: a mask of `size` that starts clear
/// and into which the glyphs are painted, each with the picture that `cache` has for it,
/// which `rasterizer` makes where it is not kept yet.
pub fn render_text<R: Fn(GlyphRasterKey) -> RasterizedGlyph>(
    cache: &mut GlyphCache,
    rasterizer: &R,
    glyphs: &[GlyphPlacement],
    size: SizeDim,
) -> (mask: CoverageMask)
    requires
        forall|key: GlyphRasterKey| call_requires(*rasterizer, (key,)),
        size.spec_area() <= usize::MAX,
    ensures
        gains(final(cache)@, old(cache)@, glyphs@),
        made_by(old(cache)@, *rasterizer) ==> made_by(final(cache)@, *rasterizer),
        shows(mask@, size, glyphs@, final(cache)@),
{
    let mut mask = CoverageMask::new(size);
    let ghost clear = mask@;
    proof {
        assert forall|x: int, y: int| clear.contains(x, y) implies clear.at(x, y) == 0 by {
            crate::mask::lemma_place_in_bounds(x, y, clear.width as int, clear.height as int);
        }
    }
    render_glyphs(glyphs, cache, rasterizer, &mut mask);
    mask
}

} // verus!
