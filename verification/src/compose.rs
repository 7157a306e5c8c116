//! Laying a coverage mask, in one colour, on a picture.

use crate::canvas::{lemma_same_pixels_same_picture, CanvasView, Color, RgbaCanvas};
use crate::geometry::Vec2;
use crate::mask::{CoverageMask, MaskView};
use vstd::prelude::*;

verus! {

/// The pixel `(x, y)` of a picture once the mask has been laid on it in `color`, with the
/// mask's top left corner at `(left, top)`, where the pixel was `under`: under the mask,
/// `under` with `color` laid on it as opaque as the mask is covered there; elsewhere,
/// `under`.
pub open spec fn merged_pixel(
    under: Color,
    mask: MaskView,
    color: Color,
    left: int,
    top: int,
    x: int,
    y: int,
) -> Color {
    if mask.contains(x - left, y - top) {
        under.blend(color.with_alpha(mask.at(x - left, y - top)))
    } else {
        under
    }
}

/// Whether `after` is the picture `before` with the mask laid on it in `color`, the mask's
/// top left corner at `(left, top)`: a picture of the same size in which each pixel is the
/// [`merged_pixel`] of the one before.
pub open spec fn is_merge(
    after: CanvasView,
    before: CanvasView,
    mask: MaskView,
    color: Color,
    left: int,
    top: int,
) -> bool {
    &&& after.width == before.width
    &&& after.height == before.height
    &&& after.wf()
    &&& forall|x: int, y: int|
        before.contains(x, y) ==> #[trigger] after.at(x, y) == merged_pixel(
            before.at(x, y),
            mask,
            color,
            left,
            top,
            x,
            y,
        )
}

/// A mask in which nothing is covered changes nothing: the picture stays as it was, sample
/// for sample.
pub proof fn lemma_clear_mask_changes_nothing(
    after: CanvasView,
    before: CanvasView,
    mask: MaskView,
    color: Color,
    left: int,
    top: int,
)
    requires
        before.wf(),
        is_merge(after, before, mask, color, left, top),
        forall|x: int, y: int| mask.contains(x, y) ==> #[trigger] mask.at(x, y) == 0,
    ensures
        after == before,
{
    assert forall|x: int, y: int| after.contains(x, y) implies #[trigger] after.at(x, y)
        == before.at(x, y) by {
        if mask.contains(x - left, y - top) {
            assert(mask.at(x - left, y - top) == 0);
        }
    }
    lemma_same_pixels_same_picture(after, before);
}

/// Where the mask is fully covered, the pixel becomes exactly `color`, fully opaque,
/// whatever it was.
pub proof fn lemma_full_coverage_gives_color(
    after: CanvasView,
    before: CanvasView,
    mask: MaskView,
    color: Color,
    left: int,
    top: int,
    x: int,
    y: int,
)
    requires
        is_merge(after, before, mask, color, left, top),
        before.contains(x, y),
        mask.contains(x - left, y - top),
        mask.at(x - left, y - top) == 255,
    ensures
        after.at(x, y) == (Color { r: color.r, g: color.g, b: color.b, a: 255 }),
{
}

/// Nothing is written outside the mask, wherever the mask lies and however far it
/// reaches over the picture's edges: the picture keeps its size, and each of its pixels
/// that is not under the mask stays as it was.
pub proof fn lemma_outside_mask_untouched(
    after: CanvasView,
    before: CanvasView,
    mask: MaskView,
    color: Color,
    left: int,
    top: int,
    x: int,
    y: int,
)
    requires
        is_merge(after, before, mask, color, left, top),
        before.contains(x, y),
        !mask.contains(x - left, y - top),
    ensures
        after.width == before.width,
        after.height == before.height,
        after.samples.len() == 4 * (before.width * before.height),
        after.at(x, y) == before.at(x, y),
{
}

/// Lays the mask on the picture in `color`, with the mask's top left corner at
/// `base_position`, which may lie outside the picture: what of the mask lies outside the
/// picture is left out.
pub fn merge_image(
    image: &mut RgbaCanvas,
    mask: &CoverageMask,
    color: Color,
    base_position: Vec2<i64>,
)
    ensures
        is_merge(
            final(image)@,
            old(image)@,
            mask@,
            color,
            base_position.0 as int,
            base_position.1 as int,
        ),
{
    let left: i128 = base_position.x() as i128;
    let top: i128 = base_position.y() as i128;
    let width = image.width();
    let height = image.height();
    let mask_width = mask.width();
    let mask_height = mask.height();
    let mut mask_x: u32 = 0;
    while mask_x < mask_width
        invariant
            mask_x <= mask_width,
            mask_width == mask@.width,
            mask_height == mask@.height,
            left == base_position.0,
            top == base_position.1,
            width == image@.width,
            height == image@.height,
            image@.width == old(image)@.width,
            image@.height == old(image)@.height,
            image@.wf(),
            forall|x: int, y: int|
                old(image)@.contains(x, y) ==> #[trigger] image@.at(x, y) == (if x - left
                    < mask_x {
                    merged_pixel(old(image)@.at(x, y), mask@, color, left as int, top as int, x, y)
                } else {
                    old(image)@.at(x, y)
                }),
        decreases mask_width - mask_x,
    {
        let mut mask_y: u32 = 0;
        while mask_y < mask_height
            invariant
                mask_x < mask_width,
                mask_y <= mask_height,
                mask_width == mask@.width,
                mask_height == mask@.height,
                left == base_position.0,
                top == base_position.1,
                width == image@.width,
                height == image@.height,
                image@.width == old(image)@.width,
                image@.height == old(image)@.height,
                image@.wf(),
                forall|x: int, y: int|
                    old(image)@.contains(x, y) ==> #[trigger] image@.at(x, y) == (if x - left
                        < mask_x || (x - left == mask_x && y - top < mask_y) {
                        merged_pixel(
                            old(image)@.at(x, y),
                            mask@,
                            color,
                            left as int,
                            top as int,
                            x,
                            y,
                        )
                    } else {
                        old(image)@.at(x, y)
                    }),
            decreases mask_height - mask_y,
        {
            let x: i128 = left + mask_x as i128;
            let y: i128 = top + mask_y as i128;
            if 0 <= x && x < width as i128 && 0 <= y && y < height as i128 {
                let coverage = mask.get(mask_x, mask_y);
                let pixel = image.get_pixel(x as u32, y as u32).blend(color.with_alpha(coverage));
                image.put_pixel(x as u32, y as u32, pixel);
            }
            mask_y = mask_y + 1;
        }
        mask_x = mask_x + 1;
    }
}

} // verus!
