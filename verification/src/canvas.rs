//! Pictures in colour: four samples for each pixel, red, green, blue and opacity.

use crate::mask::{lemma_place_in_bounds, lemma_places_differ};
use vstd::prelude::*;

verus! {

/// A colour with its opacity, each from 0 to 255.
#[derive(Clone, Copy, Debug, PartialEq, Eq, Structural)]
pub struct Color {
    pub r: u8,
    pub g: u8,
    pub b: u8,
    pub a: u8,
}

impl Color {
    /// The four samples in the order in which a picture holds them.
    pub open spec fn channels(self) -> (u8, u8, u8, u8) {
        (self.r, self.g, self.b, self.a)
    }

    /// White, fully opaque.
    pub open spec fn spec_white() -> Color {
        Color { r: 255, g: 255, b: 255, a: 255 }
    }

    /// White, fully opaque.
    #[verifier::when_used_as_spec(spec_white)]
    pub fn white() -> (color: Color)
        ensures
            color == Color::spec_white(),
    {
        Color { r: 255, g: 255, b: 255, a: 255 }
    }

    /// This colour with the opacity `coverage`.
    pub open spec fn spec_with_alpha(self, coverage: u8) -> Color {
        Color { r: self.r, g: self.g, b: self.b, a: coverage }
    }

    /// This colour with the opacity `coverage`.
    #[verifier::when_used_as_spec(spec_with_alpha)]
    pub fn with_alpha(self, coverage: u8) -> (color: Color)
        ensures
            color == self.spec_with_alpha(coverage),
    {
        Color { r: self.r, g: self.g, b: self.b, a: coverage }
    }
}

/// What `image::Pixel::blend` makes of a pixel `under` when the pixel `over` is laid on
/// it, both of type `image::Rgba<u8>` and given by their samples.
pub uninterp spec fn blended(under: (u8, u8, u8, u8), over: (u8, u8, u8, u8)) -> (u8, u8, u8, u8);

/// Lays `over` on `under` by `image::Pixel::blend` for `image::Rgba<u8>`. Not proved: that
/// the result is [`blended`] of the two, which names it; that a fully transparent `over`
/// leaves `under` as it is; and that a fully opaque `over` takes its place.
#[verifier::external_body]
fn blend_pixels(under: Color, over: Color) -> (out: Color)
    ensures
        out.channels() == blended(under.channels(), over.channels()),
        over.a == 0 ==> out == under,
        over.a == 255 ==> out == over,
{
    let mut pixel = image::Rgba([under.r, under.g, under.b, under.a]);
    image::Pixel::blend(&mut pixel, &image::Rgba([over.r, over.g, over.b, over.a]));
    Color { r: pixel.0[0], g: pixel.0[1], b: pixel.0[2], a: pixel.0[3] }
}

impl Color {
    /// This colour with `over` laid on it: this colour where `over` is fully transparent,
    /// `over` where it is fully opaque, and between the two a mixture of both that the
    /// `image` crate computes.
    pub open spec fn spec_blend(self, over: Color) -> Color {
        if over.a == 0 {
            self
        } else if over.a == 255 {
            over
        } else {
            let (r, g, b, a) = blended(self.channels(), over.channels());
            Color { r, g, b, a }
        }
    }

    /// Lays `over` on this colour: the usual "over" compositing, in which the opacity of
    /// `over` is its weight.
    #[verifier::when_used_as_spec(spec_blend)]
    pub fn blend(self, over: Color) -> (out: Color)
        ensures
            out == self.spec_blend(over),
    {
        blend_pixels(self, over)
    }
}

/// A picture of the `image` crate with four samples of eight bits for each pixel, kept as
/// the crate keeps it.
#[verifier::external_body]
pub struct RgbaStore {
    image: image::RgbaImage,
}

/// The width, in pixels, of the picture in `store`.
pub uninterp spec fn rgba_width(store: RgbaStore) -> u32;

/// The height, in pixels, of the picture in `store`.
pub uninterp spec fn rgba_height(store: RgbaStore) -> u32;

/// The samples of the picture in `store`: four for each pixel, the pixels row after row
/// from the top, each row from the left.
pub uninterp spec fn rgba_samples(store: RgbaStore) -> Seq<u8>;

/// Whether a buffer of `count` samples holds a picture of the given sides, as the `image`
/// crate reckons it: the samples of one row, four for each pixel, can be counted in a
/// `usize`, and the buffer has at least as many samples as all the rows take.
pub open spec fn holds_picture(width: u32, height: u32, count: nat) -> bool {
    4 * width <= usize::MAX && 4 * (width * height) <= count
}

impl RgbaStore {
    /// Calls `image::RgbaImage::from_raw`, which takes the buffer as it is or gives
    /// nothing. It counts the samples that it needs in a `usize`, four times the width
    /// first and that times the height, and gives nothing where either count does not fit
    /// or the buffer holds fewer samples. Not proved: when a picture comes back, and that
    /// it has this width, this height and these samples.
    #[verifier::external_body]
    fn from_raw(width: u32, height: u32, samples: Vec<u8>) -> (made: Option<RgbaStore>)
        ensures
            made is Some <==> holds_picture(width, height, samples@.len()),
            made matches Some(store) ==> {
                &&& rgba_width(store) == width
                &&& rgba_height(store) == height
                &&& rgba_samples(store) == samples@
            },
    {
        image::RgbaImage::from_raw(width, height, samples).map(|image| RgbaStore { image })
    }

    /// Calls `image::RgbaImage::into_raw`. Not proved: that the buffer holds
    /// [`rgba_samples`].
    #[verifier::external_body]
    fn into_raw(self) -> (samples: Vec<u8>)
        ensures
            samples@ == rgba_samples(self),
    {
        self.image.into_raw()
    }

    /// Calls `image::RgbaImage::width`. Not proved: that it is [`rgba_width`].
    #[verifier::external_body]
    fn width(&self) -> (width: u32)
        ensures
            width == rgba_width(*self),
    {
        self.image.width()
    }

    /// Calls `image::RgbaImage::height`. Not proved: that it is [`rgba_height`].
    #[verifier::external_body]
    fn height(&self) -> (height: u32)
        ensures
            height == rgba_height(*self),
    {
        self.image.height()
    }

    /// Calls `image::RgbaImage::get_pixel`, which panics outside the picture. Not proved:
    /// that the pixel read is made of the four samples of [`rgba_samples`] that start at
    /// four times the pixel's place.
    #[verifier::external_body]
    fn get_pixel(&self, x: u32, y: u32) -> (pixel: Color)
        requires
            x < rgba_width(*self),
            y < rgba_height(*self),
        ensures
            pixel.r == rgba_samples(*self)[4 * (y * rgba_width(*self) + x)],
            pixel.g == rgba_samples(*self)[4 * (y * rgba_width(*self) + x) + 1],
            pixel.b == rgba_samples(*self)[4 * (y * rgba_width(*self) + x) + 2],
            pixel.a == rgba_samples(*self)[4 * (y * rgba_width(*self) + x) + 3],
    {
        let pixel = self.image.get_pixel(x, y);
        Color { r: pixel.0[0], g: pixel.0[1], b: pixel.0[2], a: pixel.0[3] }
    }

    /// Calls `image::RgbaImage::put_pixel`, which panics outside the picture and nowhere
    /// else. Not proved: that the picture keeps its size and that of its samples only the
    /// four of this pixel change, to those of `pixel`.
    #[verifier::external_body]
    fn put_pixel(&mut self, x: u32, y: u32, pixel: Color)
        requires
            x < rgba_width(*old(self)),
            y < rgba_height(*old(self)),
        ensures
            rgba_width(*final(self)) == rgba_width(*old(self)),
            rgba_height(*final(self)) == rgba_height(*old(self)),
            rgba_samples(*final(self)) == rgba_samples(*old(self)).update(
                4 * (y * rgba_width(*old(self)) + x),
                pixel.r,
            ).update(4 * (y * rgba_width(*old(self)) + x) + 1, pixel.g).update(
                4 * (y * rgba_width(*old(self)) + x) + 2,
                pixel.b,
            ).update(4 * (y * rgba_width(*old(self)) + x) + 3, pixel.a),
        no_unwind
    {
        self.image.put_pixel(x, y, image::Rgba([pixel.r, pixel.g, pixel.b, pixel.a]))
    }
}

/// What a picture in colour holds.
pub struct CanvasView {
    pub width: nat,
    pub height: nat,
    /// Four samples for each pixel, the pixels row after row from the top.
    pub samples: Seq<u8>,
}

impl CanvasView {
    /// Whether `(x, y)` is a pixel of the picture.
    pub open spec fn contains(self, x: int, y: int) -> bool {
        0 <= x < self.width && 0 <= y < self.height
    }

    /// The pixel `(x, y)`.
    pub open spec fn at(self, x: int, y: int) -> Color {
        let first = 4 * (y * self.width + x);
        Color {
            r: self.samples[first],
            g: self.samples[first + 1],
            b: self.samples[first + 2],
            a: self.samples[first + 3],
        }
    }

    /// A picture has four samples for each pixel, no more of them than a machine can
    /// count.
    pub open spec fn wf(self) -> bool {
        self.samples.len() == 4 * (self.width * self.height) && self.samples.len() <= usize::MAX
    }
}

/// Pictures of one size that agree in every pixel are the same picture, sample for
/// sample.
pub proof fn lemma_same_pixels_same_picture(a: CanvasView, b: CanvasView)
    requires
        a.wf(),
        b.wf(),
        a.width == b.width,
        a.height == b.height,
        forall|x: int, y: int| a.contains(x, y) ==> #[trigger] a.at(x, y) == b.at(x, y),
    ensures
        a == b,
{
    let w = a.width as int;
    let h = a.height as int;
    assert forall|i: int| 0 <= i < a.samples.len() implies a.samples[i] == b.samples[i] by {
        let place = i / 4;
        let channel = i % 4;
        assert(0 <= place < w * h);
        assert(w > 0) by (nonlinear_arith)
            requires
                0 <= place < w * h,
                0 <= w,
                0 <= h,
        ;
        let y = place / w;
        let x = place % w;
        assert(place == y * w + x && 0 <= x < w && 0 <= y) by (nonlinear_arith)
            requires
                0 <= place,
                w > 0,
                y == place / w,
                x == place % w,
        ;
        assert(y < h) by (nonlinear_arith)
            requires
                place == y * w + x,
                0 <= x,
                place < w * h,
                w > 0,
                0 <= y,
        ;
        assert(a.at(x, y) == b.at(x, y));
        assert(i == 4 * (y * w + x) + channel);
    }
    assert(a.samples =~= b.samples);
}

/// A picture in colour that captions are laid on.
pub struct RgbaCanvas {
    store: RgbaStore,
}

impl View for RgbaCanvas {
    type V = CanvasView;

    closed spec fn view(&self) -> CanvasView {
        CanvasView {
            width: rgba_width(self.store) as nat,
            height: rgba_height(self.store) as nat,
            samples: rgba_samples(self.store),
        }
    }
}

impl RgbaCanvas {
    #[verifier::type_invariant]
    spec fn inv(self) -> bool {
        self@.wf()
    }

    /// A picture of the given sides over the given samples, four for each pixel; `None`
    /// where their number is another, or where the samples of one row are more than a
    /// machine can count, however few rows there are.
    pub fn from_raw(width: u32, height: u32, samples: Vec<u8>) -> (made: Option<RgbaCanvas>)
        ensures
            made is Some <==> samples@.len() == 4 * (width * height) && 4 * width
                <= usize::MAX,
            made matches Some(canvas) ==> canvas@ == (CanvasView {
                width: width as nat,
                height: height as nat,
                samples: samples@,
            }),
    {
        let wide: usize = width as usize;
        let high: usize = height as usize;
        let count: usize = samples.len();
        let fits = match wide.checked_mul(4) {
            Some(row) => match row.checked_mul(high) {
                Some(needed) => needed == count,
                None => false,
            },
            None => false,
        };
        assert((wide * 4) * high == 4 * (width * height)) by (nonlinear_arith)
            requires
                wide == width,
                high == height,
        ;
        if !fits {
            return None;
        }
        match RgbaStore::from_raw(width, height, samples) {
            Some(store) => Some(RgbaCanvas { store }),
            None => None,
        }
    }

    /// The samples of the picture, which is given up for them.
    pub fn into_raw(self) -> (samples: Vec<u8>)
        ensures
            samples@ == self@.samples,
    {
        self.store.into_raw()
    }

    /// The width in pixels. Every picture has four samples for each of its pixels.
    pub fn width(&self) -> (width: u32)
        ensures
            width == self@.width,
            self@.wf(),
    {
        proof {
            use_type_invariant(self);
        }
        self.store.width()
    }

    /// The height in pixels.
    pub fn height(&self) -> (height: u32)
        ensures
            height == self@.height,
            self@.wf(),
    {
        proof {
            use_type_invariant(self);
        }
        self.store.height()
    }

    /// The pixel `(x, y)`.
    pub fn get_pixel(&self, x: u32, y: u32) -> (pixel: Color)
        requires
            self@.contains(x as int, y as int),
        ensures
            pixel == self@.at(x as int, y as int),
    {
        self.store.get_pixel(x, y)
    }

    /// Sets the pixel `(x, y)` and no other.
    pub fn put_pixel(&mut self, x: u32, y: u32, pixel: Color)
        requires
            old(self)@.contains(x as int, y as int),
        ensures
            final(self)@.width == old(self)@.width,
            final(self)@.height == old(self)@.height,
            final(self)@.wf(),
            final(self)@.at(x as int, y as int) == pixel,
            forall|x2: int, y2: int|
                old(self)@.contains(x2, y2) && (x2 != x || y2 != y) ==> final(self)@.at(x2, y2)
                    == old(self)@.at(x2, y2),
            pixel == old(self)@.at(x as int, y as int) ==> final(self)@ == old(self)@,
    {
        proof {
            use_type_invariant(&*self);
            lemma_place_in_bounds(x as int, y as int, self@.width as int, self@.height as int);
        }
        let ghost before = self@;
        self.store.put_pixel(x, y, pixel);
        proof {
            use_type_invariant(&*self);
            assert forall|x2: int, y2: int|
                before.contains(x2, y2) && (x2 != x || y2 != y) implies self@.at(x2, y2)
                == before.at(x2, y2) by {
                lemma_place_in_bounds(x2, y2, before.width as int, before.height as int);
                lemma_places_differ(x as int, y as int, x2, y2, before.width as int);
            }
            if pixel == before.at(x as int, y as int) {
                assert(self@.samples =~= before.samples);
            }
        }
    }
}

} // verus!
