//! Coverage masks: one sample for each pixel, from 0 (clear) to 255 (covered).

use crate::geometry::SizeDim;
use vstd::prelude::*;

verus! {

/// A grey picture of the `image` crate with samples of eight bits, kept as the crate
/// keeps it.
#[verifier::external_body]
pub struct GrayStore {
    image: image::GrayImage,
}

/// The width, in pixels, of the picture in `store`.
pub uninterp spec fn gray_width(store: GrayStore) -> u32;

/// The height, in pixels, of the picture in `store`.
pub uninterp spec fn gray_height(store: GrayStore) -> u32;

/// The samples of the picture in `store`, row after row from the top, each row from the
/// left.
pub uninterp spec fn gray_samples(store: GrayStore) -> Seq<u8>;

impl GrayStore {
    /// Calls `image::GrayImage::from_vec`, which takes the buffer as it is or, where the
    /// buffer holds fewer samples than the picture has pixels, gives nothing. Not proved:
    /// when a picture comes back, and that it has this width, this height and these
    /// samples.
    #[verifier::external_body]
    fn from_vec(width: u32, height: u32, samples: Vec<u8>) -> (made: Option<GrayStore>)
        ensures
            made is Some <==> width * height <= samples@.len(),
            made matches Some(store) ==> {
                &&& gray_width(store) == width
                &&& gray_height(store) == height
                &&& gray_samples(store) == samples@
            },
    {
        image::GrayImage::from_vec(width, height, samples).map(|image| GrayStore { image })
    }

    /// Calls `image::GrayImage::width`. Not proved: that it is [`gray_width`].
    #[verifier::external_body]
    fn width(&self) -> (width: u32)
        ensures
            width == gray_width(*self),
    {
        self.image.width()
    }

    /// Calls `image::GrayImage::height`. Not proved: that it is [`gray_height`].
    #[verifier::external_body]
    fn height(&self) -> (height: u32)
        ensures
            height == gray_height(*self),
    {
        self.image.height()
    }

    /// Calls `image::GrayImage::get_pixel`, which panics outside the picture. Not proved:
    /// that the sample read is the one at row `y`, column `x` of [`gray_samples`].
    #[verifier::external_body]
    fn get(&self, x: u32, y: u32) -> (sample: u8)
        requires
            x < gray_width(*self),
            y < gray_height(*self),
        ensures
            sample == gray_samples(*self)[y * gray_width(*self) + x],
    {
        self.image.get_pixel(x, y).0[0]
    }

    /// Calls `image::GrayImage::put_pixel`, which panics outside the picture and nowhere
    /// else. Not proved: that the picture keeps its size and that of its samples only the
    /// one at row `y`, column `x` changes, to `sample`.
    #[verifier::external_body]
    fn put(&mut self, x: u32, y: u32, sample: u8)
        requires
            x < gray_width(*old(self)),
            y < gray_height(*old(self)),
        ensures
            gray_width(*final(self)) == gray_width(*old(self)),
            gray_height(*final(self)) == gray_height(*old(self)),
            gray_samples(*final(self)) == gray_samples(*old(self)).update(
                y * gray_width(*old(self)) + x,
                sample,
            ),
        no_unwind
    {
        self.image.put_pixel(x, y, image::Luma([sample]))
    }
}

/// A pixel `(x, y)` of a picture `width` wide has the place `y * width + x` among the
/// picture's pixels, and within a picture `height` high that place is below
/// `width * height`.
pub proof fn lemma_place_in_bounds(x: int, y: int, width: int, height: int)
    requires
        0 <= x < width,
        0 <= y < height,
    ensures
        0 <= y * width + x < width * height,
{
    assert(y * width + x < width * height) by (nonlinear_arith)
        requires
            0 <= x < width,
            0 <= y < height,
    {
        assert((y + 1) * width <= height * width);
    }
    assert(0 <= y * width) by (nonlinear_arith)
        requires
            0 <= y,
            0 < width,
    ;
}

/// Two different pixels of a picture have different places among its pixels.
pub proof fn lemma_places_differ(x: int, y: int, x2: int, y2: int, width: int)
    requires
        0 <= x < width,
        0 <= x2 < width,
        0 <= y,
        0 <= y2,
        x != x2 || y != y2,
    ensures
        y * width + x != y2 * width + x2,
{
    if y < y2 {
        assert(y * width + x < y2 * width + x2) by (nonlinear_arith)
            requires
                0 <= x < width,
                0 <= x2,
                0 <= y < y2,
        {
            assert((y + 1) * width <= y2 * width);
        }
    } else if y2 < y {
        assert(y2 * width + x2 < y * width + x) by (nonlinear_arith)
            requires
                0 <= x2 < width,
                0 <= x,
                0 <= y2 < y,
        {
            assert((y2 + 1) * width <= y * width);
        }
    }
}

/// What a coverage mask holds.
pub struct MaskView {
    pub width: nat,
    pub height: nat,
    /// One sample for each pixel, row after row from the top.
    pub samples: Seq<u8>,
}

impl MaskView {
    /// Whether `(x, y)` is a pixel of the mask.
    pub open spec fn contains(self, x: int, y: int) -> bool {
        0 <= x < self.width && 0 <= y < self.height
    }

    /// The coverage of the pixel `(x, y)`.
    pub open spec fn at(self, x: int, y: int) -> u8 {
        self.samples[y * self.width + x]
    }

    /// A mask has one sample for each pixel.
    pub open spec fn wf(self) -> bool {
        self.samples.len() == self.width * self.height
    }
}

/// A single-channel picture that says how far each pixel is covered.
pub struct CoverageMask {
    store: GrayStore,
}

impl View for CoverageMask {
    type V = MaskView;

    closed spec fn view(&self) -> MaskView {
        MaskView {
            width: gray_width(self.store) as nat,
            height: gray_height(self.store) as nat,
            samples: gray_samples(self.store),
        }
    }
}

impl CoverageMask {
    #[verifier::type_invariant]
    spec fn inv(self) -> bool {
        self@.wf()
    }

    /// A mask of the given sides over the given samples, one for each pixel; `None` where
    /// their number is another.
    pub fn from_samples(width: u32, height: u32, samples: Vec<u8>) -> (made: Option<CoverageMask>)
        ensures
            made is Some <==> samples@.len() == width * height,
            made matches Some(mask) ==> mask@ == (MaskView {
                width: width as nat,
                height: height as nat,
                samples: samples@,
            }),
    {
        let wide: usize = width as usize;
        let high: usize = height as usize;
        let count: usize = samples.len();
        let fits = match wide.checked_mul(high) {
            Some(area) => area == count,
            None => false,
        };
        assert(wide * high == width * height) by (nonlinear_arith)
            requires
                wide == width,
                high == height,
        ;
        if !fits {
            return None;
        }
        match GrayStore::from_vec(width, height, samples) {
            Some(store) => Some(CoverageMask { store }),
            None => None,
        }
    }

    /// A mask of the given size with no pixel covered.
    pub fn new(size: SizeDim) -> (mask: CoverageMask)
        requires
            size.spec_area() <= usize::MAX,
        ensures
            mask@.width == size.0,
            mask@.height == size.1,
            mask@.wf(),
            forall|i: int| 0 <= i < mask@.samples.len() ==> mask@.samples[i] == 0,
    {
        let samples: Vec<u8> = vec![0u8; size.area()];
        let store = GrayStore::from_vec(size.width(), size.height(), samples).unwrap();
        CoverageMask { store }
    }

    /// The width in pixels. Every mask has one sample for each of its pixels.
    pub fn width(&self) -> (width: u32)
        ensures
            width == self@.width,
            self@.wf(),
    {
        proof {
            use_type_invariant(self);
        }
        self.store.width()
    }

    /// The height in pixels.
    pub fn height(&self) -> (height: u32)
        ensures
            height == self@.height,
            self@.wf(),
    {
        proof {
            use_type_invariant(self);
        }
        self.store.height()
    }

    /// The coverage of the pixel `(x, y)`.
    pub fn get(&self, x: u32, y: u32) -> (sample: u8)
        requires
            self@.contains(x as int, y as int),
        ensures
            sample == self@.at(x as int, y as int),
    {
        self.store.get(x, y)
    }

    /// Sets the coverage of the pixel `(x, y)` and of no other.
    pub fn put(&mut self, x: u32, y: u32, sample: u8)
        requires
            old(self)@.contains(x as int, y as int),
        ensures
            final(self)@.width == old(self)@.width,
            final(self)@.height == old(self)@.height,
            final(self)@.at(x as int, y as int) == sample,
            forall|x2: int, y2: int|
                old(self)@.contains(x2, y2) && (x2 != x || y2 != y) ==> final(self)@.at(x2, y2)
                    == old(self)@.at(x2, y2),
    {
        proof {
            use_type_invariant(&*self);
            lemma_place_in_bounds(x as int, y as int, self@.width as int, self@.height as int);
        }
        let ghost before = self@;
        self.store.put(x, y, sample);
        proof {
            assert forall|x2: int, y2: int|
                before.contains(x2, y2) && (x2 != x || y2 != y) implies self@.at(x2, y2)
                == before.at(x2, y2) by {
                lemma_place_in_bounds(x2, y2, before.width as int, before.height as int);
                lemma_places_differ(x as int, y as int, x2, y2, before.width as int);
            }
        }
    }
}

} // verus!
