//! Glyphs as pictures: the key that names one, its coverage, and the store that has each
//! one made once.

use std::collections::HashMap;
use vstd::cell::invcell::InvCell;
use vstd::predicate::Predicate;
use vstd::prelude::*;

verus! {

broadcast use vstd::std_specs::hash::group_hash_axioms;

/// A buffer of bytes of the `bytes` crate, which is copied without copying the bytes.
#[verifier::external_type_specification]
#[verifier::external_body]
pub struct ExBytes(bytes::Bytes);

/// The bytes that `buffer` holds, in order.
pub uninterp spec fn bytes_held(buffer: bytes::Bytes) -> Seq<u8>;

/// Calls `bytes::Bytes::from` on a vector. Not proved: that the buffer holds the vector's
/// bytes.
#[verifier::external_body]
fn bytes_from(bytes: Vec<u8>) -> (buffer: bytes::Bytes)
    ensures
        bytes_held(buffer) == bytes@,
{
    bytes::Bytes::from(bytes)
}

/// Reads one byte of the buffer, by the indexing that `bytes::Bytes` has from the slice it
/// stands for, which panics past the end. Not proved: that it is the byte held at `index`.
#[verifier::external_body]
fn bytes_at(buffer: &bytes::Bytes, index: usize) -> (byte: u8)
    requires
        index < bytes_held(*buffer).len(),
    ensures
        byte == bytes_held(*buffer)[index as int],
{
    buffer[index]
}

/// Calls `bytes::Bytes::clone`. Not proved: that the copy holds the same bytes.
#[verifier::external_body]
fn bytes_clone(buffer: &bytes::Bytes) -> (copy: bytes::Bytes)
    ensures
        bytes_held(copy) == bytes_held(*buffer),
{
    buffer.clone()
}

/// What names one picture of a glyph: the font, the glyph in it, and the size.
#[derive(Clone, Copy, Debug, PartialEq, Eq, Hash, Structural)]
pub struct GlyphRasterKey {
    /// The glyph's number in its font.
    pub glyph_index: u16,
    /// The size in pixels, as the bits of a number of 32 bits with a floating point.
    pub px_bits: u32,
    /// A number that stands for the font.
    pub font_hash: usize,
}

impl GlyphRasterKey {
    /// The key as one number, in which each part has bits of its own.
    pub open spec fn spec_code(self) -> u128 {
        (self.font_hash * 0x1_0000_0000_0000 + self.glyph_index * 0x1_0000_0000
            + self.px_bits) as u128
    }

    /// The key as one number.
    #[verifier::when_used_as_spec(spec_code)]
    pub fn code(self) -> (code: u128)
        ensures
            code == self.spec_code(),
    {
        let font: u128 = self.font_hash as u128;
        let glyph: u128 = self.glyph_index as u128;
        let px: u128 = self.px_bits as u128;
        font * 0x1_0000_0000_0000 + glyph * 0x1_0000_0000 + px
    }

    /// Keys with the same number are the same key.
    pub proof fn lemma_code_tells_apart(self, other: GlyphRasterKey)
        requires
            self.code() == other.code(),
        ensures
            self == other,
    {
    }
}

/// The size of a glyph's picture and where it lies.
#[derive(Clone, Copy, Debug, PartialEq, Eq, Structural)]
pub struct Metrics {
    /// The picture's width in pixels.
    pub width: usize,
    /// The picture's height in pixels.
    pub height: usize,
    /// From the place the glyph is put at to the picture's left edge.
    pub bearing_x: i32,
    /// From the place the glyph is put at to the picture's top edge.
    pub bearing_y: i32,
}

/// What a glyph's picture holds.
pub struct GlyphView {
    pub metrics: Metrics,
    /// The coverage of each pixel, row after row from the top.
    pub coverage: Seq<u8>,
}

impl GlyphView {
    /// A picture has one coverage for each pixel.
    pub open spec fn wf(self) -> bool {
        self.coverage.len() == self.metrics.width * self.metrics.height
    }

    /// Whether `(x, y)` is a pixel of the picture.
    pub open spec fn contains(self, x: int, y: int) -> bool {
        0 <= x < self.metrics.width && 0 <= y < self.metrics.height
    }

    /// The coverage of the pixel `(x, y)`.
    pub open spec fn at(self, x: int, y: int) -> u8 {
        self.coverage[x + y * self.metrics.width]
    }
}

/// The picture of one glyph: its metrics and the coverage of each of its pixels.
pub struct RasterizedGlyph {
    metrics: Metrics,
    coverage: bytes::Bytes,
}

impl View for RasterizedGlyph {
    type V = GlyphView;

    closed spec fn view(&self) -> GlyphView {
        GlyphView { metrics: self.metrics, coverage: bytes_held(self.coverage) }
    }
}

impl RasterizedGlyph {
    #[verifier::type_invariant]
    spec fn inv(self) -> bool {
        self@.wf() && self.metrics.width * self.metrics.height <= usize::MAX
    }

    /// A glyph's picture from its metrics and the coverage of its pixels; `None` where
    /// there is not exactly one coverage for each pixel.
    pub fn new(metrics: Metrics, coverage: Vec<u8>) -> (made: Option<RasterizedGlyph>)
        ensures
            made is Some <==> coverage@.len() == metrics.width * metrics.height,
            made matches Some(glyph) ==> glyph@ == (GlyphView { metrics, coverage: coverage@ }),
    {
        let count: usize = coverage.len();
        let fits = match metrics.width.checked_mul(metrics.height) {
            Some(area) => area == count,
            None => false,
        };
        if !fits {
            return None;
        }
        Some(RasterizedGlyph { metrics, coverage: bytes_from(coverage) })
    }

    /// The metrics. Every picture has one coverage for each of its pixels.
    pub fn metrics(&self) -> (metrics: Metrics)
        ensures
            metrics == self@.metrics,
            self@.wf(),
    {
        proof {
            use_type_invariant(self);
        }
        self.metrics
    }

    /// The coverage of the pixel `(x, y)`.
    pub fn coverage_at(&self, x: usize, y: usize) -> (coverage: u8)
        requires
            self@.contains(x as int, y as int),
        ensures
            coverage == self@.at(x as int, y as int),
    {
        proof {
            use_type_invariant(self);
            crate::mask::lemma_place_in_bounds(
                x as int,
                y as int,
                self.metrics.width as int,
                self.metrics.height as int,
            );
        }
        bytes_at(&self.coverage, x + y * self.metrics.width)
    }
}

impl Clone for RasterizedGlyph {
    fn clone(&self) -> (copy: Self)
        ensures
            copy@ == self@,
    {
        proof {
            use_type_invariant(self);
        }
        RasterizedGlyph { metrics: self.metrics, coverage: bytes_clone(&self.coverage) }
    }
}

/// The pictures of glyphs by their keys.
pub type GlyphTable = Map<GlyphRasterKey, GlyphView>;

/// Whether `rasterizer`, asked for `key`, can give a picture that holds `glyph`.
pub open spec fn yields<R: Fn(GlyphRasterKey) -> RasterizedGlyph>(
    rasterizer: R,
    key: GlyphRasterKey,
    glyph: GlyphView,
) -> bool {
    exists|made: RasterizedGlyph| #[trigger] call_ensures(rasterizer, (key,), made) && made@ == glyph
}

/// Whether `rasterizer` gives for each key one picture only.
pub open spec fn draws_one_picture<R: Fn(GlyphRasterKey) -> RasterizedGlyph>(rasterizer: R) -> bool {
    forall|key: GlyphRasterKey, one: RasterizedGlyph, other: RasterizedGlyph|
        #![trigger call_ensures(rasterizer, (key,), one), call_ensures(rasterizer, (key,), other)]
        call_ensures(rasterizer, (key,), one) && call_ensures(rasterizer, (key,), other) ==> one@
            == other@
}

/// The picture that `rasterizer` gives for `key`, where it gives one only.
pub open spec fn picture_by<R: Fn(GlyphRasterKey) -> RasterizedGlyph>(
    rasterizer: R,
    key: GlyphRasterKey,
) -> GlyphView {
    choose|glyph: GlyphView| yields(rasterizer, key, glyph)
}

/// Whatever a rasterizer that gives one picture for each key yields for a key is that one
/// picture: two requests for equal keys are answered with the same metrics and the same
/// coverage, whether the answer was kept or made anew.
pub proof fn lemma_one_picture_for_a_key<R: Fn(GlyphRasterKey) -> RasterizedGlyph>(
    rasterizer: R,
    key: GlyphRasterKey,
    one: GlyphView,
    other: GlyphView,
)
    requires
        draws_one_picture(rasterizer),
        yields(rasterizer, key, one),
        yields(rasterizer, key, other),
    ensures
        one == other,
{
}

/// What a store that held `before` answers when asked for `key`, and what it holds
/// `after`: a picture that it held already is given again and nothing changes; any other
/// picture is kept under the key.
pub open spec fn answers(
    before: GlyphTable,
    key: GlyphRasterKey,
    glyph: GlyphView,
    after: GlyphTable,
) -> bool {
    &&& before.contains_key(key) ==> glyph == before[key]
    &&& after == before.insert(key, glyph)
}

/// Asked twice for the same key, a store gives the same picture twice, and the second
/// request leaves it as it was: nothing new is made, and what is kept stays as it is.
pub proof fn lemma_second_request_repeats_first(
    before: GlyphTable,
    key: GlyphRasterKey,
    first: GlyphView,
    between: GlyphTable,
    second: GlyphView,
    after: GlyphTable,
)
    requires
        answers(before, key, first, between),
        answers(between, key, second, after),
    ensures
        second == first,
        after == between,
        forall|other: GlyphRasterKey| before.contains_key(other) ==> after[other] == before[other],
{
}

/// Whether every picture of `table` is one that `rasterizer` can give for its key.
pub open spec fn made_by<R: Fn(GlyphRasterKey) -> RasterizedGlyph>(
    table: GlyphTable,
    rasterizer: R,
) -> bool {
    forall|key: GlyphRasterKey| #[trigger]
        table.contains_key(key) ==> yields(rasterizer, key, table[key])
}

/// Keeps the pictures of glyphs by their keys, so that each is made once.
pub struct GlyphCache {
    pictures: HashMap<u128, RasterizedGlyph>,
}

impl View for GlyphCache {
    type V = GlyphTable;

    /// The pictures kept.
    closed spec fn view(&self) -> GlyphTable {
        Map::new(
            |key: GlyphRasterKey| self.pictures@.contains_key(key.code()),
            |key: GlyphRasterKey| self.pictures@[key.code()]@,
        )
    }
}

impl GlyphCache {
    /// A cache without pictures, with room for `capacity` of them.
    pub fn with_capacity(capacity: usize) -> (cache: Self)
        ensures
            cache@ == GlyphTable::empty(),
    {
        let cache = Self { pictures: HashMap::with_capacity(capacity) };
        assert(cache@ =~= GlyphTable::empty());
        cache
    }

    /// The picture of the glyph named `key`: the one kept for it, or, where none is kept
    /// yet, the one that `rasterizer` now makes, which is kept from then on. A picture
    /// that is kept is never made again, nor changed, nor dropped.
    pub fn get_or_rasterize<R: Fn(GlyphRasterKey) -> RasterizedGlyph>(
        &mut self,
        rasterizer: &R,
        key: GlyphRasterKey,
    ) -> (glyph: RasterizedGlyph)
        requires
            call_requires(*rasterizer, (key,)),
        ensures
            answers(old(self)@, key, glyph@, final(self)@),
            !old(self)@.contains_key(key) ==> call_ensures(*rasterizer, (key,), glyph),
            made_by(old(self)@, *rasterizer) ==> made_by(final(self)@, *rasterizer),
            glyph@.wf(),
    {
        let code = key.code();
        let kept = match self.pictures.get(&code) {
            Some(found) => Some(found.clone()),
            None => None,
        };
        let glyph = match kept {
            Some(glyph) => glyph,
            None => {
                let glyph = rasterizer(key);
                self.pictures.insert(code, glyph.clone());
                glyph
            },
        };
        proof {
            use_type_invariant(&glyph);
            assert forall|other: GlyphRasterKey|
                self@.contains_key(other) <==> old(self)@.insert(key, glyph@).contains_key(
                    other,
                ) by {
                if other.code() == code {
                    other.lemma_code_tells_apart(key);
                }
            }
            assert(self@ =~= old(self)@.insert(key, glyph@));
        }
        glyph
    }
}

/// What a [`GlyphGenerator`] asks of the cache in it at all times: that its pictures are
/// made by the generator's rasterizer.
pub struct KeptBy<R> {
    pub rasterizer: R,
}

impl<R: Fn(GlyphRasterKey) -> RasterizedGlyph> Predicate<GlyphCache> for KeptBy<R> {
    open spec fn predicate(&self, cache: GlyphCache) -> bool {
        made_by(cache@, self.rasterizer)
    }
}

/// Has each glyph's picture made once, by a rasterizer that it is given, and keeps it. The
/// pictures are kept behind a shared reference: asking for a glyph takes no exclusive
/// access.
pub struct GlyphGenerator<R: Fn(GlyphRasterKey) -> RasterizedGlyph> {
    rasterizer: R,
    cache: InvCell<GlyphCache, KeptBy<R>>,
}

impl<R: Fn(GlyphRasterKey) -> RasterizedGlyph> GlyphGenerator<R> {
    #[verifier::type_invariant]
    spec fn inv(self) -> bool {
        &&& self.cache.predicate() == (KeptBy { rasterizer: self.rasterizer })
        &&& forall|key: GlyphRasterKey| call_requires(self.rasterizer, (key,))
    }

    /// The rasterizer that makes the pictures.
    pub closed spec fn rasterizer(&self) -> R {
        self.rasterizer
    }

    /// A generator without pictures, with room for `capacity` of them.
    pub fn with_capacity(rasterizer: R, capacity: usize) -> (generator: Self)
        requires
            forall|key: GlyphRasterKey| call_requires(rasterizer, (key,)),
        ensures
            generator.rasterizer() == rasterizer,
    {
        let cache = GlyphCache::with_capacity(capacity);
        Self { rasterizer, cache: InvCell::new(cache, Ghost(KeptBy { rasterizer })) }
    }

    /// Get the glyph named `key`: the picture kept for it, or, where none is kept yet, the
    /// one that the rasterizer now makes, which is kept from then on. With a rasterizer
    /// that gives one picture for each key, every request for a key is answered with that
    /// picture, whatever was asked for in between.
    pub fn glyph(&self, key: GlyphRasterKey) -> (glyph: RasterizedGlyph)
        ensures
            yields(self.rasterizer(), key, glyph@),
            draws_one_picture(self.rasterizer()) ==> glyph@ == picture_by(self.rasterizer(), key),
            glyph@.wf(),
    {
        proof {
            use_type_invariant(self);
        }
        // The cache is taken out for the request, and a cache without pictures stands in
        // for it meanwhile.
        let mut cache = self.cache.replace(GlyphCache::with_capacity(0));
        let glyph = cache.get_or_rasterize(&self.rasterizer, key);
        self.cache.set(cache);
        proof {
            if draws_one_picture(self.rasterizer) {
                lemma_one_picture_for_a_key(
                    self.rasterizer,
                    key,
                    glyph@,
                    picture_by(self.rasterizer, key),
                );
            }
        }
        glyph
    }
}

} // verus!
