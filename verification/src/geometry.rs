//! Sizes and positions in whole pixels.

use vstd::prelude::*;

verus! {

/// A width and a height in pixels.
#[derive(Clone, Copy, Debug)]
pub struct SizeDim(pub u32, pub u32);

impl SizeDim {
    pub fn width(&self) -> (width: u32)
        ensures
            width == self.0,
    {
        self.0
    }

    pub fn height(&self) -> (height: u32)
        ensures
            height == self.1,
    {
        self.1
    }

    /// The same width, with the height that `f` makes of this one.
    pub fn map_height<F: FnOnce(u32) -> u32>(&self, f: F) -> (mapped: Self)
        requires
            call_requires(f, (self.1,)),
        ensures
            mapped.0 == self.0,
            call_ensures(f, (self.1,), mapped.1),
    {
        Self(self.width(), f(self.height()))
    }

    /// The number of pixels as a number: width times height.
    pub open spec fn spec_area(self) -> nat {
        (self.0 as nat) * (self.1 as nat)
    }

    /// The number of pixels. It has to fit in a `usize`, which on a machine of 64 bits it
    /// always does.
    pub fn area(&self) -> (area: usize)
        requires
            self.spec_area() <= usize::MAX,
        ensures
            area == self.spec_area(),
    {
        (self.width() as usize) * (self.height() as usize)
    }

    /// The number of pixels, or `None` where it does not fit in a `usize`.
    pub fn checked_area(&self) -> (area: Option<usize>)
        ensures
            match area {
                Some(a) => a == self.spec_area(),
                None => self.spec_area() > usize::MAX,
            },
    {
        (self.width() as usize).checked_mul(self.height() as usize)
    }
}

/// A pair of coordinates.
#[derive(Clone, Copy, Debug)]
pub struct Vec2<T>(pub T, pub T);

impl<T: Clone + Copy> Vec2<T> {
    pub fn new(x: T, y: T) -> (v: Self)
        ensures
            v.0 == x,
            v.1 == y,
    {
        Self(x, y)
    }

    pub fn x(&self) -> (x: T)
        ensures
            x == self.0,
    {
        self.0
    }

    pub fn y(&self) -> (y: T)
        ensures
            y == self.1,
    {
        self.1
    }
}

} // verus!
