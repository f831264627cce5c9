use vstd::prelude::*;

verus! {

/// The value `v` moved into the range from `lo` to `hi`. Where the range is
/// empty (`lo > hi`) a value under `lo` becomes `lo` and every other `hi`.
pub open spec fn clamped(v: u32, lo: u32, hi: u32) -> u32 {
    if v < lo {
        lo
    } else if v > hi {
        hi
    } else {
        v
    }
}

/// Moves `v` into the range from `lo` to `hi`.
pub fn clamp(v: u32, lo: u32, hi: u32) -> (r: u32)
    ensures
        r == clamped(v, lo, hi),
        lo <= hi ==> lo <= r <= hi,
        lo <= v <= hi ==> r == v,
{
    if v < lo {
        lo
    } else if v > hi {
        hi
    } else {
        v
    }
}

/// A size in pixels: of a window, of a surface, of the images of a swap chain.
#[derive(Clone, Copy, Debug, PartialEq, Eq, Structural)]
pub struct Extent {
    pub width: u32,
    pub height: u32,
}

impl Extent {
    /// Whether the extent covers no pixel at all.
    pub open spec fn zero_area(self) -> bool {
        self.width == 0 || self.height == 0
    }

    /// Whether both sides lie between the sides of `lo` and of `hi`.
    pub open spec fn fits(self, lo: Extent, hi: Extent) -> bool {
        &&& lo.width <= self.width <= hi.width
        &&& lo.height <= self.height <= hi.height
    }

    /// Each side moved into the range that `lo` and `hi` give for it.
    pub open spec fn clamped(self, lo: Extent, hi: Extent) -> Extent {
        Extent {
            width: clamped(self.width, lo.width, hi.width),
            height: clamped(self.height, lo.height, hi.height),
        }
    }

    pub fn new(width: u32, height: u32) -> (r: Extent)
        ensures
            r.width == width,
            r.height == height,
    {
        Extent { width, height }
    }

    pub fn is_zero_area(&self) -> (r: bool)
        ensures
            r == self.zero_area(),
    {
        self.width == 0 || self.height == 0
    }

    /// Whether the extent lies in the range from `lo` to `hi`, side by side.
    pub fn is_within(&self, lo: &Extent, hi: &Extent) -> (r: bool)
        ensures
            r == self.fits(*lo, *hi),
    {
        lo.width <= self.width && self.width <= hi.width && lo.height <= self.height
            && self.height <= hi.height
    }

    /// The extent with each side moved into the range from `lo` to `hi`.
    pub fn clamp(&self, lo: &Extent, hi: &Extent) -> (r: Extent)
        ensures
            r == self.clamped(*lo, *hi),
            lo.fits(*lo, *hi) ==> r.fits(*lo, *hi),
            self.fits(*lo, *hi) ==> r == *self,
    {
        Extent {
            width: clamp(self.width, lo.width, hi.width),
            height: clamp(self.height, lo.height, hi.height),
        }
    }
}

} // verus!
