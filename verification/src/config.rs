//! Screen geometry: the 160x144 output resolution and integer scaling of
//! it for a host window.

use vstd::prelude::*;

verus! {

/// A width and height in pixels.
#[derive(Debug, Clone, Copy, PartialEq, Eq, Structural)]
pub struct Dimensions {
    pub width: u32,
    pub height: u32,
}

impl Dimensions {
    pub fn new(width: u32, height: u32) -> (d: Dimensions)
        ensures
            d.width == width,
            d.height == height,
    {
        Dimensions { width, height }
    }

    /// These dimensions blown up by an integer factor.
    pub fn scale(&self, factor: u32) -> (d: Dimensions)
        requires
            self.width * factor <= u32::MAX,
            self.height * factor <= u32::MAX,
        ensures
            d.width == self.width * factor,
            d.height == self.height * factor,
    {
        Dimensions { width: self.width * factor, height: self.height * factor }
    }
}

} // verus!
