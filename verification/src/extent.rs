//! A two-dimensional pixel extent, the plain-value form of the surface
//! extent the platform layer negotiates with the display.

use vstd::prelude::*;

verus! {

/// Width and height of a surface or swapchain image, in pixels.
#[derive(Clone, Copy, Debug, PartialEq, Eq, Structural)]
pub struct Extent2d {
    pub width: u32,
    pub height: u32,
}

impl Extent2d {
    pub fn new(width: u32, height: u32) -> (r: Extent2d)
        ensures
            r.width == width,
            r.height == height,
    {
        Extent2d { width, height }
    }
}

} // verus!
