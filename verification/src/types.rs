use vstd::prelude::*;

verus! {

/// Size of the drawing surface in pixels.
#[derive(Debug, Clone, Copy, PartialEq, Eq, Structural)]
pub struct Viewport {
    pub width: u32,
    pub height: u32,
}

impl Viewport {
    /// A viewport of the given size.
    pub fn new(width: u32, height: u32) -> (v: Viewport)
        ensures
            v.width == width,
            v.height == height,
    {
        Viewport { width, height }
    }

    /// A viewport is usable when both sides are non-zero.
    pub fn is_valid(self) -> (r: bool)
        ensures
            r == (self.width > 0 && self.height > 0),
    {
        self.width > 0 && self.height > 0
    }
}

} // verus!
