//! What marks a window while windows are swapped. The shell draws it.

use crate::geometry::{Point, Rectangle, Size};
use vstd::prelude::*;

verus! {

/// The mark, which has a size of its own.
#[derive(Clone, Copy, Debug, PartialEq, Eq, Structural)]
pub struct SwapIndicator {
    pub size: Size,
}

/// A mark of one pixel.
pub fn swap_indicator() -> (r: SwapIndicator)
    ensures
        r.size == (Size { w: 1, h: 1 }),
{
    SwapIndicator { size: Size { w: 1, h: 1 } }
}

impl SwapIndicator {
    /// Changes the size.
    pub fn resize(&mut self, size: Size)
        ensures
            final(self).size == size,
    {
        self.size = size;
    }

    /// The size.
    pub fn current_size(&self) -> (r: Size)
        ensures
            r == self.size,
    {
        self.size
    }

    /// The area, relative to the mark.
    pub fn bbox(&self) -> (r: Rectangle)
        ensures
            r == (Rectangle { loc: Point { x: 0, y: 0 }, size: self.size }),
    {
        Rectangle { loc: Point { x: 0, y: 0 }, size: self.size }
    }
}

} // verus!
