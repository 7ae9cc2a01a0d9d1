//! What is shown while a window is dragged over a stack.

use crate::geometry::Size;
use vstd::prelude::*;

verus! {

/// What the hover shows: nothing.
#[derive(Clone, Copy, Debug, PartialEq, Eq, Structural)]
pub struct StackHoverInternal;

/// The area that is shown while a window is dragged over a stack.
#[derive(Clone, Copy, Debug, PartialEq, Eq, Structural)]
pub struct StackHover {
    pub program: StackHoverInternal,
    pub size: Size,
}

/// An area of the given size.
pub fn stack_hover(size: Size) -> (r: StackHover)
    ensures
        r == (StackHover { program: StackHoverInternal, size }),
{
    StackHover { program: StackHoverInternal, size }
}

} // verus!
