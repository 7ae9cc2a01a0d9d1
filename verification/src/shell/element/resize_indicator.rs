//! What marks a window while it is resized with the keyboard. The shell draws it.

use crate::config::key_bindings::ResizeDirection;
use crate::geometry::{Point, Rectangle, Size};
use vstd::prelude::*;
use vstd::string::StringExecFns;

verus! {

/// The edges from which a window can be resized.
#[derive(Clone, Copy, Debug, PartialEq, Eq, Structural)]
pub struct ResizeEdges {
    pub top: bool,
    pub bottom: bool,
    pub left: bool,
    pub right: bool,
}

/// A shortcut of the desktop: its keys, and whether it makes windows larger or smaller.
#[derive(Debug, PartialEq, Eq)]
pub struct ResizeShortcut {
    pub pattern: String,
    pub resizing: Option<ResizeDirection>,
}

/// The mark.
#[derive(Debug, PartialEq, Eq)]
pub struct ResizeIndicatorInternal {
    pub edges: ResizeEdges,
    pub direction: ResizeDirection,
    /// The keys that make the window larger.
    pub shortcut1: String,
    /// The keys that make the window smaller.
    pub shortcut2: String,
}

/// The first shortcut with a direction.
pub open spec fn first_shortcut(shortcuts: Seq<ResizeShortcut>, direction: ResizeDirection) -> Option<
    Seq<char>,
>
    decreases shortcuts.len(),
{
    if shortcuts.len() == 0 {
        None
    } else if shortcuts[0].resizing == Some(direction) {
        Some(shortcuts[0].pattern@)
    } else {
        first_shortcut(shortcuts.skip(1), direction)
    }
}

/// The keys of a direction as they are shown: those of the first shortcut, or else a text that
/// says that there are none.
pub open spec fn label(
    shortcuts: Seq<ResizeShortcut>,
    direction: ResizeDirection,
    unknown: Seq<char>,
) -> Seq<char> {
    match first_shortcut(shortcuts, direction) {
        Some(pattern) => pattern + ": "@,
        None => unknown,
    }
}

/// The keys of a direction as they are shown.
fn label_of(shortcuts: &Vec<ResizeShortcut>, direction: ResizeDirection, unknown: &str) -> (r: String)
    ensures
        r@ == label(shortcuts@, direction, unknown@),
{
    let mut i: usize = 0;
    assert(shortcuts@.skip(0) =~= shortcuts@);
    while i < shortcuts.len()
        invariant
            i <= shortcuts@.len(),
            first_shortcut(shortcuts@, direction) == first_shortcut(
                shortcuts@.skip(i as int),
                direction,
            ),
        decreases shortcuts@.len() - i,
    {
        assert(shortcuts@.skip(i as int).skip(1) =~= shortcuts@.skip(i + 1));
        if shortcuts[i].resizing == Some(direction) {
            let mut out: String = shortcuts[i].pattern.clone();
            out.append(": ");
            return out;
        }
        i += 1;
    }
    String::from_str(unknown)
}

/// A mark for all edges. `unknown` is shown where there are no keys.
pub fn resize_indicator(
    direction: ResizeDirection,
    shortcuts: &Vec<ResizeShortcut>,
    unknown: &str,
) -> (r: ResizeIndicatorInternal)
    ensures
        r.edges == (ResizeEdges { top: true, bottom: true, left: true, right: true }),
        r.direction == direction,
        r.shortcut1@ == label(shortcuts@, ResizeDirection::Outwards, unknown@),
        r.shortcut2@ == label(shortcuts@, ResizeDirection::Inwards, unknown@),
{
    ResizeIndicatorInternal {
        edges: ResizeEdges { top: true, bottom: true, left: true, right: true },
        direction,
        shortcut1: label_of(shortcuts, ResizeDirection::Outwards, unknown),
        shortcut2: label_of(shortcuts, ResizeDirection::Inwards, unknown),
    }
}

impl ResizeIndicatorInternal {
    /// The size: none, since the shell draws the mark.
    pub fn current_size(&self) -> (r: Size)
        ensures
            r == (Size { w: 0, h: 0 }),
    {
        Size { w: 0, h: 0 }
    }

    /// The area: none.
    pub fn bbox(&self) -> (r: Rectangle)
        ensures
            r == (Rectangle { loc: Point { x: 0, y: 0 }, size: Size { w: 0, h: 0 } }),
    {
        Rectangle { loc: Point { x: 0, y: 0 }, size: Size { w: 0, h: 0 } }
    }
}

} // verus!
