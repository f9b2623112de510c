//! Integer pixel geometry shared by the atlases and the compositor.

use vstd::prelude::*;

verus! {

/// Two-dimensional integer vector for pixel positions and sizes.
#[derive(Clone, Copy, Debug, PartialEq, Eq, Structural)]
pub struct Vec2i {
    pub x: i32,
    pub y: i32,
}

impl Vec2i {
    pub fn new(x: i32, y: i32) -> (v: Vec2i)
        ensures
            v.x == x,
            v.y == y,
    {
        Vec2i { x, y }
    }
}

/// Axis-aligned rectangle in pixel coordinates: origin at the top-left
/// corner, `y` growing downward as in texture space.
#[derive(Clone, Copy, Debug, PartialEq, Eq, Structural)]
pub struct RectPx {
    pub x: i32,
    pub y: i32,
    pub w: i32,
    pub h: i32,
}

/// Two rectangles are disjoint when they are separated along at least one
/// axis. Rectangles of zero width or height overlap nothing.
pub open spec fn rects_disjoint(a: RectPx, b: RectPx) -> bool {
    ||| a.x + a.w <= b.x
    ||| b.x + b.w <= a.x
    ||| a.y + a.h <= b.y
    ||| b.y + b.h <= a.y
}

/// A rectangle lies inside the `w` by `h` box anchored at the origin.
pub open spec fn rect_in_bounds(r: RectPx, w: int, h: int) -> bool {
    &&& 0 <= r.x && r.x + r.w <= w
    &&& 0 <= r.y && r.y + r.h <= h
    &&& r.w >= 0
    &&& r.h >= 0
}

} // verus!
