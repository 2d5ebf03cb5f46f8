//! Screen rectangles and their union.

use vstd::prelude::*;

verus! {

/// A rectangle in screen pixels: origin and size.
#[derive(Debug, Clone, Copy, PartialEq, Eq, Hash, Structural)]
pub struct ScreenRect {
    pub x: isize,
    pub y: isize,
    pub width: isize,
    pub height: isize,
}

/// A rectangle whose corners lie where X11 geometry can put them: the origin
/// in 16-bit signed range, the size non-negative, the far corner no further
/// than a 16-bit extent from a 16-bit origin.
pub open spec fn bounded(r: ScreenRect) -> bool {
    &&& -32768 <= r.x <= 32767
    &&& -32768 <= r.y <= 32767
    &&& 0 <= r.width
    &&& 0 <= r.height
    &&& r.x + r.width <= 98302
    &&& r.y + r.height <= 98302
}

/// Whether a rectangle covers no area.
pub open spec fn is_empty_rect(r: ScreenRect) -> bool {
    !(r.x + r.width > r.x && r.y + r.height > r.y)
}

pub open spec fn min_i(a: int, b: int) -> int {
    if a <= b { a } else { b }
}

pub open spec fn max_i(a: int, b: int) -> int {
    if a >= b { a } else { b }
}

/// The smallest rectangle holding two rectangles; an empty one leaves the
/// other unchanged.
pub open spec fn rect_union(a: ScreenRect, b: ScreenRect) -> ScreenRect {
    if is_empty_rect(b) {
        a
    } else if is_empty_rect(a) {
        b
    } else {
        let x0 = min_i(a.x as int, b.x as int);
        let y0 = min_i(a.y as int, b.y as int);
        let x1 = max_i(a.x + a.width, b.x + b.width);
        let y1 = max_i(a.y + a.height, b.y + b.height);
        ScreenRect { x: x0 as isize, y: y0 as isize, width: (x1 - x0) as isize, height: (y1 - y0) as isize }
    }
}

/// Whether `inner` lies within `outer`.
pub open spec fn rect_contains(outer: ScreenRect, inner: ScreenRect) -> bool {
    &&& outer.x <= inner.x
    &&& outer.y <= inner.y
    &&& inner.x + inner.width <= outer.x + outer.width
    &&& inner.y + inner.height <= outer.y + outer.height
}

/// Calls `euclid::Rect::union` on the two rectangles (built with
/// `euclid::rect`): the result is the smallest rectangle holding both, or the
/// other rectangle where one of them is empty (no positive width and height).
#[verifier::external_body]
pub(crate) fn union(a: ScreenRect, b: ScreenRect) -> (r: ScreenRect)
    requires
        bounded(a),
        bounded(b),
    ensures
        r == rect_union(a, b),
{
    let ra: euclid::default::Rect<isize> = euclid::rect(a.x, a.y, a.width, a.height);
    let rb: euclid::default::Rect<isize> = euclid::rect(b.x, b.y, b.width, b.height);
    let u = ra.union(&rb);
    ScreenRect { x: u.origin.x, y: u.origin.y, width: u.size.width, height: u.size.height }
}

/// The union of bounded rectangles is bounded, and holds each non-empty one.
pub proof fn lemma_union_bounded(a: ScreenRect, b: ScreenRect)
    requires
        bounded(a),
        bounded(b),
    ensures
        bounded(rect_union(a, b)),
        !is_empty_rect(a) ==> rect_contains(rect_union(a, b), a),
        !is_empty_rect(b) ==> rect_contains(rect_union(a, b), b),
{
}

} // verus!
