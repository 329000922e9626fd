//! Integer points and vectors, and the two operations the pen walk needs.

use euclid::default::{Point2D, Vector2D};
use vstd::prelude::*;

verus! {

/// A position in pixel units.
#[derive(Debug, Clone, Copy, PartialEq, Eq, Hash, Structural)]
pub struct Point {
    pub x: i32,
    pub y: i32,
}

/// A displacement in pixel units.
#[derive(Debug, Clone, Copy, PartialEq, Eq, Hash, Structural)]
pub struct Vector {
    pub x: i32,
    pub y: i32,
}

/// Quotient of `v` by a positive `d`, rounded toward zero.
pub open spec fn toward_zero(v: int, d: int) -> int {
    if v >= 0 {
        v / d
    } else {
        -((-v) / d)
    }
}

/// Whether `v` can be held in an `i32`.
pub open spec fn in_i32(v: int) -> bool {
    i32::MIN <= v <= i32::MAX
}

/// `euclid`'s `Point2D + Vector2D`: the sum is taken component by component.
/// The operator adds with `+` on `i32`, so sums outside `i32` are left out.
#[verifier::external_body]
pub(crate) fn moved_by(p: Point, v: Vector) -> (q: Point)
    requires
        in_i32(p.x + v.x),
        in_i32(p.y + v.y),
    ensures
        q.x == p.x + v.x,
        q.y == p.y + v.y,
{
    let q = Point2D::new(p.x, p.y) + Vector2D::new(v.x, v.y);
    Point { x: q.x, y: q.y }
}

/// `euclid`'s `Vector2D / scalar`: each component is divided with `/` on
/// `i32`, which rounds toward zero. A positive divisor cannot overflow.
#[verifier::external_body]
pub(crate) fn shrink(v: Vector, divisor: i32) -> (w: Vector)
    requires
        divisor > 0,
    ensures
        w.x == toward_zero(v.x as int, divisor as int),
        w.y == toward_zero(v.y as int, divisor as int),
{
    let w = Vector2D::new(v.x, v.y) / divisor;
    Vector { x: w.x, y: w.y }
}

} // verus!
