//! The renderer's plan for one redraw: the canvas is resized to a square of
//! side `2 * size` and a full circle of radius `size` is drawn centered at
//! `(size, size)`. The plan carries the exact geometry; the host applies it
//! to the real drawing surface with one clear, one arc, one fill, one stroke.

use crate::size::{valid_size, Size};
use vstd::prelude::*;

verus! {

/// Everything one redraw needs: the square canvas side and the circle.
#[derive(Clone, Copy, PartialEq, Eq, Structural, Debug)]
pub struct DotPlan {
    /// New width and height of the drawing surface.
    pub dim: u32,
    /// Circle center, x coordinate.
    pub cx: u32,
    /// Circle center, y coordinate.
    pub cy: u32,
    /// Circle radius.
    pub radius: u32,
}

/// The plan a given size must produce: a `2 * v` square holding a circle of
/// radius `v` centered at `(v, v)`, so the circle fits the surface exactly.
pub open spec fn plan_matches(p: DotPlan, v: u32) -> bool {
    &&& p.dim == 2 * v
    &&& p.cx == v
    &&& p.cy == v
    &&& p.radius == v
}

/// The filled disk: a pixel lies in the drawn circle exactly when its
/// distance from the center is at most the radius.
pub open spec fn covers(p: DotPlan, x: int, y: int) -> bool {
    (x - p.cx) * (x - p.cx) + (y - p.cy) * (y - p.cy) <= p.radius * p.radius
}

/// Computes the redraw plan for a validated size.
pub fn draw_plan(size: Size) -> (r: DotPlan)
    requires
        size.wf(),
    ensures
        plan_matches(r, size.spec_value()),
{
    let v: u32 = size.value();
    DotPlan { dim: 2 * v, cx: v, cy: v, radius: v }
}

/// Squares of values no larger than `2^32` stay comfortably inside `i128`.
proof fn lemma_square_bound(v: int)
    requires
        -0x1_0000_0000 <= v <= 0x1_0000_0000,
    ensures
        0 <= v * v <= 0x1_0000_0000_0000_0000,
{
    assert(0 <= v * v <= 0x1_0000_0000_0000_0000) by (nonlinear_arith)
        requires
            -0x1_0000_0000 <= v <= 0x1_0000_0000,
    ;
}

impl DotPlan {
    /// Decides whether the drawn disk covers the pixel at `(x, y)`.
    pub fn covers_pixel(&self, x: u32, y: u32) -> (r: bool)
        ensures
            r == covers(*self, x as int, y as int),
    {
        let dx: i128 = (x as i128) - (self.cx as i128);
        let dy: i128 = (y as i128) - (self.cy as i128);
        proof {
            lemma_square_bound(dx as int);
            lemma_square_bound(dy as int);
            lemma_square_bound(self.radius as int);
        }
        let dd: i128 = dx * dx + dy * dy;
        let rr: i128 = (self.radius as i128) * (self.radius as i128);
        dd <= rr
    }
}

/// Geometry law: after a redraw for size `v`, the surface is a square of
/// side `2 * v`, the boundary pixel `(2 * v - 1, v)` lies inside the disk,
/// and the corner `(0, 0)` stays clear.
pub proof fn lemma_draw_geometry(p: DotPlan, v: u32)
    requires
        valid_size(v),
        plan_matches(p, v),
    ensures
        p.dim == 2 * v && p.cx == v && p.cy == v && p.radius == v,
        covers(p, 2 * v - 1, v as int),
        !covers(p, 0, 0),
{
    let vi = v as int;
    assert((vi - 1) * (vi - 1) <= vi * vi) by (nonlinear_arith)
        requires
            vi >= 1,
    ;
    assert(vi * vi + vi * vi > vi * vi) by (nonlinear_arith)
        requires
            vi >= 1,
    ;
    assert((0 - vi) * (0 - vi) == vi * vi) by (nonlinear_arith);
}

} // verus!
