//! Positions and axis-aligned bounding-box collision.
//!
//! A sprite's collision box is centred on its transform translation and
//! extends half the scaled sprite size to each side. Two boxes collide
//! exactly when their projections overlap by a positive amount on both
//! axes. To stay in whole numbers the overlap is measured in half-pixels:
//! an edge of a box centred at `c` with extent `s` sits at `2*c - s` and
//! `2*c + s` on the doubled axis.

use vstd::prelude::*;

verus! {

/// A point in the plane, in whole pixels, origin at the window centre.
#[derive(Clone, Copy, PartialEq, Eq, Structural, Debug)]
pub struct Vec2i {
    pub x: i32,
    pub y: i32,
}

/// An axis-aligned bounding box: a centre plus the full (already scaled)
/// sprite size on each axis.
#[derive(Clone, Copy, PartialEq, Eq, Structural, Debug)]
pub struct Aabb {
    /// Centre of the box: the entity's transform translation.
    pub center: Vec2i,
    /// Full width of the box, the sprite width times the absolute scale.
    pub width: i32,
    /// Full height of the box, the sprite height times the absolute scale.
    pub height: i32,
}

impl Aabb {
    /// A box is well formed when its sides are positive.
    pub open spec fn wf(self) -> bool {
        self.width > 0 && self.height > 0
    }
}

/// Overlap of the two boxes along the x axis, in half-pixels: the smaller
/// right edge minus the larger left edge on the doubled axis.
pub open spec fn x_overlap(a: Aabb, b: Aabb) -> int {
    let right = if 2 * a.center.x + a.width <= 2 * b.center.x + b.width {
        2 * a.center.x + a.width
    } else {
        2 * b.center.x + b.width
    };
    let left = if 2 * a.center.x - a.width >= 2 * b.center.x - b.width {
        2 * a.center.x - a.width
    } else {
        2 * b.center.x - b.width
    };
    right - left
}

/// Overlap of the two boxes along the y axis, in half-pixels.
pub open spec fn y_overlap(a: Aabb, b: Aabb) -> int {
    let top = if 2 * a.center.y + a.height <= 2 * b.center.y + b.height {
        2 * a.center.y + a.height
    } else {
        2 * b.center.y + b.height
    };
    let bottom = if 2 * a.center.y - a.height >= 2 * b.center.y - b.height {
        2 * a.center.y - a.height
    } else {
        2 * b.center.y - b.height
    };
    top - bottom
}

/// Two boxes collide exactly when both overlaps are positive: touching
/// edges do not count.
pub open spec fn collides(a: Aabb, b: Aabb) -> bool {
    x_overlap(a, b) > 0 && y_overlap(a, b) > 0
}

/// Bounding-box collision test.
pub fn collide(a: &Aabb, b: &Aabb) -> (r: bool)
    ensures
        r == collides(*a, *b),
{
    let ax: i64 = a.center.x as i64;
    let bx: i64 = b.center.x as i64;
    let ay: i64 = a.center.y as i64;
    let by: i64 = b.center.y as i64;
    let aw: i64 = a.width as i64;
    let bw: i64 = b.width as i64;
    let ah: i64 = a.height as i64;
    let bh: i64 = b.height as i64;
    let x_right: i64 = if 2 * ax + aw <= 2 * bx + bw { 2 * ax + aw } else { 2 * bx + bw };
    let x_left: i64 = if 2 * ax - aw >= 2 * bx - bw { 2 * ax - aw } else { 2 * bx - bw };
    let y_top: i64 = if 2 * ay + ah <= 2 * by + bh { 2 * ay + ah } else { 2 * by + bh };
    let y_bottom: i64 = if 2 * ay - ah >= 2 * by - bh { 2 * ay - ah } else { 2 * by - bh };
    x_right > x_left && y_top > y_bottom
}

} // verus!
