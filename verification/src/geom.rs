//! Integer 3-vectors for body positions, and squared Euclidean distance.

use vstd::prelude::*;

verus! {

/// Largest coordinate magnitude the distance computations accept; generous
/// enough for any position this scene produces, and small enough that a
/// squared distance between two in-bounds points always fits in a `u128`.
pub const COORD_BOUND: i64 = 0x1000_0000_0000_0000;

/// A point or vector in scene space, in integer coordinates.
#[derive(Clone, Copy, PartialEq, Eq, Structural, Debug)]
pub struct Vec3 {
    pub x: i64,
    pub y: i64,
    pub z: i64,
}

/// Whether every coordinate of `v` lies within `COORD_BOUND`.
pub open spec fn in_bounds(v: Vec3) -> bool {
    -COORD_BOUND <= v.x <= COORD_BOUND && -COORD_BOUND <= v.y <= COORD_BOUND
        && -COORD_BOUND <= v.z <= COORD_BOUND
}

/// The squared Euclidean distance between `a` and `b`.
pub open spec fn dist_sq(a: Vec3, b: Vec3) -> int {
    (a.x - b.x) * (a.x - b.x) + (a.y - b.y) * (a.y - b.y) + (a.z - b.z) * (a.z - b.z)
}

/// `v` with its vertical component zeroed: the projection of `v` onto the
/// ground plane.
pub fn project_to_ground(v: Vec3) -> (r: Vec3)
    ensures
        r.x == v.x,
        r.y == 0,
        r.z == v.z,
{
    Vec3 { x: v.x, y: 0, z: v.z }
}

/// Composes a child transform with its parent's: the world position of a
/// body orbiting `parent` at relative offset `child` is the component-wise
/// sum of the two.
pub fn translate(parent: Vec3, child: Vec3) -> (r: Vec3)
    requires
        in_bounds(parent),
        in_bounds(child),
    ensures
        r.x == parent.x + child.x,
        r.y == parent.y + child.y,
        r.z == parent.z + child.z,
{
    Vec3 { x: parent.x + child.x, y: parent.y + child.y, z: parent.z + child.z }
}

/// Computes the squared Euclidean distance between two in-bounds points.
pub fn dist_sq_exec(a: Vec3, b: Vec3) -> (d: u128)
    requires
        in_bounds(a),
        in_bounds(b),
    ensures
        d == dist_sq(a, b),
{
    let dx = (a.x as i128) - (b.x as i128);
    let dy = (a.y as i128) - (b.y as i128);
    let dz = (a.z as i128) - (b.z as i128);
    proof {
        lemma_square_bounded(dx as int);
        lemma_square_bounded(dy as int);
        lemma_square_bounded(dz as int);
    }
    let sx = (dx * dx) as u128;
    let sy = (dy * dy) as u128;
    let sz = (dz * dz) as u128;
    sx + sy + sz
}

/// The square of a coordinate difference is non-negative and, for in-bounds
/// coordinates, small enough that three of them sum inside a `u128`.
proof fn lemma_square_bounded(d: int)
    requires
        -0x2000_0000_0000_0000 <= d <= 0x2000_0000_0000_0000,
    ensures
        0 <= d * d <= 0x4000_0000_0000_0000_0000_0000_0000_0000,
{
    assert(0 <= d * d <= 0x4000_0000_0000_0000_0000_0000_0000_0000) by (nonlinear_arith)
        requires
            -0x2000_0000_0000_0000 <= d <= 0x2000_0000_0000_0000,
    ;
}

} // verus!
