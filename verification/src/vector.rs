//! Points of three-dimensional space on an integer grid.

use vstd::prelude::*;

verus! {

/// A point with integer coordinates.
#[derive(Clone, Copy, Debug, PartialEq, Eq, Structural)]
pub struct Point3 {
    pub x: i32,
    pub y: i32,
    pub z: i32,
}

impl Point3 {
    /// The square of the Euclidean distance between two points.
    pub open spec fn dist_sq(self, other: Point3) -> int {
        (self.x - other.x) * (self.x - other.x) + (self.y - other.y) * (self.y - other.y) + (self.z
            - other.z) * (self.z - other.z)
    }

    /// The point with the given coordinates.
    pub fn new(x: i32, y: i32, z: i32) -> (p: Point3)
        ensures
            p == (Point3 { x, y, z }),
    {
        Point3 { x, y, z }
    }

    /// Computes the square of the Euclidean distance to `other`.
    pub fn distance_squared(&self, other: &Point3) -> (d: u128)
        ensures
            d == self.dist_sq(*other),
    {
        let dx: i128 = self.x as i128 - other.x as i128;
        let dy: i128 = self.y as i128 - other.y as i128;
        let dz: i128 = self.z as i128 - other.z as i128;
        proof {
            lemma_square_bounded(dx as int);
            lemma_square_bounded(dy as int);
            lemma_square_bounded(dz as int);
        }
        (dx * dx + dy * dy + dz * dz) as u128
    }
}

/// The square of a difference of two coordinates is non-negative and below 2^64.
proof fn lemma_square_bounded(d: int)
    by (nonlinear_arith)
    requires
        -0x1_0000_0000 < d < 0x1_0000_0000,
    ensures
        0 <= d * d < 0x1_0000_0000_0000_0000,
{
}

/// Distance does not depend on the order of the two points.
pub proof fn lemma_dist_sq_symmetric(a: Point3, b: Point3)
    ensures
        a.dist_sq(b) == b.dist_sq(a),
{
    assert((a.x - b.x) * (a.x - b.x) == (b.x - a.x) * (b.x - a.x)) by (nonlinear_arith);
    assert((a.y - b.y) * (a.y - b.y) == (b.y - a.y) * (b.y - a.y)) by (nonlinear_arith);
    assert((a.z - b.z) * (a.z - b.z) == (b.z - a.z) * (b.z - a.z)) by (nonlinear_arith);
}

} // verus!
