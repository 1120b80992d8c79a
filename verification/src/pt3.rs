//! Componentwise operations on 3-D points in fixed-point coordinates.
//!
//! A coordinate is a signed count of 1/65536 units, so the surrounding
//! code can trade in exact integers; a tolerance of one unit stands in for
//! the usual floating-point epsilon.

use vstd::prelude::*;

verus! {

/// How far two coordinates may lie apart and still count as equal, in
/// 1/65536 units.
pub const ALMOST_EQ_TOLERANCE: i64 = 1;

/// A 3-D point; each coordinate counts 1/65536 units.
#[derive(Clone, Copy, Debug, PartialEq, Eq, Structural)]
pub struct Point3 {
    pub x: i64,
    pub y: i64,
    pub z: i64,
}

/// The smaller of two coordinates.
pub open spec fn coord_min(a: i64, b: i64) -> i64 {
    if a <= b {
        a
    } else {
        b
    }
}

/// The larger of two coordinates.
pub open spec fn coord_max(a: i64, b: i64) -> i64 {
    if a >= b {
        a
    } else {
        b
    }
}

/// The distance between two coordinates.
pub open spec fn coord_dist(a: i64, b: i64) -> int {
    if a >= b {
        a - b
    } else {
        b - a
    }
}

/// The componentwise minimum of two points.
pub fn min(p1: &Point3, p2: &Point3) -> (r: Point3)
    ensures
        r.x == coord_min(p1.x, p2.x),
        r.y == coord_min(p1.y, p2.y),
        r.z == coord_min(p1.z, p2.z),
{
    Point3 {
        x: if p1.x <= p2.x {
            p1.x
        } else {
            p2.x
        },
        y: if p1.y <= p2.y {
            p1.y
        } else {
            p2.y
        },
        z: if p1.z <= p2.z {
            p1.z
        } else {
            p2.z
        },
    }
}

/// The componentwise maximum of two points.
pub fn max(p1: &Point3, p2: &Point3) -> (r: Point3)
    ensures
        r.x == coord_max(p1.x, p2.x),
        r.y == coord_max(p1.y, p2.y),
        r.z == coord_max(p1.z, p2.z),
{
    Point3 {
        x: if p1.x >= p2.x {
            p1.x
        } else {
            p2.x
        },
        y: if p1.y >= p2.y {
            p1.y
        } else {
            p2.y
        },
        z: if p1.z >= p2.z {
            p1.z
        } else {
            p2.z
        },
    }
}

/// Whether two coordinates lie within the tolerance of each other.
fn coord_almost_eq(a: i64, b: i64) -> (r: bool)
    ensures
        r == (coord_dist(a, b) <= ALMOST_EQ_TOLERANCE),
{
    let d: i128 = a as i128 - b as i128;
    -(ALMOST_EQ_TOLERANCE as i128) <= d && d <= ALMOST_EQ_TOLERANCE as i128
}

/// Whether two points agree in every coordinate up to the tolerance.
pub fn almost_eq(p1: &Point3, p2: &Point3) -> (r: bool)
    ensures
        r == {
            &&& coord_dist(p1.x, p2.x) <= ALMOST_EQ_TOLERANCE
            &&& coord_dist(p1.y, p2.y) <= ALMOST_EQ_TOLERANCE
            &&& coord_dist(p1.z, p2.z) <= ALMOST_EQ_TOLERANCE
        },
{
    coord_almost_eq(p1.x, p2.x) && coord_almost_eq(p1.y, p2.y) && coord_almost_eq(p1.z, p2.z)
}

} // verus!
