//! Two-dimensional fixed-point vectors.

use vstd::prelude::*;
use crate::units::{saturate, saturate_i128};

verus! {

/// A point or a direction of the plane, each axis counted in sub-units.
#[derive(Clone, Copy, Debug, PartialEq, Eq, Structural)]
pub struct Vector2 {
    pub x: i64,
    pub y: i64,
}

impl Vector2 {
    /// The sum `self + factor * dir`, each axis saturated at the 64-bit range.
    pub open spec fn add_scaled(self, dir: Vector2, factor: int) -> Vector2 {
        Vector2 {
            x: saturate(self.x + dir.x * factor) as i64,
            y: saturate(self.y + dir.y * factor) as i64,
        }
    }

    /// Squared Euclidean distance between two points.
    pub open spec fn distance_squared(self, other: Vector2) -> int {
        (self.x - other.x) * (self.x - other.x) + (self.y - other.y) * (self.y - other.y)
    }

    pub fn new(x: i64, y: i64) -> (v: Vector2)
        ensures
            v == (Vector2 { x, y }),
    {
        Vector2 { x, y }
    }

    /// The origin, which is also the direction of an entity at rest.
    pub fn zero() -> (v: Vector2)
        ensures
            v == (Vector2 { x: 0, y: 0 }),
    {
        Vector2 { x: 0, y: 0 }
    }

    /// Moves `self` by `factor` times `dir`. An axis that would leave the
    /// 64-bit range stops at its end.
    pub fn saturating_add_scaled(self, dir: Vector2, factor: i64) -> (r: Vector2)
        ensures
            r == self.add_scaled(dir, factor as int),
    {
        Vector2 {
            x: axis_add_scaled(self.x, dir.x, factor),
            y: axis_add_scaled(self.y, dir.y, factor),
        }
    }
}

/// One axis of [`Vector2::saturating_add_scaled`].
fn axis_add_scaled(start: i64, step: i64, factor: i64) -> (r: i64)
    ensures
        r == saturate(start + step * factor),
{
    let wide_step: i128 = step as i128;
    let wide_factor: i128 = factor as i128;
    assert(-0x4000_0000_0000_0000_0000_0000_0000_0000 <= wide_step * wide_factor
        <= 0x4000_0000_0000_0000_0000_0000_0000_0000) by (nonlinear_arith)
        requires
            -0x8000_0000_0000_0000 <= wide_step <= 0x8000_0000_0000_0000,
            -0x8000_0000_0000_0000 <= wide_factor <= 0x8000_0000_0000_0000,
    ;
    let moved: i128 = start as i128 + wide_step * wide_factor;
    saturate_i128(moved)
}

} // verus!
