//! Uniform random scalars and vectors for drift directions and spawn points.

use vstd::prelude::*;
use rand::Rng;
use crate::units::UNIT;
use crate::vector::Vector2;

verus! {

/// Draws from the half-open range `lo..hi` with `rand::Rng::gen_range` on the
/// generator that `rand::thread_rng` returns.
///
/// Trusted: the result lies in the range. `gen_range` panics on an empty range,
/// which `requires` rules out. Which value of the range comes back is left
/// open, and so is its distribution.
#[verifier::external_body]
fn sample_range(lo: i64, hi: i64) -> (r: i64)
    requires
        lo < hi,
    ensures
        lo <= r < hi,
{
    rand::thread_rng().gen_range(lo..hi)
}

/// A scalar drawn uniformly from the integers strictly between `-bound` and
/// `bound`, or `None` when there is no such integer.
pub fn random_scalar(bound: i64) -> (r: Option<i64>)
    ensures
        r.is_some() <==> bound > 0,
        r matches Some(v) ==> -bound < v < bound,
{
    if bound > 0 {
        Some(sample_range(1 - bound, bound))
    } else {
        None
    }
}

/// One axis of a random drift: a scalar strictly between minus one and one.
pub fn random_dir() -> (d: i64)
    ensures
        -UNIT < d < UNIT,
{
    sample_range(1 - UNIT, UNIT)
}

/// A vector whose axes are drawn independently, `x` strictly within
/// `bound_x` of zero and `y` strictly within `bound_y` of zero, or `None`
/// when a bound is not positive.
pub fn random_vector(bound_x: i64, bound_y: i64) -> (r: Option<Vector2>)
    ensures
        r.is_some() <==> bound_x > 0 && bound_y > 0,
        r matches Some(v) ==> -bound_x < v.x < bound_x && -bound_y < v.y < bound_y,
{
    if bound_x > 0 && bound_y > 0 {
        let x: i64 = sample_range(1 - bound_x, bound_x);
        let y: i64 = sample_range(1 - bound_y, bound_y);
        Some(Vector2 { x, y })
    } else {
        None
    }
}

} // verus!
