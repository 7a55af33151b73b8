//! Fixed-point scale, tuning constants and saturation at the 64-bit range.

use vstd::prelude::*;

verus! {

/// Number of sub-units in one world unit (and in one radian).
pub const UNIT: i64 = 1000;

/// Distance factor applied to an obstacle's drift on every tick.
pub const OBSTACLE_SPEED: i64 = 2;

/// Distance factor applied to the controlled entity's drift on every tick.
pub const PLAYER_SPEED: i64 = 3;

/// Heading gained by an obstacle on every tick: three radians.
pub const ANGULAR_STEP: i64 = 3000;

/// Collision radius of an obstacle: sixty world units.
pub const OBSTACLE_RADIUS: u32 = 60000;

/// Collision radius of the controlled entity: five world units.
pub const PLAYER_RADIUS: u32 = 5000;

/// Health of the controlled entity when the simulation starts.
pub const INITIAL_HEALTH: i32 = 3;

/// Default time between two spawns: half a second, in nanoseconds.
pub const SPAWN_INTERVAL: u64 = 500000000;

/// The value of the 64-bit signed range that lies nearest to `v`.
pub open spec fn saturate(v: int) -> int {
    if v < i64::MIN {
        i64::MIN as int
    } else if v > i64::MAX {
        i64::MAX as int
    } else {
        v
    }
}

/// Brings a wide intermediate result back into the 64-bit signed range.
pub fn saturate_i128(v: i128) -> (r: i64)
    ensures
        r == saturate(v as int),
{
    if v < i64::MIN as i128 {
        i64::MIN
    } else if v > i64::MAX as i128 {
        i64::MAX
    } else {
        v as i64
    }
}

} // verus!
