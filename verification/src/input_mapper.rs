//! From the state of the directional keys to the controlled entity's drift.

use vstd::prelude::*;
use crate::units::UNIT;
use crate::vector::Vector2;

verus! {

/// Which of the four directional keys are held down.
#[derive(Clone, Copy, Debug, PartialEq, Eq, Structural)]
pub struct KeyState {
    pub left: bool,
    pub right: bool,
    pub up: bool,
    pub down: bool,
}

/// One axis of the direction: the key that is looked at first wins when both
/// keys of the axis are held.
pub open spec fn axis(first: bool, toward_first: int, second: bool) -> int {
    if first {
        toward_first
    } else if second {
        -toward_first
    } else {
        0
    }
}

/// The direction that `keys` ask for. The axes are independent. Left is
/// looked at before right and up before down, so left and up win a tie.
pub open spec fn direction(keys: KeyState) -> Vector2 {
    Vector2 {
        x: axis(keys.left, -UNIT as int, keys.right) as i64,
        y: axis(keys.up, UNIT as int, keys.down) as i64,
    }
}

/// Maps the held keys to a direction whose axes are minus one, zero or one.
pub fn input_direction(keys: KeyState) -> (d: Vector2)
    ensures
        d == direction(keys),
{
    let x: i64 = if keys.left {
        -UNIT
    } else if keys.right {
        UNIT
    } else {
        0
    };
    let y: i64 = if keys.up {
        UNIT
    } else if keys.down {
        -UNIT
    } else {
        0
    };
    Vector2 { x, y }
}

impl KeyState {
    /// No key held.
    pub fn none() -> (k: KeyState)
        ensures
            k == (KeyState { left: false, right: false, up: false, down: false }),
    {
        KeyState { left: false, right: false, up: false, down: false }
    }
}

} // verus!
