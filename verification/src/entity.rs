//! The two kinds of entity that live in the arena.

use vstd::prelude::*;
use crate::units::{INITIAL_HEALTH, OBSTACLE_RADIUS, PLAYER_RADIUS, UNIT};
use crate::vector::Vector2;

verus! {

/// What an entity is, with the attributes that only that kind carries.
#[derive(Clone, Copy, Debug, PartialEq, Eq, Structural)]
pub enum Role {
    /// The single entity that follows the directional keys.
    Controlled { health: i32 },
    /// An entity that drifts and rotates on its own.
    Obstacle,
}

/// A circular body of the arena.
///
/// `position` and `collision_radius` are in sub-units, `heading` in
/// thousandths of a radian. `drift` is the direction of travel, where
/// [`UNIT`] stands for a full step along an axis.
#[derive(Clone, Copy, Debug, PartialEq, Eq, Structural)]
pub struct Entity {
    pub role: Role,
    pub position: Vector2,
    pub heading: i64,
    pub drift: Vector2,
    pub collision_radius: u32,
}

/// A drift axis of an obstacle: strictly between minus one and one.
pub open spec fn is_obstacle_axis(a: i64) -> bool {
    -UNIT < a < UNIT
}

/// A drift axis of the controlled entity: minus one, zero or one.
pub open spec fn is_key_axis(a: i64) -> bool {
    a == -UNIT || a == 0 || a == UNIT
}

impl Entity {
    /// The drift is one that the entity's role allows.
    pub open spec fn well_formed(self) -> bool {
        match self.role {
            Role::Controlled { .. } => is_key_axis(self.drift.x) && is_key_axis(self.drift.y),
            Role::Obstacle => is_obstacle_axis(self.drift.x) && is_obstacle_axis(self.drift.y),
        }
    }

    /// The obstacle that `obstacle` builds from an admissible drift.
    pub open spec fn new_obstacle(position: Vector2, drift: Vector2) -> Entity {
        Entity {
            role: Role::Obstacle,
            position,
            heading: 0,
            drift,
            collision_radius: OBSTACLE_RADIUS,
        }
    }

    /// The controlled entity as the simulation starts: at rest at the origin,
    /// unrotated, with full health.
    pub open spec fn new_controlled() -> Entity {
        Entity {
            role: Role::Controlled { health: INITIAL_HEALTH },
            position: Vector2 { x: 0, y: 0 },
            heading: 0,
            drift: Vector2 { x: 0, y: 0 },
            collision_radius: PLAYER_RADIUS,
        }
    }

    /// Builds the controlled entity as the simulation starts.
    pub fn controlled() -> (e: Entity)
        ensures
            e == Entity::new_controlled(),
            e.well_formed(),
    {
        Entity {
            role: Role::Controlled { health: INITIAL_HEALTH },
            position: Vector2::zero(),
            heading: 0,
            drift: Vector2::zero(),
            collision_radius: PLAYER_RADIUS,
        }
    }

    /// An unrotated obstacle at `position` that will travel along `drift`, or
    /// `None` when an axis of `drift` is not strictly between minus one and one.
    pub fn obstacle(position: Vector2, drift: Vector2) -> (r: Option<Entity>)
        ensures
            r.is_some() <==> is_obstacle_axis(drift.x) && is_obstacle_axis(drift.y),
            r matches Some(e) ==> e == Entity::new_obstacle(position, drift) && e.well_formed(),
    {
        if -UNIT < drift.x && drift.x < UNIT && -UNIT < drift.y && drift.y < UNIT {
            Some(Entity {
                role: Role::Obstacle,
                position,
                heading: 0,
                drift,
                collision_radius: OBSTACLE_RADIUS,
            })
        } else {
            None
        }
    }

    /// Whether this is the controlled entity.
    pub fn is_controlled(&self) -> (b: bool)
        ensures
            b == (self.role is Controlled),
    {
        match self.role {
            Role::Controlled { .. } => true,
            Role::Obstacle => false,
        }
    }
}

} // verus!
