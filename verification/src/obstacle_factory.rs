//! Creation of obstacles at random places of the viewport.

use vstd::prelude::*;
use crate::entity::{is_obstacle_axis, Entity, Role};
use crate::random_source::{random_dir, random_vector};
use crate::units::OBSTACLE_RADIUS;
use crate::vector::Vector2;

verus! {

/// Extent of the visible area. The area is centred at the origin; obstacles
/// appear up to `width` to either side of it and up to `height` above and
/// below.
#[derive(Clone, Copy, Debug, PartialEq, Eq, Structural)]
pub struct Viewport {
    pub width: i64,
    pub height: i64,
}

/// Why the simulation cannot go on.
#[derive(Clone, Copy, Debug, PartialEq, Eq, Structural)]
pub enum ConfigError {
    /// An extent of the viewport is zero or negative.
    InvalidViewport,
}

impl Viewport {
    /// Both extents are positive.
    pub open spec fn valid(self) -> bool {
        self.width > 0 && self.height > 0
    }

    /// `p` lies strictly inside the spawn area.
    pub open spec fn contains(self, p: Vector2) -> bool {
        -self.width < p.x < self.width && -self.height < p.y < self.height
    }

    pub fn is_valid(&self) -> (b: bool)
        ensures
            b == self.valid(),
    {
        self.width > 0 && self.height > 0
    }
}

/// What holds of every obstacle as it leaves the factory.
pub open spec fn freshly_created(e: Entity, viewport: Viewport) -> bool {
    &&& e.role == Role::Obstacle
    &&& e.heading == 0
    &&& e.collision_radius == OBSTACLE_RADIUS
    &&& is_obstacle_axis(e.drift.x)
    &&& is_obstacle_axis(e.drift.y)
    &&& viewport.contains(e.position)
}

/// Creates one obstacle with a random drift at a random place of `viewport`.
///
/// Fails, without drawing anything, exactly when the viewport is not valid.
pub fn create(viewport: Viewport) -> (r: Result<Entity, ConfigError>)
    ensures
        r.is_ok() <==> viewport.valid(),
        r matches Ok(e) ==> freshly_created(e, viewport) && e.well_formed(),
        r matches Err(e) ==> e == ConfigError::InvalidViewport,
{
    if !viewport.is_valid() {
        return Err(ConfigError::InvalidViewport);
    }
    let drift = Vector2 { x: random_dir(), y: random_dir() };
    match random_vector(viewport.width, viewport.height) {
        Some(position) => match Entity::obstacle(position, drift) {
            Some(e) => Ok(e),
            None => Err(ConfigError::InvalidViewport),
        },
        None => Err(ConfigError::InvalidViewport),
    }
}

} // verus!
