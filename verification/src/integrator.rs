//! Movement and rotation of the entities, one tick at a time.

use vstd::prelude::*;
use crate::entity::{Entity, Role};
use crate::units::{saturate, saturate_i128, ANGULAR_STEP, OBSTACLE_SPEED, PLAYER_SPEED};
use crate::vector::Vector2;

verus! {

/// Distance that an entity of `role` travels on a tick along an axis on
/// which its drift is `drift`: the drift times the speed of the role.
pub open spec fn travel(role: Role, drift: i64) -> int {
    match role {
        Role::Controlled { .. } => PLAYER_SPEED * drift,
        Role::Obstacle => OBSTACLE_SPEED * drift,
    }
}

/// Heading that an entity of `role` gains on a tick. Only obstacles rotate.
pub open spec fn turn(role: Role) -> int {
    match role {
        Role::Controlled { .. } => 0,
        Role::Obstacle => ANGULAR_STEP as int,
    }
}

/// The entity one tick later: moved along its drift at the speed of its role
/// and turned by the angular step of its role. Nothing keeps it inside the
/// viewport; position and heading stop only at the ends of the 64-bit range.
/// Role, drift and collision radius stay as they are.
pub open spec fn advanced(e: Entity) -> Entity {
    Entity {
        role: e.role,
        position: Vector2 {
            x: saturate(e.position.x + travel(e.role, e.drift.x)) as i64,
            y: saturate(e.position.y + travel(e.role, e.drift.y)) as i64,
        },
        heading: saturate(e.heading + turn(e.role)) as i64,
        drift: e.drift,
        collision_radius: e.collision_radius,
    }
}

/// The entity `ticks` ticks later.
pub open spec fn advanced_by(e: Entity, ticks: nat) -> Entity
    decreases ticks,
{
    if ticks == 0 {
        e
    } else {
        advanced(advanced_by(e, (ticks - 1) as nat))
    }
}

/// Integrates one tick for a single entity.
pub fn advance(e: &mut Entity)
    ensures
        *final(e) == advanced(*old(e)),
{
    match e.role {
        Role::Controlled { .. } => {
            e.position = e.position.saturating_add_scaled(e.drift, PLAYER_SPEED);
        },
        Role::Obstacle => {
            e.position = e.position.saturating_add_scaled(e.drift, OBSTACLE_SPEED);
            e.heading = saturate_i128(e.heading as i128 + ANGULAR_STEP as i128);
        },
    }
}

/// Integrates one tick for every entity of `entities`.
pub fn advance_all(entities: &mut Vec<Entity>)
    ensures
        final(entities)@.len() == old(entities)@.len(),
        forall|i: int| 0 <= i < old(entities)@.len() ==> final(entities)@[i] == advanced(old(entities)@[i]),
{
    let count = entities.len();
    let mut k: usize = 0;
    while k < count
        invariant
            k <= count,
            entities@.len() == count,
            old(entities)@.len() == count,
            forall|i: int| 0 <= i < k ==> entities@[i] == advanced(old(entities)@[i]),
            forall|i: int| k <= i < count ==> entities@[i] == old(entities)@[i],
        decreases count - k,
    {
        let mut e = entities[k];
        advance(&mut e);
        entities.set(k, e);
        k += 1;
    }
}

/// Ticks never touch what was fixed at creation: after any number of them an
/// entity has the role, the drift and the collision radius that it started
/// with, and so it is well formed if it was.
pub proof fn lemma_ticks_keep_drift(e: Entity, ticks: nat)
    ensures
        advanced_by(e, ticks).drift == e.drift,
        advanced_by(e, ticks).role == e.role,
        advanced_by(e, ticks).collision_radius == e.collision_radius,
        e.well_formed() ==> advanced_by(e, ticks).well_formed(),
    decreases ticks,
{
    if ticks > 0 {
        lemma_ticks_keep_drift(e, (ticks - 1) as nat);
    }
}

} // verus!
