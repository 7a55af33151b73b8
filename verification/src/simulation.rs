//! The whole arena and its single entry point, `tick`.

use vstd::prelude::*;
use crate::collision::{is_sweep_of, sweep};
use crate::entity::{Entity, Role};
use crate::input_mapper::{direction, input_direction, KeyState};
use crate::integrator::{advance, advance_all, advanced};
use crate::obstacle_factory::{create, freshly_created, ConfigError, Viewport};
use crate::spawn_scheduler::SpawnScheduler;

verus! {

/// All state of a running simulation: the spawn timer, the one controlled
/// entity, and the obstacles in the order in which they were created.
#[derive(Clone, Debug, PartialEq, Eq)]
pub struct Simulation {
    pub scheduler: SpawnScheduler,
    pub controlled: Entity,
    pub obstacles: Vec<Entity>,
}

/// What happened during one tick.
#[derive(Clone, Debug, PartialEq, Eq)]
pub struct TickEvents {
    /// Index of the obstacle that this tick created, if it created one.
    pub spawned: Option<usize>,
    /// Indices of the obstacles that overlap the controlled entity once
    /// everything has moved, in ascending order. What follows from a
    /// collision is left to the caller.
    pub collisions: Vec<usize>,
}

/// The mathematical content of a [`Simulation`].
#[verifier::ext_equal]
pub struct World {
    pub scheduler: SpawnScheduler,
    pub controlled: Entity,
    pub obstacles: Seq<Entity>,
}

impl World {
    /// There is exactly one controlled entity, every other entity is an
    /// obstacle, and each has a drift that its role allows.
    pub open spec fn well_formed(self) -> bool {
        &&& self.controlled.role is Controlled
        &&& self.controlled.well_formed()
        &&& forall|i: int|
            0 <= i < self.obstacles.len() ==> (#[trigger] self.obstacles[i]).role == Role::Obstacle
                && self.obstacles[i].well_formed()
    }

    /// The world as the simulation starts.
    pub open spec fn initial(interval: u64) -> World {
        World {
            scheduler: SpawnScheduler { elapsed: 0, interval },
            controlled: Entity::new_controlled(),
            obstacles: Seq::empty(),
        }
    }

    /// The world once its timer has ticked by `delta`.
    pub open spec fn ticked(self, delta: u64) -> World {
        World {
            scheduler: self.scheduler.after(delta),
            controlled: self.controlled,
            obstacles: self.obstacles,
        }
    }

    /// The world after the rest of a tick: `newcomer` joins the obstacles, the
    /// controlled entity takes the direction of `keys` as its drift, and then
    /// every entity, the newcomer too, is integrated once.
    pub open spec fn stepped(self, keys: KeyState, newcomer: Option<Entity>) -> World {
        let steered = Entity {
            role: self.controlled.role,
            position: self.controlled.position,
            heading: self.controlled.heading,
            drift: direction(keys),
            collision_radius: self.controlled.collision_radius,
        };
        let joined = match newcomer {
            Some(e) => self.obstacles.push(e),
            None => self.obstacles,
        };
        World {
            scheduler: self.scheduler,
            controlled: advanced(steered),
            obstacles: Seq::new(joined.len(), |i: int| advanced(joined[i])),
        }
    }
}

/// What the factory may have handed to a tick: an obstacle fresh from the
/// factory when the timer fired, and nothing when it did not.
pub open spec fn admissible(newcomer: Option<Entity>, due: bool, viewport: Viewport) -> bool {
    match newcomer {
        Some(e) => due && freshly_created(e, viewport),
        None => !due,
    }
}

impl View for Simulation {
    type V = World;

    open spec fn view(&self) -> World {
        World {
            scheduler: self.scheduler,
            controlled: self.controlled,
            obstacles: self.obstacles@,
        }
    }
}

impl Simulation {
    /// A simulation with the controlled entity at the origin, no obstacle,
    /// and a timer of the given interval in nanoseconds.
    pub fn new(interval: u64) -> (sim: Simulation)
        ensures
            sim@ =~= World::initial(interval),
            sim@.well_formed(),
    {
        Simulation {
            scheduler: SpawnScheduler::new(interval),
            controlled: Entity::controlled(),
            obstacles: Vec::new(),
        }
    }

    /// Runs one tick.
    ///
    /// In this order: the spawn timer advances by `delta` nanoseconds and, if
    /// it fires, one obstacle is created within `viewport`; the controlled
    /// entity takes its drift from `keys`; every entity is integrated; the
    /// controlled entity is tested against every obstacle.
    ///
    /// Fails exactly when an obstacle is due and `viewport` is not valid, and
    /// then leaves the simulation as it was.
    pub fn tick(&mut self, delta: u64, keys: KeyState, viewport: Viewport) -> (r: Result<
        TickEvents,
        ConfigError,
    >)
        ensures
            r.is_err() <==> old(self).scheduler.due(delta) && !viewport.valid(),
            r matches Err(e) ==> e == ConfigError::InvalidViewport && final(self)@ =~= old(self)@,
            r matches Ok(events) ==> exists|newcomer: Option<Entity>|
                {
                    &&& admissible(newcomer, old(self).scheduler.due(delta), viewport)
                    &&& final(self)@ =~= #[trigger] old(self)@.ticked(delta).stepped(keys, newcomer)
                    &&& events.spawned == spawn_index(old(self)@, newcomer)
                },
            r matches Ok(events) ==> is_sweep_of(
                events.collisions@,
                final(self).controlled,
                final(self).obstacles@,
            ),
            old(self)@.well_formed() ==> final(self)@.well_formed(),
    {
        let due = self.scheduler.is_due(delta);
        if due && !viewport.is_valid() {
            return Err(ConfigError::InvalidViewport);
        }
        let fired = self.scheduler.tick(delta);
        let newcomer = if fired {
            match create(viewport) {
                Ok(e) => Some(e),
                Err(e) => {
                    return Err(e);
                },
            }
        } else {
            None
        };
        proof {
            lemma_step_keeps_invariants(old(self)@.ticked(delta), keys, newcomer);
        }
        let events = self.step(keys, newcomer);
        Ok(events)
    }

    /// Runs a tick but for the timer: `newcomer`, if there is one, joins the
    /// obstacles; the controlled entity takes its drift from `keys`; every
    /// entity is integrated; the controlled entity is tested against every
    /// obstacle.
    pub fn step(&mut self, keys: KeyState, newcomer: Option<Entity>) -> (events: TickEvents)
        ensures
            final(self)@ =~= old(self)@.stepped(keys, newcomer),
            events.spawned == spawn_index(old(self)@, newcomer),
            is_sweep_of(events.collisions@, final(self).controlled, final(self).obstacles@),
    {
        let spawned = match newcomer {
            Some(e) => {
                let index = self.obstacles.len();
                self.obstacles.push(e);
                Some(index)
            },
            None => None,
        };
        self.controlled.drift = input_direction(keys);
        advance(&mut self.controlled);
        advance_all(&mut self.obstacles);
        let collisions = sweep(&self.controlled, &self.obstacles);
        TickEvents { spawned, collisions }
    }
}

/// Where a newcomer lands: behind the obstacles that are already there.
pub open spec fn spawn_index(before: World, newcomer: Option<Entity>) -> Option<usize> {
    match newcomer {
        Some(_) => Some(before.obstacles.len() as usize),
        None => None,
    }
}

/// A step never removes an obstacle and never touches what was fixed at
/// creation: the obstacles that were there keep their place, role, drift and
/// collision radius, and the controlled entity keeps its role and collision
/// radius. A well-formed world stays well formed when the newcomer is a
/// well-formed obstacle.
pub proof fn lemma_step_keeps_invariants(w: World, keys: KeyState, newcomer: Option<Entity>)
    ensures
        w.stepped(keys, newcomer).obstacles.len() == w.obstacles.len() + (if newcomer.is_some() {
            1int
        } else {
            0int
        }),
        forall|i: int|
            0 <= i < w.obstacles.len() ==> {
                let later = #[trigger] w.stepped(keys, newcomer).obstacles[i];
                &&& later == advanced(w.obstacles[i])
                &&& later.role == w.obstacles[i].role
                &&& later.drift == w.obstacles[i].drift
                &&& later.collision_radius == w.obstacles[i].collision_radius
            },
        w.stepped(keys, newcomer).controlled.role == w.controlled.role,
        w.stepped(keys, newcomer).controlled.collision_radius == w.controlled.collision_radius,
        w.stepped(keys, newcomer).scheduler == w.scheduler,
        w.well_formed() && (newcomer matches Some(e) ==> e.role == Role::Obstacle
            && e.well_formed()) ==> w.stepped(keys, newcomer).well_formed(),
{
}

} // verus!
