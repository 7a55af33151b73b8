//! A tick-driven 2D arena: one controlled entity dodges a growing population of
//! drifting, rotating obstacles.
//!
//! All quantities are integers. Lengths, positions and directions are counted in
//! thousandths of a world unit (see [`units::UNIT`]), headings in thousandths of
//! a radian and time in nanoseconds, so that every rule of the simulation is
//! exact and can be stated as a contract.

pub mod collision;
pub mod entity;
pub mod input_mapper;
pub mod integrator;
pub mod obstacle_factory;
pub mod random_source;
pub mod simulation;
pub mod spawn_scheduler;
pub mod units;
pub mod vector;
