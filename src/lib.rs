//! Simulation core of a one-boss arcade shooter: entities, collisions, the
//! per-tick update and the stage machine. Positions and lengths are integers
//! in thousandths of a pixel, so every rule is exact.

pub mod geometry;
pub mod entity;
pub mod collision;
pub mod game;
pub mod driver;
pub mod laws;
