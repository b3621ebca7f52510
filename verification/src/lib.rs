//! Simulation core of a side-scrolling obstacle-avoidance game: a
//! player body under gravity and input-driven impulses, a scrolling
//! field of paired pipe obstacles spawned on a fixed cadence, and a
//! collision-triggered reset pipeline.
//!
//! All coordinates, velocities and durations are fixed-point values:
//! signed (or, for durations, unsigned) integers counting 1/1024ths
//! of a world unit or of a time unit. Rendering, asset loading,
//! input polling and the physics broad phase are collaborators that
//! feed this core plain values each tick.

pub mod input;
pub mod pipes;
pub mod player;
pub mod spawner;
pub mod units;
pub mod world;
