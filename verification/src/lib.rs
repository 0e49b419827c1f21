//! A falling-sand world: a grid of materials that fall, pile, spread and
//! annihilate under simple local rules, and autonomous agents that walk,
//! climb, dig and build on that grid.
//!
//! The grid automaton (`ground`) runs one in-place pass per tick, bottom to
//! top, with a per-cell "moved" marker that keeps any cell from being moved
//! into twice in the same tick. Agents (`dino`) read the grid, update their
//! own physics and job state machine, and emit deferred `GroundChange`
//! records for the tick driver to apply. All randomness flows through one
//! injectable deterministic generator (`rng`), so every run is repeatable
//! from a seed.

pub mod dino;
pub mod ground;
pub mod rng;
