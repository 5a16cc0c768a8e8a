//! Spawning, input handling and the tick of the greedy model.

pub mod input;
pub mod intersection;
pub mod spawner;
