//! The moving parts of the greedy model: vehicles and the signal.

pub mod traffic_light;
pub mod vehicle;
