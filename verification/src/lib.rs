//! Traffic through a single signalised four-way intersection, simulated in
//! discrete ticks with exact integer arithmetic.
//!
//! Two models are provided. They share the geometry in [`geometry`] and
//! nothing else, and a program picks one of them.
//!
//! * The *phased* model ([`vehicle`], [`traffic_light`], [`simulation`]):
//!   every vehicle runs a four-state machine and crosses the intersection on
//!   a quadratic Bézier curve; the signal alternates between the two road
//!   axes and holds a congested axis longer.
//! * The *greedy* model ([`types`], [`app_config`], [`entity`], [`manager`]):
//!   vehicles keep a velocity and change it once, at their turning point;
//!   the signal goes to the approach with the most vehicles queued.

pub mod geometry;
pub mod app_config;
pub mod types;
pub mod entity;
pub mod manager;
pub mod simulation;
pub mod traffic_light;
pub mod vehicle;
