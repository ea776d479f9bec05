//! A verified tower-defense simulation engine.
//!
//! The engine runs a fixed-timestep match: monsters travel a waypoint path
//! across a map, towers detect and damage them according to configurable
//! targeting strategies and status-effect behaviors, and the player spends
//! in-match currency to build and upgrade towers.
//!
//! All fractional quantities (hit points, speeds, seconds, multipliers) are
//! held in fixed-point "milli" units: the integer `1000` stands for one whole
//! unit. This keeps every update step exact and free of floating point.

pub mod arith;
pub mod behavior;
pub mod catalog;
pub mod element;
pub mod game;
pub mod laws;
pub mod map;
pub mod maps;
pub mod monster;
pub mod position;
pub mod rng;
pub mod text;
pub mod tower;
pub mod wave;
