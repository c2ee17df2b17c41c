//! A verified core for a 2D arcade simulation: fixed-point vector math,
//! circle/triangle geometry tests, edge-triggered input tracking, a
//! player-controlled ship, asteroid/bullet/explosion lifecycles, and the
//! tick-driven game state machine that orchestrates them.
//!
//! All quantities are fixed-point integers: a value of `fixed::SCALE`
//! stands for 1.0 unit. Angles are measured in microradians, with
//! `fixed::TURN` standing for one full revolution.

pub mod collide;
pub mod fixed;
pub mod game;
pub mod geom;
pub mod input;
pub mod math;
pub mod rng;
pub mod ship;
