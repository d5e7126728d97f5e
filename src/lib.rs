//! Gameplay core of a small arena tank shooter, in integer fixed-point units.
//!
//! Lengths are measured in thousandths of a pixel and times in milliseconds.

pub mod config;
pub mod geometry;
pub mod tank;
pub mod collision;
pub mod healthbar;
pub mod combat;
pub mod random;
pub mod turret;
pub mod ai;
pub mod systems;
