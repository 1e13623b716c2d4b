//! A Flappy Bird simulation: gravity and flap integration for the bird,
//! collision against scrolling pipe pairs, and the recycling of pipes that
//! leave the screen.
//!
//! All quantities are integers. Lengths are in micropixels, times in
//! milliseconds, velocities in micropixels per millisecond and angles in
//! millidegrees, so every formula of the simulation is exact.

pub mod components;
pub mod constants;
pub mod laws;
pub mod plugins;
pub mod systems;
pub mod utils;
