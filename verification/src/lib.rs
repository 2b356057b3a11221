//! Worms wandering over a canvas: the simulation and the picture of each frame.

pub mod config;
pub mod fixed;
pub mod laws;
pub mod paint;
pub mod trig;
pub mod world;
pub mod worm;
