//! Rules of a small point-and-click game: a particle sits somewhere inside a
//! panel, a click on it scores and buys time, a spin button shuffles its
//! position for a number of frames, and a countdown ends the round.
//!
//! Every real-valued quantity is held in fixed point. Lengths are counted in
//! thousandths of a pixel, the particle's visual attributes in thousandths of
//! the whole, and time in nanoseconds. The window, the drawing and the clock
//! belong to the host program, which hands in elapsed time and click
//! coordinates and reads the state back.

pub mod geometry;
pub mod model;
pub mod particle;
pub mod random;
pub mod state;
pub mod display;
pub mod laws;
