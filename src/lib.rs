//! A side-scrolling "flap through the gaps" arcade game, modelled in exact
//! integer fixed point so that its frame logic can be proved.
//!
//! Units: positions are in sub-pixels (`SUBPIXELS_PER_PIXEL` per pixel), time
//! steps in microseconds, velocities in sub-pixels per microsecond and angles
//! in micro-degrees. With these units every per-frame integration step is an
//! exact integer computation.

pub mod geometry;
pub mod fixed;
pub mod bird;
pub mod game;
pub mod pipe;
pub mod glyph;
