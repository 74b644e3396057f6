//! A deterministic two-paddle ball game simulation, verified with Verus.
//!
//! All quantities are integers: lengths are measured in thousandths of a
//! pixel, time in milliseconds, speeds in pixels per second (which is the
//! same number as thousandths of a pixel per millisecond) and angles in a
//! unit chosen so that a maximal paddle deflection of 45 degrees is exactly
//! one paddle half-height.
pub mod geometry;
pub mod entities;
pub mod control;
pub mod motion;
pub mod game;
pub mod laws;
