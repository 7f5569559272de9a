//! Escape-time rendering of the Mandelbrot set onto a character-cell surface.
//!
//! The numeric pipeline works on fixed-point coordinates (see [`fixed`]):
//! a raster coordinate is mapped into the complex plane ([`viewport`]), the
//! bounded divergence test is run for that point ([`escape`], using
//! [`complex`]), and the resulting iteration count picks a glyph/color pair
//! from a configured palette ([`palette`]). [`render`] drives the raster scan
//! and emits the exact sequence of surface operations for one frame.

pub mod complex;
pub mod config;
pub mod escape;
pub mod fixed;
pub mod palette;
pub mod render;
pub mod viewport;
