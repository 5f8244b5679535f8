//! Core of a terminal renderer that draws a spinning cube as ASCII art.
//!
//! The renderer sweeps dense point grids over the six faces of a cube,
//! rotates every sample with closed-form three-axis rotation formulas,
//! projects it onto a character grid with a perspective divide, and resolves
//! per-cell visibility with a nearest-wins depth buffer.
//!
//! This crate holds the exact, machine-checked part of that pipeline:
//! the rotation algebra ([`rotation`]), the face parameterization table
//! ([`face`]), and the depth-tested frame buffer with its row-by-row
//! flush ([`framebuffer`]). Floating-point evaluation of the trigonometric
//! formulas and the terminal I/O live outside the verified core; they feed
//! plain integer samples into it.

use vstd::prelude::*;

pub mod face;
pub mod framebuffer;
pub mod rotation;

verus! {

/// Number of character columns in the terminal grid.
pub const SCREEN_WIDTH: u32 = 90;

/// Number of character rows in the terminal grid.
pub const SCREEN_HEIGHT: u32 = 60;

/// Half the cube's edge length, in model-space units.
pub const CUBE_HALF_WIDTH: u32 = 15;

/// Fixed horizontal margin added to every projected column.
pub const OFFSET_X: u32 = 15;

/// Fixed vertical margin added to every projected row.
pub const OFFSET_Y: u32 = 15;

} // verus!
