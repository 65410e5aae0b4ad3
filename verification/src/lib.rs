//! The raster side of a one-sphere ray caster.
//!
//! A picture is a grid of eight-bit RGB pixels. [`raster::render`] fills one by
//! asking a shader for the color of every position, and hands the grid out as
//! bytes. [`shader::shade`] is the rule that a shader applies once it knows
//! whether the ray through a pixel met the sphere: the sphere is pure red, and
//! everything else takes the color of the sky.
//!
//! Rays, the sphere test and the sky gradient are computed in floating point.
//! They are not part of this crate: the caller supplies them as closures.

pub mod canvas;
pub mod color;
pub mod grid;
pub mod raster;
pub mod shader;
