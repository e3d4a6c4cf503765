//! A continuously animated polar rose curve over a procedurally decorated
//! static background.
//!
//! All geometry is computed in integer fixed-point arithmetic so that every
//! step of the pipeline — the trigonometry, the curve sampler, the triangle
//! fan, the outline and the background decoration — carries an exact,
//! machine-checked contract.  Positions carry 32 fractional bits (`FX_SQ`
//! is one pixel), scalar values such as radii, colour channels and the sine
//! scale carry 16 (`FX_ONE` is one unit).  A thin rendering shell converts
//! these values to the screen's floating-point coordinates and issues the
//! draw calls; nothing in this crate performs I/O.

pub mod background;
pub mod color;
pub mod curve;
pub mod fixed;
pub mod mesh;
pub mod outline;
pub mod scene;
