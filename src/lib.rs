//! Pixel-perfect presentation of a fixed-resolution simulation surface on a
//! window of any size, and the mapping of cursor positions back into
//! simulation space, with the per-frame motion rules that consume them.
//!
//! All coordinates are integers. Positions are counted in sub-pixel steps
//! (`SUBPIXELS_PER_PIXEL` steps per pixel) so that points between pixels,
//! such as the exact center of an odd-sized window, stay representable.

mod arith;

pub mod resolution;
pub mod canvas;
pub mod mapper;
pub mod motion;
pub mod orientation;
pub mod trigger;
