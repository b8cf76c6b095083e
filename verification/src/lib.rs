//! Verified core of a Mandelbrot-set rasterizer.
//!
//! The library covers the pure logic of the renderer: splitting a delimited
//! pair string and parsing its halves, and laying escape-time results out in
//! the row-major intensity buffer. Floating-point orbit evaluation and image
//! encoding live outside the verified core.

use vstd::prelude::*;

pub mod parse;
pub mod raster;

pub use parse::combine_parsed;
pub use parse::parse_pair;
pub use parse::split_pair;
pub use raster::intensity_of;
pub use raster::write_pixel;

verus! {

/// The fixed iteration budget the rasterizer hands to the escape-time
/// evaluator: one step per representable non-zero intensity.
pub const ESCAPE_LIMIT: usize = 255;

} // verus!
