//! An escape-time Mandelbrot renderer.
//!
//! Every pixel of a raster is mapped to a point of the complex plane, the
//! quadratic orbit of that point is run up to an iteration bound, the escape
//! iteration is smoothed into a continuous estimate, and the estimate is
//! mapped through a fixed 16-entry palette.  All real numbers are carried as
//! the bit patterns of IEEE-754 binary64 values, so that the numeric steps
//! can be stated exactly while the arithmetic itself is performed by a
//! software implementation of the same format.

pub mod ieee_bits;
pub mod view;
pub mod orbit;
pub mod smooth;
pub mod color;
pub mod raster;
