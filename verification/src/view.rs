//! The view mapper: from a pixel coordinate and the view parameters to a
//! point of the complex plane.

use vstd::prelude::*;
use crate::ieee_bits::{
    add_bits, div_bits, double_of_u64, mul_bits, neg_bits, sub_bits, fadd, fdiv, fmul, fneg,
    fsub, f_of_u64, FOUR, ONE,
};

verus! {

/// The parameters of one render: raster dimensions, zoom, plane offsets and
/// the iteration bound.  The zoom and the offsets are binary64 bit patterns.
pub struct ViewParameters {
    pub width: u32,
    pub height: u32,
    pub zoom_bits: u64,
    pub x_offset_bits: u64,
    pub y_offset_bits: u64,
    pub max_iterations: u64,
}

impl ViewParameters {
    /// A view is well formed when the raster has at least one pixel on each
    /// axis and the zoom is a positive binary64 value (sign bit clear, not
    /// a NaN, not zero; the positive infinity itself is the degenerate
    /// window of width zero).
    pub open spec fn wf(self) -> bool {
        &&& self.width > 0
        &&& self.height > 0
        &&& 0 < self.zoom_bits <= crate::ieee_bits::POSITIVE_INFINITY
    }
}

/// A point of the complex plane, both coordinates as binary64 bit patterns.
#[derive(Clone, Copy, Debug, PartialEq, Eq, Structural)]
pub struct ComplexPoint {
    pub re_bits: u64,
    pub im_bits: u64,
}

impl ComplexPoint {
    /// The origin of the plane, which is also the first orbit iterate.
    pub open spec fn spec_zero() -> ComplexPoint {
        ComplexPoint { re_bits: 0, im_bits: 0 }
    }

    /// The origin of the plane.
    pub fn zero() -> (r: ComplexPoint)
        ensures
            r == ComplexPoint::spec_zero(),
    {
        ComplexPoint { re_bits: 0, im_bits: 0 }
    }
}

/// The truncating integer aspect ratio of the raster.
pub open spec fn spec_screen_ratio(params: ViewParameters) -> u32
    recommends
        params.wf(),
{
    (params.width as int / params.height as int) as u32
}

/// The plane step per pixel along the horizontal axis:
/// `(4 / zoom) / width`.
pub open spec fn spec_dx(params: ViewParameters) -> u64 {
    div_bits(div_bits(FOUR, params.zoom_bits), double_of_u64(params.width as u64))
}

/// The plane step per pixel along the vertical axis:
/// `((4 / zoom) / screen_ratio) / height`.
pub open spec fn spec_dy(params: ViewParameters) -> u64 {
    div_bits(
        div_bits(div_bits(FOUR, params.zoom_bits), double_of_u64(spec_screen_ratio(params) as u64)),
        double_of_u64(params.height as u64),
    )
}

/// The real coordinate of pixel column `x`:
/// `x_offset + x * dx - 4 / zoom`.
pub open spec fn spec_map_re(x: u32, params: ViewParameters) -> u64 {
    sub_bits(
        add_bits(params.x_offset_bits, mul_bits(double_of_u64(x as u64), spec_dx(params))),
        div_bits(FOUR, params.zoom_bits),
    )
}

/// The imaginary coordinate of pixel row `y`:
/// `-y_offset + y * dy - (1 / screen_ratio) / zoom`.
pub open spec fn spec_map_im(y: u32, params: ViewParameters) -> u64 {
    sub_bits(
        add_bits(neg_bits(params.y_offset_bits), mul_bits(double_of_u64(y as u64), spec_dy(params))),
        div_bits(div_bits(ONE, double_of_u64(spec_screen_ratio(params) as u64)), params.zoom_bits),
    )
}

/// The point of the complex plane that pixel `(x, y)` stands for.
pub open spec fn spec_map(x: u32, y: u32, params: ViewParameters) -> ComplexPoint {
    ComplexPoint { re_bits: spec_map_re(x, params), im_bits: spec_map_im(y, params) }
}

/// Converts a pixel coordinate into a point of the complex plane, under the
/// given view parameters.  A window of plane width `4 / zoom` is placed with
/// its left edge at `x_offset - 4 / zoom`; the vertical extent follows the
/// truncating integer aspect ratio of the raster.
pub fn map(x: u32, y: u32, params: &ViewParameters) -> (r: ComplexPoint)
    requires
        params.wf(),
    ensures
        r == spec_map(x, y, *params),
{
    let screen_ratio: u32 = params.width / params.height;
    let zoom_width = fdiv(FOUR, params.zoom_bits);
    let ratio_f = f_of_u64(screen_ratio as u64);
    let dx = fdiv(zoom_width, f_of_u64(params.width as u64));
    let dy = fdiv(fdiv(zoom_width, ratio_f), f_of_u64(params.height as u64));
    let re = fsub(
        fadd(params.x_offset_bits, fmul(f_of_u64(x as u64), dx)),
        zoom_width,
    );
    let im = fsub(
        fadd(fneg(params.y_offset_bits), fmul(f_of_u64(y as u64), dy)),
        fdiv(fdiv(ONE, ratio_f), params.zoom_bits),
    );
    ComplexPoint { re_bits: re, im_bits: im }
}

} // verus!
