//! The palette mapper: from the integer part of the continuous iterate to a
//! color of the fixed 16-entry cyclic palette.

use vstd::prelude::*;

verus! {

/// One color, a red, green and blue channel of one byte each.
#[derive(Clone, Copy, Debug, PartialEq, Eq, Structural)]
pub struct Rgb {
    pub r: u8,
    pub g: u8,
    pub b: u8,
}

/// Black, the color of every point classified interior.
pub open spec fn spec_black() -> Rgb {
    Rgb { r: 0, g: 0, b: 0 }
}

/// The fixed palette: entry `i` of the 16-entry cycle.
pub open spec fn spec_palette(i: int) -> Rgb
    recommends
        0 <= i < 16,
{
    if i == 0 { Rgb { r: 66, g: 30, b: 15 } }
    else if i == 1 { Rgb { r: 25, g: 7, b: 26 } }
    else if i == 2 { Rgb { r: 9, g: 1, b: 47 } }
    else if i == 3 { Rgb { r: 4, g: 4, b: 73 } }
    else if i == 4 { Rgb { r: 0, g: 7, b: 100 } }
    else if i == 5 { Rgb { r: 12, g: 44, b: 138 } }
    else if i == 6 { Rgb { r: 24, g: 82, b: 177 } }
    else if i == 7 { Rgb { r: 57, g: 125, b: 209 } }
    else if i == 8 { Rgb { r: 134, g: 181, b: 229 } }
    else if i == 9 { Rgb { r: 211, g: 236, b: 248 } }
    else if i == 10 { Rgb { r: 241, g: 233, b: 191 } }
    else if i == 11 { Rgb { r: 248, g: 201, b: 95 } }
    else if i == 12 { Rgb { r: 255, g: 170, b: 0 } }
    else if i == 13 { Rgb { r: 204, g: 128, b: 0 } }
    else if i == 14 { Rgb { r: 153, g: 87, b: 0 } }
    else { Rgb { r: 106, g: 52, b: 3 } }
}

/// The color of a continuous-iterate integer part: a palette entry when the
/// point escaped before the bound, black otherwise.
pub open spec fn spec_color_of(iteration: u64, max_iterations: u64) -> Rgb {
    if 0 < iteration < max_iterations {
        spec_palette(iteration as int % 16)
    } else {
        spec_black()
    }
}

/// Maps the integer part of the continuous iterate to a color.  A value
/// strictly between zero and the iteration bound indexes the 16-entry
/// palette cyclically; zero and every value at or above the bound (a point
/// classified interior) map to black.
pub fn color_of(iteration: u64, max_iterations: u64) -> (r: Rgb)
    ensures
        r == spec_color_of(iteration, max_iterations),
{
    if 0 < iteration && iteration < max_iterations {
        let i = iteration % 16;
        if i == 0 { Rgb { r: 66, g: 30, b: 15 } }
        else if i == 1 { Rgb { r: 25, g: 7, b: 26 } }
        else if i == 2 { Rgb { r: 9, g: 1, b: 47 } }
        else if i == 3 { Rgb { r: 4, g: 4, b: 73 } }
        else if i == 4 { Rgb { r: 0, g: 7, b: 100 } }
        else if i == 5 { Rgb { r: 12, g: 44, b: 138 } }
        else if i == 6 { Rgb { r: 24, g: 82, b: 177 } }
        else if i == 7 { Rgb { r: 57, g: 125, b: 209 } }
        else if i == 8 { Rgb { r: 134, g: 181, b: 229 } }
        else if i == 9 { Rgb { r: 211, g: 236, b: 248 } }
        else if i == 10 { Rgb { r: 241, g: 233, b: 191 } }
        else if i == 11 { Rgb { r: 248, g: 201, b: 95 } }
        else if i == 12 { Rgb { r: 255, g: 170, b: 0 } }
        else if i == 13 { Rgb { r: 204, g: 128, b: 0 } }
        else if i == 14 { Rgb { r: 153, g: 87, b: 0 } }
        else { Rgb { r: 106, g: 52, b: 3 } }
    } else {
        Rgb { r: 0, g: 0, b: 0 }
    }
}

/// Law: the palette lookup is periodic with period 16 in the integer part of
/// the continuous iterate, over the values strictly between zero and the
/// iteration bound.
pub proof fn lemma_palette_periodic(iteration: u64, max_iterations: u64)
    requires
        0 < iteration,
        iteration + 16 < max_iterations,
    ensures
        spec_color_of((iteration + 16) as u64, max_iterations) == spec_color_of(
            iteration,
            max_iterations,
        ),
{
    assert((iteration + 16) as u64 as int % 16 == iteration as int % 16) by {
        assert((iteration as int + 16) % 16 == iteration as int % 16) by (nonlinear_arith);
    };
}

/// Law: under an iteration bound of zero every continuous-iterate value maps
/// to black.
pub proof fn lemma_zero_bound_black(iteration: u64)
    ensures
        spec_color_of(iteration, 0) == spec_black(),
{
}

} // verus!
