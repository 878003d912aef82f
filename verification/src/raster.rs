//! The raster assembler: runs the view mapper and the orbit evaluator over
//! every pixel, and turns per-pixel continuous-iterate values into the flat
//! row-major RGB buffer that a host uploads or encodes.

use vstd::prelude::*;
use crate::color::{color_of, spec_color_of};
use crate::orbit::{evaluate, lemma_evaluate_deterministic, spec_evaluate_post, OrbitResult};
use crate::view::{spec_map, ComplexPoint, ViewParameters};

verus! {

/// The point of the complex plane that entry `i` of the row-major pixel
/// order stands for.
pub open spec fn spec_pixel_point(params: ViewParameters, i: int) -> ComplexPoint {
    spec_map(
        (i % (params.width as int)) as u32,
        (i / (params.width as int)) as u32,
        params,
    )
}

/// The flat row-major RGB raster that a sequence of per-pixel
/// continuous-iterate values colors to, three bytes per pixel.
pub open spec fn spec_raster(floors: Seq<u64>, max_iterations: u64) -> Seq<u8> {
    Seq::new(
        (floors.len() * 3) as nat,
        |i: int|
            {
                let p = spec_color_of(floors[i / 3], max_iterations);
                if i % 3 == 0 {
                    p.r
                } else if i % 3 == 1 {
                    p.g
                } else {
                    p.b
                }
            },
    )
}

/// Evaluates the orbit of every pixel of the view, row-major: entry
/// `y * width + x` reports the pixel at column `x` of row `y`.
pub fn compute_orbits(params: &ViewParameters) -> (r: Vec<OrbitResult>)
    requires
        params.wf(),
        params.width * params.height <= usize::MAX,
    ensures
        r@.len() == params.width * params.height,
        forall|i: int|
            0 <= i < r@.len() ==> spec_evaluate_post(
                spec_pixel_point(*params, i),
                params.max_iterations,
                r@[i],
            ),
{
    let width = params.width as usize;
    let total: usize = width * (params.height as usize);
    let mut out: Vec<OrbitResult> = Vec::new();
    let mut i: usize = 0;
    while i < total
        invariant
            params.wf(),
            width == params.width,
            total == params.width * params.height,
            i <= total,
            out@.len() == i,
            forall|j: int|
                0 <= j < i ==> spec_evaluate_post(
                    spec_pixel_point(*params, j),
                    params.max_iterations,
                    out@[j],
                ),
        decreases total - i,
    {
        let x = (i % width) as u32;
        let y = (i / width) as u32;
        proof {
            assert((i as int) / (width as int) < params.height as int) by {
                vstd::arithmetic::div_mod::lemma_multiply_divide_lt(
                    i as int,
                    width as int,
                    params.height as int,
                );
            };
        }
        let c = crate::view::map(x, y, params);
        let orb = evaluate(c, params.max_iterations);
        out.push(orb);
        i = i + 1;
    }
    out
}

/// Turns the per-pixel continuous-iterate values into the flat row-major
/// RGB buffer of the raster: three bytes per pixel, each pixel colored by
/// the palette mapper.
pub fn render_raster(floors: &Vec<u64>, width: u32, height: u32, max_iterations: u64) -> (r: Vec<
    u8,
>)
    requires
        floors@.len() == width * height,
        floors@.len() * 3 <= usize::MAX,
    ensures
        r@ == spec_raster(floors@, max_iterations),
{
    let mut out: Vec<u8> = Vec::new();
    let mut i: usize = 0;
    while i < floors.len()
        invariant
            i <= floors@.len(),
            floors@.len() * 3 <= usize::MAX,
            out@.len() == 3 * i,
            forall|j: int|
                0 <= j < 3 * i ==> out@[j] == #[trigger] spec_raster(floors@, max_iterations)[j],
        decreases floors@.len() - i,
    {
        let p = color_of(floors[i], max_iterations);
        out.push(p.r);
        out.push(p.g);
        out.push(p.b);
        proof {
            assert forall|j: int| 0 <= j < 3 * (i + 1) implies out@[j] == #[trigger] spec_raster(
                floors@,
                max_iterations,
            )[j] by {
                if j >= 3 * i {
                    assert(j / 3 == i as int && (j == 3 * i ==> j % 3 == 0) && (j == 3 * i + 1
                        ==> j % 3 == 1) && (j == 3 * i + 2 ==> j % 3 == 2)) by (nonlinear_arith)
                        requires
                            3 * i <= j < 3 * (i + 1),
                    ;
                }
            };
        }
        i = i + 1;
    }
    proof {
        assert(out@ =~= spec_raster(floors@, max_iterations));
    }
    out
}

/// Law: under an iteration bound of zero every byte of the raster is black,
/// whatever the per-pixel values.
pub proof fn lemma_zero_bound_raster_black(floors: Seq<u64>)
    ensures
        forall|j: int|
            0 <= j < spec_raster(floors, 0).len() ==> #[trigger] spec_raster(floors, 0)[j] == 0u8,
{
}

/// Law: the orbit pass over a view is pinned by its contract, so two
/// passes over the same view parameters agree pixel for pixel.
pub proof fn lemma_orbits_deterministic(
    a: Seq<OrbitResult>,
    b: Seq<OrbitResult>,
    params: ViewParameters,
)
    requires
        a.len() == params.width * params.height,
        b.len() == params.width * params.height,
        forall|i: int|
            0 <= i < a.len() ==> spec_evaluate_post(
                spec_pixel_point(params, i),
                params.max_iterations,
                a[i],
            ),
        forall|i: int|
            0 <= i < b.len() ==> spec_evaluate_post(
                spec_pixel_point(params, i),
                params.max_iterations,
                b[i],
            ),
    ensures
        a == b,
{
    assert forall|i: int| 0 <= i < a.len() implies a[i] == b[i] by {
        lemma_evaluate_deterministic(
            spec_pixel_point(params, i),
            params.max_iterations,
            a[i],
            b[i],
        );
    };
    assert(a =~= b);
}

/// Law: the raster is a function of the per-pixel values and the bound
/// alone, so assembling the same values twice yields byte-identical
/// rasters.
pub proof fn lemma_raster_deterministic(
    a: Seq<u8>,
    b: Seq<u8>,
    floors: Seq<u64>,
    max_iterations: u64,
)
    requires
        a == spec_raster(floors, max_iterations),
        b == spec_raster(floors, max_iterations),
    ensures
        a == b,
{
}

} // verus!
