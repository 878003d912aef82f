//! Tests of the smoothing estimator, the palette mapper, the raster
//! assembler, and the whole per-pixel pipeline.

use mandelbrot::color::{color_of, Rgb};
use mandelbrot::orbit::norm_sqr;
use mandelbrot::raster::{compute_orbits, render_raster};
use mandelbrot::smooth::{needs_formula, smooth_all, smooth_floor};
use mandelbrot::view::ViewParameters;

/// Runs the whole pipeline once: orbit every pixel, smooth with the
/// platform logarithm, color, and assemble the flat RGB raster.
fn render(params: &ViewParameters) -> Vec<u8> {
    let orbits = compute_orbits(params);
    let mut lnlns: Vec<u64> = Vec::new();
    for orb in &orbits {
        lnlns.push(if needs_formula(&orb.escaped_at, params.max_iterations) {
            let nsq = f64::from_bits(norm_sqr(&orb.final_point));
            (nsq.ln().ln() / (2.0f64).ln()).to_bits()
        } else {
            0
        });
    }
    let floors = smooth_all(&orbits, &lnlns, params.max_iterations);
    render_raster(&floors, params.width, params.height, params.max_iterations)
}

fn params_4x4() -> ViewParameters {
    ViewParameters {
        width: 4,
        height: 4,
        zoom_bits: (1.0f64).to_bits(),
        x_offset_bits: (1.0f64).to_bits(),
        y_offset_bits: (1.0f64).to_bits(),
        max_iterations: 1000,
    }
}

#[test]
fn interior_smooths_to_bound() {
    assert_eq!(smooth_floor(&None, 5, 0), 5);
    assert_eq!(smooth_floor(&None, 1, (0.7f64).to_bits()), 1);
    assert_eq!(smooth_floor(&None, 0, 0), 0);
}

#[test]
fn near_bound_escape_smooths_to_bound() {
    assert_eq!(smooth_floor(&Some(999), 1000, 0), 1000);
    assert_eq!(smooth_floor(&Some(1000), 1000, 0), 1000);
}

#[test]
fn early_escape_smooths_to_one() {
    assert_eq!(smooth_floor(&Some(0), 1000, 0), 1);
    assert_eq!(smooth_floor(&Some(1), 1000, 0), 1);
}

#[test]
fn formula_escape_is_truncated() {
    // 5 + 1 - 0.5 = 5.5, truncated to 5
    assert_eq!(smooth_floor(&Some(5), 1000, (0.5f64).to_bits()), 5);
    // 5 + 1 - (-0.25) = 6.25, truncated to 6
    assert_eq!(smooth_floor(&Some(5), 1000, (-0.25f64).to_bits()), 6);
    assert!(needs_formula(&Some(5), 1000));
    assert!(!needs_formula(&Some(1), 1000));
    assert!(!needs_formula(&None, 1000));
}

#[test]
fn palette_entries_are_exact() {
    assert_eq!(color_of(1, 1000), Rgb { r: 25, g: 7, b: 26 });
    assert_eq!(color_of(12, 1000), Rgb { r: 255, g: 170, b: 0 });
    assert_eq!(color_of(16, 1000), Rgb { r: 66, g: 30, b: 15 });
}

#[test]
fn palette_is_periodic_sixteen() {
    for v in 1u64..40 {
        assert_eq!(color_of(v, 1000), color_of(v + 16, 1000));
    }
}

#[test]
fn out_of_range_values_are_black() {
    assert_eq!(color_of(0, 10), Rgb { r: 0, g: 0, b: 0 });
    assert_eq!(color_of(10, 10), Rgb { r: 0, g: 0, b: 0 });
    assert_eq!(color_of(11, 10), Rgb { r: 0, g: 0, b: 0 });
}

#[test]
fn zero_bound_renders_all_black() {
    let params = ViewParameters {
        width: 3,
        height: 2,
        zoom_bits: (1.0f64).to_bits(),
        x_offset_bits: (1.0f64).to_bits(),
        y_offset_bits: (1.0f64).to_bits(),
        max_iterations: 0,
    };
    let orbits = compute_orbits(&params);
    assert_eq!(orbits.len(), 6);
    for orb in &orbits {
        assert_eq!(orb.escaped_at, None);
    }
    let raster = render(&params);
    assert_eq!(raster.len(), 18);
    for byte in &raster {
        assert_eq!(*byte, 0);
    }
}

#[test]
fn rendering_twice_is_byte_identical() {
    let a = render(&params_4x4());
    let b = render(&params_4x4());
    assert_eq!(a, b);
}

#[test]
fn end_to_end_small_view() {
    let raster = render(&params_4x4());
    assert_eq!(raster.len(), 48);
    // pixel (0, 0) maps to -3 - 2i, far outside the set: not black
    assert!(raster[0] != 0 || raster[1] != 0 || raster[2] != 0);
    // pixel (3, 2) maps to the plane origin, deep inside the set: black
    let i = (2 * 4 + 3) * 3;
    assert_eq!(&raster[i..i + 3], &[0, 0, 0]);
}
