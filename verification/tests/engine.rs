//! Tests of the view mapper and the orbit evaluator on concrete points.

use mandelbrot::orbit::{evaluate, in_cardioid, norm_sqr};
use mandelbrot::view::{ComplexPoint, ViewParameters};

fn params_4x4() -> ViewParameters {
    ViewParameters {
        width: 4,
        height: 4,
        zoom_bits: (1.0f64).to_bits(),
        x_offset_bits: (1.0f64).to_bits(),
        y_offset_bits: (1.0f64).to_bits(),
        max_iterations: 1000,
    }
}

#[test]
fn map_corner_of_small_view() {
    // ratio 1, dx = dy = 1: pixel (0, 0) maps to x_offset - 4 = -3 and
    // -y_offset - 1 = -2.
    let p = mandelbrot::view::map(0, 0, &params_4x4());
    assert_eq!(p.re_bits, (-3.0f64).to_bits());
    assert_eq!(p.im_bits, (-2.0f64).to_bits());
}

#[test]
fn map_pixel_at_plane_origin() {
    let p = mandelbrot::view::map(3, 2, &params_4x4());
    assert_eq!(p.re_bits, (0.0f64).to_bits());
    assert_eq!(p.im_bits, (0.0f64).to_bits());
}

#[test]
fn map_uses_zoom_and_offsets() {
    // zoom 2: dx = (4/2)/4 = 0.5, re(1) = 0.5 + 0.5 - 2 = -1.
    let params = ViewParameters {
        width: 4,
        height: 4,
        zoom_bits: (2.0f64).to_bits(),
        x_offset_bits: (0.5f64).to_bits(),
        y_offset_bits: (0.25f64).to_bits(),
        max_iterations: 10,
    };
    let p = mandelbrot::view::map(1, 0, &params);
    assert_eq!(p.re_bits, (-1.0f64).to_bits());
    // dy = ((4/2)/1)/4 = 0.5, im(0) = -0.25 + 0 - 0.5 = -0.75.
    assert_eq!(p.im_bits, (-0.75f64).to_bits());
}

#[test]
fn origin_is_interior_by_cardioid_test() {
    let c = ComplexPoint { re_bits: (0.0f64).to_bits(), im_bits: (0.0f64).to_bits() };
    assert!(in_cardioid(&c));
    let r = evaluate(c, 1000);
    assert_eq!(r.escaped_at, None);
    // the analytic skip never iterates: the final iterate is still the origin
    assert_eq!(r.final_point.re_bits, 0);
    assert_eq!(r.final_point.im_bits, 0);
}

#[test]
fn point_two_two_escapes_at_zero() {
    let c = ComplexPoint { re_bits: (2.0f64).to_bits(), im_bits: (2.0f64).to_bits() };
    assert!(!in_cardioid(&c));
    let r = evaluate(c, 1000);
    assert_eq!(r.escaped_at, Some(0));
    assert_eq!(r.final_point.re_bits, (2.0f64).to_bits());
    assert_eq!(r.final_point.im_bits, (2.0f64).to_bits());
}

#[test]
fn minus_two_enters_exact_cycle() {
    // -2: the orbit goes 0, -2, 2, 2, ... and the repeat is caught as a
    // period-one cycle, classified interior.
    let c = ComplexPoint { re_bits: (-2.0f64).to_bits(), im_bits: (0.0f64).to_bits() };
    let r = evaluate(c, 1000);
    assert_eq!(r.escaped_at, None);
    assert_eq!(r.final_point.re_bits, (2.0f64).to_bits());
    assert_eq!(r.final_point.im_bits, (0.0f64).to_bits());
}

#[test]
fn zero_bound_classifies_interior() {
    let c = ComplexPoint { re_bits: (10.0f64).to_bits(), im_bits: (10.0f64).to_bits() };
    let r = evaluate(c, 0);
    assert_eq!(r.escaped_at, None);
}

#[test]
fn norm_sqr_matches_hardware() {
    let z = ComplexPoint { re_bits: (3.0f64).to_bits(), im_bits: (-2.5f64).to_bits() };
    assert_eq!(norm_sqr(&z), (3.0f64 * 3.0 + 2.5 * 2.5).to_bits());
}

#[test]
fn evaluate_is_deterministic() {
    let c = ComplexPoint { re_bits: (0.3f64).to_bits(), im_bits: (0.5f64).to_bits() };
    let a = evaluate(c, 500);
    let b = evaluate(c, 500);
    assert_eq!(a.escaped_at, b.escaped_at);
    assert_eq!(a.final_point.re_bits, b.final_point.re_bits);
    assert_eq!(a.final_point.im_bits, b.final_point.im_bits);
}
