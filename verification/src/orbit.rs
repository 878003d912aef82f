//! The orbit evaluator: decides whether a point of the complex plane escapes
//! the bounded quadratic iteration, and if so at which iteration.
//!
//! Two analytically known interior regions (the main cardioid and the
//! period-2 bulb) are detected without iterating.  Otherwise the orbit
//! `z <- z * z + c` runs from zero for at most `max_iterations` passes; a
//! pass first tests escape (`|z|^2 > 4`), then steps the orbit, then tests
//! whether the new iterate exactly equals the previous one (an exact cycle
//! of period one, classified interior).

use vstd::prelude::*;
use crate::ieee_bits::{
    add_bits, div_bits, eq_bits, lt_bits, mul_bits, sub_bits, fadd, fdiv, feq, flt, fmul, fsub,
    FOUR, ONE, QUARTER, SIXTEEN,
};
use crate::view::ComplexPoint;

verus! {

/// What the evaluator reports of one point: the escape iteration, if any,
/// and the final orbit iterate (the plane origin when an analytic skip
/// classified the point without iterating).
#[derive(Clone, Copy, Debug)]
pub struct OrbitResult {
    pub escaped_at: Option<u64>,
    pub final_point: ComplexPoint,
}

/// The real part of `z * z + c`, multiplied out as complex arithmetic does
/// it: `z.re * z.re - z.im * z.im + c.re`.
pub open spec fn spec_step_re(z: ComplexPoint, c: ComplexPoint) -> u64 {
    add_bits(
        sub_bits(mul_bits(z.re_bits, z.re_bits), mul_bits(z.im_bits, z.im_bits)),
        c.re_bits,
    )
}

/// The imaginary part of `z * z + c`:
/// `z.re * z.im + z.im * z.re + c.im`.
pub open spec fn spec_step_im(z: ComplexPoint, c: ComplexPoint) -> u64 {
    add_bits(
        add_bits(mul_bits(z.re_bits, z.im_bits), mul_bits(z.im_bits, z.re_bits)),
        c.im_bits,
    )
}

/// One orbit step, `z * z + c`.
pub open spec fn spec_step(z: ComplexPoint, c: ComplexPoint) -> ComplexPoint {
    ComplexPoint { re_bits: spec_step_re(z, c), im_bits: spec_step_im(z, c) }
}

/// The squared magnitude `z.re * z.re + z.im * z.im`.
pub open spec fn spec_norm_sqr(z: ComplexPoint) -> u64 {
    add_bits(mul_bits(z.re_bits, z.re_bits), mul_bits(z.im_bits, z.im_bits))
}

/// The orbit iterate after `k` steps from zero.
pub open spec fn spec_orbit(c: ComplexPoint, k: int) -> ComplexPoint
    decreases k,
{
    if k <= 0 {
        ComplexPoint::spec_zero()
    } else {
        spec_step(spec_orbit(c, k - 1), c)
    }
}

/// Whether pass `t` opens on an iterate already outside the escape bound:
/// `|z_t|^2 > 4`.
pub open spec fn spec_escape_seen(c: ComplexPoint, t: int) -> bool {
    lt_bits(FOUR, spec_norm_sqr(spec_orbit(c, t)))
}

/// Whether pass `t` steps onto an iterate that exactly equals the previous
/// one, entering a cycle of period one.
pub open spec fn spec_cycle_seen(c: ComplexPoint, t: int) -> bool {
    &&& eq_bits(spec_orbit(c, t + 1).re_bits, spec_orbit(c, t).re_bits)
    &&& eq_bits(spec_orbit(c, t + 1).im_bits, spec_orbit(c, t).im_bits)
}

/// Whether pass `t` stops the iteration, by escape or by cycle.
pub open spec fn spec_stopped(c: ComplexPoint, t: int) -> bool {
    spec_escape_seen(c, t) || spec_cycle_seen(c, t)
}

/// Whether the iteration reaches pass `t`: no earlier pass stopped it.
pub open spec fn spec_runs_to(c: ComplexPoint, t: int) -> bool {
    forall|k: int| 0 <= k < t ==> !spec_stopped(c, k)
}

/// The escape iteration that a stop at pass `t` reports.  The counter lags
/// the pass index by one, so a stop at pass `t` reports `t - 1` (and a stop
/// at the very first pass reports zero).
pub open spec fn spec_escape_index(t: int) -> u64
    recommends
        0 <= t <= u64::MAX,
{
    if t <= 0 {
        0
    } else {
        (t - 1) as u64
    }
}

/// Whether `c` lies in the main cardioid, by the standard test: with
/// `q = (c.re - 1/4)^2 + c.im^2`, the point is inside when
/// `q * (q + (c.re - 1/4)) < 1/4 * c.im * c.im`.
pub open spec fn spec_in_cardioid(c: ComplexPoint) -> bool {
    let shifted = sub_bits(c.re_bits, QUARTER);
    let q = add_bits(mul_bits(shifted, shifted), mul_bits(c.im_bits, c.im_bits));
    lt_bits(
        mul_bits(q, add_bits(q, shifted)),
        mul_bits(mul_bits(QUARTER, c.im_bits), c.im_bits),
    )
}

/// Whether `c` lies in the period-2 bulb, the disk of radius 1/4 around -1:
/// `(c.re + 1)^2 + c.im^2 < 1/16`.
pub open spec fn spec_in_bulb(c: ComplexPoint) -> bool {
    let shifted = add_bits(c.re_bits, ONE);
    lt_bits(
        add_bits(mul_bits(shifted, shifted), mul_bits(c.im_bits, c.im_bits)),
        div_bits(ONE, SIXTEEN),
    )
}

/// Computes the squared magnitude of an iterate, the quantity the escape
/// test reads and the smoothing formula takes its logarithm of.
pub fn norm_sqr(z: &ComplexPoint) -> (r: u64)
    ensures
        r == spec_norm_sqr(*z),
{
    fadd(fmul(z.re_bits, z.re_bits), fmul(z.im_bits, z.im_bits))
}

/// Tests whether `c` lies in the main cardioid, one of the two interior
/// regions skipped without iterating.
pub fn in_cardioid(c: &ComplexPoint) -> (r: bool)
    ensures
        r == spec_in_cardioid(*c),
{
    let shifted = fsub(c.re_bits, QUARTER);
    let q = fadd(fmul(shifted, shifted), fmul(c.im_bits, c.im_bits));
    flt(fmul(q, fadd(q, shifted)), fmul(fmul(QUARTER, c.im_bits), c.im_bits))
}

/// Tests whether `c` lies in the period-2 bulb, the other region skipped
/// without iterating.
pub fn in_bulb(c: &ComplexPoint) -> (r: bool)
    ensures
        r == spec_in_bulb(*c),
{
    let shifted = fadd(c.re_bits, ONE);
    flt(
        fadd(fmul(shifted, shifted), fmul(c.im_bits, c.im_bits)),
        fdiv(ONE, SIXTEEN),
    )
}

/// Everything the evaluator promises of its result.  A point of an analytic
/// interior region is reported interior with the origin as final iterate.
/// Otherwise: if no pass up to the bound stops the iteration, the point is
/// interior with the iterate after the last pass; if the first stopping pass
/// opens outside the escape bound, the point escaped there; if it steps onto
/// an exact cycle instead, the point is interior with the iterate it stepped
/// onto.
pub open spec fn spec_evaluate_post(c: ComplexPoint, max_iterations: u64, r: OrbitResult) -> bool {
    if spec_in_cardioid(c) || spec_in_bulb(c) {
        r.escaped_at == Option::<u64>::None && r.final_point == ComplexPoint::spec_zero()
    } else {
        &&& (spec_runs_to(c, max_iterations as int) ==> r.escaped_at == Option::<u64>::None
            && r.final_point == spec_orbit(c, max_iterations as int))
        &&& (forall|t: int|
            0 <= t < max_iterations && #[trigger] spec_runs_to(c, t) && spec_escape_seen(c, t)
                ==> r.escaped_at == Option::Some(spec_escape_index(t)) && r.final_point
                == spec_orbit(c, t))
        &&& (forall|t: int|
            0 <= t < max_iterations && #[trigger] spec_runs_to(c, t) && !spec_escape_seen(c, t)
                && spec_cycle_seen(c, t) ==> r.escaped_at == Option::<u64>::None
                && r.final_point == spec_orbit(c, t + 1))
    }
}

/// Runs the bounded orbit of `c` and classifies the point.  The result is
/// pinned by `spec_evaluate_post`; a bound of zero always classifies the
/// point interior, with no pass run.
pub fn evaluate(c: ComplexPoint, max_iterations: u64) -> (r: OrbitResult)
    ensures
        spec_evaluate_post(c, max_iterations, r),
        max_iterations == 0 ==> r.escaped_at is None,
{
    if in_cardioid(&c) || in_bulb(&c) {
        return OrbitResult { escaped_at: Option::None, final_point: ComplexPoint::zero() };
    }
    let mut z = ComplexPoint::zero();
    let mut iteration: u64 = 0;
    let mut t: u64 = 0;
    while t < max_iterations
        invariant
            t <= max_iterations,
            spec_runs_to(c, t as int),
            z == spec_orbit(c, t as int),
            iteration == spec_escape_index(t as int),
            !spec_in_cardioid(c),
            !spec_in_bulb(c),
        decreases max_iterations - t,
    {
        let nsq = fadd(fmul(z.re_bits, z.re_bits), fmul(z.im_bits, z.im_bits));
        if flt(FOUR, nsq) {
            let r = OrbitResult { escaped_at: Option::Some(iteration), final_point: z };
            proof {
                lemma_post_at_stop(c, max_iterations, t as int, r);
            }
            return r;
        }
        let znew = ComplexPoint {
            re_bits: fadd(
                fsub(fmul(z.re_bits, z.re_bits), fmul(z.im_bits, z.im_bits)),
                c.re_bits,
            ),
            im_bits: fadd(
                fadd(fmul(z.re_bits, z.im_bits), fmul(z.im_bits, z.re_bits)),
                c.im_bits,
            ),
        };
        proof {
            assert(spec_orbit(c, t + 1) == spec_step(spec_orbit(c, t as int), c));
        }
        if feq(znew.re_bits, z.re_bits) && feq(znew.im_bits, z.im_bits) {
            let r = OrbitResult { escaped_at: Option::None, final_point: znew };
            proof {
                lemma_post_at_stop(c, max_iterations, t as int, r);
            }
            return r;
        }
        proof {
            assert forall|k: int| 0 <= k < t + 1 implies !spec_stopped(c, k) by {
                if k < t {
                    assert(!spec_stopped(c, k));
                }
            };
        }
        z = znew;
        iteration = t;
        t = t + 1;
    }
    let r = OrbitResult { escaped_at: Option::None, final_point: z };
    proof {
        assert forall|tp: int|
            0 <= tp < max_iterations && #[trigger] spec_runs_to(c, tp) && spec_stopped(c, tp)
        implies false by {
            assert(!spec_stopped(c, tp));
        };
    }
    r
}

/// The part of the evaluator's contract that a stop at pass `t` settles:
/// every earlier pass ran through, so pass `t` is the unique pass the
/// quantified clauses of `spec_evaluate_post` can speak of.
proof fn lemma_post_at_stop(c: ComplexPoint, max_iterations: u64, t: int, r: OrbitResult)
    requires
        !spec_in_cardioid(c),
        !spec_in_bulb(c),
        0 <= t < max_iterations,
        spec_runs_to(c, t),
        spec_stopped(c, t),
        spec_escape_seen(c, t) ==> r.escaped_at == Option::Some(spec_escape_index(t))
            && r.final_point == spec_orbit(c, t),
        !spec_escape_seen(c, t) && spec_cycle_seen(c, t) ==> r.escaped_at == Option::<u64>::None
            && r.final_point == spec_orbit(c, t + 1),
    ensures
        spec_evaluate_post(c, max_iterations, r),
{
    assert(!spec_runs_to(c, max_iterations as int));
    assert forall|tp: int|
        0 <= tp < max_iterations && #[trigger] spec_runs_to(c, tp) && spec_stopped(c, tp)
    implies tp == t by {
        if tp < t {
            assert(!spec_stopped(c, tp));
        } else if tp > t {
            assert(!spec_stopped(c, t));
        }
    };
}

/// An iteration that some pass below `n` stops has a first stopping pass.
proof fn lemma_first_stop_exists(c: ComplexPoint, n: int)
    requires
        !spec_runs_to(c, n),
    ensures
        exists|t: int| 0 <= t < n && #[trigger] spec_runs_to(c, t) && spec_stopped(c, t),
    decreases n,
{
    if n <= 0 {
        assert(spec_runs_to(c, n));
    } else if !spec_runs_to(c, n - 1) {
        lemma_first_stop_exists(c, n - 1);
        let t = choose|t: int| 0 <= t < n - 1 && #[trigger] spec_runs_to(c, t) && spec_stopped(c, t);
        assert(0 <= t < n && spec_runs_to(c, t) && spec_stopped(c, t));
    } else {
        let k = choose|k: int| 0 <= k < n && #[trigger] spec_stopped(c, k);
        assert(spec_stopped(c, k));
        assert(k == n - 1);
        assert(spec_runs_to(c, n - 1) && spec_stopped(c, n - 1));
    }
}

/// Law: under an iteration bound of zero the evaluator classifies every
/// point interior, with no pass run.
pub proof fn lemma_zero_bound_interior(c: ComplexPoint, r: OrbitResult)
    requires
        spec_evaluate_post(c, 0, r),
    ensures
        r.escaped_at is None,
{
    if !spec_in_cardioid(c) && !spec_in_bulb(c) {
        assert(spec_runs_to(c, 0));
    }
}

/// Law: the evaluator's contract pins its result completely, so evaluating
/// the same point under the same bound twice yields the same classification
/// and the same final iterate.
pub proof fn lemma_evaluate_deterministic(
    c: ComplexPoint,
    max_iterations: u64,
    r1: OrbitResult,
    r2: OrbitResult,
)
    requires
        spec_evaluate_post(c, max_iterations, r1),
        spec_evaluate_post(c, max_iterations, r2),
    ensures
        r1 == r2,
{
    if spec_in_cardioid(c) || spec_in_bulb(c) {
    } else if spec_runs_to(c, max_iterations as int) {
    } else {
        lemma_first_stop_exists(c, max_iterations as int);
        let t = choose|t: int|
            0 <= t < max_iterations && #[trigger] spec_runs_to(c, t) && spec_stopped(c, t);
        assert(spec_runs_to(c, t) && spec_stopped(c, t));
    }
}

} // verus!
