//! The smoothing estimator: from the escape iteration and the final orbit
//! magnitude to the integer part of the continuous iteration count.
//!
//! The logarithmic term of the smoothing formula,
//! `ln(ln(|z|^2)) / ln(2)`, depends on the platform's logarithm and is
//! handed in by the caller as a binary64 bit pattern; everything else is
//! decided here.

use vstd::prelude::*;
use crate::ieee_bits::{add_bits, double_of_u64, sub_bits, u64_of_double, fadd, fsub, f_of_u64,
    f_to_u64, ONE};

verus! {

/// The integer part of the continuous iterate.  An interior point, and an
/// escape within one iteration of the bound, force the bound itself (the
/// in-set palette entry); an escape before the second iteration avoids the
/// logarithm singularity and yields one; otherwise the smoothing formula
/// `escaped_at + 1 - lnln` is evaluated in binary64 and truncated.
pub open spec fn spec_smooth_floor(escaped_at: Option<u64>, max_iterations: u64, lnln_bits: u64) -> u64 {
    match escaped_at {
        Option::None => max_iterations,
        Option::Some(n) => {
            if n >= max_iterations - 1 {
                max_iterations
            } else if n < 2 {
                1u64
            } else {
                u64_of_double(sub_bits(add_bits(double_of_u64(n), ONE), lnln_bits))
            }
        },
    }
}

/// Whether the smoothing formula itself decides the value, so that a caller
/// must supply the logarithmic term `ln(ln(|z|^2)) / ln(2)` of the final
/// orbit point.
pub open spec fn spec_needs_formula(escaped_at: Option<u64>, max_iterations: u64) -> bool {
    match escaped_at {
        Option::None => false,
        Option::Some(n) => !(n >= max_iterations - 1) && n >= 2,
    }
}

/// Says whether the smoothing formula applies, that is whether `smooth_floor`
/// will read its logarithmic-term argument at all.
pub fn needs_formula(escaped_at: &Option<u64>, max_iterations: u64) -> (r: bool)
    ensures
        r == spec_needs_formula(*escaped_at, max_iterations),
{
    match escaped_at {
        Option::None => false,
        Option::Some(n) => {
            if max_iterations == 0 || *n >= max_iterations - 1 {
                false
            } else {
                *n >= 2
            }
        },
    }
}

/// Converts the escape iteration into the integer part of the continuous
/// iteration count.  `lnln_bits` is the binary64 bit pattern of
/// `ln(ln(|z|^2)) / ln(2)` for the final orbit point; it is read only when
/// the smoothing formula applies.  An interior point always yields the
/// iteration bound itself.
pub fn smooth_floor(escaped_at: &Option<u64>, max_iterations: u64, lnln_bits: u64) -> (r: u64)
    ensures
        r == spec_smooth_floor(*escaped_at, max_iterations, lnln_bits),
        escaped_at is None ==> r == max_iterations,
{
    match escaped_at {
        Option::None => max_iterations,
        Option::Some(n) => {
            if max_iterations == 0 || *n >= max_iterations - 1 {
                max_iterations
            } else if *n < 2 {
                1
            } else {
                f_to_u64(fsub(fadd(f_of_u64(*n), ONE), lnln_bits))
            }
        },
    }
}

/// Smooths a whole orbit pass at once: entry `i` of the result is the
/// continuous-iterate integer part of pixel `i`, under the logarithmic
/// term supplied for that pixel.
pub fn smooth_all(
    orbits: &Vec<crate::orbit::OrbitResult>,
    lnln_bits: &Vec<u64>,
    max_iterations: u64,
) -> (r: Vec<u64>)
    requires
        lnln_bits@.len() == orbits@.len(),
    ensures
        r@.len() == orbits@.len(),
        forall|i: int|
            0 <= i < r@.len() ==> r@[i] == spec_smooth_floor(
                orbits@[i].escaped_at,
                max_iterations,
                lnln_bits@[i],
            ),
{
    let mut out: Vec<u64> = Vec::new();
    let mut i: usize = 0;
    while i < orbits.len()
        invariant
            lnln_bits@.len() == orbits@.len(),
            i <= orbits@.len(),
            out@.len() == i,
            forall|j: int|
                0 <= j < i ==> out@[j] == spec_smooth_floor(
                    orbits@[j].escaped_at,
                    max_iterations,
                    lnln_bits@[j],
                ),
        decreases orbits@.len() - i,
    {
        let f = smooth_floor(&orbits[i].escaped_at, max_iterations, lnln_bits[i]);
        out.push(f);
        i = i + 1;
    }
    out
}

/// Law: the smoothing estimator returns exactly the iteration bound for
/// every point that the orbit evaluator classifies interior, whatever the
/// bound and the logarithmic term.
pub proof fn lemma_interior_smooths_to_bound(max_iterations: u64, lnln_bits: u64)
    ensures
        spec_smooth_floor(Option::None, max_iterations, lnln_bits) == max_iterations,
{
}

} // verus!
