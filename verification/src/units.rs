//! Fixed-point units, the deterministic pseudo-noise wave, and scaling.
//!
//! Every scalar quantity in this crate is a fixed-point integer: one unit of
//! the underlying physical quantity (an energy unit, a kelvin, an angstrom, a
//! dimensionless rate) is `MICRO` stored ticks. All update rules are stated
//! and proved over this representation, so they are exact and deterministic.
//!
//! The thermal perturbation is not random: it is a reproducible pseudo-noise
//! signal, a zero-mean triangle wave of period [`FULL_TURN`] micro-radians
//! (close to one sinusoidal period) evaluated at phases derived from the atom
//! index and the step counter.

use vstd::prelude::*;
use vstd::arithmetic::div_mod::{
    lemma_div_is_ordered, lemma_div_multiples_vanish, lemma_div_nonincreasing,
    lemma_div_pos_is_pos, lemma_mod_bound,
};
use vstd::arithmetic::mul::{lemma_mul_inequality, lemma_mul_nonnegative};

verus! {

/// Fixed-point scale: the number of stored ticks in 1.0 of any quantity.
pub const MICRO: i64 = 1_000_000;

/// A quarter of the pseudo-noise period, in micro-radians (pi/2, rounded).
pub const QUARTER_TURN: i64 = 1_570_796;

/// The full pseudo-noise period: exactly four quarter turns.
pub const FULL_TURN: i64 = 6_283_184;

/// Magnitude of a spec-level integer.
pub open spec fn abs_sp(v: int) -> int {
    if v >= 0 {
        v
    } else {
        -v
    }
}

/// The pseudo-noise wave: a triangle wave through (0, 0), (`QUARTER_TURN`,
/// `MICRO`), (3 * `QUARTER_TURN`, -`MICRO`) and (`FULL_TURN`, 0), repeating
/// with period `FULL_TURN`. It stands in for a sinusoid: same zeros, same
/// extrema, piecewise linear in between, and exactly computable.
pub open spec fn tri_wave(phase: int) -> int
    recommends
        phase >= 0,
{
    let r = phase % (FULL_TURN as int);
    if r < QUARTER_TURN {
        (r * (MICRO as int)) / (QUARTER_TURN as int)
    } else if r < 3 * QUARTER_TURN {
        (MICRO as int) - (((r - QUARTER_TURN) * (MICRO as int)) / (QUARTER_TURN as int))
    } else {
        (-(MICRO as int)) + (((r - 3 * QUARTER_TURN) * (MICRO as int)) / (QUARTER_TURN as int))
    }
}

/// The wave stays within one fixed-point unit of zero.
pub proof fn lemma_tri_wave_bounds(phase: int)
    requires
        phase >= 0,
    ensures
        -(MICRO as int) <= tri_wave(phase) <= MICRO as int,
{
    let f = FULL_TURN as int;
    let q = QUARTER_TURN as int;
    let m = MICRO as int;
    lemma_mod_bound(phase, f);
    let r = phase % f;
    if r < q {
        lemma_div_pos_is_pos(r * m, q);
        lemma_mul_inequality(r, q, m);
        lemma_div_is_ordered(r * m, q * m, q);
        lemma_div_multiples_vanish(m, q);
    } else if r < 3 * q {
        lemma_div_pos_is_pos((r - q) * m, q);
        lemma_mul_inequality(r - q, 2 * q, m);
        lemma_div_is_ordered((r - q) * m, (2 * q) * m, q);
        assert((2 * q) * m == q * (2 * m));
        lemma_div_multiples_vanish(2 * m, q);
    } else {
        lemma_div_pos_is_pos((r - 3 * q) * m, q);
        lemma_mul_inequality(r - 3 * q, q, m);
        lemma_div_is_ordered((r - 3 * q) * m, q * m, q);
        lemma_div_multiples_vanish(m, q);
    }
}

/// Evaluate the pseudo-noise wave at a phase given in micro-radians.
pub fn triangle_wave(phase: u64) -> (w: i64)
    ensures
        w == tri_wave(phase as int),
        -(MICRO as int) <= w <= MICRO as int,
{
    proof {
        lemma_tri_wave_bounds(phase as int);
    }
    let r: u64 = phase % (FULL_TURN as u64);
    if r < QUARTER_TURN as u64 {
        let t: u64 = (r * (MICRO as u64)) / (QUARTER_TURN as u64);
        t as i64
    } else if r < 3 * (QUARTER_TURN as u64) {
        let t: u64 = ((r - QUARTER_TURN as u64) * (MICRO as u64)) / (QUARTER_TURN as u64);
        MICRO - (t as i64)
    } else {
        let t: u64 = ((r - 3 * (QUARTER_TURN as u64)) * (MICRO as u64)) / (QUARTER_TURN as u64);
        (-MICRO) + (t as i64)
    }
}

/// Product of a non-negative coefficient and a non-negative magnitude,
/// rescaled back into ticks.
pub open spec fn spec_scaled(coeff: int, mag: int) -> int {
    (coeff * mag) / (MICRO as int)
}

/// Sign-preserving fixed-point scaling: `v` multiplied by `coeff` ticks per
/// tick, truncated toward zero.
pub open spec fn spec_scale_signed(coeff: int, v: int) -> int {
    if v >= 0 {
        spec_scaled(coeff, v)
    } else {
        -spec_scaled(coeff, -v)
    }
}

/// Scaling by a coefficient of at most one unit never grows a magnitude.
pub proof fn lemma_scaled_bounds(coeff: int, mag: int)
    requires
        0 <= coeff <= MICRO as int,
        0 <= mag,
    ensures
        0 <= spec_scaled(coeff, mag) <= mag,
{
    let m = MICRO as int;
    lemma_mul_nonnegative(coeff, mag);
    lemma_div_pos_is_pos(coeff * mag, m);
    lemma_mul_inequality(coeff, m, mag);
    lemma_div_is_ordered(coeff * mag, m * mag, m);
    lemma_div_multiples_vanish(mag, m);
}

/// Scaling truncates toward zero and never grows a magnitude: the result
/// lies between zero and `v`.
pub proof fn lemma_scale_signed_bounds(coeff: int, v: int)
    requires
        0 <= coeff <= MICRO as int,
    ensures
        v >= 0 ==> 0 <= spec_scale_signed(coeff, v) <= v,
        v < 0 ==> v <= spec_scale_signed(coeff, v) <= 0,
{
    if v >= 0 {
        lemma_scaled_bounds(coeff, v);
    } else {
        lemma_scaled_bounds(coeff, -v);
    }
}

/// A value within one unit of zero scales to within `coeff` of zero.
pub proof fn lemma_scale_signed_amp(coeff: int, w: int)
    requires
        0 <= coeff,
        -(MICRO as int) <= w <= MICRO as int,
    ensures
        -coeff <= spec_scale_signed(coeff, w) <= coeff,
{
    let m = MICRO as int;
    if w >= 0 {
        lemma_mul_nonnegative(coeff, w);
        lemma_div_pos_is_pos(coeff * w, m);
        lemma_mul_inequality(w, m, coeff);
        assert(w * coeff == coeff * w);
        assert(m * coeff == coeff * m);
        lemma_div_is_ordered(coeff * w, m * coeff, m);
        lemma_div_multiples_vanish(coeff, m);
    } else {
        lemma_mul_nonnegative(coeff, -w);
        lemma_div_pos_is_pos(coeff * -w, m);
        lemma_mul_inequality(-w, m, coeff);
        assert((-w) * coeff == coeff * -w);
        assert(m * coeff == coeff * m);
        lemma_div_is_ordered(coeff * -w, m * coeff, m);
        lemma_div_multiples_vanish(coeff, m);
    }
}

/// Fixed-point scaling of a signed value by a coefficient of at most one
/// unit, truncating toward zero.
pub fn scale_signed(coeff: i64, v: i64) -> (r: i64)
    requires
        0 <= coeff <= MICRO,
        i64::MIN < v,
    ensures
        r == spec_scale_signed(coeff as int, v as int),
        v >= 0 ==> 0 <= r <= v,
        v < 0 ==> v <= r <= 0,
{
    if v >= 0 {
        proof {
            lemma_scaled_bounds(coeff as int, v as int);
        }
        let p: u128 = ((coeff as u128) * (v as u128)) / 1_000_000u128;
        (p as u64) as i64
    } else {
        let neg: i64 = -v;
        proof {
            lemma_scaled_bounds(coeff as int, neg as int);
        }
        let p: u128 = ((coeff as u128) * (neg as u128)) / 1_000_000u128;
        -((p as u64) as i64)
    }
}

/// Truncating division never grows a non-negative dividend; re-exported shape
/// used when reasoning about diagnostic recurrences.
pub proof fn lemma_div_shrinks(x: int, d: int)
    requires
        0 <= x,
        0 < d,
    ensures
        0 <= x / d <= x,
{
    lemma_div_pos_is_pos(x, d);
    lemma_div_nonincreasing(x, d);
}

} // verus!
