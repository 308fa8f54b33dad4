//! Exact model of the per-step update.
//!
//! These spec functions state, in plain integer arithmetic, what one
//! integration step does to an atom coordinate and to each scalar diagnostic.
//! The executable engine is proved to follow them tick for tick, so the whole
//! trajectory is a mathematical function of the ingested data and the
//! configuration.

use vstd::prelude::*;
use vstd::arithmetic::div_mod::{lemma_div_is_ordered, lemma_div_is_ordered_by_denominator,
    lemma_div_multiples_vanish, lemma_small_mod};
use vstd::arithmetic::mul::lemma_mul_nonnegative;
use crate::units::{FULL_TURN, MICRO, QUARTER_TURN, abs_sp, tri_wave, spec_scale_signed,
    lemma_tri_wave_bounds, lemma_scale_signed_bounds, lemma_scale_signed_amp, lemma_div_shrinks};

verus! {

/// Noise amplitude on the reference execution path: 0.20 units.
pub const NOISE_AMP_REFERENCE: i64 = 200_000;

/// Noise amplitude on the accelerated execution path: the reference
/// amplitude raised by a factor of 1.1.
pub const NOISE_AMP_ACCELERATED: i64 = 220_000;

/// Hard ceiling on the lifetime step counter of one engine; keeps every
/// coordinate and diagnostic provably inside `i64`.
pub const STEP_LIMIT: u64 = 1_000_000_000_000;

/// Hard ceiling on the number of ingested atoms; keeps the initial energy
/// estimate provably inside `i64`.
pub const ATOM_COUNT_LIMIT: u64 = 1_000_000_000_000;

/// Largest admissible magnitude of an ingested coordinate, in ticks.
pub const COORD_LIMIT: i64 = 1_000_000_000_000_000;

/// Largest drift a coordinate can accumulate away from its anchor over a full
/// engine lifetime: `STEP_LIMIT` steps of at most one accelerated noise
/// amplitude each.
pub const MAX_DRIFT: i64 = 220_000_000_000_000_000;

/// Largest admissible magnitude of the configured thermostat setpoint.
pub const TEMP_LIMIT: i64 = 1_000_000_000_000;

/// Initial energy estimate: -2.5 energy units for each ingested atom. A
/// placeholder seed, not a physical model; kept behind this named constant so
/// it can be replaced in one place.
pub const ENERGY_PER_ATOM: i64 = -2_500_000;

/// Sentinel gradient norm of an engine that has not yet stepped: larger than
/// every representable threshold, so a fresh engine never reports
/// convergence.
pub const GRADIENT_SENTINEL: i64 = i64::MAX;

/// Additive floor of the gradient-norm recurrence: 0.001 units.
pub const GRADIENT_OFFSET: i64 = 1000;

/// Per-atom phase coefficient of the x-axis noise: 1.3 micro-radians.
pub const PHASE_ATOM_X: i64 = 1_300_000;

/// Per-step phase coefficient of the x-axis noise: 0.1 micro-radians.
pub const PHASE_STEP_X: i64 = 100_000;

/// Per-atom phase coefficient of the y-axis noise: 1.7 micro-radians.
pub const PHASE_ATOM_Y: i64 = 1_700_000;

/// Per-step phase coefficient of the y-axis noise: 0.2 micro-radians.
pub const PHASE_STEP_Y: i64 = 200_000;

/// Per-atom phase coefficient of the z-axis noise: 1.9 micro-radians.
pub const PHASE_ATOM_Z: i64 = 1_900_000;

/// Per-step phase coefficient of the z-axis noise: 0.3 micro-radians.
pub const PHASE_STEP_Z: i64 = 300_000;

/// Amplitude of the thermostat fluctuation around its setpoint: 0.1 units.
pub const TEMP_WIGGLE: i64 = 100_000;

/// Per-step phase advance of the thermostat fluctuation: 0.1 micro-radians.
pub const TEMP_PHASE_STEP: i64 = 100_000;

/// Base acceptance rate of the synthetic Monte-Carlo diagnostic: 0.6.
pub const ACC_BASE: i64 = 600_000;

/// Amplitude of the acceptance-rate fluctuation: 0.1 units.
pub const ACC_WIGGLE: i64 = 100_000;

/// Per-step phase advance of the acceptance-rate fluctuation: 0.05
/// micro-radians.
pub const ACC_PHASE_STEP: i64 = 50_000;

/// Lower clamp of the acceptance-rate diagnostic: 0.5.
pub const ACC_MIN: i64 = 500_000;

/// Upper clamp of the acceptance-rate diagnostic: 0.9.
pub const ACC_MAX: i64 = 900_000;

/// One step of one coordinate: the restoring force pulls the coordinate a
/// fraction `k` of its displacement back toward its anchor `a`, then the
/// pseudo-noise at this atom's and step's phase is added.
pub open spec fn next_coord(c: int, a: int, k: int, amp: int, ca: int, cs: int, shift: int,
    i: int, n: int) -> int {
    c - spec_scale_signed(k, c - a) + spec_scale_signed(amp, tri_wave(ca * i + cs * n + shift))
}

/// The coordinate of atom `i` after `n` steps, starting from its anchor `a`
/// (the ingested position), under stiffness `k` and noise amplitude `amp` on
/// the axis with phase coefficients `ca`, `cs` and phase offset `shift`.
pub open spec fn coord_after(a: int, k: int, amp: int, ca: int, cs: int, shift: int, i: int,
    n: nat) -> int
    decreases n,
{
    if n == 0 {
        a
    } else {
        next_coord(coord_after(a, k, amp, ca, cs, shift, i, (n - 1) as nat), a, k, amp, ca, cs,
            shift, i, n as int)
    }
}

/// The x coordinate of atom `i` after `n` steps.
pub open spec fn coord_x_after(a: int, k: int, amp: int, i: int, n: nat) -> int {
    coord_after(a, k, amp, PHASE_ATOM_X as int, PHASE_STEP_X as int, 0, i, n)
}

/// The y coordinate of atom `i` after `n` steps.
pub open spec fn coord_y_after(a: int, k: int, amp: int, i: int, n: nat) -> int {
    coord_after(a, k, amp, PHASE_ATOM_Y as int, PHASE_STEP_Y as int, 0, i, n)
}

/// The z coordinate of atom `i` after `n` steps; its wave is shifted a
/// quarter turn, making it the cosine axis.
pub open spec fn coord_z_after(a: int, k: int, amp: int, i: int, n: nat) -> int {
    coord_after(a, k, amp, PHASE_ATOM_Z as int, PHASE_STEP_Z as int, QUARTER_TURN as int, i, n)
}

/// The convergence driver of step `n`: one unit divided by `n + 1`.
pub open spec fn step_factor(n: int) -> int {
    (MICRO as int) / (n + 1)
}

/// Energy change applied by step `n`: a tenth of the step factor's excess
/// over one half, truncated toward zero.
pub open spec fn energy_delta(n: int) -> int {
    if step_factor(n) >= 500_000 {
        (step_factor(n) - 500_000) / 10
    } else {
        -((500_000 - step_factor(n)) / 10)
    }
}

/// The initial energy estimate of `count` ingested atoms.
pub open spec fn initial_energy(count: int) -> int {
    (ENERGY_PER_ATOM as int) * count
}

/// The energy diagnostic after `n` steps over `count` atoms.
pub open spec fn energy_after(count: int, n: nat) -> int
    decreases n,
{
    if n == 0 {
        initial_energy(count)
    } else {
        energy_after(count, (n - 1) as nat) + energy_delta(n as int)
    }
}

/// The gradient-norm diagnostic after step `n >= 1`: the step factor plus the
/// fixed offset, decreasing toward the offset as `n` grows.
pub open spec fn gradient_after(n: int) -> int {
    step_factor(n) + GRADIENT_OFFSET
}

/// Clamp `v` into `[lo, hi]`.
pub open spec fn clamp_sp(v: int, lo: int, hi: int) -> int {
    if v < lo {
        lo
    } else if v > hi {
        hi
    } else {
        v
    }
}

/// The temperature diagnostic after step `n`: the configured setpoint plus a
/// small wave of the step counter. At `n == 0` the wave is zero, so this also
/// describes a fresh engine.
pub open spec fn temperature_after(setpoint: int, n: int) -> int {
    setpoint + spec_scale_signed(TEMP_WIGGLE as int, tri_wave((TEMP_PHASE_STEP as int) * n))
}

/// The acceptance-rate diagnostic after step `n >= 1`: a clamped wave around
/// the base rate, on the quarter-turn-shifted (cosine) axis.
pub open spec fn acceptance_after(n: int) -> int {
    clamp_sp(
        (ACC_BASE as int) + spec_scale_signed(ACC_WIGGLE as int,
            tri_wave((ACC_PHASE_STEP as int) * n + (QUARTER_TURN as int))),
        ACC_MIN as int,
        ACC_MAX as int,
    )
}

/// The step factor is one unit at step 0 and at most half a unit from step 1
/// on.
pub proof fn lemma_step_factor_bounds(n: int)
    requires
        n >= 0,
    ensures
        0 <= step_factor(n) <= MICRO as int,
        n >= 1 ==> step_factor(n) <= 500_000,
{
    lemma_div_shrinks(MICRO as int, n + 1);
    if n >= 1 {
        lemma_div_is_ordered_by_denominator(MICRO as int, 2, n + 1);
        lemma_div_multiples_vanish(500_000, 2);
    }
}

/// From step 1 on, each step lowers the energy by at most 0.05 units.
pub proof fn lemma_energy_delta_bound(n: int)
    requires
        n >= 1,
    ensures
        -50_000 <= energy_delta(n) <= 0,
{
    lemma_step_factor_bounds(n);
    let s = step_factor(n);
    if s >= 500_000 {
        assert(s == 500_000);
    } else {
        lemma_div_shrinks(500_000 - s, 10);
        lemma_div_is_ordered(500_000 - s, 500_000, 10);
        lemma_div_multiples_vanish(50_000, 10);
    }
}

/// The energy diagnostic never strays more than `n` times 0.05 units from
/// its initial estimate.
pub proof fn lemma_energy_after_bound(count: int, n: nat)
    ensures
        abs_sp(energy_after(count, n) - initial_energy(count)) <= n * 50_000,
    decreases n,
{
    if n > 0 {
        lemma_energy_after_bound(count, (n - 1) as nat);
        lemma_energy_delta_bound(n as int);
    }
}

/// The gradient norm never falls below its fixed offset, and never exceeds
/// one unit plus the offset.
pub proof fn lemma_gradient_bounds(n: int)
    requires
        n >= 0,
    ensures
        GRADIENT_OFFSET as int <= gradient_after(n) <= (MICRO as int) + (GRADIENT_OFFSET as int),
{
    lemma_step_factor_bounds(n);
}

/// The wave vanishes at phase zero, so every diagnostic built on it starts
/// from its base value.
pub proof fn lemma_wave_zero()
    ensures
        tri_wave(0) == 0,
{
    lemma_small_mod(0nat, FULL_TURN as nat);
    lemma_div_shrinks(0, QUARTER_TURN as int);
}

/// Scaling zero gives zero.
pub proof fn lemma_scale_signed_zero(coeff: int)
    requires
        0 <= coeff <= MICRO as int,
    ensures
        spec_scale_signed(coeff, 0) == 0,
{
    lemma_scale_signed_bounds(coeff, 0);
}

/// A fresh engine's temperature diagnostic is exactly its setpoint.
pub proof fn lemma_temperature_at_zero(setpoint: int)
    ensures
        temperature_after(setpoint, 0) == setpoint,
{
    lemma_wave_zero();
    lemma_scale_signed_zero(TEMP_WIGGLE as int);
}

/// A full-strength spring (stiffness of one unit) cancels a displacement
/// exactly.
pub proof fn lemma_full_stiffness_pull(d: int)
    ensures
        spec_scale_signed(MICRO as int, d) == d,
{
    if d >= 0 {
        lemma_div_multiples_vanish(d, MICRO as int);
    } else {
        lemma_div_multiples_vanish(-d, MICRO as int);
    }
}

/// Under a full-strength spring the coordinate after any step `n >= 1` is
/// exactly the anchor plus that step's noise: the spring cancels the whole
/// accumulated displacement before the noise is added.
pub proof fn lemma_full_stiffness_coord(a: int, amp: int, ca: int, cs: int, shift: int, i: int,
    n: nat)
    requires
        n >= 1,
    ensures
        coord_after(a, MICRO as int, amp, ca, cs, shift, i, n)
            == a + spec_scale_signed(amp, tri_wave(ca * i + cs * (n as int) + shift)),
{
    let prev = coord_after(a, MICRO as int, amp, ca, cs, shift, i, (n - 1) as nat);
    lemma_full_stiffness_pull(prev - a);
}

/// One step moves a coordinate at most one noise amplitude further from its
/// anchor: the spring term only ever shrinks the displacement.
pub proof fn lemma_next_coord_drift(c: int, a: int, k: int, amp: int, ca: int, cs: int,
    shift: int, i: int, n: int)
    requires
        0 <= k <= MICRO as int,
        0 <= amp <= NOISE_AMP_ACCELERATED as int,
        0 <= ca,
        0 <= cs,
        0 <= shift,
        0 <= i,
        0 <= n,
    ensures
        abs_sp(next_coord(c, a, k, amp, ca, cs, shift, i, n) - a)
            <= abs_sp(c - a) + (NOISE_AMP_ACCELERATED as int),
{
    let phase = ca * i + cs * n + shift;
    lemma_mul_nonnegative(ca, i);
    lemma_mul_nonnegative(cs, n);
    lemma_tri_wave_bounds(phase);
    lemma_scale_signed_bounds(k, c - a);
    lemma_scale_signed_amp(amp, tri_wave(phase));
}

/// After `n` steps a coordinate is within `n` accelerated noise amplitudes of
/// its anchor.
pub proof fn lemma_coord_drift(a: int, k: int, amp: int, ca: int, cs: int, shift: int, i: int,
    n: nat)
    requires
        0 <= k <= MICRO as int,
        0 <= amp <= NOISE_AMP_ACCELERATED as int,
        0 <= ca,
        0 <= cs,
        0 <= shift,
        0 <= i,
    ensures
        abs_sp(coord_after(a, k, amp, ca, cs, shift, i, n) - a)
            <= n * (NOISE_AMP_ACCELERATED as int),
    decreases n,
{
    if n > 0 {
        lemma_coord_drift(a, k, amp, ca, cs, shift, i, (n - 1) as nat);
        lemma_next_coord_drift(coord_after(a, k, amp, ca, cs, shift, i, (n - 1) as nat), a, k,
            amp, ca, cs, shift, i, n as int);
    }
}

} // verus!
