//! Engine-level laws: properties that relate the verified pieces, stated
//! and proved once, for every reachable engine state.

use vstd::prelude::*;
use crate::engine::MolecularDynamicsEngine;
use crate::model::{GRADIENT_OFFSET, GRADIENT_SENTINEL, PHASE_ATOM_X, PHASE_ATOM_Y,
    PHASE_ATOM_Z, PHASE_STEP_X, PHASE_STEP_Y, PHASE_STEP_Z, gradient_after,
    lemma_full_stiffness_coord, lemma_gradient_bounds};
use crate::outcome::frame_matches;
use crate::units::{MICRO, QUARTER_TURN, abs_sp, spec_scale_signed, tri_wave,
    lemma_tri_wave_bounds, lemma_scale_signed_amp};
use vstd::arithmetic::mul::lemma_mul_nonnegative;

verus! {

/// For the lifetime of any engine, `current` and `anchor` have equal length
/// and index-aligned residue ids.
pub proof fn lemma_store_alignment(e: &MolecularDynamicsEngine)
    requires
        e.wf(),
    ensures
        e.store.current@.len() == e.store.anchor@.len(),
        forall|j: int| 0 <= j < e.store.anchor@.len()
            ==> (#[trigger] e.store.current@[j]).residue_id
                == e.store.anchor@[j].residue_id,
{
    assert forall|j: int| 0 <= j < e.store.anchor@.len()
        implies (#[trigger] e.store.current@[j]).residue_id
            == e.store.anchor@[j].residue_id by {
        assert(e.atom_pinned(j));
    }
}

/// Determinism: two engines with the same configuration, the same ingested
/// anchors, the same execution path and the same lifetime step count hold
/// bit-identical trajectories, diagnostics and telemetry. There is no hidden
/// randomness anywhere in the engine.
pub proof fn lemma_deterministic_state(e1: &MolecularDynamicsEngine,
    e2: &MolecularDynamicsEngine)
    requires
        e1.wf(),
        e2.wf(),
        e1.config == e2.config,
        e1.store.anchor@ == e2.store.anchor@,
        e1.path == e2.path,
        e1.current_step == e2.current_step,
    ensures
        e1.store.current@ == e2.store.current@,
        e1.current_energy == e2.current_energy,
        e1.current_temperature == e2.current_temperature,
        e1.acceptance_rate == e2.acceptance_rate,
        e1.gradient_norm == e2.gradient_norm,
        e1.telemetry@ == e2.telemetry@,
{
    assert forall|j: int| 0 <= j < e1.store.anchor@.len()
        implies #[trigger] e1.store.current@[j] == e2.store.current@[j] by {
        assert(e1.atom_pinned(j));
        assert(e2.atom_pinned(j));
    }
    assert(e1.store.current@ =~= e2.store.current@);
    assert forall|m: int| 0 <= m < e1.telemetry@.len()
        implies #[trigger] e1.telemetry@[m] == e2.telemetry@[m] by {
        assert(frame_matches(e1.telemetry@[m], e1.atom_count(),
            e1.config.temperature as int, m + 1));
        assert(frame_matches(e2.telemetry@[m], e2.atom_count(),
            e2.config.temperature as int, m + 1));
    }
    assert(e1.telemetry@ =~= e2.telemetry@);
}

/// The stopping step of a run is unique: any two step counters that both
/// satisfy the run contract's characterization — within the budget, early
/// only when converged, and with no converged step skipped — are equal. Two
/// identical engines given identical budgets therefore finish on the same
/// step, whatever the early-stop policy decides.
pub proof fn lemma_run_stop_step_unique(n0: u64, steps: u64, t: i64, nf1: u64, nf2: u64)
    requires
        n0 <= nf1 <= n0 + steps,
        n0 <= nf2 <= n0 + steps,
        steps > 0 ==> nf1 > n0 && nf2 > n0,
        nf1 < n0 + steps ==> gradient_after(nf1 as int) < t,
        nf2 < n0 + steps ==> gradient_after(nf2 as int) < t,
        forall|m: int| n0 < m < nf1 ==> !(gradient_after(m) < t),
        forall|m: int| n0 < m < nf2 ==> !(gradient_after(m) < t),
    ensures
        nf1 == nf2,
{
    if nf1 < nf2 {
        assert(gradient_after(nf1 as int) < t);
        assert(!(gradient_after(nf1 as int) < t));
    }
    if nf2 < nf1 {
        assert(gradient_after(nf2 as int) < t);
        assert(!(gradient_after(nf2 as int) < t));
    }
}

/// Recurrence check: after any step `n >= 1`, the gradient norm is exactly
/// one unit divided by `n + 1`, plus the fixed offset.
pub proof fn lemma_gradient_recurrence(e: &MolecularDynamicsEngine)
    requires
        e.wf(),
        e.current_step >= 1,
    ensures
        e.gradient_norm == (MICRO as int) / (e.current_step as int + 1)
            + (GRADIENT_OFFSET as int),
{
}

/// The gradient norm can never fall below its fixed offset, so a threshold
/// at or below the offset is never reached: every run with such a threshold
/// executes its whole step budget, whatever the early-stop setting.
pub proof fn lemma_tight_threshold_never_converges(t: i64, n: int)
    requires
        t <= GRADIENT_OFFSET,
        n >= 0,
    ensures
        !(gradient_after(n) < t),
{
    lemma_gradient_bounds(n);
}

/// Region policy, pinned half: under the default full-strength rest spring,
/// an atom outside the released region sits exactly at its anchor plus the
/// current step's noise — its displacement can never exceed one noise
/// amplitude, while a softly held atom inside the region is free to
/// accumulate drift.
pub proof fn lemma_rest_atom_pinned_to_anchor(e: &MolecularDynamicsEngine, j: int)
    requires
        e.wf(),
        0 <= j < e.atom_count(),
        !e.config.region_policy.contains(e.store.anchor@[j].residue_id),
        e.config.region_policy.rest_stiffness == MICRO,
        e.current_step >= 1,
    ensures
        e.store.current@[j].x == e.store.anchor@[j].x + spec_scale_signed(
            e.noise_amplitude() as int,
            tri_wave((PHASE_ATOM_X as int) * j + (PHASE_STEP_X as int)
                * (e.current_step as int))),
        e.store.current@[j].y == e.store.anchor@[j].y + spec_scale_signed(
            e.noise_amplitude() as int,
            tri_wave((PHASE_ATOM_Y as int) * j + (PHASE_STEP_Y as int)
                * (e.current_step as int))),
        e.store.current@[j].z == e.store.anchor@[j].z + spec_scale_signed(
            e.noise_amplitude() as int,
            tri_wave((PHASE_ATOM_Z as int) * j + (PHASE_STEP_Z as int)
                * (e.current_step as int) + (QUARTER_TURN as int))),
        abs_sp(e.store.current@[j].x - e.store.anchor@[j].x) <= e.noise_amplitude() as int,
        abs_sp(e.store.current@[j].y - e.store.anchor@[j].y) <= e.noise_amplitude() as int,
        abs_sp(e.store.current@[j].z - e.store.anchor@[j].z) <= e.noise_amplitude() as int,
{
    let a = e.store.anchor@[j];
    let amp = e.noise_amplitude() as int;
    let n = e.current_step as nat;
    assert(e.atom_pinned(j));
    lemma_full_stiffness_coord(a.x as int, amp, PHASE_ATOM_X as int, PHASE_STEP_X as int, 0, j,
        n);
    lemma_full_stiffness_coord(a.y as int, amp, PHASE_ATOM_Y as int, PHASE_STEP_Y as int, 0, j,
        n);
    lemma_full_stiffness_coord(a.z as int, amp, PHASE_ATOM_Z as int, PHASE_STEP_Z as int,
        QUARTER_TURN as int, j, n);
    let px = (PHASE_ATOM_X as int) * j + (PHASE_STEP_X as int) * (n as int);
    let py = (PHASE_ATOM_Y as int) * j + (PHASE_STEP_Y as int) * (n as int);
    let pz = (PHASE_ATOM_Z as int) * j + (PHASE_STEP_Z as int) * (n as int)
        + (QUARTER_TURN as int);
    lemma_mul_nonnegative(PHASE_ATOM_X as int, j);
    lemma_mul_nonnegative(PHASE_ATOM_Y as int, j);
    lemma_mul_nonnegative(PHASE_ATOM_Z as int, j);
    lemma_mul_nonnegative(PHASE_STEP_X as int, n as int);
    lemma_mul_nonnegative(PHASE_STEP_Y as int, n as int);
    lemma_mul_nonnegative(PHASE_STEP_Z as int, n as int);
    lemma_tri_wave_bounds(px);
    lemma_tri_wave_bounds(py);
    lemma_tri_wave_bounds(pz);
    lemma_scale_signed_amp(amp, tri_wave(px));
    lemma_scale_signed_amp(amp, tri_wave(py));
    lemma_scale_signed_amp(amp, tri_wave(pz));
}

/// A freshly constructed engine, before any run, still carries the sentinel
/// gradient norm and therefore never reports convergence, whatever the
/// configured threshold.
pub proof fn lemma_fresh_engine_not_converged(e: &MolecularDynamicsEngine)
    requires
        e.wf(),
        e.current_step == 0,
    ensures
        e.gradient_norm == GRADIENT_SENTINEL,
        !(e.gradient_norm < e.config.nlnm_config.gradient_threshold),
{
}

} // verus!
