//! Atoms, the dual atom store, and the single-atom step.

use vstd::prelude::*;
use vstd::arithmetic::mul::lemma_mul_inequality;
use crate::units::{MICRO, QUARTER_TURN, abs_sp, tri_wave, spec_scale_signed, triangle_wave,
    scale_signed, lemma_scale_signed_amp};
use crate::model::{ATOM_COUNT_LIMIT, COORD_LIMIT, MAX_DRIFT, NOISE_AMP_ACCELERATED,
    PHASE_ATOM_X, PHASE_ATOM_Y, PHASE_ATOM_Z, PHASE_STEP_X, PHASE_STEP_Y, PHASE_STEP_Z,
    STEP_LIMIT, next_coord};

verus! {

/// One atom: its residue id and its three fixed-point coordinates.
#[derive(Clone, Copy, PartialEq, Eq, Structural, Debug)]
pub struct Atom {
    pub residue_id: u32,
    pub x: i64,
    pub y: i64,
    pub z: i64,
}

/// An ingested coordinate triple must lie within `COORD_LIMIT` of the
/// origin; together with the step ceiling this keeps every later position
/// representable.
pub open spec fn atom_in_range(a: Atom) -> bool {
    &&& -COORD_LIMIT <= a.x <= COORD_LIMIT
    &&& -COORD_LIMIT <= a.y <= COORD_LIMIT
    &&& -COORD_LIMIT <= a.z <= COORD_LIMIT
}

/// Decide whether an atom's coordinates are within the admissible ingestion
/// range.
pub fn atom_coords_in_range(a: &Atom) -> (b: bool)
    ensures
        b == atom_in_range(*a),
{
    -COORD_LIMIT <= a.x && a.x <= COORD_LIMIT && -COORD_LIMIT <= a.y && a.y <= COORD_LIMIT
        && -COORD_LIMIT <= a.z && a.z <= COORD_LIMIT
}

/// The dual store: `current` is mutated in place on every step, `anchor` is
/// an independently owned copy of the same ingested list, frozen for the
/// engine's lifetime as the restoring-force target.
#[derive(Debug)]
pub struct AtomStore {
    pub current: Vec<Atom>,
    pub anchor: Vec<Atom>,
}

impl AtomStore {
    /// The store invariant: equal lengths and index-aligned residue ids, for
    /// the engine's entire lifetime.
    pub open spec fn aligned(&self) -> bool {
        &&& self.current@.len() == self.anchor@.len()
        &&& forall|j: int| 0 <= j < self.anchor@.len()
            ==> (#[trigger] self.current@[j]).residue_id == self.anchor@[j].residue_id
    }
}

/// Advance one coordinate: pull it a fraction `k` of its displacement back
/// toward its anchor `a`, then add the pseudo-noise wave at `phase`, scaled
/// by the path's amplitude `amp`.
fn advance_coord(c: i64, a: i64, k: i64, amp: i64, phase: u64) -> (r: i64)
    requires
        0 <= k <= MICRO,
        0 <= amp <= NOISE_AMP_ACCELERATED,
        -COORD_LIMIT <= a <= COORD_LIMIT,
        abs_sp(c - a) <= MAX_DRIFT as int,
    ensures
        r == c - spec_scale_signed(k as int, c - a)
            + spec_scale_signed(amp as int, tri_wave(phase as int)),
        abs_sp(r - a) <= abs_sp(c - a) + amp,
{
    let w: i64 = triangle_wave(phase);
    proof {
        lemma_scale_signed_amp(amp as int, w as int);
    }
    let noise: i64 = scale_signed(amp, w);
    let d: i64 = c - a;
    let pull: i64 = scale_signed(k, d);
    c - pull + noise
}

/// Advance one atom by one integration step `n`: pull each coordinate a
/// fraction `k` of its displacement back toward the anchor, then add the
/// pseudo-noise of atom `i` at step `n` — the sine-axis wave on x and y, the
/// quarter-turn-shifted (cosine) wave on z — scaled by the path's amplitude
/// `amp`.
pub fn step_atom(cur: Atom, anc: Atom, k: i64, amp: i64, i: usize, n: u64) -> (r: Atom)
    requires
        0 <= k <= MICRO,
        0 <= amp <= NOISE_AMP_ACCELERATED,
        atom_in_range(anc),
        i as int <= ATOM_COUNT_LIMIT as int,
        1 <= n <= STEP_LIMIT,
        abs_sp(cur.x - anc.x) <= MAX_DRIFT as int,
        abs_sp(cur.y - anc.y) <= MAX_DRIFT as int,
        abs_sp(cur.z - anc.z) <= MAX_DRIFT as int,
    ensures
        r.residue_id == cur.residue_id,
        r.x == next_coord(cur.x as int, anc.x as int, k as int, amp as int, PHASE_ATOM_X as int,
            PHASE_STEP_X as int, 0, i as int, n as int),
        r.y == next_coord(cur.y as int, anc.y as int, k as int, amp as int, PHASE_ATOM_Y as int,
            PHASE_STEP_Y as int, 0, i as int, n as int),
        r.z == next_coord(cur.z as int, anc.z as int, k as int, amp as int, PHASE_ATOM_Z as int,
            PHASE_STEP_Z as int, QUARTER_TURN as int, i as int, n as int),
        abs_sp(r.x - anc.x) <= abs_sp(cur.x - anc.x) + amp,
        abs_sp(r.y - anc.y) <= abs_sp(cur.y - anc.y) + amp,
        abs_sp(r.z - anc.z) <= abs_sp(cur.z - anc.z) + amp,
{
    proof {
        lemma_mul_inequality(i as int, ATOM_COUNT_LIMIT as int, PHASE_ATOM_X as int);
        lemma_mul_inequality(i as int, ATOM_COUNT_LIMIT as int, PHASE_ATOM_Y as int);
        lemma_mul_inequality(i as int, ATOM_COUNT_LIMIT as int, PHASE_ATOM_Z as int);
        lemma_mul_inequality(n as int, STEP_LIMIT as int, PHASE_STEP_X as int);
        lemma_mul_inequality(n as int, STEP_LIMIT as int, PHASE_STEP_Y as int);
        lemma_mul_inequality(n as int, STEP_LIMIT as int, PHASE_STEP_Z as int);
    }
    let phase_x: u64 = (i as u64) * (PHASE_ATOM_X as u64) + n * (PHASE_STEP_X as u64);
    let phase_y: u64 = (i as u64) * (PHASE_ATOM_Y as u64) + n * (PHASE_STEP_Y as u64);
    let phase_z: u64 = (i as u64) * (PHASE_ATOM_Z as u64) + n * (PHASE_STEP_Z as u64)
        + (QUARTER_TURN as u64);

    Atom {
        residue_id: cur.residue_id,
        x: advance_coord(cur.x, anc.x, k, amp, phase_x),
        y: advance_coord(cur.y, anc.y, k, amp, phase_y),
        z: advance_coord(cur.z, anc.z, k, amp, phase_z),
    }
}

} // verus!
