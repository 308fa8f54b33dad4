//! The integration engine: state model, construction with admission
//! fallback, the verified step loop, and statistics.

use vstd::prelude::*;
use vstd::arithmetic::mul::lemma_mul_inequality;
use crate::atom::{Atom, AtomStore, atom_in_range, atom_coords_in_range, step_atom};
use crate::config::MolecularDynamicsConfig;
use crate::model::{ATOM_COUNT_LIMIT, GRADIENT_SENTINEL, NOISE_AMP_ACCELERATED, NOISE_AMP_REFERENCE, PHASE_ATOM_X, PHASE_ATOM_Y, PHASE_ATOM_Z,
    PHASE_STEP_X, PHASE_STEP_Y, PHASE_STEP_Z, STEP_LIMIT, TEMP_PHASE_STEP, TEMP_WIGGLE,
    ACC_BASE, ACC_MAX, ACC_MIN, ACC_PHASE_STEP, ACC_WIGGLE, acceptance_after, coord_x_after,
    coord_y_after, coord_z_after, energy_after, gradient_after, initial_energy,
    lemma_coord_drift, lemma_energy_after_bound, lemma_energy_delta_bound,
    lemma_step_factor_bounds, lemma_temperature_at_zero, temperature_after};
use crate::outcome::{EngineError, ExecutionPath, MolecularDynamicsStats, RunMetrics,
    RunOutcome, RunStatus, TelemetryFrame, frame_matches};
use crate::units::{MICRO, QUARTER_TURN, scale_signed, triangle_wave, lemma_scale_signed_amp};

verus! {

/// The admission authority's reply to an accelerated-path memory request.
/// The authority is external; the engine only consumes its decision.
/// `Approved` carries the authority's available-memory metadata and asserts
/// that a backend context exists; `Rejected` means the byte budgets were
/// refused; `BackendUnavailable` means no accelerated backend exists at all.
#[derive(Clone, Copy, PartialEq, Eq, Structural, Debug)]
pub enum AdmissionDecision {
    Approved { available_bytes: u64 },
    Rejected,
    BackendUnavailable,
}

/// A plain description of an attached device context.
#[derive(Clone, Copy, PartialEq, Eq, Structural, Debug)]
pub struct DeviceContextInfo {
    pub device_ordinal: u32,
}

/// The integration engine.
///
/// The fields are public so that contracts can speak about them directly;
/// they are mutated only by the engine's own verified methods, which
/// preserve [`MolecularDynamicsEngine::wf`].
#[derive(Debug)]
pub struct MolecularDynamicsEngine {
    /// Immutable configuration.
    pub config: MolecularDynamicsConfig,
    /// Lifetime step counter; monotonically non-decreasing, never reset.
    pub current_step: u64,
    /// Energy diagnostic, in ticks.
    pub current_energy: i64,
    /// Temperature diagnostic, in ticks.
    pub current_temperature: i64,
    /// Acceptance-rate diagnostic, in ticks.
    pub acceptance_rate: i64,
    /// Convergence-proxy gradient norm, in ticks; `GRADIENT_SENTINEL` until
    /// the first step.
    pub gradient_norm: i64,
    /// The dual atom store.
    pub store: AtomStore,
    /// The execution strategy selected at construction.
    pub path: ExecutionPath,
    /// The recoverable error that forced a fallback to the reference path,
    /// if any.
    pub downgrade: Option<EngineError>,
    /// The attached device context, if any.
    pub device_context: Option<DeviceContextInfo>,
    /// Recorded telemetry frames, one per step, when telemetry is enabled.
    pub telemetry: Vec<TelemetryFrame>,
}

impl MolecularDynamicsEngine {
    /// The noise amplitude of the selected execution path.
    pub open spec fn noise_amplitude(&self) -> i64 {
        if self.path == ExecutionPath::Accelerated {
            NOISE_AMP_ACCELERATED
        } else {
            NOISE_AMP_REFERENCE
        }
    }

    /// Number of ingested atoms.
    pub open spec fn atom_count(&self) -> int {
        self.store.anchor@.len() as int
    }

    /// The stiffness the region policy assigns to atom `j`.
    pub open spec fn stiffness_at(&self, j: int) -> i64 {
        self.config.region_policy.spec_stiffness(self.store.anchor@[j].residue_id)
    }

    /// Atom `j`'s current record is exactly the model's value after
    /// `current_step` steps from its anchor.
    pub open spec fn atom_pinned(&self, j: int) -> bool {
        let a = self.store.anchor@[j];
        let c = self.store.current@[j];
        let k = self.stiffness_at(j) as int;
        let amp = self.noise_amplitude() as int;
        let n = self.current_step as nat;
        &&& c.residue_id == a.residue_id
        &&& c.x == coord_x_after(a.x as int, k, amp, j, n)
        &&& c.y == coord_y_after(a.y as int, k, amp, j, n)
        &&& c.z == coord_z_after(a.z as int, k, amp, j, n)
    }

    /// Store invariant: index-aligned sequences of in-range anchors, with
    /// every current record pinned to the model.
    pub open spec fn store_ok(&self) -> bool {
        &&& self.store.current@.len() == self.store.anchor@.len()
        &&& self.atom_count() <= ATOM_COUNT_LIMIT as int
        &&& forall|j: int| 0 <= j < self.atom_count()
            ==> atom_in_range(#[trigger] self.store.anchor@[j])
        &&& forall|j: int| 0 <= j < self.atom_count() ==> #[trigger] self.atom_pinned(j)
    }

    /// Diagnostics invariant: every scalar diagnostic is the model's value
    /// at `current_step`.
    pub open spec fn diagnostics_ok(&self) -> bool {
        &&& self.current_energy == energy_after(self.atom_count(), self.current_step as nat)
        &&& self.gradient_norm == (if self.current_step == 0 {
            GRADIENT_SENTINEL as int
        } else {
            gradient_after(self.current_step as int)
        })
        &&& self.current_temperature == temperature_after(self.config.temperature as int,
            self.current_step as int)
        &&& self.acceptance_rate == (if self.current_step == 0 {
            0int
        } else {
            acceptance_after(self.current_step as int)
        })
    }

    /// Telemetry invariant: with telemetry enabled there is exactly one
    /// frame per executed step, holding that step's diagnostics; with it
    /// disabled there are none.
    pub open spec fn telemetry_ok(&self) -> bool {
        if self.config.telemetry_enabled {
            &&& self.telemetry@.len() == self.current_step
            &&& forall|m: int| 0 <= m < self.telemetry@.len()
                ==> frame_matches(#[trigger] self.telemetry@[m], self.atom_count(),
                    self.config.temperature as int, m + 1)
        } else {
            self.telemetry@.len() == 0
        }
    }

    /// The engine invariant, established by construction and preserved by
    /// every method.
    pub open spec fn wf(&self) -> bool {
        &&& self.config.valid()
        &&& self.current_step <= STEP_LIMIT
        &&& self.store_ok()
        &&& self.diagnostics_ok()
        &&& self.telemetry_ok()
    }

    /// The execution path actually chosen for a requested acceleration flag
    /// and an admission decision: accelerated only if requested and
    /// approved.
    pub open spec fn selected_path(config: MolecularDynamicsConfig,
        admission: AdmissionDecision) -> ExecutionPath {
        if config.use_gpu && admission is Approved {
            ExecutionPath::Accelerated
        } else {
            ExecutionPath::Reference
        }
    }

    /// The recoverable downgrade recorded for a requested acceleration flag
    /// and an admission decision.
    pub open spec fn recorded_downgrade(config: MolecularDynamicsConfig,
        admission: AdmissionDecision) -> Option<EngineError> {
        if config.use_gpu && admission is Rejected {
            Some(EngineError::ResourceAdmission)
        } else if config.use_gpu && admission is BackendUnavailable {
            Some(EngineError::DeviceUnavailable)
        } else {
            None
        }
    }

    /// Create an engine with a validated configuration and an empty store.
    /// Construction fails exactly on an invalid configuration.
    pub fn new(config: MolecularDynamicsConfig) -> (r: Result<MolecularDynamicsEngine,
        EngineError>)
        ensures
            r is Ok <==> config.valid(),
            !config.valid() ==> r == Err::<MolecularDynamicsEngine, EngineError>(
                EngineError::Validation),
            r is Ok ==> {
                let e = r->Ok_0;
                &&& e.wf()
                &&& e.config == config
                &&& e.current_step == 0
                &&& e.store.current@.len() == 0
                &&& e.store.anchor@.len() == 0
                &&& e.current_energy == 0
                &&& e.gradient_norm == GRADIENT_SENTINEL
                &&& e.current_temperature == config.temperature
                &&& e.acceptance_rate == 0
                &&& e.path == ExecutionPath::Reference
                &&& e.downgrade is None
                &&& e.device_context is None
                &&& e.telemetry@.len() == 0
            },
    {
        if !config.is_valid() {
            return Err(EngineError::Validation);
        }
        let engine = MolecularDynamicsEngine {
            config,
            current_step: 0,
            current_energy: 0,
            current_temperature: config.temperature,
            acceptance_rate: 0,
            gradient_norm: GRADIENT_SENTINEL,
            store: AtomStore { current: Vec::new(), anchor: Vec::new() },
            path: ExecutionPath::Reference,
            downgrade: None,
            device_context: None,
            telemetry: Vec::new(),
        };
        proof {
            lemma_temperature_at_zero(config.temperature as int);
        }
        Ok(engine)
    }

    /// Construct an engine from an externally parsed structure: the ordered
    /// atom list produced by the structure parser from a raw buffer, plus
    /// the admission authority's decision on this configuration's memory
    /// budgets (consulted by the caller only when `use_gpu` is set).
    ///
    /// Construction fails exactly on an invalid configuration or an empty,
    /// oversized or out-of-range atom list — never on a rejected admission:
    /// rejection and backend absence downgrade the engine to the reference
    /// path and are recorded in `downgrade`.
    ///
    /// `current` starts as the ingested list and `anchor` as an
    /// independently owned copy of it; the initial energy is the documented
    /// per-atom estimate.
    pub fn from_sovereign_buffer(config: MolecularDynamicsConfig, atoms: Vec<Atom>,
        admission: AdmissionDecision) -> (r: Result<MolecularDynamicsEngine, EngineError>)
        ensures
            r is Ok <==> (config.valid() && 0 < atoms@.len() <= ATOM_COUNT_LIMIT
                && (forall|j: int| 0 <= j < atoms@.len()
                    ==> atom_in_range(#[trigger] atoms@[j]))),
            r is Err ==> r == Err::<MolecularDynamicsEngine, EngineError>(
                EngineError::Validation),
            r is Ok ==> {
                let e = r->Ok_0;
                &&& e.wf()
                &&& e.config == config
                &&& e.store.anchor@ == atoms@
                &&& e.store.current@ == atoms@
                &&& e.current_step == 0
                &&& e.current_energy == initial_energy(atoms@.len() as int)
                &&& e.gradient_norm == GRADIENT_SENTINEL
                &&& e.current_temperature == config.temperature
                &&& e.acceptance_rate == 0
                &&& e.path == Self::selected_path(config, admission)
                &&& e.downgrade == Self::recorded_downgrade(config, admission)
                &&& e.device_context is None
                &&& e.telemetry@.len() == 0
            },
    {
        if !config.is_valid() {
            return Err(EngineError::Validation);
        }
        let count: usize = atoms.len();
        if count == 0 {
            return Err(EngineError::Validation);
        }
        if count as u64 > ATOM_COUNT_LIMIT {
            return Err(EngineError::Validation);
        }
        let mut j: usize = 0;
        while j < count
            invariant
                j <= count,
                count == atoms@.len(),
                forall|q: int| 0 <= q < j ==> atom_in_range(#[trigger] atoms@[q]),
            decreases count - j,
        {
            if !atom_coords_in_range(&atoms[j]) {
                return Err(EngineError::Validation);
            }
            j += 1;
        }
        let mut anchor_copy: Vec<Atom> = Vec::new();
        let mut q: usize = 0;
        while q < count
            invariant
                q <= count,
                count == atoms@.len(),
                anchor_copy@.len() == q,
                forall|t: int| 0 <= t < q ==> #[trigger] anchor_copy@[t] == atoms@[t],
            decreases count - q,
        {
            let a: Atom = atoms[q];
            anchor_copy.push(a);
            q += 1;
        }
        proof {
            assert(anchor_copy@ =~= atoms@);
            lemma_temperature_at_zero(config.temperature as int);
        }
        let init_energy: i64 = Self::calculate_initial_energy(count);
        let (path, downgrade) = if config.use_gpu {
            match admission {
                AdmissionDecision::Approved { available_bytes: _ } => (
                    ExecutionPath::Accelerated,
                    None,
                ),
                AdmissionDecision::Rejected => (
                    ExecutionPath::Reference,
                    Some(EngineError::ResourceAdmission),
                ),
                AdmissionDecision::BackendUnavailable => (
                    ExecutionPath::Reference,
                    Some(EngineError::DeviceUnavailable),
                ),
            }
        } else {
            (ExecutionPath::Reference, None)
        };
        let engine = MolecularDynamicsEngine {
            config,
            current_step: 0,
            current_energy: init_energy,
            current_temperature: config.temperature,
            acceptance_rate: 0,
            gradient_norm: GRADIENT_SENTINEL,
            store: AtomStore { current: atoms, anchor: anchor_copy },
            path,
            downgrade,
            device_context: None,
            telemetry: Vec::new(),
        };
        proof {
            assert forall|t: int| 0 <= t < engine.atom_count()
                implies #[trigger] engine.atom_pinned(t) by {
                assert(engine.store.current@[t] == engine.store.anchor@[t]);
            }
        }
        Ok(engine)
    }

    /// The initial Hamiltonian energy estimate of `atom_count` ingested
    /// atoms: the documented per-atom constant times the count. A
    /// placeholder seed, not a physical model; isolated here so it can be
    /// replaced in one place.
    pub fn calculate_initial_energy(atom_count: usize) -> (e: i64)
        requires
            atom_count as int <= ATOM_COUNT_LIMIT as int,
        ensures
            e == initial_energy(atom_count as int),
    {
        proof {
            lemma_mul_inequality(atom_count as int, ATOM_COUNT_LIMIT as int, 2_500_000);
        }
        -2_500_000 * (atom_count as i64)
    }

    /// The noise amplitude of the selected execution path.
    pub fn current_noise_amplitude(&self) -> (a: i64)
        ensures
            a == self.noise_amplitude(),
    {
        match self.path {
            ExecutionPath::Accelerated => NOISE_AMP_ACCELERATED,
            ExecutionPath::Reference => NOISE_AMP_REFERENCE,
        }
    }

    /// Assemble a statistics snapshot from the live state: a pure read that
    /// copies the diagnostics, adds the configured step budget, and derives
    /// the convergence flag by comparing the gradient norm against the
    /// configured threshold. Callable at any point; before the first step
    /// the sentinel gradient norm guarantees `converged` is false.
    pub fn get_statistics(&self) -> (s: MolecularDynamicsStats)
        ensures
            s.current_step == self.current_step,
            s.total_steps == self.config.max_steps,
            s.current_energy == self.current_energy,
            s.current_temperature == self.current_temperature,
            s.acceptance_rate == self.acceptance_rate,
            s.gradient_norm == self.gradient_norm,
            s.converged == (self.gradient_norm < self.config.nlnm_config.gradient_threshold),
    {
        MolecularDynamicsStats {
            current_step: self.current_step,
            total_steps: self.config.max_steps,
            current_energy: self.current_energy,
            current_temperature: self.current_temperature,
            acceptance_rate: self.acceptance_rate,
            gradient_norm: self.gradient_norm,
            converged: self.gradient_norm < self.config.nlnm_config.gradient_threshold,
        }
    }

    /// Return a copy of the current atom positions. Fails exactly when the
    /// store is empty, that is, when no structure has been ingested.
    pub fn get_current_atoms(&self) -> (r: Result<Vec<Atom>, EngineError>)
        ensures
            self.store.current@.len() == 0 ==> r == Err::<Vec<Atom>, EngineError>(
                EngineError::Validation),
            self.store.current@.len() > 0 ==> r is Ok && r->Ok_0@ == self.store.current@,
    {
        let len: usize = self.store.current.len();
        if len == 0 {
            return Err(EngineError::Validation);
        }
        let mut out: Vec<Atom> = Vec::new();
        let mut j: usize = 0;
        while j < len
            invariant
                j <= len,
                len == self.store.current@.len(),
                out@.len() == j,
                forall|t: int| 0 <= t < j ==> #[trigger] out@[t] == self.store.current@[t],
            decreases len - j,
        {
            let a: Atom = self.store.current[j];
            out.push(a);
            j += 1;
        }
        proof {
            assert(out@ =~= self.store.current@);
        }
        Ok(out)
    }

    /// Execute one integration step: advance the step counter, update the
    /// diagnostic recurrences, record a telemetry frame when enabled, and
    /// move every atom under the selective-stiffness restoring force plus
    /// the step's pseudo-noise.
    fn nlnm_step(&mut self)
        requires
            old(self).wf(),
            old(self).current_step < STEP_LIMIT,
        ensures
            final(self).wf(),
            final(self).current_step == old(self).current_step + 1,
            final(self).config == old(self).config,
            final(self).store.anchor@ == old(self).store.anchor@,
            final(self).path == old(self).path,
            final(self).downgrade == old(self).downgrade,
            final(self).device_context == old(self).device_context,
    {
        let ghost e0 = *old(self);
        let n: u64 = self.current_step + 1;
        self.current_step = n;
        let len: usize = self.store.current.len();

        // Diagnostic recurrences of step n.
        proof {
            lemma_step_factor_bounds(n as int);
            lemma_energy_after_bound(len as int, (n - 1) as nat);
            lemma_energy_delta_bound(n as int);
            lemma_mul_inequality(len as int, ATOM_COUNT_LIMIT as int, 2_500_000);
            lemma_mul_inequality((n - 1) as int, STEP_LIMIT as int, 50_000);
            lemma_mul_inequality(n as int, STEP_LIMIT as int, TEMP_PHASE_STEP as int);
            lemma_mul_inequality(n as int, STEP_LIMIT as int, ACC_PHASE_STEP as int);
        }
        let s: u64 = (MICRO as u64) / (n + 1);
        if s >= 500_000 {
            let delta: i64 = ((s - 500_000) / 10) as i64;
            self.current_energy = self.current_energy + delta;
        } else {
            let delta: i64 = ((500_000u64 - s) / 10) as i64;
            self.current_energy = self.current_energy - delta;
        }
        self.gradient_norm = (s + 1000) as i64;

        let tw: i64 = triangle_wave(n * (TEMP_PHASE_STEP as u64));
        proof {
            lemma_scale_signed_amp(TEMP_WIGGLE as int, tw as int);
        }
        let tn: i64 = scale_signed(TEMP_WIGGLE, tw);
        self.current_temperature = self.config.temperature + tn;

        let aw: i64 = triangle_wave(n * (ACC_PHASE_STEP as u64) + (QUARTER_TURN as u64));
        proof {
            lemma_scale_signed_amp(ACC_WIGGLE as int, aw as int);
        }
        let an: i64 = scale_signed(ACC_WIGGLE, aw);
        let mut acc: i64 = ACC_BASE + an;
        if acc < ACC_MIN {
            acc = ACC_MIN;
        }
        if acc > ACC_MAX {
            acc = ACC_MAX;
        }
        self.acceptance_rate = acc;

        if self.config.telemetry_enabled {
            let frame = TelemetryFrame {
                step: n,
                energy: self.current_energy,
                temperature: self.current_temperature,
                acceptance_rate: self.acceptance_rate,
                gradient_norm: self.gradient_norm,
            };
            self.telemetry.push(frame);
            proof {
                assert forall|m: int| 0 <= m < self.telemetry@.len()
                    implies frame_matches(#[trigger] self.telemetry@[m], len as int,
                        self.config.temperature as int, m + 1) by {
                    if m < self.telemetry@.len() - 1 {
                        assert(frame_matches(e0.telemetry@[m], len as int,
                            self.config.temperature as int, m + 1));
                    } else {
                        assert(self.telemetry@[m] == frame);
                    }
                }
            }
        }

        // Per-atom position update of step n.
        let amp: i64 = self.current_noise_amplitude();
        let mut j: usize = 0;
        while j < len
            invariant
                e0.wf(),
                n == e0.current_step + 1,
                n <= STEP_LIMIT,
                self.current_step == n,
                self.config == e0.config,
                self.path == e0.path,
                self.downgrade == e0.downgrade,
                self.device_context == e0.device_context,
                self.store.anchor@ == e0.store.anchor@,
                len == e0.store.anchor@.len(),
                self.store.current@.len() == len,
                amp == self.noise_amplitude(),
                self.current_energy == energy_after(len as int, n as nat),
                self.gradient_norm == gradient_after(n as int),
                self.current_temperature == temperature_after(self.config.temperature as int,
                    n as int),
                self.acceptance_rate == acceptance_after(n as int),
                self.telemetry_ok(),
                j <= len,
                forall|q: int| 0 <= q < j ==> #[trigger] self.atom_pinned(q),
                forall|q: int| j <= q < len ==> #[trigger] self.store.current@[q]
                    == e0.store.current@[q],
            decreases len - j,
        {
            let anc: Atom = self.store.anchor[j];
            let cur: Atom = self.store.current[j];
            let k: i64 = self.config.region_policy.stiffness(anc.residue_id);
            proof {
                assert(e0.atom_pinned(j as int));
                assert(atom_in_range(anc));
                lemma_mul_inequality((n - 1) as int, STEP_LIMIT as int,
                    NOISE_AMP_ACCELERATED as int);
                lemma_coord_drift(anc.x as int, k as int, amp as int, PHASE_ATOM_X as int,
                    PHASE_STEP_X as int, 0, j as int, (n - 1) as nat);
                lemma_coord_drift(anc.y as int, k as int, amp as int, PHASE_ATOM_Y as int,
                    PHASE_STEP_Y as int, 0, j as int, (n - 1) as nat);
                lemma_coord_drift(anc.z as int, k as int, amp as int, PHASE_ATOM_Z as int,
                    PHASE_STEP_Z as int, QUARTER_TURN as int, j as int, (n - 1) as nat);
            }
            let ghost prev = *self;
            let updated: Atom = step_atom(cur, anc, k, amp, j, n);
            self.store.current[j] = updated;
            proof {
                assert forall|q: int| 0 <= q <= j implies #[trigger] self.atom_pinned(q) by {
                    if q < j as int {
                        assert(prev.atom_pinned(q));
                        assert(self.store.current@[q] == prev.store.current@[q]);
                    } else {
                        assert(self.atom_pinned(j as int));
                    }
                }
                assert forall|q: int| j + 1 <= q < len
                    implies #[trigger] self.store.current@[q] == e0.store.current@[q] by {
                    assert(prev.store.current@[q] == e0.store.current@[q]);
                }
            }
            j += 1;
        }
        proof {
            assert forall|q: int| 0 <= q < self.atom_count()
                implies atom_in_range(#[trigger] self.store.anchor@[q]) by {
                assert(atom_in_range(e0.store.anchor@[q]));
            }
        }
    }

    /// Run the breathing loop for up to `steps` further steps.
    ///
    /// Fails only when no structure has been ingested. Otherwise every step
    /// advances the counter by one and applies the verified step update;
    /// when `stop_on_convergence` is configured the loop stops early at the
    /// first step whose gradient norm falls below the configured threshold,
    /// and otherwise the full budget is executed. The returned outcome
    /// reports the lifetime step count, the final energy and gradient
    /// diagnostics, the convergence flag, and the execution path that ran.
    pub fn run_nlnm_breathing(&mut self, steps: u64) -> (r: Result<RunOutcome, EngineError>)
        requires
            old(self).wf(),
            old(self).current_step + steps <= STEP_LIMIT,
        ensures
            final(self).wf(),
            final(self).config == old(self).config,
            final(self).store.anchor@ == old(self).store.anchor@,
            final(self).path == old(self).path,
            final(self).downgrade == old(self).downgrade,
            final(self).device_context == old(self).device_context,
            old(self).store.current@.len() == 0 ==> r == Err::<RunOutcome, EngineError>(
                EngineError::Validation) && *final(self) == *old(self),
            old(self).store.current@.len() > 0 ==> ({
                let n0 = old(self).current_step;
                let nf = final(self).current_step;
                let t = old(self).config.nlnm_config.gradient_threshold;
                &&& n0 <= nf <= n0 + steps
                &&& (steps > 0 ==> nf > n0)
                &&& (!old(self).config.stop_on_convergence ==> nf == n0 + steps)
                &&& (nf < n0 + steps ==> old(self).config.stop_on_convergence
                    && gradient_after(nf as int) < t)
                &&& (old(self).config.stop_on_convergence ==> forall|m: int|
                    n0 < m < nf ==> !(gradient_after(m) < t))
                &&& r is Ok
                &&& ({
                    let out = r->Ok_0;
                    &&& out.status == RunStatus::Success
                    &&& out.metrics.steps_completed == nf
                    &&& out.metrics.final_energy == final(self).current_energy
                    &&& out.metrics.final_gradient == final(self).gradient_norm
                    &&& out.metrics.converged == (final(self).gradient_norm < t)
                    &&& out.metrics.path == final(self).path
                })
            }),
    {
        if self.store.current.len() == 0 {
            return Err(EngineError::Validation);
        }
        let ghost e0 = *old(self);
        let threshold: i64 = self.config.nlnm_config.gradient_threshold;
        let early_stop: bool = self.config.stop_on_convergence;
        let mut i: u64 = 0;
        while i < steps
            invariant_except_break
                self.wf(),
                self.config == e0.config,
                self.store.anchor@ == e0.store.anchor@,
                self.path == e0.path,
                self.downgrade == e0.downgrade,
                self.device_context == e0.device_context,
                threshold == e0.config.nlnm_config.gradient_threshold,
                early_stop == e0.config.stop_on_convergence,
                e0.current_step + steps <= STEP_LIMIT,
                i <= steps,
                self.current_step == e0.current_step + i,
                early_stop ==> forall|m: int| e0.current_step < m <= self.current_step
                    ==> !(gradient_after(m) < threshold),
            ensures
                self.wf(),
                self.config == e0.config,
                self.store.anchor@ == e0.store.anchor@,
                self.path == e0.path,
                self.downgrade == e0.downgrade,
                self.device_context == e0.device_context,
                i <= steps,
                self.current_step == e0.current_step + i,
                i == steps || (early_stop && self.gradient_norm < threshold),
                steps > 0 ==> i > 0,
                early_stop ==> forall|m: int| e0.current_step < m < self.current_step
                    ==> !(gradient_after(m) < threshold),
            decreases steps - i,
        {
            i = i + 1;
            self.nlnm_step();
            if early_stop {
                if self.gradient_norm < threshold {
                    break;
                }
            }
        }
        let converged: bool = self.gradient_norm < threshold;
        let outcome = RunOutcome {
            status: RunStatus::Success,
            message: "NLNM breathing run complete",
            metrics: RunMetrics {
                steps_completed: self.current_step,
                final_energy: self.current_energy,
                final_gradient: self.gradient_norm,
                converged,
                path: self.path,
            },
        };
        Ok(outcome)
    }

    /// Attach a device-context description. This is bookkeeping only: the
    /// execution path is fixed at construction from the admission decision.
    pub fn set_cuda_context(&mut self, context: DeviceContextInfo)
        ensures
            final(self).device_context == Some(context),
            final(self).config == old(self).config,
            final(self).current_step == old(self).current_step,
            final(self).current_energy == old(self).current_energy,
            final(self).current_temperature == old(self).current_temperature,
            final(self).acceptance_rate == old(self).acceptance_rate,
            final(self).gradient_norm == old(self).gradient_norm,
            final(self).store.current@ == old(self).store.current@,
            final(self).store.anchor@ == old(self).store.anchor@,
            final(self).path == old(self).path,
            final(self).downgrade == old(self).downgrade,
            final(self).telemetry@ == old(self).telemetry@,
            old(self).wf() ==> final(self).wf(),
    {
        self.device_context = Some(context);
        proof {
            if old(self).wf() {
                assert(self.store.current@ == old(self).store.current@);
                assert(self.store.anchor@ == old(self).store.anchor@);
                assert forall|j: int| 0 <= j < self.atom_count()
                    implies #[trigger] self.atom_pinned(j) by {
                    assert(old(self).atom_pinned(j));
                }
                assert(self.diagnostics_ok());
                assert(self.telemetry_ok());
            }
        }
    }
}

} // verus!
