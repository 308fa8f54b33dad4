//! Immutable simulation parameters, validated at engine construction.

use vstd::prelude::*;
use crate::units::MICRO;
use crate::model::{GRADIENT_OFFSET, TEMP_LIMIT};

verus! {

/// The selective-stiffness policy: atoms whose residue id falls inside the
/// inclusive `[low_residue, high_residue]` range are released on a soft
/// spring, every other atom is pinned near its anchor by the rest spring.
/// Stiffnesses are fixed-point fractions of a full-strength spring, so they
/// must lie in `[0, MICRO]`.
#[derive(Clone, Copy, PartialEq, Eq, Structural, Debug)]
pub struct RegionPolicy {
    pub low_residue: u32,
    pub high_residue: u32,
    pub soft_stiffness: i64,
    pub rest_stiffness: i64,
}

impl RegionPolicy {
    /// Well-formed range, and both stiffnesses at most a full-strength
    /// spring.
    pub open spec fn valid(&self) -> bool {
        &&& self.low_residue <= self.high_residue
        &&& 0 <= self.soft_stiffness <= MICRO
        &&& 0 <= self.rest_stiffness <= MICRO
    }

    /// Whether a residue id falls inside the released region.
    pub open spec fn contains(&self, residue_id: u32) -> bool {
        self.low_residue <= residue_id <= self.high_residue
    }

    /// The stiffness this policy assigns to an atom.
    pub open spec fn spec_stiffness(&self, residue_id: u32) -> i64 {
        if self.contains(residue_id) {
            self.soft_stiffness
        } else {
            self.rest_stiffness
        }
    }

    /// Select the spring stiffness for an atom: soft inside the released
    /// region, the rest stiffness elsewhere.
    pub fn stiffness(&self, residue_id: u32) -> (k: i64)
        ensures
            k == self.spec_stiffness(residue_id),
    {
        if self.low_residue <= residue_id && residue_id <= self.high_residue {
            self.soft_stiffness
        } else {
            self.rest_stiffness
        }
    }
}

impl Default for RegionPolicy {
    /// Default single-region policy: release residues 380 through 400 on a
    /// 0.0001 spring and pin everything else at full strength.
    fn default() -> (d: Self)
        ensures
            d.low_residue == 380,
            d.high_residue == 400,
            d.soft_stiffness == 100,
            d.rest_stiffness == MICRO,
            d.valid(),
    {
        RegionPolicy { low_residue: 380, high_residue: 400, soft_stiffness: 100,
            rest_stiffness: MICRO }
    }
}

/// Path-integral sampler parameters. Carried in the configuration for
/// callers that tune the sampler; the integration engine itself does not read
/// them.
#[derive(Clone, Copy, PartialEq, Eq, Structural, Debug)]
pub struct PimcConfig {
    pub num_beads: u32,
    pub step_size: i64,
    pub target_acceptance: i64,
    pub adaptation_rate: i64,
}

impl Default for PimcConfig {
    /// Defaults: 32 beads, 0.1 step size, 0.6 target acceptance, 0.05
    /// adaptation rate.
    fn default() -> (d: Self)
        ensures
            d.num_beads == 32,
            d.step_size == 100_000,
            d.target_acceptance == 600_000,
            d.adaptation_rate == 50_000,
    {
        PimcConfig { num_beads: 32, step_size: 100_000, target_acceptance: 600_000,
            adaptation_rate: 50_000 }
    }
}

/// Normal-mode analysis parameters: the convergence threshold compared
/// against the gradient norm, an iteration ceiling for callers that run the
/// analysis, and a damping factor carried for them.
#[derive(Clone, Copy, PartialEq, Eq, Structural, Debug)]
pub struct NlnmConfig {
    pub gradient_threshold: i64,
    pub max_iterations: u32,
    pub damping_factor: i64,
}

impl Default for NlnmConfig {
    /// Defaults: 0.001 gradient threshold, 5000 iterations, 0.1 damping.
    fn default() -> (d: Self)
        ensures
            d.gradient_threshold == GRADIENT_OFFSET,
            d.max_iterations == 5000,
            d.damping_factor == 100_000,
    {
        NlnmConfig { gradient_threshold: GRADIENT_OFFSET, max_iterations: 5000,
            damping_factor: 100_000 }
    }
}

/// The full, immutable configuration of one engine.
#[derive(Clone, Copy, PartialEq, Eq, Structural, Debug)]
pub struct MolecularDynamicsConfig {
    /// Step budget of a full simulation.
    pub max_steps: u64,
    /// Thermostat setpoint, in fixed-point kelvin.
    pub temperature: i64,
    /// Nominal time step, in fixed-point femtoseconds; diagnostic only.
    pub dt: i64,
    /// Path-integral sampler parameters.
    pub pimc_config: PimcConfig,
    /// Normal-mode analysis parameters.
    pub nlnm_config: NlnmConfig,
    /// The selective-stiffness region policy.
    pub region_policy: RegionPolicy,
    /// Request the accelerated execution path.
    pub use_gpu: bool,
    /// Stop a run as soon as the gradient norm falls below the threshold.
    pub stop_on_convergence: bool,
    /// Record a telemetry frame after every step.
    pub telemetry_enabled: bool,
    /// Trajectory memory budget requested from the admission authority,
    /// in bytes.
    pub max_trajectory_memory: usize,
    /// Workspace memory budget requested from the admission authority,
    /// in bytes.
    pub max_workspace_memory: usize,
}

impl MolecularDynamicsConfig {
    /// A construction-time-checked configuration: positive step budget, time
    /// step, threshold and memory budgets; a well-formed region policy; and a
    /// setpoint small enough that its fluctuation stays representable.
    pub open spec fn valid(&self) -> bool {
        &&& self.max_steps > 0
        &&& self.dt > 0
        &&& -TEMP_LIMIT <= self.temperature <= TEMP_LIMIT
        &&& self.nlnm_config.gradient_threshold > 0
        &&& self.region_policy.valid()
        &&& self.max_trajectory_memory > 0
        &&& self.max_workspace_memory > 0
    }

    /// Decide whether this configuration passes construction-time
    /// validation.
    pub fn is_valid(&self) -> (b: bool)
        ensures
            b == self.valid(),
    {
        self.max_steps > 0 && self.dt > 0 && -TEMP_LIMIT <= self.temperature
            && self.temperature <= TEMP_LIMIT && self.nlnm_config.gradient_threshold > 0
            && self.region_policy.low_residue <= self.region_policy.high_residue
            && 0 <= self.region_policy.soft_stiffness
            && self.region_policy.soft_stiffness <= MICRO
            && 0 <= self.region_policy.rest_stiffness
            && self.region_policy.rest_stiffness <= MICRO && self.max_trajectory_memory > 0
            && self.max_workspace_memory > 0
    }
}

impl Default for MolecularDynamicsConfig {
    /// Reference defaults: a 10000-step budget at physiological temperature
    /// 300.15, a 2.0 femtosecond nominal time step, the default region
    /// policy and sampler parameters, the accelerated path requested,
    /// early stop on convergence, telemetry off, and 512 MiB / 256 MiB
    /// memory budgets.
    fn default() -> (d: Self)
        ensures
            d.max_steps == 10_000,
            d.temperature == 300_150_000,
            d.dt == 2_000_000,
            d.pimc_config == (PimcConfig { num_beads: 32, step_size: 100_000,
                target_acceptance: 600_000, adaptation_rate: 50_000 }),
            d.nlnm_config == (NlnmConfig { gradient_threshold: GRADIENT_OFFSET,
                max_iterations: 5000, damping_factor: 100_000 }),
            d.region_policy == (RegionPolicy { low_residue: 380, high_residue: 400,
                soft_stiffness: 100, rest_stiffness: MICRO }),
            d.use_gpu,
            d.stop_on_convergence,
            !d.telemetry_enabled,
            d.max_trajectory_memory == 536_870_912,
            d.max_workspace_memory == 268_435_456,
            d.valid(),
    {
        MolecularDynamicsConfig {
            max_steps: 10_000,
            temperature: 300_150_000,
            dt: 2_000_000,
            pimc_config: PimcConfig::default(),
            nlnm_config: NlnmConfig::default(),
            region_policy: RegionPolicy::default(),
            use_gpu: true,
            stop_on_convergence: true,
            telemetry_enabled: false,
            max_trajectory_memory: 536_870_912,
            max_workspace_memory: 268_435_456,
        }
    }
}

} // verus!
