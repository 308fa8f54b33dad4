//! Error taxonomy, run outcomes, statistics snapshots and telemetry frames.

use vstd::prelude::*;
use crate::model::{acceptance_after, energy_after, gradient_after, temperature_after};

verus! {

/// The error taxonomy.
///
/// `Validation` and `Parse` abort engine construction and surface to the
/// caller. `ResourceAdmission` and `DeviceUnavailable` are recoverable: they
/// are recorded as a downgrade to the reference path and never surfaced as a
/// construction failure. `Internal` marks an invariant violation; the
/// verified step loop proves its own invariants, so it is never produced
/// here, but callers embedding the engine can still report one.
#[derive(Clone, Copy, PartialEq, Eq, Structural, Debug)]
pub enum EngineError {
    /// Malformed configuration, or empty / oversized / out-of-range input.
    Validation,
    /// The external structure parser failed on the raw buffer.
    Parse,
    /// The admission authority rejected the accelerated-path memory request.
    ResourceAdmission,
    /// An accelerated path was requested but no backend context exists.
    DeviceUnavailable,
    /// An engine invariant was found violated.
    Internal,
}

impl EngineError {
    /// A short human-readable description of the error kind.
    pub fn describe(&self) -> (r: &'static str)
        ensures
            *self == EngineError::Validation ==> r == "validation failed",
            *self == EngineError::Parse ==> r == "structure parsing failed",
            *self == EngineError::ResourceAdmission ==> r == "memory admission rejected",
            *self == EngineError::DeviceUnavailable ==> r == "no accelerated backend",
            *self == EngineError::Internal ==> r == "internal invariant violation",
    {
        match *self {
            EngineError::Validation => "validation failed",
            EngineError::Parse => "structure parsing failed",
            EngineError::ResourceAdmission => "memory admission rejected",
            EngineError::DeviceUnavailable => "no accelerated backend",
            EngineError::Internal => "internal invariant violation",
        }
    }
}

/// The two execution strategies of the step loop. They implement the same
/// contract; the accelerated path only raises the noise amplitude.
#[derive(Clone, Copy, PartialEq, Eq, Structural, Debug)]
pub enum ExecutionPath {
    Reference,
    Accelerated,
}

/// Whether a run ended normally.
#[derive(Clone, Copy, PartialEq, Eq, Structural, Debug)]
pub enum RunStatus {
    Success,
    Failure,
}

/// The scalar metrics reported once per run: steps completed over the
/// engine's lifetime, the final energy and gradient diagnostics, the
/// convergence flag, and the execution path that actually ran.
#[derive(Clone, Copy, PartialEq, Eq, Structural, Debug)]
pub struct RunMetrics {
    pub steps_completed: u64,
    pub final_energy: i64,
    pub final_gradient: i64,
    pub converged: bool,
    pub path: ExecutionPath,
}

/// The report of one `run` invocation.
#[derive(Clone, Copy, Debug)]
pub struct RunOutcome {
    pub status: RunStatus,
    pub message: &'static str,
    pub metrics: RunMetrics,
}

/// An immutable snapshot of the live engine state plus the configured step
/// budget and the freshly derived convergence flag.
#[derive(Clone, Copy, PartialEq, Eq, Structural, Debug)]
pub struct MolecularDynamicsStats {
    pub current_step: u64,
    pub total_steps: u64,
    pub current_energy: i64,
    pub current_temperature: i64,
    pub acceptance_rate: i64,
    pub gradient_norm: i64,
    pub converged: bool,
}

/// One per-step observation handed to a telemetry sink.
#[derive(Clone, Copy, PartialEq, Eq, Structural, Debug)]
pub struct TelemetryFrame {
    pub step: u64,
    pub energy: i64,
    pub temperature: i64,
    pub acceptance_rate: i64,
    pub gradient_norm: i64,
}

/// A telemetry frame holds exactly the diagnostics of step `n` of an engine
/// over `count` atoms with thermostat setpoint `setpoint`.
pub open spec fn frame_matches(f: TelemetryFrame, count: int, setpoint: int, n: int) -> bool {
    &&& f.step == n
    &&& f.energy == energy_after(count, n as nat)
    &&& f.temperature == temperature_after(setpoint, n)
    &&& f.acceptance_rate == acceptance_after(n)
    &&& f.gradient_norm == gradient_after(n)
}

} // verus!
