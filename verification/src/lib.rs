//! A verified molecular-structure integration engine.
//!
//! Starting from an ingested list of atoms, the engine repeatedly perturbs
//! atom coordinates under a selective-stiffness restoring force plus a
//! deterministic pseudo-thermal noise signal, while tracking scalar
//! diagnostics (energy, temperature, acceptance rate and a convergence-proxy
//! gradient norm) until a step budget is exhausted or a convergence threshold
//! is crossed.
//!
//! Every scalar quantity is a fixed-point integer (see [`units`]), so each
//! update rule has an exact mathematical statement and the whole trajectory is
//! a proved-deterministic function of the configuration and the ingested
//! atoms. External collaborators — the structure parser that produces the
//! atom list, the resource-admission authority that gates the accelerated
//! execution path, and any telemetry sink — are represented at their
//! interface boundary by plain values, so the decision logic around them is
//! verified as well.

pub mod atom;
pub mod config;
pub mod engine;
pub mod laws;
pub mod model;
pub mod outcome;
pub mod units;
