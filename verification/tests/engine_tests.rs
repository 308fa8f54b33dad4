//! Construction, admission fallback, the run loop and the atom store.

use prism_physics::atom::Atom;
use prism_physics::config::MolecularDynamicsConfig;
use prism_physics::engine::{AdmissionDecision, DeviceContextInfo, MolecularDynamicsEngine};
use prism_physics::model::COORD_LIMIT;
use prism_physics::outcome::{EngineError, ExecutionPath, RunStatus};

fn atoms_with_residues(residues: &[u32]) -> Vec<Atom> {
    let mut out: Vec<Atom> = Vec::new();
    for (i, r) in residues.iter().enumerate() {
        out.push(Atom {
            residue_id: *r,
            x: (i as i64) * 1_000_000,
            y: -(i as i64) * 500_000,
            z: 2_000_000,
        });
    }
    out
}

fn reference_engine(config: MolecularDynamicsConfig, residues: &[u32]) -> MolecularDynamicsEngine {
    MolecularDynamicsEngine::from_sovereign_buffer(
        config,
        atoms_with_residues(residues),
        AdmissionDecision::BackendUnavailable,
    )
    .expect("construction from a non-empty atom list must succeed")
}

#[test]
fn test_empty_input_rejected() {
    let r = MolecularDynamicsEngine::from_sovereign_buffer(
        MolecularDynamicsConfig::default(),
        Vec::new(),
        AdmissionDecision::BackendUnavailable,
    );
    assert!(matches!(r, Err(EngineError::Validation)));
}

#[test]
fn test_invalid_config_rejected() {
    let mut config = MolecularDynamicsConfig::default();
    config.max_steps = 0;
    assert!(matches!(
        MolecularDynamicsEngine::new(config),
        Err(EngineError::Validation)
    ));

    let mut config = MolecularDynamicsConfig::default();
    config.dt = 0;
    assert!(matches!(
        MolecularDynamicsEngine::new(config),
        Err(EngineError::Validation)
    ));

    let mut config = MolecularDynamicsConfig::default();
    config.nlnm_config.gradient_threshold = 0;
    assert!(matches!(
        MolecularDynamicsEngine::new(config),
        Err(EngineError::Validation)
    ));

    let mut config = MolecularDynamicsConfig::default();
    config.region_policy.low_residue = 401;
    assert!(matches!(
        MolecularDynamicsEngine::new(config),
        Err(EngineError::Validation)
    ));

    let mut config = MolecularDynamicsConfig::default();
    config.max_workspace_memory = 0;
    let r = MolecularDynamicsEngine::from_sovereign_buffer(
        config,
        atoms_with_residues(&[1, 2]),
        AdmissionDecision::BackendUnavailable,
    );
    assert!(matches!(r, Err(EngineError::Validation)));
}

#[test]
fn test_out_of_range_coordinate_rejected() {
    let mut atoms = atoms_with_residues(&[1, 2, 3]);
    atoms[1].y = COORD_LIMIT + 1;
    let r = MolecularDynamicsEngine::from_sovereign_buffer(
        MolecularDynamicsConfig::default(),
        atoms,
        AdmissionDecision::BackendUnavailable,
    );
    assert!(matches!(r, Err(EngineError::Validation)));
}

#[test]
fn test_fresh_engine_initial_state() {
    let engine = reference_engine(MolecularDynamicsConfig::default(), &[1, 2, 3, 4]);
    let stats = engine.get_statistics();
    assert_eq!(stats.current_step, 0);
    assert!(!stats.converged);
    assert_eq!(stats.gradient_norm, i64::MAX);
    assert_eq!(stats.total_steps, 10_000);
    assert_eq!(stats.current_energy, -10_000_000);
    assert_eq!(stats.current_temperature, 300_150_000);
    assert_eq!(stats.acceptance_rate, 0);
}

#[test]
fn test_store_alignment_after_run() {
    let residues = [5u32, 390, 17, 395, 800];
    let input = atoms_with_residues(&residues);
    let mut engine = reference_engine(MolecularDynamicsConfig::default(), &residues);
    engine.run_nlnm_breathing(10).expect("run must succeed");
    let current = engine.get_current_atoms().expect("atoms must be available");
    assert_eq!(current.len(), input.len());
    for (c, a) in current.iter().zip(input.iter()) {
        assert_eq!(c.residue_id, a.residue_id);
    }
}

#[test]
fn test_reference_determinism() {
    let residues = [1u32, 385, 700];
    let mut e1 = reference_engine(MolecularDynamicsConfig::default(), &residues);
    let mut e2 = reference_engine(MolecularDynamicsConfig::default(), &residues);
    e1.run_nlnm_breathing(57).expect("run must succeed");
    e2.run_nlnm_breathing(30).expect("run must succeed");
    e2.run_nlnm_breathing(27).expect("run must succeed");
    // A later run continues from where the counter left off.
    assert_eq!(e2.get_statistics().current_step, 57);
    assert_eq!(e1.get_statistics(), e2.get_statistics());
    let a1 = e1.get_current_atoms().expect("atoms must be available");
    let a2 = e2.get_current_atoms().expect("atoms must be available");
    assert_eq!(a1, a2);
}

#[test]
fn test_full_budget_run_no_early_stop() {
    let mut config = MolecularDynamicsConfig::default();
    config.max_steps = 1000;
    config.nlnm_config.gradient_threshold = 500;
    config.stop_on_convergence = true;
    let mut engine = reference_engine(config, &[1, 2, 3]);
    let outcome = engine.run_nlnm_breathing(1000).expect("run must succeed");
    let stats = engine.get_statistics();
    assert_eq!(stats.current_step, 1000);
    assert!(!stats.converged);
    assert_eq!(outcome.metrics.steps_completed, 1000);
    assert!(!outcome.metrics.converged);
}

#[test]
fn test_early_stop_toggle() {
    // With a 0.4 threshold the gradient first falls below it at step 2.
    let mut config = MolecularDynamicsConfig::default();
    config.nlnm_config.gradient_threshold = 400_000;
    config.stop_on_convergence = true;
    let mut engine = reference_engine(config, &[1]);
    engine.run_nlnm_breathing(10).expect("run must succeed");
    assert_eq!(engine.get_statistics().current_step, 2);
    assert!(engine.get_statistics().converged);

    let mut config = MolecularDynamicsConfig::default();
    config.nlnm_config.gradient_threshold = 400_000;
    config.stop_on_convergence = false;
    let mut engine = reference_engine(config, &[1]);
    engine.run_nlnm_breathing(10).expect("run must succeed");
    assert_eq!(engine.get_statistics().current_step, 10);
    assert!(engine.get_statistics().converged);
}

#[test]
fn test_admission_rejected_falls_back() {
    let mut config = MolecularDynamicsConfig::default();
    config.use_gpu = true;
    let mut engine = MolecularDynamicsEngine::from_sovereign_buffer(
        config,
        atoms_with_residues(&[1, 2]),
        AdmissionDecision::Rejected,
    )
    .expect("rejected admission must not fail construction");
    assert_eq!(engine.path, ExecutionPath::Reference);
    assert_eq!(engine.downgrade, Some(EngineError::ResourceAdmission));
    let outcome = engine.run_nlnm_breathing(3).expect("run must succeed");
    assert_eq!(outcome.status, RunStatus::Success);
    assert_eq!(outcome.metrics.path, ExecutionPath::Reference);
}

#[test]
fn test_backend_unavailable_falls_back() {
    let mut config = MolecularDynamicsConfig::default();
    config.use_gpu = true;
    let engine = MolecularDynamicsEngine::from_sovereign_buffer(
        config,
        atoms_with_residues(&[1, 2]),
        AdmissionDecision::BackendUnavailable,
    )
    .expect("missing backend must not fail construction");
    assert_eq!(engine.path, ExecutionPath::Reference);
    assert_eq!(engine.downgrade, Some(EngineError::DeviceUnavailable));
}

#[test]
fn test_admission_approved_selects_accelerated() {
    let mut config = MolecularDynamicsConfig::default();
    config.use_gpu = true;
    let mut engine = MolecularDynamicsEngine::from_sovereign_buffer(
        config,
        atoms_with_residues(&[1, 2]),
        AdmissionDecision::Approved { available_bytes: 1 << 32 },
    )
    .expect("approved admission must not fail construction");
    assert_eq!(engine.path, ExecutionPath::Accelerated);
    assert_eq!(engine.downgrade, None);
    let outcome = engine.run_nlnm_breathing(2).expect("run must succeed");
    assert_eq!(outcome.metrics.path, ExecutionPath::Accelerated);
}

#[test]
fn test_acceleration_not_requested_ignores_admission() {
    let mut config = MolecularDynamicsConfig::default();
    config.use_gpu = false;
    let engine = MolecularDynamicsEngine::from_sovereign_buffer(
        config,
        atoms_with_residues(&[1]),
        AdmissionDecision::Approved { available_bytes: 1 << 32 },
    )
    .expect("construction must succeed");
    assert_eq!(engine.path, ExecutionPath::Reference);
    assert_eq!(engine.downgrade, None);
}

#[test]
fn test_get_current_atoms_empty_error() {
    let engine =
        MolecularDynamicsEngine::new(MolecularDynamicsConfig::default()).expect("valid config");
    assert!(matches!(
        engine.get_current_atoms(),
        Err(EngineError::Validation)
    ));
}

#[test]
fn test_run_without_atoms_rejected() {
    let mut engine =
        MolecularDynamicsEngine::new(MolecularDynamicsConfig::default()).expect("valid config");
    assert!(matches!(
        engine.run_nlnm_breathing(5),
        Err(EngineError::Validation)
    ));
    assert_eq!(engine.get_statistics().current_step, 0);
}

#[test]
fn test_set_cuda_context_is_bookkeeping_only() {
    let mut engine = reference_engine(MolecularDynamicsConfig::default(), &[1, 2]);
    let before = engine.path;
    engine.set_cuda_context(DeviceContextInfo { device_ordinal: 0 });
    assert_eq!(engine.device_context, Some(DeviceContextInfo { device_ordinal: 0 }));
    assert_eq!(engine.path, before);
}

#[test]
fn test_error_descriptions() {
    assert_eq!(EngineError::Validation.describe(), "validation failed");
    assert_eq!(EngineError::Parse.describe(), "structure parsing failed");
    assert_eq!(
        EngineError::ResourceAdmission.describe(),
        "memory admission rejected"
    );
    assert_eq!(
        EngineError::DeviceUnavailable.describe(),
        "no accelerated backend"
    );
    assert_eq!(
        EngineError::Internal.describe(),
        "internal invariant violation"
    );
}

#[test]
fn test_region_soft_atom_drifts_more() {
    // Two engines, each with a single atom at the same position and index:
    // one atom inside the released region, one outside it. Over the same
    // step count the released atom accumulates strictly more displacement
    // away from its anchor than the pinned one.
    let mut inside = reference_engine(MolecularDynamicsConfig::default(), &[390]);
    let mut outside = reference_engine(MolecularDynamicsConfig::default(), &[10]);
    let anchor_inside = inside.get_current_atoms().expect("atoms")[0];
    let anchor_outside = outside.get_current_atoms().expect("atoms")[0];
    let mut cumulative_inside: i128 = 0;
    let mut cumulative_outside: i128 = 0;
    for _ in 0..30 {
        inside.run_nlnm_breathing(1).expect("run must succeed");
        outside.run_nlnm_breathing(1).expect("run must succeed");
        let ci = inside.get_current_atoms().expect("atoms")[0];
        let co = outside.get_current_atoms().expect("atoms")[0];
        cumulative_inside += (ci.x - anchor_inside.x).unsigned_abs() as i128
            + (ci.y - anchor_inside.y).unsigned_abs() as i128
            + (ci.z - anchor_inside.z).unsigned_abs() as i128;
        cumulative_outside += (co.x - anchor_outside.x).unsigned_abs() as i128
            + (co.y - anchor_outside.y).unsigned_abs() as i128
            + (co.z - anchor_outside.z).unsigned_abs() as i128;
    }
    assert!(cumulative_inside > cumulative_outside);
}
