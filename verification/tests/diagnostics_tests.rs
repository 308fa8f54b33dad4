//! Configuration defaults, diagnostic recurrences, noise and telemetry.

use prism_physics::atom::Atom;
use prism_physics::config::MolecularDynamicsConfig;
use prism_physics::engine::{AdmissionDecision, MolecularDynamicsEngine};
use prism_physics::units::{scale_signed, triangle_wave};

fn single_atom_engine(
    config: MolecularDynamicsConfig,
    residue_id: u32,
    admission: AdmissionDecision,
) -> MolecularDynamicsEngine {
    let atoms = vec![Atom { residue_id, x: 0, y: 0, z: 0 }];
    MolecularDynamicsEngine::from_sovereign_buffer(config, atoms, admission)
        .expect("construction from one atom must succeed")
}

#[test]
fn test_molecular_dynamics_config_default() {
    let config = MolecularDynamicsConfig::default();
    assert_eq!(config.max_steps, 10_000);
    assert_eq!(config.temperature, 300_150_000);
    assert_eq!(config.dt, 2_000_000);
    assert_eq!(config.pimc_config.num_beads, 32);
    assert_eq!(config.pimc_config.target_acceptance, 600_000);
    assert_eq!(config.nlnm_config.gradient_threshold, 1000);
    assert_eq!(config.nlnm_config.max_iterations, 5000);
    assert_eq!(config.region_policy.low_residue, 380);
    assert_eq!(config.region_policy.high_residue, 400);
    assert_eq!(config.region_policy.soft_stiffness, 100);
    assert_eq!(config.region_policy.rest_stiffness, 1_000_000);
    assert!(config.use_gpu);
    assert_eq!(config.max_trajectory_memory, 512 * 1024 * 1024);
    assert_eq!(config.max_workspace_memory, 256 * 1024 * 1024);
}

#[test]
fn test_initial_energy_calculation() {
    let energy = MolecularDynamicsEngine::calculate_initial_energy(7000);
    assert!(energy < 0);
    assert!(energy > -20_000_000_000);
}

#[test]
fn test_gradient_recurrence_exact() {
    for steps in [1u64, 2, 7, 100] {
        let mut engine = single_atom_engine(
            MolecularDynamicsConfig::default(),
            1,
            AdmissionDecision::BackendUnavailable,
        );
        engine.run_nlnm_breathing(steps).expect("run must succeed");
        let stats = engine.get_statistics();
        assert_eq!(stats.current_step, steps);
        assert_eq!(stats.gradient_norm, 1_000_000 / (steps as i64 + 1) + 1000);
    }
}

#[test]
fn test_energy_recurrence_exact() {
    let atoms: Vec<Atom> = (0..4)
        .map(|i| Atom { residue_id: i, x: 0, y: 0, z: 0 })
        .collect();
    let mut engine = MolecularDynamicsEngine::from_sovereign_buffer(
        MolecularDynamicsConfig::default(),
        atoms,
        AdmissionDecision::BackendUnavailable,
    )
    .expect("construction must succeed");
    assert_eq!(engine.get_statistics().current_energy, -10_000_000);
    engine.run_nlnm_breathing(1).expect("run must succeed");
    // Step 1: the step factor is exactly one half, so the energy is unchanged.
    assert_eq!(engine.get_statistics().current_energy, -10_000_000);
    engine.run_nlnm_breathing(1).expect("run must succeed");
    // Step 2: (500_000 - 1_000_000 / 3) / 10 = 16_666 ticks are drained.
    assert_eq!(engine.get_statistics().current_energy, -10_016_666);
}

#[test]
fn test_temperature_and_acceptance_exact() {
    let mut engine = single_atom_engine(
        MolecularDynamicsConfig::default(),
        1,
        AdmissionDecision::BackendUnavailable,
    );
    engine.run_nlnm_breathing(1).expect("run must succeed");
    let stats = engine.get_statistics();
    // tri_wave(100_000) = 63_661, scaled by the 0.1 wiggle: +6_366 ticks.
    assert_eq!(stats.current_temperature, 300_156_366);
    // The cosine wave at 50_000: 968_170, scaled by 0.1 and offset from 0.6.
    assert_eq!(stats.acceptance_rate, 696_817);
    // The same values through the public wave and scaling functions.
    assert_eq!(
        stats.current_temperature,
        300_150_000 + scale_signed(100_000, triangle_wave(100_000))
    );
    assert_eq!(
        stats.acceptance_rate,
        600_000 + scale_signed(100_000, triangle_wave(50_000 + 1_570_796))
    );
}

#[test]
fn test_converged_flag_matches_threshold() {
    let mut config = MolecularDynamicsConfig::default();
    config.nlnm_config.gradient_threshold = 400_000;
    config.stop_on_convergence = false;
    let mut engine = single_atom_engine(config, 1, AdmissionDecision::BackendUnavailable);
    let stats = engine.get_statistics();
    assert_eq!(stats.converged, stats.gradient_norm < 400_000);
    assert!(!stats.converged);

    engine.run_nlnm_breathing(1).expect("run must succeed");
    let stats = engine.get_statistics();
    assert_eq!(stats.gradient_norm, 501_000);
    assert_eq!(stats.converged, stats.gradient_norm < 400_000);
    assert!(!stats.converged);

    engine.run_nlnm_breathing(1).expect("run must succeed");
    let stats = engine.get_statistics();
    assert_eq!(stats.gradient_norm, 334_333);
    assert_eq!(stats.converged, stats.gradient_norm < 400_000);
    assert!(stats.converged);
}

#[test]
fn test_noise_amplitude_differs_by_path() {
    // An atom outside the released region sits at its anchor plus the pure
    // noise of the last step, so the two paths differ exactly by the raised
    // amplitude.
    let mut config = MolecularDynamicsConfig::default();
    config.use_gpu = true;
    let mut reference = single_atom_engine(config, 10, AdmissionDecision::BackendUnavailable);
    let mut accelerated = single_atom_engine(
        config,
        10,
        AdmissionDecision::Approved { available_bytes: 1 << 30 },
    );
    reference.run_nlnm_breathing(1).expect("run must succeed");
    accelerated.run_nlnm_breathing(1).expect("run must succeed");
    let r = reference.get_current_atoms().expect("atoms")[0];
    let a = accelerated.get_current_atoms().expect("atoms")[0];
    assert_eq!(r.x, scale_signed(200_000, triangle_wave(100_000)));
    assert_eq!(a.x, scale_signed(220_000, triangle_wave(100_000)));
    assert_eq!(r.x, 12_732);
    assert_eq!(a.x, 14_005);
}

#[test]
fn test_telemetry_frames() {
    let mut config = MolecularDynamicsConfig::default();
    config.telemetry_enabled = true;
    let mut engine = single_atom_engine(config, 1, AdmissionDecision::BackendUnavailable);
    engine.run_nlnm_breathing(5).expect("run must succeed");
    assert_eq!(engine.telemetry.len(), 5);
    assert_eq!(engine.telemetry[0].step, 1);
    assert_eq!(engine.telemetry[4].step, 5);
    assert_eq!(engine.telemetry[4].gradient_norm, 1_000_000 / 6 + 1000);
    let stats = engine.get_statistics();
    assert_eq!(engine.telemetry[4].energy, stats.current_energy);
    assert_eq!(engine.telemetry[4].temperature, stats.current_temperature);
    assert_eq!(engine.telemetry[4].acceptance_rate, stats.acceptance_rate);

    let mut quiet = single_atom_engine(
        MolecularDynamicsConfig::default(),
        1,
        AdmissionDecision::BackendUnavailable,
    );
    quiet.run_nlnm_breathing(5).expect("run must succeed");
    assert_eq!(quiet.telemetry.len(), 0);
}

#[test]
fn test_run_outcome_reports_run() {
    let mut engine = single_atom_engine(
        MolecularDynamicsConfig::default(),
        1,
        AdmissionDecision::BackendUnavailable,
    );
    let outcome = engine.run_nlnm_breathing(5).expect("run must succeed");
    let stats = engine.get_statistics();
    assert_eq!(outcome.metrics.steps_completed, 5);
    assert_eq!(outcome.metrics.final_energy, stats.current_energy);
    assert_eq!(outcome.metrics.final_gradient, stats.gradient_norm);
    assert_eq!(outcome.metrics.converged, stats.converged);
    assert_eq!(outcome.message, "NLNM breathing run complete");
}
