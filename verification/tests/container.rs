use nbody::error::SimError;
use nbody::extract::Layout;
use nbody::scalar::Scalar;
use nbody::simulation::NBodySimulation;
use nbody::state::{InitPolicy, SimulationState};

fn bits(buffer: Vec<Scalar>) -> Vec<u64> {
    buffer.into_iter().map(|x| x.to_bits()).collect()
}

fn snapshot(state: &SimulationState) -> Vec<u64> {
    bits(state.extract_positions(Layout::Xyz, None))
}

#[test]
fn a_new_container_is_empty() {
    for policy in [InitPolicy::KeepExisting, InitPolicy::Replace] {
        let state = SimulationState::new(policy);
        assert!(!state.is_initialized());
        assert_eq!(state.body_count(), 0);
        assert_eq!(state.policy(), policy);
        assert!(state.extract_positions(Layout::Xyz, None).is_empty());
        assert!(state.extract_positions(Layout::Xy, Some(Scalar::one())).is_empty());
    }
}

#[test]
fn stepping_an_empty_container_does_nothing() {
    let mut state = SimulationState::new(InitPolicy::Replace);
    state.step();
    assert!(!state.is_initialized());
    assert!(state.extract_positions(Layout::Xyz, None).is_empty());
}

#[test]
fn initialize_builds_the_default_engine() {
    let mut state = SimulationState::new(InitPolicy::KeepExisting);
    assert_eq!(state.initialize(5), Ok(()));
    assert!(state.is_initialized());
    assert_eq!(state.body_count(), 5);
    let engine = NBodySimulation::new(5).unwrap();
    assert_eq!(snapshot(&state), bits(engine.extract_positions(Layout::Xyz, None)));
}

#[test]
fn initialize_refuses_zero_bodies_and_leaves_the_container_alone() {
    let mut state = SimulationState::new(InitPolicy::Replace);
    assert_eq!(state.initialize(0), Err(SimError::NoBodies));
    assert!(!state.is_initialized());
    assert_eq!(state.initialize(3), Ok(()));
    state.step();
    let before = snapshot(&state);
    assert_eq!(state.initialize(0), Err(SimError::NoBodies));
    assert_eq!(state.body_count(), 3);
    assert_eq!(snapshot(&state), before);
}

#[test]
fn keep_existing_preserves_a_run_in_progress() {
    let mut state = SimulationState::new(InitPolicy::KeepExisting);
    state.initialize(4).unwrap();
    state.step();
    state.step();
    let before = snapshot(&state);
    assert_eq!(state.initialize(9), Ok(()));
    assert_eq!(state.body_count(), 4);
    assert_eq!(snapshot(&state), before);
    assert_eq!(state.initialize(0), Ok(()));
    assert_eq!(snapshot(&state), before);
}

#[test]
fn replace_starts_over() {
    let mut state = SimulationState::new(InitPolicy::Replace);
    state.initialize(4).unwrap();
    let fresh = snapshot(&state);
    state.step();
    state.step();
    assert_ne!(snapshot(&state), fresh);
    assert_eq!(state.initialize(4), Ok(()));
    assert_eq!(snapshot(&state), fresh);
    assert_eq!(state.initialize(6), Ok(()));
    assert_eq!(state.body_count(), 6);
}

#[test]
fn container_steps_its_engine() {
    let mut state = SimulationState::new(InitPolicy::Replace);
    state.initialize(5).unwrap();
    let mut engine = NBodySimulation::new(5).unwrap();
    for _ in 0..4 {
        state.step();
        engine.step();
        assert_eq!(state.body_count(), 5);
    }
    assert_eq!(snapshot(&state), bits(engine.extract_positions(Layout::Xyz, None)));
    assert_eq!(
        bits(state.extract_positions(Layout::Xy, Some(Scalar::from_bits(2.0f64.to_bits())))),
        bits(engine.extract_positions(Layout::Xy, Some(Scalar::from_bits(2.0f64.to_bits()))))
    );
}

#[test]
fn container_runs_are_bit_identical() {
    let run = |policy: InitPolicy| {
        let mut state = SimulationState::new(policy);
        state.initialize(8).unwrap();
        for _ in 0..20 {
            state.step();
        }
        snapshot(&state)
    };
    assert_eq!(run(InitPolicy::Replace), run(InitPolicy::Replace));
    assert_eq!(run(InitPolicy::Replace), run(InitPolicy::KeepExisting));
}

#[test]
fn container_extraction_is_repeatable() {
    let mut state = SimulationState::new(InitPolicy::Replace);
    state.initialize(6).unwrap();
    state.step();
    assert_eq!(snapshot(&state), snapshot(&state));
    assert_eq!(state.extract_positions(Layout::Xyz, None).len(), 18);
    assert_eq!(state.extract_positions(Layout::Xy, None).len(), 12);
}

#[test]
fn clear_empties_the_container() {
    let mut state = SimulationState::new(InitPolicy::KeepExisting);
    state.initialize(3).unwrap();
    state.clear();
    assert!(!state.is_initialized());
    assert_eq!(state.body_count(), 0);
    assert!(state.extract_positions(Layout::Xyz, None).is_empty());
    assert_eq!(state.policy(), InitPolicy::KeepExisting);
    assert_eq!(state.initialize(2), Ok(()));
    assert_eq!(state.body_count(), 2);
}
