//! Tests of the shared mode gate and exit signal.

use ghostkeys::state::{OperationMode, SharedState};

#[test]
fn test_default_mode_is_active() {
    let state = SharedState::new();
    assert_eq!(state.get_mode().unwrap(), OperationMode::Active);
}

#[test]
fn test_toggle_mode() {
    let state = SharedState::new();

    // Active -> Passthrough
    let mode = state.toggle_mode().unwrap();
    assert_eq!(mode, OperationMode::Passthrough);

    // Passthrough -> Active
    let mode = state.toggle_mode().unwrap();
    assert_eq!(mode, OperationMode::Active);
}

#[test]
fn test_exit_flag() {
    let state = SharedState::new();
    assert!(!state.should_exit());

    state.signal_exit();
    assert!(state.should_exit());
}

#[test]
fn test_shared_state_is_clone() {
    let state1 = SharedState::new();
    let state2 = state1.clone();

    state1.set_mode(OperationMode::Passthrough).unwrap();
    assert_eq!(state2.get_mode().unwrap(), OperationMode::Passthrough);
}

#[test]
fn test_set_mode_round_trips() {
    let state = SharedState::new();

    state.set_mode(OperationMode::Passthrough).unwrap();
    assert_eq!(state.get_mode().unwrap(), OperationMode::Passthrough);

    state.set_mode(OperationMode::Active).unwrap();
    assert_eq!(state.get_mode().unwrap(), OperationMode::Active);
}

#[test]
fn test_many_toggles_stay_valid() {
    let state = SharedState::new();
    for _ in 0..101 {
        let mode = state.toggle_mode().unwrap();
        assert!(mode == OperationMode::Active || mode == OperationMode::Passthrough);
    }
    // An odd number of toggles from Active lands on Passthrough.
    assert_eq!(state.get_mode().unwrap(), OperationMode::Passthrough);
}
