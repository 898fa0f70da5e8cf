use football_sim::gate::CursorCaptureGate;
use football_sim::look::{MotionDelta, OrientationState, LOOK_STEP_URAD, PITCH_LIMIT_URAD, TAU_URAD};

#[test]
fn gate_starts_captured() {
    let gate = CursorCaptureGate::startup();
    assert!(gate.is_active());
}

#[test]
fn toggle_twice_restores_gate() {
    let mut gate = CursorCaptureGate::startup();
    gate.on_toggle_key(true);
    assert!(!gate.is_active());
    gate.on_toggle_key(true);
    assert!(gate.is_active());
}

#[test]
fn held_toggle_key_does_nothing() {
    let mut gate = CursorCaptureGate::startup();
    gate.on_toggle_key(false);
    assert!(gate.is_active());
    gate.toggle();
    gate.on_toggle_key(false);
    assert!(!gate.is_active());
}

#[test]
fn look_starts_level_with_nothing_consumed() {
    let state = OrientationState::startup();
    assert_eq!(state.pitch, 0);
    assert_eq!(state.yaw, 0);
    assert_eq!(state.cursor, 0);
}

#[test]
fn one_event_turns_by_the_fixed_step() {
    let gate = CursorCaptureGate::startup();
    let mut state = OrientationState::startup();
    let events = vec![MotionDelta { dx: 10, dy: 5 }];
    state.update(&events, &gate);
    assert_eq!(state.pitch, -5 * LOOK_STEP_URAD);
    assert_eq!(state.yaw, TAU_URAD - 10 * LOOK_STEP_URAD);
    assert_eq!(state.cursor, 1);
}

#[test]
fn pitch_clamps_downward() {
    let gate = CursorCaptureGate::startup();
    let mut state = OrientationState::startup();
    // 2000 counts turn by over 3 radians, far past the clamp
    let events = vec![MotionDelta { dx: 0, dy: 2000 }];
    state.update(&events, &gate);
    assert_eq!(state.pitch, -PITCH_LIMIT_URAD);
}

#[test]
fn pitch_clamps_upward_and_absorbs_more_motion() {
    let gate = CursorCaptureGate::startup();
    let mut state = OrientationState::startup();
    let mut events = vec![MotionDelta { dx: 0, dy: -2000 }];
    state.update(&events, &gate);
    assert_eq!(state.pitch, PITCH_LIMIT_URAD);
    // at the boundary, further upward motion has no effect
    events.push(MotionDelta { dx: 0, dy: -300 });
    state.update(&events, &gate);
    assert_eq!(state.pitch, PITCH_LIMIT_URAD);
}

#[test]
fn pitch_stays_within_limits_over_many_events() {
    let gate = CursorCaptureGate::startup();
    let mut state = OrientationState::startup();
    let mut events = Vec::new();
    for i in 0..200 {
        events.push(MotionDelta { dx: 37, dy: if i % 3 == 0 { 900 } else { -400 } });
        state.update(&events, &gate);
        assert!(-PITCH_LIMIT_URAD <= state.pitch && state.pitch <= PITCH_LIMIT_URAD);
        assert!(0 <= state.yaw && state.yaw < TAU_URAD);
    }
}

#[test]
fn inactive_gate_consumes_events_without_turning() {
    let mut gate = CursorCaptureGate::startup();
    gate.toggle();
    let mut state = OrientationState::startup();
    let events = vec![MotionDelta { dx: 40, dy: -25 }, MotionDelta { dx: -3, dy: 7 }];
    state.update(&events, &gate);
    assert_eq!(state.pitch, 0);
    assert_eq!(state.yaw, 0);
    assert_eq!(state.cursor, 2);
    // re-enabling capture replays no backlog
    gate.toggle();
    state.update(&events, &gate);
    assert_eq!(state.pitch, 0);
    assert_eq!(state.yaw, 0);
}

#[test]
fn tick_without_events_changes_nothing() {
    let gate = CursorCaptureGate::startup();
    let mut state = OrientationState::startup();
    let events = vec![MotionDelta { dx: 9, dy: -4 }];
    state.update(&events, &gate);
    let before = state;
    state.update(&events, &gate);
    assert_eq!(state, before);
}

#[test]
fn yaw_wraps_into_one_turn() {
    let gate = CursorCaptureGate::startup();
    let mut state = OrientationState::startup();
    // a negative horizontal sweep past a full turn
    let events = vec![MotionDelta { dx: -5000, dy: 0 }];
    state.update(&events, &gate);
    assert_eq!(state.yaw, 5000 * LOOK_STEP_URAD - TAU_URAD);
}
