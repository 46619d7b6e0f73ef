use chart_rs::interaction::{
    CrosshairMode, CrosshairSnap, InteractionMode, InteractionState, KineticPanConfig,
    KineticPanState,
};

fn b(v: f64) -> u64 {
    v.to_bits()
}

#[test]
fn default_state_is_idle_with_hidden_crosshair() {
    let state = InteractionState::default();
    assert_eq!(state.mode(), InteractionMode::Idle);
    assert_eq!(state.crosshair_mode(), CrosshairMode::Magnet);
    assert_eq!(state.kinetic_pan_state(), KineticPanState { active: false, velocity_time_per_sec: b(0.0) });
    assert_eq!(state.kinetic_pan_config().decay_per_second, b(0.85));
    assert_eq!(state.kinetic_pan_config().stop_velocity_abs, b(0.01));
    assert!(!state.crosshair().visible);
    assert_eq!(state.cursor(), (b(0.0), b(0.0)));
}

#[test]
fn pointer_move_shows_crosshair_and_leave_clears_snap() {
    let mut state = InteractionState::default();
    state.on_pointer_move(b(12.0), b(34.0));
    state.set_crosshair_snap(Some(CrosshairSnap { x: b(10.0), y: b(30.0), time: b(5.0), price: b(99.5) }));
    let crosshair = state.crosshair();
    assert!(crosshair.visible);
    assert_eq!((crosshair.x, crosshair.y), (b(12.0), b(34.0)));
    assert_eq!(crosshair.snapped_price, Some(b(99.5)));
    assert_eq!(state.cursor(), (b(12.0), b(34.0)));

    state.on_pointer_leave();
    let crosshair = state.crosshair();
    assert!(!crosshair.visible);
    assert_eq!(crosshair.snapped_x, None);
    assert_eq!(crosshair.snapped_y, None);
    assert_eq!(crosshair.snapped_time, None);
    assert_eq!(crosshair.snapped_price, None);
    assert_eq!(crosshair.x, b(12.0));
}

#[test]
fn clearing_the_snap_keeps_visibility() {
    let mut state = InteractionState::default();
    state.on_pointer_move(b(1.0), b(2.0));
    state.set_crosshair_snap(Some(CrosshairSnap { x: b(1.0), y: b(2.0), time: b(3.0), price: b(4.0) }));
    state.set_crosshair_snap(None);
    assert!(state.crosshair().visible);
    assert_eq!(state.crosshair().snapped_time, None);
}

#[test]
fn pan_start_and_end_switch_modes() {
    let mut state = InteractionState::default();
    state.on_pan_start();
    assert_eq!(state.mode(), InteractionMode::Panning);
    state.on_pan_end();
    assert_eq!(state.mode(), InteractionMode::Idle);
    state.set_crosshair_mode(CrosshairMode::Hidden);
    assert_eq!(state.crosshair_mode(), CrosshairMode::Hidden);
}

#[test]
fn kinetic_step_is_none_when_inactive() {
    let mut state = InteractionState::default();
    assert_eq!(state.step_kinetic_pan(b(1.0), b(2.0)), None);
    assert_eq!(state.kinetic_pan_state(), KineticPanState::default());
}

#[test]
fn kinetic_step_decays_and_stops_below_threshold() {
    let mut state = InteractionState::default();
    state.start_kinetic_pan(b(10.0));
    assert_eq!(state.step_kinetic_pan(b(1.0), b(8.5)), Some(b(1.0)));
    assert_eq!(state.kinetic_pan_state(), KineticPanState { active: true, velocity_time_per_sec: b(8.5) });
    assert_eq!(state.step_kinetic_pan(b(0.5), b(-0.005)), Some(b(0.5)));
    assert_eq!(state.kinetic_pan_state(), KineticPanState { active: false, velocity_time_per_sec: b(0.0) });
}

#[test]
fn kinetic_config_and_stop() {
    let mut state = InteractionState::default();
    let config = KineticPanConfig { decay_per_second: b(0.5), stop_velocity_abs: b(1.0) };
    state.set_kinetic_pan_config(config);
    assert_eq!(state.kinetic_pan_config(), config);
    state.start_kinetic_pan(b(3.0));
    state.stop_kinetic_pan();
    assert!(!state.kinetic_pan_state().active);
    assert_eq!(KineticPanConfig::default().decay_per_second, b(0.85));
}
