use gamecore::motion::{MotionState, PlayerMove};

fn movable(max_speed: i64, max_acceleration: i64) -> MotionState {
    MotionState::new(max_speed, max_acceleration).unwrap()
}

#[test]
fn new_motion_starts_at_rest() {
    let m = movable(14_000, 20_000);
    assert_eq!(m.speed, 0);
    assert_eq!(m.acceleration, 0);
    assert!(!m.fast);
    assert_eq!(m.max_speed, 14_000);
    assert_eq!(m.max_acceleration, 20_000);
}

#[test]
fn new_motion_rejects_bad_bounds() {
    assert!(MotionState::new(1, 0).is_none());
    assert!(MotionState::new(0, 20_000).is_none());
    assert!(MotionState::new(14_000, -1).is_none());
    assert!(MotionState::new(2_000_000_000, 0).is_none());
    assert!(MotionState::new(14_000, 2_000_000_000).is_none());
    assert!(MotionState::new(2, 0).is_some());
}

#[test]
fn walk_scenario_clamps_to_half_speed() {
    // speed 0, acceleration 9.0, fast off, dt 1 s: the new speed clamps to
    // half of the 14.0 top speed.
    let mut m = movable(14_000, 20_000);
    m.acceleration = 9_000;
    m.fast = false;
    m.integrate(1_000);
    assert_eq!(m.speed, 7_000);
    assert_eq!(m.acceleration, 9_000);
}

#[test]
fn fast_scenario_clamps_to_top_speed() {
    // acceleration 20.0 with fast on, dt 1 s, repeatedly: the speed clamps
    // at the 14.0 top speed and stays there.
    let mut m = movable(14_000, 20_000);
    m.acceleration = 20_000;
    m.fast = true;
    for _ in 0..5 {
        m.integrate(1_000);
        assert_eq!(m.speed, 14_000);
    }
}

#[test]
fn stall_snaps_to_exact_zero() {
    let mut m = movable(14_000, 20_000);
    m.speed = 500;
    m.acceleration = 0;
    m.integrate(16);
    assert_eq!(m.speed, 0);
    assert_eq!(m.acceleration, 0);
    m.integrate(16);
    assert_eq!(m.speed, 0);
    assert_eq!(m.acceleration, 0);
}

#[test]
fn stall_band_is_symmetric() {
    // A slow backward creep snaps to zero exactly like a forward one.
    let mut m = movable(14_000, 20_000);
    m.speed = -500;
    m.acceleration = 0;
    m.integrate(16);
    assert_eq!(m.speed, 0);
    assert_eq!(m.acceleration, 0);
}

#[test]
fn backward_speed_does_not_snap() {
    // Outside the deadband the speed keeps coasting, whatever its sign.
    let mut m = movable(14_000, 20_000);
    m.speed = -7_000;
    m.acceleration = 0;
    m.integrate(1_000);
    assert_eq!(m.speed, -7_000);
}

#[test]
fn held_key_acceleration_defeats_the_deadband() {
    // An acceleration of exactly 9.0 sits just outside the deadband, so a
    // held movement key always gets the actor moving.
    let mut m = movable(14_000, 20_000);
    m.acceleration = 9_000;
    m.integrate(16);
    assert_eq!(m.speed, 144);
    assert_eq!(m.acceleration, 9_000);
}

#[test]
fn backward_clamp_uses_negative_cap() {
    let mut m = movable(14_000, 20_000);
    m.acceleration = -9_000;
    m.integrate(1_000);
    assert_eq!(m.speed, -7_000);
}

#[test]
fn frame_displacement_scales_speed_by_time() {
    let mut m = movable(14_000, 20_000);
    m.speed = 7_000;
    assert_eq!(m.frame_displacement(500), 3_500);
    assert_eq!(m.frame_displacement(16), 112);
    m.speed = -7_000;
    assert_eq!(m.frame_displacement(500), -3_500);
}

#[test]
fn free_integration_returns_displacement() {
    let mut m = movable(14_000, 20_000);
    m.acceleration = 9_000;
    let d = m.integrate_free(1_000);
    assert_eq!(m.speed, 7_000);
    assert_eq!(d, 7_000);
}

#[test]
fn free_integration_stalled_frame_moves_nothing() {
    let mut m = movable(14_000, 20_000);
    m.speed = 500;
    let d = m.integrate_free(1_000);
    assert_eq!(m.speed, 0);
    assert_eq!(d, 0);
}

#[test]
fn airborne_player_falls_even_when_stalled() {
    let mut m = movable(14_000, 20_000);
    let mv = m.integrate_player(false, 1_000);
    assert_eq!(mv, Some(PlayerMove { forward: 0, vertical: -10_000 }));
}

#[test]
fn grounded_stalled_player_requests_nothing() {
    let mut m = movable(14_000, 20_000);
    let mv = m.integrate_player(true, 1_000);
    assert_eq!(mv, None);
}

#[test]
fn moving_player_requests_forward_translation() {
    let mut m = movable(14_000, 20_000);
    m.speed = 7_000;
    m.acceleration = 9_000;
    let mv = m.integrate_player(true, 1_000);
    assert_eq!(mv, Some(PlayerMove { forward: 7_000, vertical: 0 }));
    let mv2 = m.integrate_player(false, 500);
    assert_eq!(mv2, Some(PlayerMove { forward: 3_500, vertical: -5_000 }));
}
