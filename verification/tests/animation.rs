use gamecore::animation::{
    select, AnimationBinding, AnimatorState, StartClip, IDLE_BLEND_MILLIS, MOVE_BLEND_MILLIS,
};
use gamecore::motion::MotionState;

fn binding() -> AnimationBinding {
    AnimationBinding::new(5, 6, vec![7, 8], 0).unwrap()
}

fn movable(speed: i64, acceleration: i64) -> MotionState {
    let mut m = MotionState::new(14_000, 20_000).unwrap();
    m.speed = speed;
    m.acceleration = acceleration;
    m
}

#[test]
fn binding_rejects_too_few_idle_clips() {
    assert!(AnimationBinding::new(5, 6, vec![7], 0).is_none());
    assert!(AnimationBinding::new(5, 6, vec![], 0).is_none());
}

#[test]
fn binding_rejects_out_of_range_idle_index() {
    assert!(AnimationBinding::new(5, 6, vec![7, 8], 2).is_none());
    assert!(AnimationBinding::new(5, 6, vec![7, 8], 1).is_some());
}

#[test]
fn binding_rejects_duplicate_clips() {
    assert!(AnimationBinding::new(5, 5, vec![7, 8], 0).is_none());
    assert!(AnimationBinding::new(5, 6, vec![5, 8], 0).is_none());
    assert!(AnimationBinding::new(5, 6, vec![6, 8], 0).is_none());
    // A duplicate among the unused idle clips is harmless.
    assert!(AnimationBinding::new(5, 6, vec![7, 5], 0).is_some());
}

#[test]
fn standstill_starts_the_idle_loop() {
    let b = binding();
    let mut st = AnimatorState::new();
    let cmds = select(&movable(0, 0), &b, &mut st);
    assert_eq!(
        cmds.start,
        Some(StartClip { clip: 7, blend_millis: IDLE_BLEND_MILLIS, repeat: true })
    );
    assert_eq!(cmds.rate, None);
    assert_eq!(st.active, Some(7));
    assert!(st.repeating);
}

#[test]
fn walk_band_sets_rate_to_speed_over_half_max() {
    let b = binding();
    let mut st = AnimatorState::new();
    let cmds = select(&movable(7_000, 9_000), &b, &mut st);
    assert_eq!(
        cmds.start,
        Some(StartClip { clip: 6, blend_millis: MOVE_BLEND_MILLIS, repeat: true })
    );
    assert_eq!(cmds.rate, Some(1_000));
    assert_eq!(st.active, Some(6));
}

#[test]
fn run_band_sets_rate_to_speed_over_max() {
    let b = binding();
    let mut st = AnimatorState::new();
    let cmds = select(&movable(14_000, 20_000), &b, &mut st);
    assert_eq!(
        cmds.start,
        Some(StartClip { clip: 5, blend_millis: MOVE_BLEND_MILLIS, repeat: true })
    );
    assert_eq!(cmds.rate, Some(1_000));
    assert_eq!(st.active, Some(5));
}

#[test]
fn walk_band_extends_a_slack_above_half_speed() {
    let b = binding();
    let mut st = AnimatorState::new();
    // 7.1 on a 14.0 top speed is still walking; 7.101 is running.
    let cmds = select(&movable(7_100, 9_000), &b, &mut st);
    assert_eq!(st.active, Some(6));
    assert_eq!(cmds.rate, Some(1_014));
    let cmds2 = select(&movable(7_101, 9_000), &b, &mut st);
    assert_eq!(st.active, Some(5));
    assert_eq!(cmds2.rate, Some(507));
}

#[test]
fn reselecting_the_active_clip_does_not_restart_it() {
    let b = binding();
    let mut st = AnimatorState::new();
    let first = select(&movable(7_000, 9_000), &b, &mut st);
    assert!(first.start.is_some());
    let again = select(&movable(7_000, 9_000), &b, &mut st);
    assert_eq!(again.start, None);
    assert_eq!(again.rate, Some(1_000));
    assert_eq!(st.active, Some(6));
}

#[test]
fn rate_tracks_speed_without_restart() {
    let b = binding();
    let mut st = AnimatorState::new();
    select(&movable(7_000, 9_000), &b, &mut st);
    let cmds = select(&movable(3_500, 9_000), &b, &mut st);
    assert_eq!(cmds.start, None);
    assert_eq!(cmds.rate, Some(500));
    assert_eq!(st.rate, 500);
}

#[test]
fn idle_keeps_the_previous_rate() {
    let b = binding();
    let mut st = AnimatorState::new();
    select(&movable(3_500, 9_000), &b, &mut st);
    assert_eq!(st.rate, 500);
    let cmds = select(&movable(0, 0), &b, &mut st);
    assert_eq!(cmds.rate, None);
    assert_eq!(st.rate, 500);
}

#[test]
fn exactly_one_clip_reports_playing() {
    let b = binding();
    let mut st = AnimatorState::new();
    for (speed, acceleration) in [(0, 0), (3_000, 9_000), (14_000, 20_000)] {
        select(&movable(speed, acceleration), &b, &mut st);
        let playing = [b.idle_clips[b.idle_index], b.walk_clip, b.run_clip]
            .iter()
            .filter(|&&c| st.active == Some(c))
            .count();
        assert_eq!(playing, 1);
    }
}

#[test]
fn negative_walk_speed_gives_negative_rate() {
    let b = binding();
    let mut st = AnimatorState::new();
    let cmds = select(&movable(-7_000, -9_000), &b, &mut st);
    // Backward motion stays in the walk band and plays the clip backward.
    assert_eq!(st.active, Some(6));
    assert_eq!(cmds.rate, Some(-1_000));
}
