use bevy_ui_effect::effect::{tick, Mode, TickOutcome, UiEffect};
use bevy_ui_effect::motion::{step_axis, Vec3i};
use bevy_ui_effect::sequence::{
    NextTransform, ScaleSequence, Transform, TransformSequence, TransitionSequence,
};

fn v3(x: i64, y: i64, z: i64) -> Vec3i {
    Vec3i { x, y, z }
}

fn target(value: Vec3i, speed: u64, display_time_ms: u64) -> NextTransform {
    NextTransform {
        value,
        speed,
        display_time_ms,
    }
}

fn scale_track(sequence: Vec<NextTransform>) -> ScaleSequence {
    ScaleSequence {
        phase: 0,
        displayed_time_ms: 0,
        sequence,
    }
}

fn translation_track(sequence: Vec<NextTransform>) -> TransitionSequence {
    TransitionSequence {
        phase: 0,
        displayed_time_ms: 0,
        sequence,
    }
}

fn transform(scale: Vec3i, translation: Vec3i) -> Transform {
    Transform { scale, translation }
}

#[test]
fn step_axis_moves_toward_and_clamps() {
    assert_eq!(step_axis(0, 10, 3), 3);
    assert_eq!(step_axis(0, 10, 100), 10);
    assert_eq!(step_axis(10, -5, 7), 3);
    assert_eq!(step_axis(10, -5, 100), -5);
    assert_eq!(step_axis(4, 4, 9), 4);
    assert_eq!(step_axis(-8, -2, 0), -8);
}

#[test]
fn hold_then_advance_counts_hold_time() {
    let mut track = scale_track(vec![target(v3(1, 1, 1), 0, 300)]);
    let mut t = transform(v3(1, 1, 1), v3(0, 0, 0));

    track.animated(&mut t, 100);
    assert_eq!(track.phase, 0);
    assert_eq!(track.displayed_time_ms, 100);
    track.animated(&mut t, 100);
    assert_eq!(track.phase, 0);
    assert_eq!(track.displayed_time_ms, 200);
    assert_eq!(t.scale, v3(1, 1, 1));

    track.animated(&mut t, 100);
    assert_eq!(track.displayed_time_ms, 300);
    assert_eq!(track.phase, 0);
    track.animated(&mut t, 100);
    assert_eq!(track.phase, 1);
    assert_eq!(track.displayed_time_ms, 0);
    assert!(track.is_finished());
}

#[test]
fn no_overshoot_with_large_delta() {
    let mut track = scale_track(vec![target(v3(10, 20, 30), 3, 0)]);
    let mut t = transform(v3(0, 0, 0), v3(0, 0, 0));
    track.animated(&mut t, 1_000_000);
    assert_eq!(t.scale, v3(10, 20, 30));

    let mut down = scale_track(vec![target(v3(-4, -4, -4), 5, 0)]);
    let mut t2 = transform(v3(50, 50, 50), v3(0, 0, 0));
    down.animated(&mut t2, 7);
    assert_eq!(t2.scale, v3(15, 15, 15));
    down.animated(&mut t2, 7);
    assert_eq!(t2.scale, v3(-4, -4, -4));
}

#[test]
fn axis_already_at_target_stays_there() {
    let mut track = scale_track(vec![target(v3(5, 10, 10), 1, 0)]);
    let mut t = transform(v3(5, 0, 0), v3(0, 0, 0));
    track.animated(&mut t, 2);
    assert_eq!(t.scale, v3(5, 2, 2));
    assert_eq!(track.phase, 0);
}

#[test]
fn finish_detection_after_three_phases() {
    let mut track = scale_track(vec![
        target(v3(7, 7, 7), 0, 0),
        target(v3(7, 7, 7), 0, 0),
        target(v3(7, 7, 7), 0, 0),
    ]);
    let mut t = transform(v3(7, 7, 7), v3(0, 0, 0));
    for expected_phase in 1..=3usize {
        assert!(!track.is_finished());
        track.animated(&mut t, 16);
        assert_eq!(track.phase, expected_phase);
    }
    assert!(track.is_finished());
    assert_eq!(track.phase, 3);
}

#[test]
fn convergence_within_the_step_bound() {
    // Largest axis distance 100, speed 7, delta 3: 21 units per step,
    // so ceil(100 / 21) = 5 steps reach the target exactly.
    let goal = v3(100, 50, 25);
    let mut track = scale_track(vec![target(goal, 7, 0)]);
    let mut t = transform(v3(0, 0, 0), v3(0, 0, 0));
    let mut steps: usize = 0;
    while t.scale != goal {
        track.animated(&mut t, 3);
        steps += 1;
        assert!(t.scale.x <= goal.x && t.scale.y <= goal.y && t.scale.z <= goal.z);
        assert_eq!(track.phase, 0);
        assert!(steps <= 5);
    }
    assert_eq!(steps, 5);
    assert_eq!(t.scale, goal);
}

#[test]
fn hold_counter_saturates_instead_of_wrapping() {
    let mut track = scale_track(vec![target(v3(0, 0, 0), 0, u64::MAX)]);
    let mut t = transform(v3(0, 0, 0), v3(0, 0, 0));
    track.animated(&mut t, u64::MAX - 3);
    assert_eq!(track.displayed_time_ms, u64::MAX - 3);
    assert_eq!(track.phase, 0);
    // Without saturation this sum would wrap to 96 and the phase could
    // never advance.
    track.animated(&mut t, 100);
    assert_eq!(track.displayed_time_ms, u64::MAX);
    assert_eq!(track.phase, 0);
    track.animated(&mut t, 1);
    assert_eq!(track.phase, 1);
    assert_eq!(track.displayed_time_ms, 0);
}

#[test]
fn reset_rewinds_a_track() {
    let mut track = translation_track(vec![target(v3(1, 1, 1), 0, 0)]);
    let mut t = transform(v3(0, 0, 0), v3(1, 1, 1));
    track.animated(&mut t, 10);
    assert!(track.is_finished());
    track.reset();
    assert_eq!(track.phase, 0);
    assert_eq!(track.displayed_time_ms, 0);
    assert!(!track.is_finished());
}

#[test]
fn tick_steps_both_tracks_with_the_same_delta() {
    let mut effect = UiEffect {
        scale_sequence: scale_track(vec![target(v3(10, 10, 10), 1, 0)]),
        transition_sequence: translation_track(vec![target(v3(-10, -10, -10), 2, 0)]),
        mode: Mode::Once,
    };
    let mut t = transform(v3(0, 0, 0), v3(0, 0, 0));
    let outcome = tick(&mut effect, &mut t, 3);
    assert_eq!(outcome, TickOutcome::Continue);
    assert_eq!(t.scale, v3(3, 3, 3));
    assert_eq!(t.translation, v3(-6, -6, -6));
}

#[test]
fn repeat_restarts_all_tracks_in_lock_step() {
    let mut effect = UiEffect {
        scale_sequence: ScaleSequence {
            phase: 1,
            displayed_time_ms: 5,
            sequence: vec![target(v3(2, 2, 2), 0, 0)],
        },
        transition_sequence: TransitionSequence {
            phase: 1,
            displayed_time_ms: 9,
            sequence: vec![target(v3(3, 3, 3), 0, 0)],
        },
        mode: Mode::Repeat,
    };
    assert!(effect.is_finished());
    let outcome = effect.apply_mode_transition();
    assert_eq!(outcome, TickOutcome::Continue);
    assert_eq!(effect.scale_sequence.phase, 0);
    assert_eq!(effect.scale_sequence.displayed_time_ms, 0);
    assert_eq!(effect.transition_sequence.phase, 0);
    assert_eq!(effect.transition_sequence.displayed_time_ms, 0);
    assert!(!effect.is_finished());

    // The next tick behaves exactly as the first run over the same
    // sequences would.
    let mut fresh = UiEffect {
        scale_sequence: scale_track(vec![target(v3(2, 2, 2), 0, 0)]),
        transition_sequence: translation_track(vec![target(v3(3, 3, 3), 0, 0)]),
        mode: Mode::Repeat,
    };
    let mut t_restarted = transform(v3(2, 2, 2), v3(3, 3, 3));
    let mut t_fresh = transform(v3(2, 2, 2), v3(3, 3, 3));
    let r1 = tick(&mut effect, &mut t_restarted, 40);
    let r2 = tick(&mut fresh, &mut t_fresh, 40);
    assert_eq!(r1, r2);
    assert_eq!(t_restarted, t_fresh);
    assert_eq!(effect.scale_sequence.phase, fresh.scale_sequence.phase);
    assert_eq!(
        effect.scale_sequence.displayed_time_ms,
        fresh.scale_sequence.displayed_time_ms
    );
    assert_eq!(
        effect.transition_sequence.phase,
        fresh.transition_sequence.phase
    );
}

#[test]
fn once_detaches_without_touching_the_transform() {
    let mut effect = UiEffect {
        scale_sequence: ScaleSequence {
            phase: 1,
            displayed_time_ms: 0,
            sequence: vec![target(v3(2, 2, 2), 1, 0)],
        },
        transition_sequence: translation_track(vec![]),
        mode: Mode::Once,
    };
    let mut t = transform(v3(2, 2, 2), v3(4, 4, 4));
    let before = t;
    let outcome = tick(&mut effect, &mut t, 500);
    assert_eq!(outcome, TickOutcome::Detach);
    assert_eq!(t, before);
    assert_eq!(effect.scale_sequence.phase, 1);
}

#[test]
fn empty_effect_is_finished_and_detaches() {
    let mut effect = UiEffect::default();
    assert!(effect.is_finished());
    let mut t = transform(v3(9, 9, 9), v3(9, 9, 9));
    let outcome = tick(&mut effect, &mut t, 100);
    assert_eq!(outcome, TickOutcome::Detach);
    assert_eq!(t, transform(v3(9, 9, 9), v3(9, 9, 9)));
}

#[test]
fn popup_scenario_runs_to_detach() {
    // The popup preset in fixed-point units of 1/1000 scale factor:
    // hold at (1, 1, 1) for 300 ms, grow to 9x at 0.09/ms, hold 200 ms,
    // shrink to 5.4x at 0.06/ms, then finish.
    let mut effect = UiEffect {
        scale_sequence: scale_track(vec![
            target(v3(1000, 1000, 1000), 0, 300),
            target(v3(9000, 9000, 9000), 90, 200),
            target(v3(5400, 5400, 5400), 60, 0),
        ]),
        transition_sequence: translation_track(vec![]),
        mode: Mode::Once,
    };
    let mut t = transform(v3(1000, 1000, 1000), v3(0, 0, 0));

    let mut detached_at: Option<usize> = None;
    let mut previous_scale_x = t.scale.x;
    for frame in 1..=40usize {
        let outcome = tick(&mut effect, &mut t, 100);
        if outcome == TickOutcome::Detach {
            detached_at = Some(frame);
            break;
        }
        match effect.scale_sequence.phase {
            0 => {
                // Still holding at the initial scale.
                assert_eq!(t.scale, v3(1000, 1000, 1000));
                assert!(effect.scale_sequence.displayed_time_ms <= 300);
            }
            1 => {
                // Growing monotonically, never past the second target.
                assert!(t.scale.x >= previous_scale_x);
                assert!(t.scale.x <= 9000);
            }
            2 => {
                // Shrinking monotonically, never past the final target.
                assert!(t.scale.x <= 9000);
                assert!(t.scale.x >= 5400);
            }
            _ => {}
        }
        previous_scale_x = t.scale.x;
    }

    // Holds 300 ms (frames 1-3), advances (4), reaches 9x (5), holds
    // 200 ms (6-7), advances (8), reaches 5.4x (9), finishes (10), and
    // the detach is reported on frame 11, never earlier.
    assert_eq!(detached_at, Some(11));
    assert_eq!(t.scale, v3(5400, 5400, 5400));
    assert_eq!(effect.scale_sequence.phase, 3);
    assert!(effect.is_finished());
}
