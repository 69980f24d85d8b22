use schotter::animator::Animator;
use schotter::fixed::ANIM_SPREAD;
use schotter::fixed::CYCLES_MAX;
use schotter::fixed::CYCLES_MIN;
use schotter::fixed::GAIN_MAX;
use schotter::fixed::GAIN_STEP;
use schotter::fixed::MOTION_ONE;
use schotter::fixed::QUARTER_PI;
use schotter::fixed::SCALE;
use schotter::fixed::SEED_RANGE;
use schotter::fixed::STATIC_SPREAD;
use schotter::fixed::div_toward_zero;
use schotter::rng::Rng64;
use schotter::sample::compute_row_factor;
use schotter::sample::sample_component;
use schotter::settings::Command;
use schotter::settings::ConfigError;
use schotter::settings::Settings;
use schotter::stone::Phase;
use schotter::stone::Stone;

const ROWS: u32 = 22;
const COLS: u32 = 12;

fn standard_settings(motion: i64, seed: u64) -> Settings {
    Settings::new(SCALE, SCALE, motion, seed).unwrap()
}

#[test]
fn grid_has_one_stone_per_cell_in_row_major_order() {
    let a = Animator::new(ROWS, COLS, 7).unwrap();
    assert_eq!(a.stones.len(), (ROWS * COLS) as usize);
    for (i, st) in a.stones.iter().enumerate() {
        assert_eq!(st.row, i as u32 / COLS);
        assert_eq!(st.col, i as u32 % COLS);
        assert_eq!(st.x_offset, 0);
        assert_eq!(st.y_offset, 0);
        assert_eq!(st.rotation, 0);
        assert_eq!(st.cycles, 0);
        assert!(matches!(st.phase, Phase::Dwell));
    }
}

#[test]
fn zero_rows_and_zero_cols_are_rejected() {
    assert_eq!(Animator::new(0, COLS, 1).unwrap_err(), ConfigError::ZeroRows);
    assert_eq!(Animator::new(ROWS, 0, 1).unwrap_err(), ConfigError::ZeroCols);
    assert_eq!(Animator::new(0, 0, 1).unwrap_err(), ConfigError::ZeroRows);
}

#[test]
fn out_of_range_settings_are_rejected() {
    assert_eq!(
        Settings::new(-1, SCALE, 0, 1).unwrap_err(),
        ConfigError::DisplacementGainOutOfRange
    );
    assert_eq!(
        Settings::new(GAIN_MAX + 1, SCALE, 0, 1).unwrap_err(),
        ConfigError::DisplacementGainOutOfRange
    );
    assert_eq!(
        Settings::new(SCALE, -5, 0, 1).unwrap_err(),
        ConfigError::RotationGainOutOfRange
    );
    assert_eq!(
        Settings::new(SCALE, SCALE, -1, 1).unwrap_err(),
        ConfigError::MotionOutOfRange
    );
    assert_eq!(
        Settings::new(SCALE, SCALE, MOTION_ONE + 1, 1).unwrap_err(),
        ConfigError::MotionOutOfRange
    );
    assert_eq!(
        ConfigError::ZeroRows.describe(),
        "the grid needs at least one row"
    );
    assert_eq!(
        ConfigError::MotionOutOfRange.describe(),
        "the motion probability is out of range"
    );
    let ok = Settings::new(SCALE, 2 * SCALE, MOTION_ONE / 4, 9).unwrap();
    assert_eq!(ok.disp_gain, SCALE);
    assert_eq!(ok.rot_gain, 2 * SCALE);
    assert_eq!(ok.motion, MOTION_ONE / 4);
    assert_eq!(ok.seed, 9);
}

#[test]
fn generator_is_reproducible_from_its_seed() {
    let mut a = Rng64::new(123456);
    let mut b = Rng64::new(123456);
    for _ in 0..100 {
        assert_eq!(a.next_u32(), b.next_u32());
    }
    let mut c = Rng64::new(1);
    for _ in 0..1000 {
        let v = c.next_below(250);
        assert!(v < 250);
        let d = c.next_spread(ANIM_SPREAD);
        assert!(-ANIM_SPREAD <= d && d < ANIM_SPREAD);
    }
}

#[test]
fn truncating_division_rounds_toward_zero() {
    assert_eq!(div_toward_zero(7, 2), 3);
    assert_eq!(div_toward_zero(-7, 2), -3);
    assert_eq!(div_toward_zero(103, 50), 2);
    assert_eq!(div_toward_zero(-103, 50), -2);
    assert_eq!(div_toward_zero(0, 50), 0);
}

#[test]
fn row_factor_has_exact_values() {
    assert_eq!(compute_row_factor(0, ROWS), 0);
    assert_eq!(compute_row_factor(11, 22), 500_000);
    assert_eq!(compute_row_factor(21, 22), 21_000_000 / 22);
    assert_eq!(compute_row_factor(1, 2), 500_000);
}

#[test]
fn sampled_target_has_exact_values() {
    // factor 0.5, gain 1.0, draw +1.0 unit: target is exactly 0.5 units.
    assert_eq!(sample_component(500_000, SCALE, 1_000_000, ANIM_SPREAD), 500_000);
    // the sign of the draw carries through, rounding toward zero
    assert_eq!(sample_component(500_000, SCALE, -1_000_001, ANIM_SPREAD), -500_000);
    // top row: always exactly zero
    assert_eq!(sample_component(0, GAIN_MAX, ANIM_SPREAD - 1, ANIM_SPREAD), 0);
    assert_eq!(sample_component(0, GAIN_MAX, -ANIM_SPREAD, ANIM_SPREAD), 0);
    // zero gain: always exactly zero
    assert_eq!(sample_component(999_999, 0, 1_000_000, ANIM_SPREAD), 0);
}

#[test]
fn chaos_gradient_grows_down_the_grid() {
    // same gain and draw on every row: magnitudes never shrink downward
    let draw: i64 = 423_117;
    let mut last: i64 = -1;
    for row in 0..ROWS {
        let f = compute_row_factor(row, ROWS);
        let t = sample_component(f, SCALE, draw, ANIM_SPREAD);
        assert!(t.abs() >= last);
        last = t.abs();
    }
}

#[test]
fn transition_lands_exactly_on_reachable_targets() {
    let mut st = Stone::new(0, 21);
    st.start_transition(100, -100, 50, 50);
    assert!(matches!(st.phase, Phase::Transition));
    assert_eq!(st.x_velocity, 2);
    assert_eq!(st.y_velocity, -2);
    assert_eq!(st.rot_velocity, 1);
    for _ in 0..50 {
        st.advance();
    }
    assert_eq!(st.cycles, 0);
    assert_eq!(st.x_offset, 100);
    assert_eq!(st.y_offset, -100);
    assert_eq!(st.rotation, 50);
}

#[test]
fn transition_lands_within_duration_ticks_of_any_target() {
    let mut st = Stone::new(3, 10);
    let d: u32 = 73;
    st.start_transition(10_007, -9_999, 777, d);
    for _ in 0..d {
        st.advance();
    }
    assert_eq!(st.cycles, 0);
    assert!((10_007 - st.x_offset).abs() < d as i64);
    assert!((-9_999 - st.y_offset).abs() < d as i64);
    assert!((777 - st.rotation).abs() < d as i64);
    // and never past the target
    assert!(0 <= st.x_offset && st.x_offset <= 10_007);
    assert!(-9_999 <= st.y_offset && st.y_offset <= 0);
    assert!(0 <= st.rotation && st.rotation <= 777);
}

#[test]
fn entering_dwell_zeroes_velocity_and_freezes_position() {
    let mut st = Stone::new(0, 5);
    st.start_transition(5_000, 5_000, 500, 50);
    for _ in 0..10 {
        st.advance();
    }
    let (x, y, r) = (st.x_offset, st.y_offset, st.rotation);
    st.stop(200);
    assert!(matches!(st.phase, Phase::Dwell));
    assert_eq!(st.x_velocity, 0);
    assert_eq!(st.y_velocity, 0);
    assert_eq!(st.rot_velocity, 0);
    assert_eq!(st.cycles, 200);
    assert_eq!((st.x_offset, st.y_offset, st.rotation), (x, y, r));
    for _ in 0..200 {
        st.advance();
        assert_eq!((st.x_offset, st.y_offset, st.rotation), (x, y, r));
        assert_eq!(st.x_velocity, 0);
    }
    assert_eq!(st.cycles, 0);
}

#[test]
fn each_tick_enters_a_phase_or_counts_one_off() {
    let mut a = Animator::new(ROWS, COLS, 99).unwrap();
    let s = standard_settings(MOTION_ONE / 2, 99);
    for _ in 0..600 {
        let before: Vec<u32> = a.stones.iter().map(|st| st.cycles).collect();
        a.tick(&s);
        for (st, prev) in a.stones.iter().zip(before.iter()) {
            if *prev == 0 {
                // entered a new phase of at least CYCLES_MIN ticks
                assert!(st.cycles >= CYCLES_MIN && st.cycles < CYCLES_MAX);
            } else {
                // advanced: exactly one tick counted off
                assert_eq!(st.cycles, prev - 1);
            }
        }
    }
}

#[test]
fn zero_motion_grid_never_dwells() {
    let mut a = Animator::new(ROWS, COLS, 4242).unwrap();
    let s = standard_settings(0, 4242);
    for tick in 0..600 {
        a.tick(&s);
        if tick == 0 {
            continue;
        }
        for st in a.stones.iter() {
            // every boundary chose a transition; nothing ever dwells
            assert!(matches!(st.phase, Phase::Transition));
        }
    }
}

#[test]
fn full_motion_grid_freezes() {
    let mut a = Animator::new(ROWS, COLS, 31337).unwrap();
    let s = standard_settings(MOTION_ONE, 31337);
    // after the first tick every stone dwells; CYCLES_MAX ticks later all
    // have re-entered dwell at least once and nothing has moved since
    for _ in 0..CYCLES_MAX {
        a.tick(&s);
    }
    let frozen: Vec<(i64, i64, i64)> = a
        .stones
        .iter()
        .map(|st| (st.x_offset, st.y_offset, st.rotation))
        .collect();
    for st in a.stones.iter() {
        assert!(matches!(st.phase, Phase::Dwell));
        assert_eq!(st.x_velocity, 0);
        assert_eq!(st.y_velocity, 0);
        assert_eq!(st.rot_velocity, 0);
        // nothing ever transitioned, so nothing ever left its cell
        assert_eq!(st.x_offset, 0);
        assert_eq!(st.y_offset, 0);
        assert_eq!(st.rotation, 0);
    }
    for _ in 0..600 {
        a.tick(&s);
    }
    let later: Vec<(i64, i64, i64)> = a
        .stones
        .iter()
        .map(|st| (st.x_offset, st.y_offset, st.rotation))
        .collect();
    assert_eq!(frozen, later);
}

#[test]
fn top_row_never_moves() {
    let mut a = Animator::new(ROWS, COLS, 777).unwrap();
    let s = standard_settings(0, 777);
    for _ in 0..600 {
        a.tick(&s);
        for st in a.stones.iter().take(COLS as usize) {
            assert_eq!(st.row, 0);
            assert_eq!(st.x_offset, 0);
            assert_eq!(st.y_offset, 0);
            assert_eq!(st.rotation, 0);
        }
    }
}

#[test]
fn static_field_is_deterministic() {
    let s = standard_settings(MOTION_ONE / 2, 555_321);
    let mut a = Animator::new(ROWS, COLS, 1).unwrap();
    let mut b = Animator::new(ROWS, COLS, 2).unwrap();
    a.apply_static(&s);
    b.apply_static(&s);
    let field_a: Vec<(i64, i64, i64)> = a
        .stones
        .iter()
        .map(|st| (st.x_offset, st.y_offset, st.rotation))
        .collect();
    let field_b: Vec<(i64, i64, i64)> = b
        .stones
        .iter()
        .map(|st| (st.x_offset, st.y_offset, st.rotation))
        .collect();
    assert_eq!(field_a, field_b);
    // recomputing in place changes nothing either
    a.apply_static(&s);
    let again: Vec<(i64, i64, i64)> = a
        .stones
        .iter()
        .map(|st| (st.x_offset, st.y_offset, st.rotation))
        .collect();
    assert_eq!(field_a, again);
    // a different seed scatters the lower rows differently
    let other = standard_settings(MOTION_ONE / 2, 555_322);
    b.apply_static(&other);
    let field_c: Vec<(i64, i64, i64)> = b
        .stones
        .iter()
        .map(|st| (st.x_offset, st.y_offset, st.rotation))
        .collect();
    assert_ne!(field_a, field_c);
}

#[test]
fn static_field_top_row_rests_and_draws_stay_in_cell_range() {
    let s = standard_settings(MOTION_ONE / 2, 424_242);
    let mut a = Animator::new(ROWS, COLS, 0).unwrap();
    a.apply_static(&s);
    for (i, st) in a.stones.iter().enumerate() {
        if i < COLS as usize {
            assert_eq!((st.x_offset, st.y_offset, st.rotation), (0, 0, 0));
        }
        // with gain 1.0 the static draw keeps each stone within half a
        // cell of its nominal spot, and within a quarter turn
        assert!(st.x_offset.abs() <= STATIC_SPREAD);
        assert!(st.y_offset.abs() <= STATIC_SPREAD);
        assert!(st.rotation.abs() <= QUARTER_PI);
        assert_eq!(st.cycles, 0);
        assert!(matches!(st.phase, Phase::Dwell));
    }
}

#[test]
fn gain_commands_step_and_saturate() {
    let mut s = Settings::initial(3);
    assert_eq!(s.disp_gain, SCALE);
    assert_eq!(s.rot_gain, SCALE);
    assert_eq!(s.motion, MOTION_ONE / 2);

    schotter::settings::apply_command(&mut s, Command::IncreaseDisplacement);
    assert_eq!(s.disp_gain, SCALE + GAIN_STEP);
    schotter::settings::apply_command(&mut s, Command::DecreaseDisplacement);
    assert_eq!(s.disp_gain, SCALE);

    schotter::settings::apply_command(&mut s, Command::IncreaseRotation);
    assert_eq!(s.rot_gain, SCALE + GAIN_STEP);
    schotter::settings::apply_command(&mut s, Command::DecreaseRotation);
    assert_eq!(s.rot_gain, SCALE);

    // repeated decreases floor at exactly zero and stay there
    for _ in 0..100 {
        schotter::settings::apply_command(&mut s, Command::DecreaseDisplacement);
        schotter::settings::apply_command(&mut s, Command::DecreaseRotation);
        assert!(s.disp_gain >= 0);
        assert!(s.rot_gain >= 0);
    }
    assert_eq!(s.disp_gain, 0);
    assert_eq!(s.rot_gain, 0);

    // increases saturate at the cap
    s.disp_gain = GAIN_MAX - GAIN_STEP / 2;
    schotter::settings::apply_command(&mut s, Command::IncreaseDisplacement);
    assert_eq!(s.disp_gain, GAIN_MAX);
    schotter::settings::apply_command(&mut s, Command::IncreaseDisplacement);
    assert_eq!(s.disp_gain, GAIN_MAX);
}

#[test]
fn motion_and_seed_commands() {
    let mut s = Settings::initial(3);
    schotter::settings::apply_command(&mut s, Command::SetMotion(-5));
    assert_eq!(s.motion, 0);
    schotter::settings::apply_command(&mut s, Command::SetMotion(MOTION_ONE + 5));
    assert_eq!(s.motion, MOTION_ONE);
    schotter::settings::apply_command(&mut s, Command::SetMotion(123));
    assert_eq!(s.motion, 123);

    let before = s;
    let capture = schotter::settings::apply_command(&mut s, Command::CaptureFrame);
    assert!(capture);
    assert_eq!(s, before);

    let capture = schotter::settings::apply_command(&mut s, Command::Reseed);
    assert!(!capture);
    assert!(s.seed < SEED_RANGE);
    assert_eq!(s.disp_gain, before.disp_gain);
    assert_eq!(s.rot_gain, before.rot_gain);
    assert_eq!(s.motion, before.motion);
}

#[test]
fn animated_field_stays_within_bounds() {
    let mut a = Animator::new(ROWS, COLS, 8).unwrap();
    let mut s = standard_settings(MOTION_ONE / 4, 8);
    // push both gains up while the animation runs; nothing overflows or
    // escapes its proven bounds
    for i in 0..2000 {
        if i % 10 == 0 {
            schotter::settings::apply_command(&mut s, Command::IncreaseDisplacement);
            schotter::settings::apply_command(&mut s, Command::IncreaseRotation);
        }
        a.tick(&s);
        for st in a.stones.iter() {
            assert!(st.x_offset.abs() <= schotter::fixed::OFFSET_MAX);
            assert!(st.y_offset.abs() <= schotter::fixed::OFFSET_MAX);
            assert!(st.rotation.abs() <= schotter::fixed::ROTATION_MAX);
            assert!(st.cycles < CYCLES_MAX);
        }
    }
}
