use fps_core::controller::{ControllerConfig, ControllerState, EMPTY_BUFFER};
use fps_core::fixed::{clamp_length_max, isqrt_ceil, isqrt_floor, scale_to_length};
use fps_core::fps_controller::{CursorLocked, FpsController, InputFrame};
use fps_core::ground::{capsule_or_default, classify_hit, probe_ray, Capsule};
use fps_core::jump::{takeoff_speed, JumpKey};
use fps_core::look::{apply_look, Orientation, HALF_TURN, PITCH_LIMIT};
use fps_core::motion::{Heading, MoveKeys, Velocity};

const DT: i64 = 10_000;

fn no_keys() -> MoveKeys {
    MoveKeys { forward: false, back: false, left: false, right: false, fast_fall: false }
}

fn frame(keys: MoveKeys, held: bool, just_pressed: bool) -> InputFrame {
    InputFrame { keys, jump: JumpKey { held, just_pressed }, mouse_dx: 0, mouse_dy: 0 }
}

fn idle() -> InputFrame {
    frame(no_keys(), false, false)
}

fn north() -> Heading {
    Heading { forward_x: 0, forward_z: -1_000_000 }
}

fn rest() -> Velocity {
    Velocity { x: 0, y: 0, z: 0 }
}

/// A controller that has stood on the ground for a while.
fn standing() -> FpsController {
    let mut c = FpsController::default();
    let mut v = rest();
    for _ in 0..5 {
        c.update(&mut v, &idle(), north(), true, DT);
    }
    assert!(c.state.is_grounded);
    c
}

#[test]
fn hysteresis_needs_two_positive_samples() {
    let mut c = FpsController::default();
    c.check_grounded(true, Some(0), DT);
    assert_eq!(c.state.ground_frames, 1);
    assert!(!c.state.is_grounded);
    c.check_grounded(false, Some(0), DT);
    assert_eq!(c.state.ground_frames, 0);
    assert!(!c.state.is_grounded);
    c.check_grounded(true, Some(0), DT);
    c.check_grounded(true, Some(0), DT);
    assert_eq!(c.state.ground_frames, 2);
    assert!(c.state.is_grounded);
    for _ in 0..10 {
        c.check_grounded(true, None, DT);
    }
    assert_eq!(c.state.ground_frames, 3);
    assert!(c.state.is_grounded);
}

#[test]
fn rising_body_is_not_grounded() {
    let mut c = FpsController::default();
    c.check_grounded(true, Some(1_001), DT);
    assert_eq!(c.state.ground_frames, 0);
    c.check_grounded(true, Some(1_000), DT);
    assert_eq!(c.state.ground_frames, 1);
}

#[test]
fn coyote_armed_on_leaving_ground_then_decays() {
    let mut c = standing();
    c.state.coyote_timer = -50_000;
    c.check_grounded(false, Some(0), DT);
    assert_eq!(c.state.coyote_timer, 120_000);
    assert!(!c.state.is_grounded);
    c.check_grounded(false, Some(0), DT);
    assert_eq!(c.state.coyote_timer, 110_000);
    for _ in 0..20 {
        c.check_grounded(false, Some(0), DT);
    }
    assert_eq!(c.state.coyote_timer, -90_000);
}

#[test]
fn jump_from_ground_executes_immediately() {
    let mut c = standing();
    let mut v = rest();
    c.update(&mut v, &frame(no_keys(), true, true), north(), true, DT);
    assert_eq!(v.y, 6_572);
    assert!(c.state.jump_locked);
    assert!(!c.state.jump_was_released);
    assert_eq!(c.state.jump_buffer_timer, EMPTY_BUFFER);
    assert!(!c.state.is_grounded);
}

#[test]
fn coyote_jump_executes_once_and_held_key_never_rejumps() {
    let mut c = standing();
    let mut v = rest();
    // walk off the ledge: the probe stops finding ground
    c.update(&mut v, &idle(), north(), false, DT);
    assert_eq!(c.state.coyote_timer, 120_000);
    for _ in 0..10 {
        c.update(&mut v, &idle(), north(), false, DT);
    }
    // 0.11 s after leaving the ground
    assert!(c.state.coyote_timer > 0);
    c.update(&mut v, &frame(no_keys(), true, true), north(), false, DT);
    assert_eq!(v.y, 6_572 - 120);
    assert!(c.state.jump_locked);
    let mut jumps = 1;
    let mut last_y = v.y;
    for _ in 0..30 {
        c.update(&mut v, &frame(no_keys(), true, true), north(), false, DT);
        if v.y > last_y {
            jumps += 1;
        }
        last_y = v.y;
    }
    assert_eq!(jumps, 1);
}

#[test]
fn late_press_after_coyote_window_does_not_jump() {
    let mut c = standing();
    let mut v = rest();
    c.update(&mut v, &idle(), north(), false, DT);
    for _ in 0..13 {
        c.update(&mut v, &idle(), north(), false, DT);
    }
    assert!(c.state.coyote_timer <= 0);
    let before = v.y;
    c.update(&mut v, &frame(no_keys(), true, true), north(), false, DT);
    assert_eq!(v.y, before - 120);
    assert!(!c.state.jump_locked);
}

#[test]
fn buffered_press_jumps_on_landing() {
    let mut c = FpsController::default();
    let mut v = Velocity { x: 0, y: -3_000, z: 0 };
    // pressed while still airborne
    c.update(&mut v, &frame(no_keys(), true, true), north(), true, DT);
    assert!(!c.state.is_grounded);
    assert!(v.y < 0);
    // released, then the second positive sample lands the body
    c.update(&mut v, &idle(), north(), true, DT);
    assert!(c.state.is_grounded);
    c.update(&mut v, &idle(), north(), true, DT);
    assert_eq!(v.y, 6_572);
}

#[test]
fn jump_speed_ignores_prior_fall() {
    assert_eq!(takeoff_speed(1_800), 6_572);
    assert_eq!(takeoff_speed(0), 0);
    let mut c = standing();
    let mut v = Velocity { x: 0, y: -10_000, z: 0 };
    c.move_step(&mut v, &frame(no_keys(), true, true), north(), DT);
    assert_eq!(v.y, 6_572);
}

#[test]
fn long_fall_reaches_terminal_speed() {
    let mut c = FpsController::default();
    let mut v = rest();
    for _ in 0..1_000 {
        c.update(&mut v, &idle(), north(), false, DT);
        assert!(v.y >= -25_000);
    }
    assert_eq!(v.y, -25_000);
}

#[test]
fn fast_fall_adds_half_gravity() {
    let mut c = FpsController::default();
    let mut v = rest();
    let keys = MoveKeys { fast_fall: true, ..no_keys() };
    c.move_step(&mut v, &frame(keys, false, false), north(), DT);
    assert_eq!(v.y, -120 - 180);
}

#[test]
fn ground_adhesion_limits_downward_speed() {
    let mut c = standing();
    let mut v = Velocity { x: 0, y: -5_000, z: 0 };
    c.move_step(&mut v, &idle(), north(), DT);
    assert_eq!(v.y, -2_000);
    let mut v = Velocity { x: 0, y: -1_500, z: 0 };
    c.move_step(&mut v, &idle(), north(), DT);
    assert_eq!(v.y, -1_500);
}

#[test]
fn acceleration_is_clamped_per_tick() {
    let mut c = standing();
    let mut v = rest();
    let keys = MoveKeys { forward: true, ..no_keys() };
    c.move_step(&mut v, &frame(keys, false, false), north(), DT);
    assert_eq!((v.x, v.z), (0, -500));
}

#[test]
fn braking_uses_one_and_a_half_ground_accel() {
    let mut c = standing();
    let mut v = Velocity { x: 3_000, y: 0, z: 4_000 };
    c.move_step(&mut v, &idle(), north(), DT);
    assert_eq!((v.x, v.z), (3_000 - 450, 4_000 - 600));
    let mut v = Velocity { x: 300, y: 0, z: 400 };
    c.move_step(&mut v, &idle(), north(), DT);
    assert_eq!((v.x, v.z), (0, 0));
}

#[test]
fn air_control_uses_larger_of_air_and_share_of_ground() {
    let mut c = FpsController::default();
    let mut v = rest();
    let keys = MoveKeys { right: true, ..no_keys() };
    c.move_step(&mut v, &frame(keys, false, false), north(), DT);
    // max(15 m/s², 0.45 × 50 m/s²) = 22.5 m/s² over 10 ms
    assert_eq!((v.x, v.z), (225, 0));
}

#[test]
fn holding_forward_reaches_and_holds_max_speed() {
    let mut c = standing();
    let mut v = rest();
    let keys = MoveKeys { forward: true, ..no_keys() };
    let mut reached_at = None;
    for tick in 0..100 {
        c.update(&mut v, &frame(keys, false, false), north(), true, DT);
        assert!(v.z >= -8_000);
        if v.z == -8_000 && reached_at.is_none() {
            reached_at = Some(tick);
        }
        if reached_at.is_some() {
            assert_eq!(v.z, -8_000);
        }
    }
    assert_eq!(reached_at, Some(15));
    assert_eq!((v.x, v.y, v.z), (0, 0, -8_000));
}

#[test]
fn diagonal_wish_is_normalised() {
    let mut c = standing();
    c.config.ground_accel = 10_000_000;
    let mut v = rest();
    let keys = MoveKeys { forward: true, right: true, ..no_keys() };
    c.move_step(&mut v, &frame(keys, false, false), north(), DT);
    // (1e6, -1e6) scaled to 8000 over ceil(sqrt(2e12)) = 1414214
    assert_eq!((v.x, v.z), (5_656, -5_656));
}

#[test]
fn landing_refunds_air_jumps_and_unlocks() {
    let mut cfg = ControllerConfig::default();
    cfg.max_air_jumps = 1;
    let mut c = FpsController::new(cfg);
    let mut v = rest();
    c.update(&mut v, &frame(no_keys(), true, true), north(), false, DT);
    assert_eq!(c.state.used_air_jumps, 1);
    assert!(c.state.jump_locked);
    // the body hits the floor, which stops it
    v.y = 0;
    c.update(&mut v, &idle(), north(), true, DT);
    assert_eq!(c.state.used_air_jumps, 1);
    assert!(c.state.jump_locked);
    c.update(&mut v, &idle(), north(), true, DT);
    assert!(c.state.is_grounded);
    assert_eq!(c.state.used_air_jumps, 0);
    assert!(!c.state.jump_locked);
}

#[test]
fn air_jump_budget_is_respected() {
    let mut cfg = ControllerConfig::default();
    cfg.max_air_jumps = 1;
    let mut c = FpsController::new(cfg);
    let mut v = rest();
    c.update(&mut v, &frame(no_keys(), true, true), north(), false, DT);
    assert_eq!(v.y, 6_572 - 120);
    c.update(&mut v, &idle(), north(), false, DT);
    let before = v.y;
    c.update(&mut v, &frame(no_keys(), true, true), north(), false, DT);
    assert_eq!(v.y, before - 120);
}

#[test]
fn disabled_controller_leaves_velocity_alone() {
    let mut c = standing();
    c.state.enabled = false;
    let mut v = Velocity { x: 100, y: -7_000, z: 200 };
    let keys = MoveKeys { forward: true, ..no_keys() };
    c.move_step(&mut v, &frame(keys, true, true), north(), DT);
    assert_eq!((v.x, v.y, v.z), (100, -7_000, 200));
    assert!(!c.state.jump_locked);
}

#[test]
fn look_turns_and_clamps_pitch() {
    let c = FpsController::default();
    let o = Orientation { yaw: 0, pitch: 0 };
    let input = InputFrame { keys: no_keys(), jump: JumpKey { held: false, just_pressed: false }, mouse_dx: 10_000, mouse_dy: -5_000 };
    let r = c.look(o, &input, CursorLocked(true));
    assert_eq!((r.yaw, r.pitch), (-20_000, 10_000));
    let r = c.look(o, &input, CursorLocked(false));
    assert_eq!((r.yaw, r.pitch), (0, 0));
    let r = apply_look(o, 0, -1_000_000, 2_000, true);
    assert_eq!(r.pitch, PITCH_LIMIT);
    let r = apply_look(o, 0, 1_000_000, 2_000, true);
    assert_eq!(r.pitch, -PITCH_LIMIT);
}

#[test]
fn yaw_wraps_around() {
    let o = Orientation { yaw: HALF_TURN - 1, pitch: 0 };
    let r = apply_look(o, -1_000, 2_000, 2_000, true);
    assert_eq!(r.yaw, -HALF_TURN + 1_999);
    let o = Orientation { yaw: -HALF_TURN, pitch: 0 };
    let r = apply_look(o, 1_000, 0, 2_000, true);
    assert_eq!(r.yaw, HALF_TURN - 2_000);
}

#[test]
fn probe_ray_starts_above_the_foot() {
    let cfg = ControllerConfig::default();
    let capsule = capsule_or_default(None);
    assert_eq!((capsule.radius, capsule.half_height), (400, 900));
    let ray = probe_ray(5, 1_800, -7, capsule, &cfg);
    assert_eq!((ray.origin_x, ray.origin_y, ray.origin_z, ray.max_distance), (5, 1_800 - 1_300 + 60, -7, 120));
    let own = capsule_or_default(Some(Capsule { radius: 300, half_height: 700 }));
    assert_eq!((own.radius, own.half_height), (300, 700));
}

#[test]
fn steep_or_missing_hits_are_not_ground() {
    assert!(classify_hit(Some(1_000_000), 642_788));
    assert!(classify_hit(Some(642_788), 642_788));
    assert!(!classify_hit(Some(642_787), 642_788));
    assert!(!classify_hit(None, 642_788));
}

#[test]
fn config_is_clamped_at_the_boundary() {
    let cfg = ControllerConfig::new(-5, 2_000, 1_800, -120_000, 999_000_000, 2_000, 50_000, 15_000, 120, 1, 2);
    assert_eq!(cfg.max_speed, 0);
    assert_eq!(cfg.coyote_time, 0);
    assert_eq!(cfg.jump_buffer_time, 10_000_000);
    assert_eq!(cfg.air_control_factor, 1_000);
    assert_eq!(cfg.max_slope_degrees, 90);
    assert_eq!(cfg.skin_width, 20);
    assert_eq!(cfg.max_air_jumps, 2);
    let s = ControllerState::new();
    assert!(s.enabled && !s.is_grounded && s.jump_was_released);
    assert_eq!(s.jump_buffer_timer, EMPTY_BUFFER);
}

#[test]
fn integer_roots_and_vector_clamp() {
    assert_eq!(isqrt_floor(43_200_000), 6_572);
    assert_eq!(isqrt_floor(u64::MAX), 4_294_967_295);
    assert_eq!(isqrt_ceil(24), 5);
    assert_eq!(isqrt_ceil(25), 5);
    assert_eq!(isqrt_ceil(0), 0);
    assert_eq!(clamp_length_max(3_000, -4_000, 500), (300, -400));
    assert_eq!(clamp_length_max(30, -40, 500), (30, -40));
    assert_eq!(scale_to_length(0, -3, 8_000), (0, -8_000));
}

#[test]
fn toggle_key_flips_cursor_lock() {
    assert!(!CursorLocked(true).after_toggle(true).0);
    assert!(CursorLocked(false).after_toggle(true).0);
    assert!(CursorLocked(true).after_toggle(false).0);
}
