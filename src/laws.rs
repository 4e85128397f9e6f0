//! Properties of the controller that relate several ticks or several steps, proved from the
//! step functions' specifications.
use vstd::prelude::*;
use crate::controller::{
    ControllerConfig, ControllerState, GRAVITY, MAX_DT, TERMINAL_FALL_SPEED, TIMER_FLOOR,
};
use crate::fixed::{clamped, len_sq, lemma_between_zero, lemma_clamped_bounds};
use crate::fps_controller::{jumps, moved_state, moved_velocity, InputFrame};
use crate::ground::{after_ground_sample, decayed};
use crate::jump::{jump_speed, JumpKey};
use crate::motion::{horizontal_rate, per_tick, wish_velocity, Heading, Velocity};

verus! {

/// The state after the ground filter has taken `samples` in order (`true` for a positive
/// sample).
pub open spec fn filter_run(
    s: ControllerState,
    cfg: ControllerConfig,
    samples: Seq<bool>,
    dt: i64,
) -> ControllerState
    decreases samples.len(),
{
    if samples.len() == 0 {
        s
    } else {
        after_ground_sample(filter_run(s, cfg, samples.drop_last(), dt), cfg, samples.last(), dt)
    }
}

/// The ground filter keeps the controller's invariants.
pub proof fn lemma_ground_sample_wf(s: ControllerState, cfg: ControllerConfig, positive: bool, dt: i64)
    requires
        cfg.wf(),
        s.wf(cfg),
        0 <= dt <= MAX_DT,
    ensures
        after_ground_sample(s, cfg, positive, dt).wf(cfg),
{
}

/// Grounding hysteresis: whatever the samples, the counter stays within `0..=3`, and after at
/// least two samples the body is grounded exactly when the last two were positive; after a
/// single sample it is grounded only if that sample was positive.
pub proof fn law_grounding_hysteresis(
    s: ControllerState,
    cfg: ControllerConfig,
    samples: Seq<bool>,
    dt: i64,
)
    requires
        cfg.wf(),
        s.wf(cfg),
        0 <= dt <= MAX_DT,
    ensures
        filter_run(s, cfg, samples, dt).wf(cfg),
        filter_run(s, cfg, samples, dt).ground_frames <= 3,
        samples.len() >= 2 ==> (filter_run(s, cfg, samples, dt).is_grounded <==> (
            samples[samples.len() - 1] && samples[samples.len() - 2])),
        samples.len() == 1 ==> (filter_run(s, cfg, samples, dt).is_grounded ==> samples[0]),
    decreases samples.len(),
{
    if samples.len() > 0 {
        let prefix = samples.drop_last();
        law_grounding_hysteresis(s, cfg, prefix, dt);
        let mid = filter_run(s, cfg, prefix, dt);
        lemma_ground_sample_wf(mid, cfg, samples.last(), dt);
        if samples.len() >= 2 {
            if prefix.len() >= 1 {
                assert(prefix.last() == samples[samples.len() - 2]);
                let pre2 = prefix.drop_last();
                law_grounding_hysteresis(s, cfg, pre2, dt);
                lemma_ground_sample_wf(filter_run(s, cfg, pre2, dt), cfg, prefix.last(), dt);
            }
        }
    }
}

/// Coyote arming: the ground filter sets the coyote timer to exactly `coyote_time` on the
/// sample where the counter drops from above zero to zero; on every other sample the timer
/// decays by `dt` (down to `TIMER_FLOOR`).
pub proof fn law_coyote_arming(s: ControllerState, cfg: ControllerConfig, positive: bool, dt: i64)
    requires
        cfg.wf(),
        s.wf(cfg),
        0 <= dt <= MAX_DT,
    ensures
        ({
            let r = after_ground_sample(s, cfg, positive, dt);
            &&& (s.ground_frames > 0 && r.ground_frames == 0) ==> r.coyote_timer == cfg.coyote_time
            &&& !(s.ground_frames > 0 && r.ground_frames == 0) ==> r.coyote_timer == decayed(s.coyote_timer, dt)
            &&& s.coyote_timer - dt >= TIMER_FLOOR ==> decayed(s.coyote_timer, dt) == s.coyote_timer - dt
        }),
{
}

/// No re-arming mid-fall: starting airborne with the counter at zero, a run of negative
/// samples lowers the coyote timer by exactly `dt` per sample.
pub proof fn law_coyote_fall(s: ControllerState, cfg: ControllerConfig, samples: Seq<bool>, dt: i64)
    requires
        cfg.wf(),
        s.wf(cfg),
        0 <= dt <= MAX_DT,
        s.ground_frames == 0,
        forall|i: int| 0 <= i < samples.len() ==> !samples[i],
        s.coyote_timer - samples.len() * dt >= TIMER_FLOOR,
    ensures
        filter_run(s, cfg, samples, dt).coyote_timer == s.coyote_timer - samples.len() * dt,
        filter_run(s, cfg, samples, dt).ground_frames == 0,
    decreases samples.len(),
{
    if samples.len() > 0 {
        let prefix = samples.drop_last();
        assert(s.coyote_timer - prefix.len() * dt >= TIMER_FLOOR) by (nonlinear_arith)
            requires
                s.coyote_timer - samples.len() * dt >= TIMER_FLOOR,
                prefix.len() == samples.len() - 1,
                dt >= 0;
        law_coyote_fall(s, cfg, prefix, dt);
        assert(samples.len() * dt == prefix.len() * dt + dt) by (nonlinear_arith)
            requires prefix.len() == samples.len() - 1;
    }
}

/// Over a whole tick, a body that was not on the ground and takes a negative sample has its
/// coyote timer lowered by `dt`, unless a jump executes (which closes the window).
pub proof fn law_coyote_tick(
    s: ControllerState,
    cfg: ControllerConfig,
    key: JumpKey,
    positive: bool,
    dt: i64,
)
    requires
        cfg.wf(),
        s.wf(cfg),
        0 <= dt <= MAX_DT,
        s.ground_frames == 0,
        !positive,
        !jumps(s, cfg, key, dt),
    ensures
        after_ground_sample(moved_state(s, cfg, key, dt), cfg, positive, dt).coyote_timer
            == decayed(s.coyote_timer, dt),
{
}

/// Jump gating, the other way: a fresh press executes a jump whenever the body is on the
/// ground or within the coyote window, the key was released since the last jump (or is
/// released now), and the lock is off.
pub proof fn law_fresh_press_jumps(s: ControllerState, cfg: ControllerConfig, key: JumpKey, dt: i64)
    requires
        cfg.wf(),
        s.enabled,
        s.is_grounded || s.coyote_timer > 0,
        key.just_pressed,
        s.jump_was_released,
        !s.jump_locked,
    ensures
        jumps(s, cfg, key, dt),
{
}

/// Jump lock: a locked controller never jumps.
pub proof fn law_lock_blocks_jump(s: ControllerState, cfg: ControllerConfig, key: JumpKey, dt: i64)
    requires
        s.jump_locked,
    ensures
        !jumps(s, cfg, key, dt),
{
}

/// Release gate: while the key stays held since the last jump, no jump executes, however long
/// it is held and whatever the timers say.
pub proof fn law_held_key_blocks_jump(s: ControllerState, cfg: ControllerConfig, key: JumpKey, dt: i64)
    requires
        key.held,
        !s.jump_was_released,
    ensures
        !jumps(s, cfg, key, dt),
{
}

/// A jump closes both gates: afterwards the key must be released and the body must land
/// before the next one.
pub proof fn law_jump_closes_gates(s: ControllerState, cfg: ControllerConfig, key: JumpKey, dt: i64)
    requires
        jumps(s, cfg, key, dt),
    ensures
        moved_state(s, cfg, key, dt).jump_locked,
        !moved_state(s, cfg, key, dt).jump_was_released,
        moved_state(s, cfg, key, dt).jump_buffer_timer < 0,
        moved_state(s, cfg, key, dt).coyote_timer == 0,
{
}

/// Jump height determinism: a jump from the ground leaves the body rising at exactly the
/// take-off speed for `jump_height`, whatever its vertical velocity before.
pub proof fn law_jump_speed(
    s: ControllerState,
    cfg: ControllerConfig,
    v: Velocity,
    input: InputFrame,
    heading: Heading,
    dt: i64,
)
    requires
        cfg.wf(),
        s.is_grounded,
        jumps(s, cfg, input.jump, dt),
    ensures
        moved_velocity(s, cfg, v, input, heading, dt).y == jump_speed(cfg.jump_height as int),
{
    crate::jump::lemma_jump_speed_bounds(cfg.jump_height as int);
}

/// Terminal velocity: an airborne body never falls faster than `TERMINAL_FALL_SPEED` after a
/// tick; while no jump executes it reaches exactly that speed once gravity would carry it
/// past, and keeps it.
pub proof fn law_terminal_velocity(
    s: ControllerState,
    cfg: ControllerConfig,
    v: Velocity,
    input: InputFrame,
    heading: Heading,
    dt: i64,
)
    requires
        cfg.wf(),
        s.enabled,
        !s.is_grounded,
        0 <= dt <= MAX_DT,
    ensures
        moved_velocity(s, cfg, v, input, heading, dt).y >= -TERMINAL_FALL_SPEED,
        !jumps(s, cfg, input.jump, dt) && v.y - per_tick(GRAVITY as int, dt as int) <= -TERMINAL_FALL_SPEED
            ==> moved_velocity(s, cfg, v, input, heading, dt).y == -TERMINAL_FALL_SPEED,
        !jumps(s, cfg, input.jump, dt) && v.y == -TERMINAL_FALL_SPEED
            ==> moved_velocity(s, cfg, v, input, heading, dt).y == -TERMINAL_FALL_SPEED,
{
    crate::jump::lemma_jump_speed_bounds(cfg.jump_height as int);
    vstd::arithmetic::div_mod::lemma_div_pos_is_pos(GRAVITY * dt, 1_000_000);
    vstd::arithmetic::div_mod::lemma_div_pos_is_pos(18_000 * dt, 1_000_000);
}

/// `b` lies between `a` and `c`, either end included.
pub open spec fn between(a: int, b: int, c: int) -> bool {
    (a <= b <= c) || (c <= b <= a)
}

/// Acceleration clamp: in one tick the horizontal velocity changes by at most `rate × dt`
/// (the rate that applies on the ground, in the air or when braking), moves toward the target
/// (the wish velocity, or zero when braking) without passing it, and reaches the target
/// exactly when it is that close.
pub proof fn law_acceleration_clamp(
    s: ControllerState,
    cfg: ControllerConfig,
    v: Velocity,
    input: InputFrame,
    heading: Heading,
    dt: i64,
)
    requires
        cfg.wf(),
        s.enabled,
        0 <= dt <= MAX_DT,
        crate::motion::velocity_ok(v),
        crate::motion::heading_ok(heading),
    ensures
        ({
            let r = moved_velocity(s, cfg, v, input, heading, dt);
            let t = wish_velocity(cfg, input.keys, heading);
            let m = per_tick(horizontal_rate(cfg, s.is_grounded, t), dt as int);
            &&& len_sq(r.x - v.x, r.z - v.z) <= m * m
            &&& between(v.x as int, r.x as int, t.0)
            &&& between(v.z as int, r.z as int, t.1)
            &&& len_sq(t.0 - v.x, t.1 - v.z) <= m * m ==> r.x == t.0 && r.z == t.1
        }),
{
    let t = wish_velocity(cfg, input.keys, heading);
    let w = crate::motion::wish_direction(input.keys, heading);
    if !(w.0 == 0 && w.1 == 0) {
        assert(len_sq(w.0, w.1) > 0) by (nonlinear_arith)
            requires !(w.0 == 0 && w.1 == 0);
        crate::fixed::lemma_scaled_bounds(w.0, w.1, cfg.max_speed as int);
    }
    let rate = horizontal_rate(cfg, s.is_grounded, t);
    assert(rate >= 0) by {
        assert(cfg.ground_accel * cfg.air_control_factor >= 0) by (nonlinear_arith)
            requires cfg.ground_accel >= 0, cfg.air_control_factor >= 0;
        vstd::arithmetic::div_mod::lemma_div_pos_is_pos(cfg.ground_accel * cfg.air_control_factor, 1000);
        vstd::arithmetic::div_mod::lemma_div_pos_is_pos(cfg.ground_accel * 3, 2);
    }
    assert(rate * dt >= 0) by (nonlinear_arith)
        requires rate >= 0, dt >= 0;
    let m = per_tick(rate, dt as int);
    vstd::arithmetic::div_mod::lemma_div_pos_is_pos(rate * dt, 1_000_000);
    if s.is_grounded && t.0 == 0 && t.1 == 0 {
        let d = clamped(v.x as int, v.z as int, m);
        lemma_clamped_bounds(v.x as int, v.z as int, m);
        lemma_between_zero(v.x as int, d.0);
        lemma_between_zero(v.z as int, d.1);
        assert(len_sq(-d.0, -d.1) == len_sq(d.0, d.1)) by (nonlinear_arith);
        assert(len_sq(-v.x, -v.z) == len_sq(v.x as int, v.z as int)) by (nonlinear_arith);
    } else {
        let d = clamped(t.0 - v.x, t.1 - v.z, m);
        lemma_clamped_bounds(t.0 - v.x, t.1 - v.z, m);
        lemma_between_zero(t.0 - v.x, d.0);
        lemma_between_zero(t.1 - v.z, d.1);
    }
}

/// Re-grounding reset: over a whole tick the air jumps are refunded and the jump lock lifted
/// only when the body goes from not grounded to grounded, and that landing always does both.
pub proof fn law_regrounding_reset(
    s: ControllerState,
    cfg: ControllerConfig,
    key: JumpKey,
    positive: bool,
    dt: i64,
)
    requires
        cfg.wf(),
        s.wf(cfg),
        0 <= dt <= MAX_DT,
    ensures
        ({
            let r = after_ground_sample(moved_state(s, cfg, key, dt), cfg, positive, dt);
            let landed = !s.is_grounded && r.is_grounded;
            &&& r.used_air_jumps < s.used_air_jumps ==> landed
            &&& (s.jump_locked && !r.jump_locked) ==> landed
            &&& landed ==> r.used_air_jumps == 0 && !r.jump_locked
        }),
{
}

} // verus!
