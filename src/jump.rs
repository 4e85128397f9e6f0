//! The jump arbiter: input buffering, coyote time, the air-jump budget and the
//! release-before-rejump lock.
use vstd::prelude::*;
use crate::controller::{ControllerConfig, ControllerState, EMPTY_BUFFER, GRAVITY, MAX_DT};
use crate::fixed::{floor_sqrt, isqrt_floor};
use crate::ground::{decay_timer, decayed};

verus! {

/// What the jump key did this tick.
#[derive(Clone, Copy, Debug)]
pub struct JumpKey {
    /// The key is down.
    pub held: bool,
    /// The key went down this tick.
    pub just_pressed: bool,
}

/// The state after the jump key is read: releasing the key opens the release gate, and a
/// fresh press fills the buffer while an old one decays.
pub open spec fn after_jump_key(
    s: ControllerState,
    cfg: ControllerConfig,
    key: JumpKey,
    dt: i64,
) -> ControllerState {
    ControllerState {
        jump_was_released: if !key.held { true } else { s.jump_was_released },
        jump_buffer_timer: if key.just_pressed {
            cfg.jump_buffer_time
        } else {
            decayed(s.jump_buffer_timer, dt)
        },
        ..s
    }
}

/// On the ground, or within the coyote window after leaving it.
pub open spec fn ground_jump_ok(s: ControllerState) -> bool {
    s.is_grounded || s.coyote_timer > 0
}

/// Airborne past the coyote window with an air jump left.
pub open spec fn air_jump_ok(s: ControllerState, cfg: ControllerConfig) -> bool {
    !ground_jump_ok(s) && s.used_air_jumps < cfg.max_air_jumps
}

/// A jump executes when a press is buffered, the body may jump from where it is, the key
/// was released since the last jump, and the lock is off.
pub open spec fn jump_allowed(s: ControllerState, cfg: ControllerConfig) -> bool {
    &&& s.jump_buffer_timer >= 0
    &&& ground_jump_ok(s) || air_jump_ok(s, cfg)
    &&& s.jump_was_released
    &&& !s.jump_locked
}

/// The state after a jump executes: the buffer is spent, the coyote window closed, the key
/// must be released again, the lock is on, and an airborne jump uses up one air jump.
pub open spec fn after_jump(s: ControllerState) -> ControllerState {
    ControllerState {
        jump_buffer_timer: EMPTY_BUFFER,
        coyote_timer: 0,
        jump_was_released: false,
        jump_locked: true,
        used_air_jumps: if ground_jump_ok(s) { s.used_air_jumps } else { (s.used_air_jumps + 1) as u8 },
        ..s
    }
}

/// Take-off speed that carries a body `height` up under `GRAVITY`: `sqrt(2 · g · height)`,
/// rounded down (mm/s).
pub open spec fn jump_speed(height: int) -> int {
    floor_sqrt((2 * GRAVITY * height) as nat) as int
}

/// The take-off speed of any configured jump height lies in `0..=70_000` mm/s.
pub proof fn lemma_jump_speed_bounds(height: int)
    requires
        0 <= height <= crate::controller::MAX_CONFIG_JUMP_HEIGHT,
    ensures
        0 <= jump_speed(height) <= 70_000,
{
    let n = (2 * GRAVITY * height) as nat;
    crate::fixed::lemma_floor_sqrt_bounds(n);
    let r = floor_sqrt(n);
    assert(n <= 2_400_000_000) by (nonlinear_arith)
        requires n == 2 * GRAVITY * height, GRAVITY == 12_000, height <= 100_000;
    if r > 70_000 {
        assert(70_001 * 70_001 <= r * r) by (nonlinear_arith)
            requires r > 70_000;
    }
}

/// Reads the jump key into the buffer and the release gate.
pub fn read_jump_key(state: &mut ControllerState, cfg: &ControllerConfig, key: JumpKey, dt: i64)
    requires
        cfg.wf(),
        old(state).wf(*cfg),
        0 <= dt <= MAX_DT,
    ensures
        *final(state) == after_jump_key(*old(state), *cfg, key, dt),
        final(state).wf(*cfg),
{
    if !key.held {
        state.jump_was_released = true;
    }
    if key.just_pressed {
        state.jump_buffer_timer = cfg.jump_buffer_time;
    } else {
        state.jump_buffer_timer = decay_timer(state.jump_buffer_timer, dt);
    }
}

/// Decides whether a jump executes this tick and, if so, updates the arbiter's state.
pub fn try_jump(state: &mut ControllerState, cfg: &ControllerConfig) -> (jumped: bool)
    requires
        cfg.wf(),
        old(state).wf(*cfg),
    ensures
        jumped == jump_allowed(*old(state), *cfg),
        *final(state) == if jumped { after_jump(*old(state)) } else { *old(state) },
        final(state).wf(*cfg),
{
    let buffer_ok = state.jump_buffer_timer >= 0;
    let ground_ok = state.is_grounded || state.coyote_timer > 0;
    let air_ok = !ground_ok && state.used_air_jumps < cfg.max_air_jumps;
    let can_jump = buffer_ok && (ground_ok || air_ok) && state.jump_was_released && !state.jump_locked;
    if can_jump {
        state.jump_buffer_timer = EMPTY_BUFFER;
        state.coyote_timer = 0;
        state.jump_was_released = false;
        state.jump_locked = true;
        if !ground_ok {
            state.used_air_jumps = state.used_air_jumps + 1;
        }
    }
    can_jump
}

/// Take-off speed for a jump of `jump_height` (mm/s).
pub fn takeoff_speed(jump_height: i64) -> (r: i64)
    requires
        0 <= jump_height <= crate::controller::MAX_CONFIG_JUMP_HEIGHT,
    ensures
        r == jump_speed(jump_height as int),
        0 <= r <= 70_000,
{
    let h: u64 = jump_height as u64;
    let g2: u64 = 2 * GRAVITY as u64;
    assert(g2 * h <= 24_000 * 100_000) by (nonlinear_arith)
        requires h <= 100_000, g2 == 24_000;
    let n: u64 = g2 * h;
    assert(n as int == 2 * GRAVITY * jump_height);
    let r = isqrt_floor(n);
    proof {
        lemma_jump_speed_bounds(jump_height as int);
    }
    r as i64
}

} // verus!
