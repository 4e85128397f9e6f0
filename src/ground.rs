//! Ground probe geometry and the hysteresis filter that turns probe samples into a stable
//! grounded flag.
use vstd::prelude::*;
use crate::controller::{
    ControllerConfig, ControllerState, GROUNDED_FRAMES, MAX_DT, MAX_GROUND_FRAMES, RISING_SPEED,
    TIMER_FLOOR,
};

verus! {

/// Largest coordinate accepted for a body position (mm).
pub const POSITION_LIMIT: i64 = 1_000_000_000_000_000;

/// Largest capsule dimension accepted (mm).
pub const SHAPE_LIMIT: i64 = 1_000_000_000;

/// Capsule dimensions used when the body's collider is not a capsule (mm).
pub const DEFAULT_RADIUS: i64 = 400;
pub const DEFAULT_HALF_HEIGHT: i64 = 900;

/// Largest unit-vector component (parts per million).
pub const UNIT: i64 = 1_000_000;

/// A capsule collider: the radius of its caps and half the length of its middle segment.
#[derive(Clone, Copy, Debug)]
pub struct Capsule {
    pub radius: i64,
    pub half_height: i64,
}

/// A downward ray: where it starts and how far it reaches.
#[derive(Clone, Copy, Debug)]
pub struct ProbeRay {
    pub origin_x: i64,
    pub origin_y: i64,
    pub origin_z: i64,
    pub max_distance: i64,
}

pub open spec fn capsule_ok(c: Capsule) -> bool {
    0 <= c.radius <= SHAPE_LIMIT && 0 <= c.half_height <= SHAPE_LIMIT
}

/// The capsule to probe from: the collider's own when it is a capsule, else a standing
/// human-sized one.
pub fn capsule_or_default(shape: Option<Capsule>) -> (r: Capsule)
    requires
        shape is Some ==> capsule_ok(shape->0),
    ensures
        capsule_ok(r),
        r == (match shape {
            Some(c) => c,
            None => Capsule { radius: DEFAULT_RADIUS, half_height: DEFAULT_HALF_HEIGHT },
        }),
{
    match shape {
        Some(c) => c,
        None => Capsule { radius: DEFAULT_RADIUS, half_height: DEFAULT_HALF_HEIGHT },
    }
}

/// The ray that probes for ground below a capsule centred at `(x, y, z)`: it starts
/// `skin_width` above the capsule's foot and reaches `2 · skin_width` straight down.
pub fn probe_ray(x: i64, y: i64, z: i64, capsule: Capsule, cfg: &ControllerConfig) -> (r: ProbeRay)
    requires
        cfg.wf(),
        capsule_ok(capsule),
        -POSITION_LIMIT <= y <= POSITION_LIMIT,
    ensures
        r.origin_x == x,
        r.origin_z == z,
        r.origin_y == y - (capsule.half_height + capsule.radius) + cfg.skin_width,
        r.max_distance == 2 * cfg.skin_width,
{
    let foot_y = y - (capsule.half_height + capsule.radius);
    ProbeRay { origin_x: x, origin_y: foot_y + cfg.skin_width, origin_z: z, max_distance: 2 * cfg.skin_width }
}

/// A probe hit counts as walkable ground when its surface normal points up at least
/// `min_normal_y` (the cosine of the steepest walkable incline, in ppm); no hit is no ground.
pub open spec fn walkable(hit_normal_y: Option<i64>, min_normal_y: i64) -> bool {
    match hit_normal_y {
        Some(ny) => ny >= min_normal_y,
        None => false,
    }
}

pub fn classify_hit(hit_normal_y: Option<i64>, min_normal_y: i64) -> (r: bool)
    ensures
        r == walkable(hit_normal_y, min_normal_y),
{
    match hit_normal_y {
        Some(ny) => ny >= min_normal_y,
        None => false,
    }
}

/// A sample is positive when the surface is walkable and the body is not rising faster than
/// `RISING_SPEED`.
pub open spec fn positive_sample(walkable: bool, vertical_velocity: Option<i64>) -> bool {
    walkable && !(match vertical_velocity {
        Some(vy) => vy > RISING_SPEED,
        None => false,
    })
}

pub open spec fn next_ground_frames(frames: u8, positive: bool) -> u8 {
    if !positive {
        0
    } else if frames < MAX_GROUND_FRAMES {
        (frames + 1) as u8
    } else {
        MAX_GROUND_FRAMES
    }
}

/// A timer after one tick of `dt`, saturating at `TIMER_FLOOR`.
pub open spec fn decayed(t: i64, dt: i64) -> i64 {
    if t - dt < TIMER_FLOOR { TIMER_FLOOR } else { (t - dt) as i64 }
}

pub fn decay_timer(t: i64, dt: i64) -> (r: i64)
    requires
        TIMER_FLOOR <= t,
        0 <= dt <= MAX_DT,
    ensures
        r == decayed(t, dt),
{
    let d = t - dt;
    if d < TIMER_FLOOR { TIMER_FLOOR } else { d }
}

/// The state after the ground filter takes one sample: the counter follows the sample, the
/// coyote timer is armed when grounding is lost and decays otherwise, and landing (the
/// grounded flag going from false to true) refunds the air jumps and lifts the jump lock.
pub open spec fn after_ground_sample(
    s: ControllerState,
    cfg: ControllerConfig,
    positive: bool,
    dt: i64,
) -> ControllerState {
    let frames = next_ground_frames(s.ground_frames, positive);
    let grounded = frames >= GROUNDED_FRAMES;
    let landed = grounded && !s.is_grounded;
    ControllerState {
        ground_frames: frames,
        is_grounded: grounded,
        coyote_timer: if !positive && s.ground_frames > 0 {
            cfg.coyote_time
        } else {
            decayed(s.coyote_timer, dt)
        },
        used_air_jumps: if landed { 0 } else { s.used_air_jumps },
        jump_locked: if landed { false } else { s.jump_locked },
        ..s
    }
}

/// Feeds one probe result to the grounding filter.
pub fn ground_step(
    state: &mut ControllerState,
    cfg: &ControllerConfig,
    walkable: bool,
    vertical_velocity: Option<i64>,
    dt: i64,
)
    requires
        cfg.wf(),
        old(state).wf(*cfg),
        0 <= dt <= MAX_DT,
    ensures
        *final(state) == after_ground_sample(
            *old(state),
            *cfg,
            positive_sample(walkable, vertical_velocity),
            dt,
        ),
        final(state).wf(*cfg),
{
    state.coyote_timer = decay_timer(state.coyote_timer, dt);
    let rising = match vertical_velocity {
        Some(vy) => vy > RISING_SPEED,
        None => false,
    };
    if walkable && !rising {
        if state.ground_frames < MAX_GROUND_FRAMES {
            state.ground_frames = state.ground_frames + 1;
        }
    } else {
        if state.ground_frames > 0 {
            state.coyote_timer = cfg.coyote_time;
        }
        state.ground_frames = 0;
    }
    let was_grounded = state.is_grounded;
    state.is_grounded = state.ground_frames >= GROUNDED_FRAMES;
    if state.is_grounded && !was_grounded {
        state.used_air_jumps = 0;
        state.jump_locked = false;
    }
}

} // verus!
