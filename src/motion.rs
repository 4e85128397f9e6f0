//! The velocity integrator: horizontal acceleration toward the input's wish velocity,
//! gravity, fast fall, terminal velocity and ground adhesion.
use vstd::prelude::*;
use crate::controller::{
    ControllerConfig, FAST_FALL_GRAVITY, GRAVITY, GROUND_ADHESION_SPEED,
    MAX_CONFIG_SPEED, MAX_DT, MICROS_PER_SECOND, PER_MILLE, SPEED_LIMIT, TERMINAL_FALL_SPEED,
};
use crate::fixed::{clamp_length_max, clamped, scale_to_length, scaled_to};
use crate::ground::UNIT;

verus! {

/// A body's linear velocity (mm/s); `y` points up.
#[derive(Clone, Copy, Debug)]
pub struct Velocity {
    pub x: i64,
    pub y: i64,
    pub z: i64,
}

pub open spec fn velocity_ok(v: Velocity) -> bool {
    &&& -SPEED_LIMIT <= v.x <= SPEED_LIMIT
    &&& -SPEED_LIMIT <= v.y <= SPEED_LIMIT
    &&& -SPEED_LIMIT <= v.z <= SPEED_LIMIT
}

/// The horizontal direction the body faces, as a unit vector in the ground plane (ppm).
/// Its right-hand direction is `(-forward_z, forward_x)`.
#[derive(Clone, Copy, Debug)]
pub struct Heading {
    pub forward_x: i64,
    pub forward_z: i64,
}

pub open spec fn heading_ok(h: Heading) -> bool {
    -UNIT <= h.forward_x <= UNIT && -UNIT <= h.forward_z <= UNIT
}

/// The movement keys held this tick.
#[derive(Clone, Copy, Debug)]
pub struct MoveKeys {
    pub forward: bool,
    pub back: bool,
    pub left: bool,
    pub right: bool,
    /// The fast-fall modifier.
    pub fast_fall: bool,
}

/// Sum of the heading directions the held keys ask for: forward and back along the heading,
/// left and right across it.
pub open spec fn wish_direction(keys: MoveKeys, h: Heading) -> (int, int) {
    let fx = h.forward_x as int;
    let fz = h.forward_z as int;
    let rx = -fz;
    let rz = fx;
    let x = (if keys.forward { fx } else { 0 }) - (if keys.back { fx } else { 0 })
        - (if keys.left { rx } else { 0 }) + (if keys.right { rx } else { 0 });
    let z = (if keys.forward { fz } else { 0 }) - (if keys.back { fz } else { 0 })
        - (if keys.left { rz } else { 0 }) + (if keys.right { rz } else { 0 });
    (x, z)
}

/// The horizontal velocity the input asks for: the wish direction at `max_speed`, or zero.
pub open spec fn wish_velocity(cfg: ControllerConfig, keys: MoveKeys, h: Heading) -> (int, int) {
    let w = wish_direction(keys, h);
    if w.0 == 0 && w.1 == 0 {
        (0, 0)
    } else {
        scaled_to(w.0, w.1, cfg.max_speed as int)
    }
}

/// Velocity change a `rate` (mm/s²) allows over `dt` (µs), in mm/s.
pub open spec fn per_tick(rate: int, dt: int) -> int {
    rate * dt / MICROS_PER_SECOND as int
}

/// Ground acceleration while braking with no input: 1.5 × `ground_accel`.
pub open spec fn brake_rate(cfg: ControllerConfig) -> int {
    cfg.ground_accel * 3 / 2
}

/// Air acceleration: the larger of `air_accel` and the air-control share of `ground_accel`.
pub open spec fn air_rate(cfg: ControllerConfig) -> int {
    let share = cfg.ground_accel * cfg.air_control_factor / PER_MILLE as int;
    if cfg.air_accel >= share { cfg.air_accel as int } else { share }
}

/// Acceleration that moves the velocity toward `target` this tick.
pub open spec fn horizontal_rate(cfg: ControllerConfig, grounded: bool, target: (int, int)) -> int {
    if !grounded {
        air_rate(cfg)
    } else if target.0 == 0 && target.1 == 0 {
        brake_rate(cfg)
    } else {
        cfg.ground_accel as int
    }
}

/// Horizontal velocity after one tick: the velocity moves toward `target` by at most
/// `rate × dt`, reaching it exactly when it is that close.
pub open spec fn horizontal_step(
    vx: int,
    vz: int,
    target: (int, int),
    cfg: ControllerConfig,
    grounded: bool,
    dt: int,
) -> (int, int) {
    let m = per_tick(horizontal_rate(cfg, grounded, target), dt);
    if grounded && target.0 == 0 && target.1 == 0 {
        let d = clamped(vx, vz, m);
        (vx - d.0, vz - d.1)
    } else {
        let d = clamped(target.0 - vx, target.1 - vz, m);
        (vx + d.0, vz + d.1)
    }
}

/// Vertical velocity after one tick: airborne bodies fall under gravity (more with fast
/// fall) down to the terminal speed; grounded ones keep at most a slight downward speed.
pub open spec fn vertical_step(vy: int, grounded: bool, fast_fall: bool, dt: int) -> int {
    if !grounded {
        let v1 = vy - per_tick(GRAVITY as int, dt);
        let v2 = if fast_fall { v1 - per_tick(FAST_FALL_GRAVITY as int, dt) } else { v1 };
        if v2 < -TERMINAL_FALL_SPEED { -TERMINAL_FALL_SPEED as int } else { v2 }
    } else if vy < -GROUND_ADHESION_SPEED {
        -GROUND_ADHESION_SPEED as int
    } else {
        vy
    }
}

fn per_tick_exec(rate: i64, dt: i64) -> (r: i64)
    requires
        0 <= rate <= 2 * crate::controller::MAX_CONFIG_ACCEL,
        0 <= dt <= MAX_DT,
    ensures
        r == per_tick(rate as int, dt as int),
        0 <= r <= rate,
{
    assert(rate * dt <= rate * MAX_DT) by (nonlinear_arith)
        requires 0 <= rate, dt <= MAX_DT;
    assert(0 <= rate * dt) by (nonlinear_arith)
        requires 0 <= rate, 0 <= dt;
    assert(rate * dt <= 20_000_000 * MAX_DT) by (nonlinear_arith)
        requires rate <= 20_000_000, 0 <= dt <= MAX_DT;
    let p: i64 = rate * dt;
    proof {
        vstd::arithmetic::div_mod::lemma_div_is_ordered(p as int, rate * MAX_DT, MICROS_PER_SECOND as int);
        vstd::arithmetic::div_mod::lemma_div_by_multiple(rate as int, MICROS_PER_SECOND as int);
        vstd::arithmetic::div_mod::lemma_div_pos_is_pos(p as int, MICROS_PER_SECOND as int);
    }
    p / MICROS_PER_SECOND
}

/// The horizontal velocity the held keys ask for.
pub fn wish_velocity_exec(cfg: &ControllerConfig, keys: MoveKeys, h: Heading) -> (r: (i64, i64))
    requires
        cfg.wf(),
        heading_ok(h),
    ensures
        (r.0 as int, r.1 as int) == wish_velocity(*cfg, keys, h),
        -MAX_CONFIG_SPEED <= r.0 <= MAX_CONFIG_SPEED,
        -MAX_CONFIG_SPEED <= r.1 <= MAX_CONFIG_SPEED,
{
    let fx = h.forward_x;
    let fz = h.forward_z;
    let rx = -fz;
    let rz = fx;
    let mut x: i64 = 0;
    let mut z: i64 = 0;
    if keys.forward {
        x = x + fx;
        z = z + fz;
    }
    if keys.back {
        x = x - fx;
        z = z - fz;
    }
    if keys.left {
        x = x - rx;
        z = z - rz;
    }
    if keys.right {
        x = x + rx;
        z = z + rz;
    }
    if x == 0 && z == 0 {
        (0, 0)
    } else {
        scale_to_length(x, z, cfg.max_speed)
    }
}

/// Moves the horizontal velocity toward `target` for one tick.
pub fn horizontal_exec(
    vx: i64,
    vz: i64,
    target: (i64, i64),
    cfg: &ControllerConfig,
    grounded: bool,
    dt: i64,
) -> (r: (i64, i64))
    requires
        cfg.wf(),
        0 <= dt <= MAX_DT,
        -SPEED_LIMIT <= vx <= SPEED_LIMIT,
        -SPEED_LIMIT <= vz <= SPEED_LIMIT,
        -MAX_CONFIG_SPEED <= target.0 <= MAX_CONFIG_SPEED,
        -MAX_CONFIG_SPEED <= target.1 <= MAX_CONFIG_SPEED,
    ensures
        (r.0 as int, r.1 as int) == horizontal_step(
            vx as int,
            vz as int,
            (target.0 as int, target.1 as int),
            *cfg,
            grounded,
            dt as int,
        ),
        -SPEED_LIMIT <= r.0 <= SPEED_LIMIT,
        -SPEED_LIMIT <= r.1 <= SPEED_LIMIT,
{
    let no_input = target.0 == 0 && target.1 == 0;
    let rate: i64 = if !grounded {
        assert(0 <= cfg.ground_accel * cfg.air_control_factor <= cfg.ground_accel * PER_MILLE)
            by (nonlinear_arith)
            requires 0 <= cfg.ground_accel, 0 <= cfg.air_control_factor <= PER_MILLE;
        assert(cfg.ground_accel * PER_MILLE <= 10_000_000 * PER_MILLE) by (nonlinear_arith)
            requires 0 <= cfg.ground_accel <= 10_000_000;
        let share = cfg.ground_accel * cfg.air_control_factor / PER_MILLE;
        proof {
            vstd::arithmetic::div_mod::lemma_div_is_ordered(
                cfg.ground_accel * cfg.air_control_factor,
                cfg.ground_accel * PER_MILLE,
                PER_MILLE as int,
            );
            vstd::arithmetic::div_mod::lemma_div_by_multiple(cfg.ground_accel as int, PER_MILLE as int);
            vstd::arithmetic::div_mod::lemma_div_pos_is_pos(
                cfg.ground_accel * cfg.air_control_factor,
                PER_MILLE as int,
            );
        }
        if cfg.air_accel >= share { cfg.air_accel } else { share }
    } else if no_input {
        cfg.ground_accel * 3 / 2
    } else {
        cfg.ground_accel
    };
    let m = per_tick_exec(rate, dt);
    if grounded && no_input {
        let d = clamp_length_max(vx, vz, m);
        proof {
            crate::fixed::lemma_clamped_bounds(vx as int, vz as int, m as int);
            crate::fixed::lemma_between_zero(vx as int, d.0 as int);
            crate::fixed::lemma_between_zero(vz as int, d.1 as int);
        }
        (vx - d.0, vz - d.1)
    } else {
        let d = clamp_length_max(target.0 - vx, target.1 - vz, m);
        proof {
            crate::fixed::lemma_clamped_bounds(target.0 - vx, target.1 - vz, m as int);
            crate::fixed::lemma_between_zero(target.0 - vx, d.0 as int);
            crate::fixed::lemma_between_zero(target.1 - vz, d.1 as int);
        }
        (vx + d.0, vz + d.1)
    }
}

/// Applies gravity, fast fall, the terminal-speed clamp or ground adhesion for one tick.
pub fn vertical_exec(vy: i64, grounded: bool, fast_fall: bool, dt: i64) -> (r: i64)
    requires
        -SPEED_LIMIT <= vy <= SPEED_LIMIT,
        0 <= dt <= MAX_DT,
    ensures
        r == vertical_step(vy as int, grounded, fast_fall, dt as int),
        -SPEED_LIMIT <= r <= SPEED_LIMIT,
{
    if !grounded {
        let mut v = vy - per_tick_exec(GRAVITY, dt);
        if fast_fall {
            v = v - per_tick_exec(FAST_FALL_GRAVITY, dt);
        }
        if v < -TERMINAL_FALL_SPEED { -TERMINAL_FALL_SPEED } else { v }
    } else if vy < -GROUND_ADHESION_SPEED {
        -GROUND_ADHESION_SPEED
    } else {
        vy
    }
}

} // verus!
