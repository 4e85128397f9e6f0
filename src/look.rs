//! The look controller: mouse motion turns the body's yaw and tilts its pitch, with pitch
//! held inside a fixed range and no roll.
use vstd::prelude::*;
use crate::controller::{clamp_i64, clamp_int, MAX_CONFIG_SENSITIVITY};
use crate::fixed::div_trunc;

verus! {

/// Half a turn (µrad).
pub const HALF_TURN: i64 = 3_141_593;

/// A full turn (µrad).
pub const FULL_TURN: i64 = 6_283_186;

/// Largest pitch magnitude, about 86 degrees (µrad).
pub const PITCH_LIMIT: i64 = 1_500_000;

/// Largest mouse motion accepted in one tick (thousandths of a pixel).
pub const MOUSE_LIMIT: i64 = 1_000_000_000;

/// Mouse motion is measured in thousandths of a pixel.
pub const MOUSE_SCALE: i64 = 1_000;

/// Where the body looks: yaw about the vertical axis and pitch above the horizon (µrad).
#[derive(Clone, Copy, Debug)]
pub struct Orientation {
    pub yaw: i64,
    pub pitch: i64,
}

pub open spec fn orientation_ok(o: Orientation) -> bool {
    -HALF_TURN <= o.yaw < HALF_TURN && -PITCH_LIMIT <= o.pitch <= PITCH_LIMIT
}

/// The angle equal to `a` modulo a full turn that lies in `[-HALF_TURN, HALF_TURN)`.
pub open spec fn wrap_angle(a: int) -> int {
    (a + HALF_TURN) % (FULL_TURN as int) - HALF_TURN
}

/// Rotation caused by `motion` thousandths of a pixel at `sensitivity` µrad per pixel; moving
/// right or down turns toward negative angles.
pub open spec fn look_delta(motion: int, sensitivity: int) -> int {
    div_trunc(-(motion * sensitivity), MOUSE_SCALE as int)
}

/// The orientation after this tick's mouse motion.
pub open spec fn looked(o: Orientation, dx: int, dy: int, sensitivity: int) -> Orientation {
    Orientation {
        yaw: wrap_angle(o.yaw + look_delta(dx, sensitivity)) as i64,
        pitch: clamp_int(o.pitch + look_delta(dy, sensitivity), -PITCH_LIMIT as int, PITCH_LIMIT as int) as i64,
    }
}

pub fn div_trunc_exec(a: i64, b: i64) -> (r: i64)
    requires
        b > 0,
        a > i64::MIN,
    ensures
        r == div_trunc(a as int, b as int),
        a >= 0 ==> 0 <= r <= a,
        a < 0 ==> a <= r <= 0,
{
    proof {
        let n = if a >= 0 { a as int } else { -a };
        vstd::arithmetic::div_mod::lemma_div_pos_is_pos(n, b as int);
        vstd::arithmetic::div_mod::lemma_div_is_ordered_by_denominator(n, 1, b as int);
    }
    if a >= 0 {
        a / b
    } else {
        -((-a) / b)
    }
}

pub fn wrap_angle_exec(a: i64) -> (r: i64)
    requires
        -4_000_000_000_000_000_000 <= a <= 4_000_000_000_000_000_000,
    ensures
        r == wrap_angle(a as int),
        -HALF_TURN <= r < HALF_TURN,
{
    let t: i64 = a + HALF_TURN;
    let ghost f: int = FULL_TURN as int;
    if t >= 0 {
        let m = t % FULL_TURN;
        m - HALF_TURN
    } else {
        let u: i64 = -t;
        let m: i64 = u % FULL_TURN;
        proof {
            vstd::arithmetic::div_mod::lemma_fundamental_div_mod(u as int, f);
            vstd::arithmetic::div_mod::lemma_mod_pos_bound(u as int, f);
            let q = u as int / f;
            if m == 0 {
                assert(t == (-q) * f) by (nonlinear_arith)
                    requires u == f * q + 0, t == -u;
                vstd::arithmetic::div_mod::lemma_fundamental_div_mod_converse(t as int, f, -q, 0);
            } else {
                assert(t == (-q - 1) * f + (f - m)) by (nonlinear_arith)
                    requires u == f * q + m, t == -u;
                vstd::arithmetic::div_mod::lemma_fundamental_div_mod_converse(t as int, f, -q - 1, f - m);
            }
        }
        if m == 0 { -HALF_TURN } else { FULL_TURN - m - HALF_TURN }
    }
}

/// Applies this tick's mouse motion to `o`: yaw turns freely and wraps, pitch stays within
/// `PITCH_LIMIT`. Nothing moves while `active` is false (controls disabled or cursor free).
pub fn apply_look(o: Orientation, dx: i64, dy: i64, sensitivity: i64, active: bool) -> (r: Orientation)
    requires
        orientation_ok(o),
        -MOUSE_LIMIT <= dx <= MOUSE_LIMIT,
        -MOUSE_LIMIT <= dy <= MOUSE_LIMIT,
        0 <= sensitivity <= MAX_CONFIG_SENSITIVITY,
    ensures
        r == if active { looked(o, dx as int, dy as int, sensitivity as int) } else { o },
        orientation_ok(r),
{
    if !active {
        return o;
    }
    assert(-1_000_000_000_000_000 <= dx * sensitivity <= 1_000_000_000_000_000) by (nonlinear_arith)
        requires -MOUSE_LIMIT <= dx <= MOUSE_LIMIT, 0 <= sensitivity <= MAX_CONFIG_SENSITIVITY;
    assert(-1_000_000_000_000_000 <= dy * sensitivity <= 1_000_000_000_000_000) by (nonlinear_arith)
        requires -MOUSE_LIMIT <= dy <= MOUSE_LIMIT, 0 <= sensitivity <= MAX_CONFIG_SENSITIVITY;
    let yaw_delta = div_trunc_exec(-(dx * sensitivity), MOUSE_SCALE);
    let pitch_delta = div_trunc_exec(-(dy * sensitivity), MOUSE_SCALE);
    let yaw = wrap_angle_exec(o.yaw + yaw_delta);
    let pitch = clamp_i64(o.pitch + pitch_delta, -PITCH_LIMIT, PITCH_LIMIT);
    Orientation { yaw, pitch }
}

} // verus!
