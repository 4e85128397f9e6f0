//! Tunables and per-body state of the first-person controller, in fixed-point units:
//! lengths in millimetres, velocities in mm/s, accelerations in mm/s², times in
//! microseconds, angles in microradians and unit-vector components in parts per million.
use vstd::prelude::*;

verus! {

pub const MICROS_PER_SECOND: i64 = 1_000_000;

/// Downward acceleration applied while airborne (mm/s²).
pub const GRAVITY: i64 = 12_000;

/// Extra downward acceleration while the fast-fall modifier is held (1.5 × gravity).
pub const FAST_FALL_GRAVITY: i64 = 18_000;

/// Fastest downward speed an airborne body reaches (mm/s).
pub const TERMINAL_FALL_SPEED: i64 = 25_000;

/// Fastest downward speed kept while grounded (mm/s).
pub const GROUND_ADHESION_SPEED: i64 = 2_000;

/// Upward speed above which a probe hit does not count as ground (mm/s).
pub const RISING_SPEED: i64 = 1_000;

/// Saturation bound of the consecutive-ground-sample counter.
pub const MAX_GROUND_FRAMES: u8 = 3;

/// Consecutive positive samples needed to count as grounded.
pub const GROUNDED_FRAMES: u8 = 2;

/// Value of the jump buffer timer when no press is buffered (µs).
pub const EMPTY_BUFFER: i64 = -1_000_000;

/// Timers decay down to this value and no further (µs); far below any meaningful reading.
pub const TIMER_FLOOR: i64 = -4_000_000_000_000_000_000;

/// Longest tick accepted (µs).
pub const MAX_DT: i64 = 1_000_000;

/// Largest velocity component accepted (mm/s).
pub const SPEED_LIMIT: i64 = 1_000_000_000;

/// Bounds of the configuration values.
pub const MAX_CONFIG_SPEED: i64 = 100_000;
pub const MAX_CONFIG_ACCEL: i64 = 10_000_000;
pub const MAX_CONFIG_TIME: i64 = 10_000_000;
pub const MAX_CONFIG_JUMP_HEIGHT: i64 = 100_000;
pub const MAX_CONFIG_SENSITIVITY: i64 = 1_000_000;
pub const MIN_SKIN_WIDTH: i64 = 20;
pub const MAX_SKIN_WIDTH: i64 = 1_000;
pub const PER_MILLE: i64 = 1_000;
pub const MAX_SLOPE_LIMIT: i64 = 90;

pub open spec fn clamp_int(v: int, lo: int, hi: int) -> int {
    if v < lo { lo } else if v > hi { hi } else { v }
}

pub fn clamp_i64(v: i64, lo: i64, hi: i64) -> (r: i64)
    requires
        lo <= hi,
    ensures
        r == clamp_int(v as int, lo as int, hi as int),
{
    if v < lo { lo } else if v > hi { hi } else { v }
}

/// Tunables of one controller, fixed at spawn.
#[derive(Clone, Copy, Debug)]
pub struct ControllerConfig {
    /// Horizontal speed the input asks for (mm/s).
    pub max_speed: i64,
    /// Look rotation per pixel of mouse motion (µrad).
    pub mouse_sensitivity: i64,
    /// Height a jump reaches under `GRAVITY` (mm).
    pub jump_height: i64,
    /// Grace period after leaving the ground during which a jump is still allowed (µs).
    pub coyote_time: i64,
    /// How long a jump press is remembered (µs).
    pub jump_buffer_time: i64,
    /// Share of the ground acceleration available in the air (per mille).
    pub air_control_factor: i64,
    /// Horizontal acceleration on the ground (mm/s²).
    pub ground_accel: i64,
    /// Least horizontal acceleration in the air (mm/s²).
    pub air_accel: i64,
    /// Steepest walkable incline (degrees).
    pub max_slope_degrees: i64,
    /// Thickness of the ground probe around the capsule's foot (mm).
    pub skin_width: i64,
    /// Jumps allowed per airborne phase beyond the ground or coyote jump.
    pub max_air_jumps: u8,
}

impl ControllerConfig {
    /// Every value lies within its accepted range.
    pub open spec fn wf(&self) -> bool {
        &&& 0 <= self.max_speed <= MAX_CONFIG_SPEED
        &&& 0 <= self.mouse_sensitivity <= MAX_CONFIG_SENSITIVITY
        &&& 0 <= self.jump_height <= MAX_CONFIG_JUMP_HEIGHT
        &&& 0 <= self.coyote_time <= MAX_CONFIG_TIME
        &&& 0 <= self.jump_buffer_time <= MAX_CONFIG_TIME
        &&& 0 <= self.air_control_factor <= PER_MILLE
        &&& 0 <= self.ground_accel <= MAX_CONFIG_ACCEL
        &&& 0 <= self.air_accel <= MAX_CONFIG_ACCEL
        &&& 0 <= self.max_slope_degrees <= MAX_SLOPE_LIMIT
        &&& MIN_SKIN_WIDTH <= self.skin_width <= MAX_SKIN_WIDTH
    }

    /// Builds a configuration, clamping each value into its accepted range.
    pub fn new(
        max_speed: i64,
        mouse_sensitivity: i64,
        jump_height: i64,
        coyote_time: i64,
        jump_buffer_time: i64,
        air_control_factor: i64,
        ground_accel: i64,
        air_accel: i64,
        max_slope_degrees: i64,
        skin_width: i64,
        max_air_jumps: u8,
    ) -> (r: ControllerConfig)
        ensures
            r.wf(),
            r.max_speed == clamp_int(max_speed as int, 0, MAX_CONFIG_SPEED as int),
            r.mouse_sensitivity == clamp_int(mouse_sensitivity as int, 0, MAX_CONFIG_SENSITIVITY as int),
            r.jump_height == clamp_int(jump_height as int, 0, MAX_CONFIG_JUMP_HEIGHT as int),
            r.coyote_time == clamp_int(coyote_time as int, 0, MAX_CONFIG_TIME as int),
            r.jump_buffer_time == clamp_int(jump_buffer_time as int, 0, MAX_CONFIG_TIME as int),
            r.air_control_factor == clamp_int(air_control_factor as int, 0, PER_MILLE as int),
            r.ground_accel == clamp_int(ground_accel as int, 0, MAX_CONFIG_ACCEL as int),
            r.air_accel == clamp_int(air_accel as int, 0, MAX_CONFIG_ACCEL as int),
            r.max_slope_degrees == clamp_int(max_slope_degrees as int, 0, MAX_SLOPE_LIMIT as int),
            r.skin_width == clamp_int(skin_width as int, MIN_SKIN_WIDTH as int, MAX_SKIN_WIDTH as int),
            r.max_air_jumps == max_air_jumps,
    {
        ControllerConfig {
            max_speed: clamp_i64(max_speed, 0, MAX_CONFIG_SPEED),
            mouse_sensitivity: clamp_i64(mouse_sensitivity, 0, MAX_CONFIG_SENSITIVITY),
            jump_height: clamp_i64(jump_height, 0, MAX_CONFIG_JUMP_HEIGHT),
            coyote_time: clamp_i64(coyote_time, 0, MAX_CONFIG_TIME),
            jump_buffer_time: clamp_i64(jump_buffer_time, 0, MAX_CONFIG_TIME),
            air_control_factor: clamp_i64(air_control_factor, 0, PER_MILLE),
            ground_accel: clamp_i64(ground_accel, 0, MAX_CONFIG_ACCEL),
            air_accel: clamp_i64(air_accel, 0, MAX_CONFIG_ACCEL),
            max_slope_degrees: clamp_i64(max_slope_degrees, 0, MAX_SLOPE_LIMIT),
            skin_width: clamp_i64(skin_width, MIN_SKIN_WIDTH, MAX_SKIN_WIDTH),
            max_air_jumps,
        }
    }
}

/// The standard tunables: 8 m/s, 2 mrad per pixel, 1.8 m jumps, 0.12 s of coyote time and
/// of jump buffering, 45% air control, 50 m/s² on the ground and 15 m/s² in the air, 50°
/// slopes, a 6 cm probe skin and no air jumps.
pub open spec fn default_config() -> ControllerConfig {
    ControllerConfig {
        max_speed: 8_000,
        mouse_sensitivity: 2_000,
        jump_height: 1_800,
        coyote_time: 120_000,
        jump_buffer_time: 120_000,
        air_control_factor: 450,
        ground_accel: 50_000,
        air_accel: 15_000,
        max_slope_degrees: 50,
        skin_width: 60,
        max_air_jumps: 0,
    }
}

impl Default for ControllerConfig {
    fn default() -> (r: ControllerConfig)
        ensures
            r.wf(),
            r == default_config(),
    {
        ControllerConfig {
            max_speed: 8_000,
            mouse_sensitivity: 2_000,
            jump_height: 1_800,
            coyote_time: 120_000,
            jump_buffer_time: 120_000,
            air_control_factor: 450,
            ground_accel: 50_000,
            air_accel: 15_000,
            max_slope_degrees: 50,
            skin_width: 60,
            max_air_jumps: 0,
        }
    }
}

/// Mutable per-body state of the controller.
#[derive(Clone, Copy, Debug)]
pub struct ControllerState {
    pub enabled: bool,
    pub is_grounded: bool,
    /// Consecutive positive ground samples, saturating at `MAX_GROUND_FRAMES`.
    pub ground_frames: u8,
    /// Remaining coyote time (µs); a jump off the ledge is allowed while positive.
    pub coyote_timer: i64,
    /// Remaining life of a buffered jump press (µs); negative when nothing is buffered.
    pub jump_buffer_timer: i64,
    /// The jump key has been released since the last jump.
    pub jump_was_released: bool,
    /// Set when a jump executes, cleared when the body is stably grounded again.
    pub jump_locked: bool,
    /// Air jumps spent in the current airborne phase.
    pub used_air_jumps: u8,
}

impl ControllerState {
    /// The invariants that hold at the end of every tick.
    pub open spec fn wf(&self, cfg: ControllerConfig) -> bool {
        &&& self.ground_frames <= MAX_GROUND_FRAMES
        &&& self.is_grounded == (self.ground_frames >= GROUNDED_FRAMES)
        &&& TIMER_FLOOR <= self.coyote_timer <= cfg.coyote_time
        &&& TIMER_FLOOR <= self.jump_buffer_timer <= cfg.jump_buffer_time
        &&& self.used_air_jumps <= cfg.max_air_jumps
    }

    /// The state of a freshly spawned body: airborne, nothing buffered, no jump spent.
    pub open spec fn new_spec() -> ControllerState {
        ControllerState {
            enabled: true,
            is_grounded: false,
            ground_frames: 0,
            coyote_timer: 0,
            jump_buffer_timer: EMPTY_BUFFER,
            jump_was_released: true,
            jump_locked: false,
            used_air_jumps: 0,
        }
    }

    pub fn new() -> (r: ControllerState)
        ensures
            r == ControllerState::new_spec(),
            forall|cfg: ControllerConfig| cfg.wf() ==> r.wf(cfg),
    {
        ControllerState {
            enabled: true,
            is_grounded: false,
            ground_frames: 0,
            coyote_timer: 0,
            jump_buffer_timer: EMPTY_BUFFER,
            jump_was_released: true,
            jump_locked: false,
            used_air_jumps: 0,
        }
    }
}

} // verus!
