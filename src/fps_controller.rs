//! One controlled body: its tunables and state, and the per-tick update in its fixed order
//! (look, then movement and jump, then the ground filter).
use vstd::prelude::*;
use crate::controller::{ControllerConfig, ControllerState, MAX_DT};
use crate::ground::{after_ground_sample, decay_timer, decayed, ground_step, positive_sample};
use crate::jump::{after_jump, after_jump_key, jump_allowed, jump_speed, read_jump_key, takeoff_speed, try_jump, JumpKey};
use crate::look::{apply_look, orientation_ok, looked, Orientation, MOUSE_LIMIT};
use crate::motion::{
    heading_ok, horizontal_exec, horizontal_step, velocity_ok, vertical_exec, vertical_step,
    wish_velocity, wish_velocity_exec, Heading, MoveKeys, Velocity,
};

verus! {

/// Whether the cursor is captured by the window; looking around needs it captured.
#[derive(Clone, Copy, Debug)]
pub struct CursorLocked(pub bool);

impl CursorLocked {
    /// The lock after this tick's toggle key: each press flips it.
    pub fn after_toggle(self, toggle_pressed: bool) -> (r: CursorLocked)
        ensures
            r.0 == if toggle_pressed { !self.0 } else { self.0 },
    {
        if toggle_pressed { CursorLocked(!self.0) } else { self }
    }
}

/// Everything the player did during one tick.
#[derive(Clone, Copy, Debug)]
pub struct InputFrame {
    pub keys: MoveKeys,
    pub jump: JumpKey,
    /// Mouse motion since the last tick (thousandths of a pixel).
    pub mouse_dx: i64,
    pub mouse_dy: i64,
}

pub open spec fn input_ok(i: InputFrame) -> bool {
    -MOUSE_LIMIT <= i.mouse_dx <= MOUSE_LIMIT && -MOUSE_LIMIT <= i.mouse_dy <= MOUSE_LIMIT
}

/// Controller state after the movement step. A disabled controller only lets its jump
/// buffer decay.
pub open spec fn moved_state(s: ControllerState, cfg: ControllerConfig, jump: JumpKey, dt: i64) -> ControllerState {
    if !s.enabled {
        ControllerState { jump_buffer_timer: decayed(s.jump_buffer_timer, dt), ..s }
    } else {
        let s1 = after_jump_key(s, cfg, jump, dt);
        if jump_allowed(s1, cfg) { after_jump(s1) } else { s1 }
    }
}

/// Whether the movement step executes a jump.
pub open spec fn jumps(s: ControllerState, cfg: ControllerConfig, jump: JumpKey, dt: i64) -> bool {
    s.enabled && jump_allowed(after_jump_key(s, cfg, jump, dt), cfg)
}

/// Velocity after the movement step: horizontal acceleration toward the wish velocity, the
/// take-off speed if a jump executes, then gravity or adhesion. A disabled controller leaves
/// the velocity alone.
pub open spec fn moved_velocity(
    s: ControllerState,
    cfg: ControllerConfig,
    v: Velocity,
    input: InputFrame,
    heading: Heading,
    dt: i64,
) -> Velocity {
    if !s.enabled {
        v
    } else {
        let h = horizontal_step(
            v.x as int,
            v.z as int,
            wish_velocity(cfg, input.keys, heading),
            cfg,
            s.is_grounded,
            dt as int,
        );
        let vy = if jumps(s, cfg, input.jump, dt) { jump_speed(cfg.jump_height as int) } else { v.y as int };
        Velocity {
            x: h.0 as i64,
            y: vertical_step(vy, s.is_grounded, input.keys.fast_fall, dt as int) as i64,
            z: h.1 as i64,
        }
    }
}

/// A controlled body's tunables and state.
#[derive(Clone, Copy, Debug)]
pub struct FpsController {
    pub config: ControllerConfig,
    pub state: ControllerState,
}

impl FpsController {
    pub open spec fn wf(&self) -> bool {
        self.config.wf() && self.state.wf(self.config)
    }

    /// A controller for a freshly spawned body.
    pub fn new(config: ControllerConfig) -> (r: FpsController)
        requires
            config.wf(),
        ensures
            r.wf(),
            r.config == config,
            r.state == ControllerState::new_spec(),
    {
        FpsController { config, state: ControllerState::new() }
    }

    /// Applies this tick's mouse motion to the body's orientation, if the controls are enabled
    /// and the cursor is captured.
    pub fn look(&self, o: Orientation, input: &InputFrame, cursor: CursorLocked) -> (r: Orientation)
        requires
            self.wf(),
            orientation_ok(o),
            input_ok(*input),
        ensures
            r == if self.state.enabled && cursor.0 {
                looked(o, input.mouse_dx as int, input.mouse_dy as int, self.config.mouse_sensitivity as int)
            } else {
                o
            },
            orientation_ok(r),
    {
        apply_look(o, input.mouse_dx, input.mouse_dy, self.config.mouse_sensitivity, self.state.enabled && cursor.0)
    }

    /// The movement step: reads the jump key, accelerates horizontally toward the wish
    /// velocity, executes a jump if one is allowed, and applies gravity or adhesion.
    pub fn move_step(&mut self, v: &mut Velocity, input: &InputFrame, heading: Heading, dt: i64)
        requires
            old(self).wf(),
            velocity_ok(*old(v)),
            heading_ok(heading),
            0 <= dt <= MAX_DT,
        ensures
            final(self).config == old(self).config,
            final(self).state == moved_state(old(self).state, old(self).config, input.jump, dt),
            *final(v) == moved_velocity(old(self).state, old(self).config, *old(v), *input, heading, dt),
            final(self).wf(),
            velocity_ok(*final(v)),
    {
        if !self.state.enabled {
            self.state.jump_buffer_timer = decay_timer(self.state.jump_buffer_timer, dt);
            return;
        }
        let grounded = self.state.is_grounded;
        read_jump_key(&mut self.state, &self.config, input.jump, dt);
        let target = wish_velocity_exec(&self.config, input.keys, heading);
        let h = horizontal_exec(v.x, v.z, target, &self.config, grounded, dt);
        v.x = h.0;
        v.z = h.1;
        if try_jump(&mut self.state, &self.config) {
            v.y = takeoff_speed(self.config.jump_height);
        }
        v.y = vertical_exec(v.y, grounded, input.keys.fast_fall, dt);
    }

    /// The ground filter's step: takes one probe result (whether it found walkable ground)
    /// and the body's vertical velocity, if it has one.
    pub fn check_grounded(&mut self, walkable: bool, vertical_velocity: Option<i64>, dt: i64)
        requires
            old(self).wf(),
            0 <= dt <= MAX_DT,
        ensures
            final(self).config == old(self).config,
            final(self).state == after_ground_sample(
                old(self).state,
                old(self).config,
                positive_sample(walkable, vertical_velocity),
                dt,
            ),
            final(self).wf(),
    {
        ground_step(&mut self.state, &self.config, walkable, vertical_velocity, dt);
    }

    /// One tick after the look step: movement and jump, then the ground filter fed with the
    /// probe taken before this tick's movement and the velocity after it.
    pub fn update(&mut self, v: &mut Velocity, input: &InputFrame, heading: Heading, walkable: bool, dt: i64)
        requires
            old(self).wf(),
            velocity_ok(*old(v)),
            heading_ok(heading),
            0 <= dt <= MAX_DT,
        ensures
            final(self).config == old(self).config,
            *final(v) == moved_velocity(old(self).state, old(self).config, *old(v), *input, heading, dt),
            final(self).state == after_ground_sample(
                moved_state(old(self).state, old(self).config, input.jump, dt),
                old(self).config,
                positive_sample(walkable, Some(final(v).y)),
                dt,
            ),
            final(self).wf(),
            velocity_ok(*final(v)),
    {
        self.move_step(v, input, heading, dt);
        self.check_grounded(walkable, Some(v.y), dt);
    }
}

impl Default for FpsController {
    fn default() -> (r: FpsController)
        ensures
            r.wf(),
            r.config == crate::controller::default_config(),
            r.state == ControllerState::new_spec(),
    {
        FpsController { config: ControllerConfig::default(), state: ControllerState::new() }
    }
}

} // verus!
