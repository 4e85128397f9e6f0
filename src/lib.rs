//! A first-person movement controller in fixed-point arithmetic: ground probing with
//! hysteresis, jump buffering and coyote time, air-jump and re-jump locks, ground and air
//! acceleration, gravity with a terminal speed, and mouse look.
pub mod controller;
pub mod fixed;
pub mod fps_controller;
pub mod ground;
pub mod jump;
pub mod laws;
pub mod look;
pub mod motion;
