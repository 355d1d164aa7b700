//! Runtime core for a differential-drive competition robot.
//!
//! The crate turns a periodically polled hardware state (enable/mode flags,
//! gamepad axes, buttons and POV hats) into dispatched, cancellable
//! application behavior, and turns high-level drive commands into safe
//! per-side motor outputs.
//!
//! All control-surface values are carried as fixed-point integers: a raw
//! value of [`fixed::UNIT`] stands for `1.0`, `-UNIT` for `-1.0`. The
//! hardware layer converts to and from the driver station's floating-point
//! representation at the process boundary; everything inside the crate is
//! exact integer arithmetic with proved bounds.

pub mod drivebase;
pub mod fixed;
pub mod joystick;
pub mod notifier;
pub mod robot;
pub mod state;
pub mod subsystems;
