//! The robot's own behavior logic.
//!
//! The embedding program wires the hardware together (motor controllers,
//! the driver-station poll thread, the mode-manager loop) and implements
//! the per-mode behaviors on top of it. The teleop behavior's whole
//! decision — one controller snapshot in, one drive command out — lives
//! here, so the loop around it only awaits fresh snapshots and forwards
//! the command to the drivebase.

use crate::fixed::{abs_i64, abs_of, clamp_unit, clamped, div_nonneg, with_sign_of, UNIT};
use crate::state::ds::ControllerState;
use crate::subsystems::drivebase::MotorSpeed;
use vstd::prelude::*;

verus! {

/// The value of axis `n`, with an unreported axis reading as centered.
pub open spec fn axis_or_zero(input: &ControllerState, n: int) -> int {
    if n < input.axis_count() {
        input.axis_at(n)
    } else {
        0
    }
}

/// Whether button `n` is held, with an unreported button reading as
/// released.
pub open spec fn held_or_released(input: &ControllerState, n: int) -> bool {
    n < input.button_count() && input.button_at(n)
}

/// An input at half strength when driving slow, unchanged otherwise.
pub open spec fn slow_scaled(v: int, slow: bool) -> int {
    if slow {
        with_sign_of(v, abs_of(v) / 2)
    } else {
        v
    }
}

/// The teleop drive command for one controller snapshot: axis 0 is the
/// forward input and axis 1 the rotation input, each saturated to the
/// legal band and halved while button 0 (drive slow) is held.
pub fn teleop_drive_command(input: &ControllerState) -> (r: (MotorSpeed, MotorSpeed))
    ensures
        r.0@ == slow_scaled(clamped(axis_or_zero(input, 0)), held_or_released(input, 0)),
        r.1@ == slow_scaled(clamped(axis_or_zero(input, 1)), held_or_released(input, 0)),
{
    let forward = match input.axis(0) {
        Some(v) => v,
        None => 0,
    };
    let rotation = match input.axis(1) {
        Some(v) => v,
        None => 0,
    };
    let slow = match input.button(0) {
        Some(held) => held,
        None => false,
    };
    (
        MotorSpeed::new_clamped(slow_scale(clamp_unit(forward), slow)),
        MotorSpeed::new_clamped(slow_scale(clamp_unit(rotation), slow)),
    )
}

/// Halves a raw scalar toward zero when driving slow.
fn slow_scale(v: i64, slow: bool) -> (r: i64)
    requires
        -UNIT <= v <= UNIT,
    ensures
        r == slow_scaled(v as int, slow),
        -UNIT <= r <= UNIT,
{
    if slow {
        let m = abs_i64(v);
        let half = div_nonneg(m, 2);
        if v < 0 {
            -half
        } else {
            half
        }
    } else {
        v
    }
}

} // verus!
