//! State distribution and mode dispatch.
//!
//! [`ds`] derives the robot's operating mode and controller snapshots from
//! polled hardware flags and republishes only changes; [`channel`] is the
//! single-slot latest-value broadcast primitive the distribution rides on;
//! [`manager`] decides which behavior runs for each mode and how a running
//! behavior is preempted.

pub mod channel;
pub mod ds;
pub mod manager;
