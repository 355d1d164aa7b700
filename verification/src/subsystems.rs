//! Robot subsystems: shared actuators and the validated values fed to them.
//!
//! The mutual-exclusion wrapper that guards a subsystem between concurrent
//! tasks lives in the embedding program; the drive kinematics and the
//! validated motor-speed scalar live here, in [`drivebase`].

pub mod drivebase;
