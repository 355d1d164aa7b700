//! Direct joystick access: validated port, button, axis and POV handles,
//! and a per-stick reader over freshly polled snapshots.
//!
//! The driver station supports a fixed number of joystick ports; a port
//! handle can only be built for one of them. The reader keeps the last
//! snapshot of each part, so a caller holding a [`Joystick`] can ask for a
//! single button, axis or POV and get a port-shaped error instead of a
//! crash when the controller reports fewer of them.

use crate::state::ds::{ControllerAxes, ControllerButtons, ControllerPOVs};
use vstd::prelude::*;

verus! {

/// How many joystick ports the driver station offers.
pub const MAX_JOYSTICK_PORTS: u8 = 6;

/// What can go wrong asking a joystick for data.
#[derive(Copy, Clone, Debug, PartialEq, Eq, Hash)]
pub enum JoystickError {
    PortDoesNotExist,
    ButtonUnplugged,
    AxisUnplugged,
    AxisDoesNotExist,
    PovDoesNotExist,
    PovUnplugged,
}

/// A validated joystick port number.
#[derive(Copy, Clone, Debug)]
pub struct JoystickPort(i32);

impl JoystickPort {
    /// Port numbers stay inside the driver station's port range.
    #[verifier::type_invariant]
    pub closed spec fn wf(self) -> bool {
        0 <= self.0 < MAX_JOYSTICK_PORTS
    }

    /// The port number.
    pub closed spec fn port_spec(&self) -> int {
        self.0 as int
    }

    /// A port handle, or `PortDoesNotExist` for a number beyond the
    /// driver station's port range.
    pub fn new(port: u8) -> (r: Result<JoystickPort, JoystickError>)
        ensures
            r is Ok <==> port < MAX_JOYSTICK_PORTS,
            r is Ok ==> r.unwrap().port_spec() == port,
            r is Err ==> r == Err::<JoystickPort, JoystickError>(JoystickError::PortDoesNotExist),
    {
        if port >= MAX_JOYSTICK_PORTS {
            return Err(JoystickError::PortDoesNotExist);
        }
        Ok(JoystickPort(port as i32))
    }

    /// The port number, for the hardware read.
    pub fn get(&self) -> (r: i32)
        ensures
            r == self.port_spec(),
            0 <= r < MAX_JOYSTICK_PORTS,
    {
        proof {
            use_type_invariant(&*self);
        }
        self.0
    }
}

/// A button number on a joystick.
#[derive(Copy, Clone, Debug)]
pub struct JoystickButton(i32);

impl JoystickButton {
    /// Button numbers come from a `u8` and stay nonnegative.
    #[verifier::type_invariant]
    pub closed spec fn wf(self) -> bool {
        0 <= self.0 <= 255
    }

    /// The button number.
    pub closed spec fn button_spec(&self) -> int {
        self.0 as int
    }

    /// A button handle; any `u8` numbers a button.
    pub fn new(button: u8) -> (r: Result<JoystickButton, JoystickError>)
        ensures
            r is Ok,
            r.unwrap().button_spec() == button,
    {
        Ok(JoystickButton(button as i32))
    }

    /// The button number.
    pub fn get(&self) -> (r: i32)
        ensures
            r == self.button_spec(),
            0 <= r <= 255,
    {
        proof {
            use_type_invariant(&*self);
        }
        self.0
    }
}

/// One of the POV (D-pad) slots a controller can report.
#[derive(Copy, Clone, Debug)]
pub enum JoystickPOV {
    Pov0,
    Pov1,
    Pov2,
    Pov3,
    Pov4,
    Pov5,
    Pov6,
    Pov7,
    Pov8,
    Pov9,
    Pov10,
    Pov11,
    Pov12,
}

impl JoystickPOV {
    /// The slot number of this POV.
    pub open spec fn index_spec(&self) -> int {
        match self {
            JoystickPOV::Pov0 => 0,
            JoystickPOV::Pov1 => 1,
            JoystickPOV::Pov2 => 2,
            JoystickPOV::Pov3 => 3,
            JoystickPOV::Pov4 => 4,
            JoystickPOV::Pov5 => 5,
            JoystickPOV::Pov6 => 6,
            JoystickPOV::Pov7 => 7,
            JoystickPOV::Pov8 => 8,
            JoystickPOV::Pov9 => 9,
            JoystickPOV::Pov10 => 10,
            JoystickPOV::Pov11 => 11,
            JoystickPOV::Pov12 => 12,
        }
    }

    /// The slot number of this POV.
    pub fn index(&self) -> (r: u8)
        ensures
            r == self.index_spec(),
            r <= 12,
    {
        match self {
            JoystickPOV::Pov0 => 0,
            JoystickPOV::Pov1 => 1,
            JoystickPOV::Pov2 => 2,
            JoystickPOV::Pov3 => 3,
            JoystickPOV::Pov4 => 4,
            JoystickPOV::Pov5 => 5,
            JoystickPOV::Pov6 => 6,
            JoystickPOV::Pov7 => 7,
            JoystickPOV::Pov8 => 8,
            JoystickPOV::Pov9 => 9,
            JoystickPOV::Pov10 => 10,
            JoystickPOV::Pov11 => 11,
            JoystickPOV::Pov12 => 12,
        }
    }
}

/// One of the axis slots a controller can report.
#[derive(Copy, Clone, Debug)]
pub enum JoystickAxis {
    Axis0,
    Axis1,
    Axis2,
    Axis3,
    Axis4,
    Axis5,
    Axis6,
    Axis7,
    Axis8,
    Axis9,
    Axis10,
    Axis11,
    Axis12,
}

impl JoystickAxis {
    /// The slot number of this axis.
    pub open spec fn index_spec(&self) -> int {
        match self {
            JoystickAxis::Axis0 => 0,
            JoystickAxis::Axis1 => 1,
            JoystickAxis::Axis2 => 2,
            JoystickAxis::Axis3 => 3,
            JoystickAxis::Axis4 => 4,
            JoystickAxis::Axis5 => 5,
            JoystickAxis::Axis6 => 6,
            JoystickAxis::Axis7 => 7,
            JoystickAxis::Axis8 => 8,
            JoystickAxis::Axis9 => 9,
            JoystickAxis::Axis10 => 10,
            JoystickAxis::Axis11 => 11,
            JoystickAxis::Axis12 => 12,
        }
    }

    /// The slot number of this axis.
    pub fn index(&self) -> (r: u8)
        ensures
            r == self.index_spec(),
            r <= 12,
    {
        match self {
            JoystickAxis::Axis0 => 0,
            JoystickAxis::Axis1 => 1,
            JoystickAxis::Axis2 => 2,
            JoystickAxis::Axis3 => 3,
            JoystickAxis::Axis4 => 4,
            JoystickAxis::Axis5 => 5,
            JoystickAxis::Axis6 => 6,
            JoystickAxis::Axis7 => 7,
            JoystickAxis::Axis8 => 8,
            JoystickAxis::Axis9 => 9,
            JoystickAxis::Axis10 => 10,
            JoystickAxis::Axis11 => 11,
            JoystickAxis::Axis12 => 12,
        }
    }
}

/// A reader over one joystick port: the port handle and the last snapshot
/// of each part. The embedding program reads the hardware and hands the
/// fresh snapshots in; the reader keeps them and answers single-control
/// questions from them.
pub struct Joystick {
    port: JoystickPort,
    buttons: ControllerButtons,
    axes: ControllerAxes,
    povs: ControllerPOVs,
}

impl Joystick {
    /// The port this reader watches.
    pub closed spec fn port_spec(&self) -> int {
        self.port.port_spec()
    }

    /// A reader for `port`, holding empty snapshots until the first read.
    pub fn new(port: JoystickPort) -> (r: Joystick)
        ensures
            r.port_spec() == port.port_spec(),
    {
        Joystick {
            port,
            buttons: ControllerButtons::empty(),
            axes: ControllerAxes::empty(),
            povs: ControllerPOVs::empty(),
        }
    }

    /// The port number for the hardware reads.
    pub fn port_number(&self) -> (r: i32)
        ensures
            r == self.port_spec(),
    {
        self.port.get()
    }

    /// Answers whether `button` is held from the freshly read button
    /// snapshot, keeping the snapshot; a button the controller does not
    /// report answers `ButtonUnplugged`.
    pub fn get_button_pressed(&mut self, button: JoystickButton, fresh: ControllerButtons) -> (r:
        Result<bool, JoystickError>)
        ensures
            final(self).port_spec() == old(self).port_spec(),
            r is Ok <==> button.button_spec() < fresh.button_count(),
            r is Ok ==> r.unwrap() == fresh.button_at(button.button_spec()),
            r is Err ==> r == Err::<bool, JoystickError>(JoystickError::ButtonUnplugged),
    {
        self.buttons = fresh;
        let n = button.get();
        match self.buttons.get(n as u8) {
            Some(held) => Ok(held),
            None => Err(JoystickError::ButtonUnplugged),
        }
    }

    /// Answers the value of `axis` from the freshly read axis snapshot,
    /// keeping the snapshot; an axis the controller does not report
    /// answers `AxisUnplugged`.
    pub fn get_stick_axis(&mut self, axis: JoystickAxis, fresh: ControllerAxes) -> (r: Result<
        i64,
        JoystickError,
    >)
        ensures
            final(self).port_spec() == old(self).port_spec(),
            r is Ok <==> axis.index_spec() < fresh.axis_count(),
            r is Ok ==> r.unwrap() == fresh.axis_at(axis.index_spec()),
            r is Err ==> r == Err::<i64, JoystickError>(JoystickError::AxisUnplugged),
    {
        self.axes = fresh;
        match self.axes.get(axis.index()) {
            Some(v) => Ok(v),
            None => Err(JoystickError::AxisUnplugged),
        }
    }

    /// Answers the heading of `pov` from the freshly read POV snapshot,
    /// keeping the snapshot; a POV the controller does not report answers
    /// `PovUnplugged`.
    pub fn get_stick_pov(&mut self, pov: JoystickPOV, fresh: ControllerPOVs) -> (r: Result<
        i16,
        JoystickError,
    >)
        ensures
            final(self).port_spec() == old(self).port_spec(),
            r is Ok <==> pov.index_spec() < fresh.pov_count(),
            r is Ok ==> r.unwrap() == fresh.pov_at(pov.index_spec()),
            r is Err ==> r == Err::<i16, JoystickError>(JoystickError::PovUnplugged),
    {
        self.povs = fresh;
        match self.povs.get(pov.index()) {
            Some(v) => Ok(v),
            None => Err(JoystickError::PovUnplugged),
        }
    }
}

} // verus!
