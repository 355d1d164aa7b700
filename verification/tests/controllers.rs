use robot_core::joystick::{
    Joystick, JoystickAxis, JoystickButton, JoystickError, JoystickPOV, JoystickPort,
};
use robot_core::notifier::alarm_tick;
use robot_core::robot::teleop_drive_command;
use robot_core::state::ds::{
    ControllerAxes, ControllerButtons, ControllerPOVs, ControllerState,
};

fn pad(axis0: i64, axis1: i64, buttons: u32, button_count: u8) -> ControllerState {
    let mut axes = vec![0i64; 12];
    axes[0] = axis0;
    axes[1] = axis1;
    ControllerState::new(
        ControllerAxes::new(3, axes),
        ControllerPOVs::new(1, vec![-1i16; 12]),
        ControllerButtons::new(button_count, buttons),
    )
}

#[test]
fn axes_accessor_is_bounds_checked() {
    let mut slots = vec![0i64; 12];
    slots[0] = -7;
    slots[1] = 9;
    let axes = ControllerAxes::new(2, slots);
    assert_eq!(axes.get(0), Some(-7));
    assert_eq!(axes.get(1), Some(9));
    assert_eq!(axes.get(2), None);
    assert_eq!(axes.get(200), None);
}

#[test]
fn povs_accessor_is_bounds_checked() {
    let mut slots = vec![-1i16; 12];
    slots[0] = 90;
    let povs = ControllerPOVs::new(1, slots);
    assert_eq!(povs.get(0), Some(90));
    assert_eq!(povs.get(1), None);
}

#[test]
fn buttons_accessor_reads_single_bits() {
    let buttons = ControllerButtons::new(4, 0b1010);
    assert_eq!(buttons.get(0), Some(false));
    assert_eq!(buttons.get(1), Some(true));
    assert_eq!(buttons.get(2), Some(false));
    assert_eq!(buttons.get(3), Some(true));
    assert_eq!(buttons.get(4), None);
}

#[test]
fn state_accessors_delegate_to_parts() {
    let s = pad(11, -22, 0b1, 1);
    assert_eq!(s.axis(0), Some(11));
    assert_eq!(s.axis(1), Some(-22));
    assert_eq!(s.axis(3), None);
    assert_eq!(s.pov(0), Some(-1));
    assert_eq!(s.pov(1), None);
    assert_eq!(s.button(0), Some(true));
    assert_eq!(s.button(1), None);
}

#[test]
fn snapshots_compare_by_data() {
    let a = pad(1, 2, 0b11, 2);
    let b = pad(1, 2, 0b11, 2);
    let c = pad(1, 3, 0b11, 2);
    assert!(a.same_as(&b));
    assert!(!a.same_as(&c));
}

#[test]
fn teleop_command_drives_full_speed_by_default() {
    let cmd = teleop_drive_command(&pad(600_000, -400_000, 0, 1));
    assert_eq!(cmd.0.get(), 600_000);
    assert_eq!(cmd.1.get(), -400_000);
}

#[test]
fn teleop_command_halves_while_drive_slow_held() {
    let cmd = teleop_drive_command(&pad(600_000, -400_000, 0b1, 1));
    assert_eq!(cmd.0.get(), 300_000);
    assert_eq!(cmd.1.get(), -200_000);
}

#[test]
fn teleop_command_reads_missing_controls_as_centered() {
    let empty = ControllerState::new(
        ControllerAxes::new(0, vec![0i64; 12]),
        ControllerPOVs::new(0, vec![0i16; 12]),
        ControllerButtons::new(0, 0),
    );
    let cmd = teleop_drive_command(&empty);
    assert_eq!(cmd.0.get(), 0);
    assert_eq!(cmd.1.get(), 0);
}

#[test]
fn teleop_command_saturates_wild_axes() {
    let cmd = teleop_drive_command(&pad(5_000_000, -5_000_000, 0, 1));
    assert_eq!(cmd.0.get(), 1_000_000);
    assert_eq!(cmd.1.get(), -1_000_000);
}

#[test]
fn joystick_port_rejects_numbers_beyond_the_station() {
    assert!(JoystickPort::new(0).is_ok());
    assert_eq!(JoystickPort::new(5).unwrap().get(), 5);
    assert_eq!(JoystickPort::new(6).unwrap_err(), JoystickError::PortDoesNotExist);
    assert_eq!(JoystickPort::new(255).unwrap_err(), JoystickError::PortDoesNotExist);
}

#[test]
fn joystick_button_numbers_any_u8() {
    assert_eq!(JoystickButton::new(0).unwrap().get(), 0);
    assert_eq!(JoystickButton::new(255).unwrap().get(), 255);
}

#[test]
fn joystick_answers_from_fresh_snapshots() {
    let port = JoystickPort::new(1).unwrap();
    let mut stick = Joystick::new(port);
    assert_eq!(stick.port_number(), 1);

    let buttons = ControllerButtons::new(2, 0b10);
    let b0 = JoystickButton::new(0).unwrap();
    let b1 = JoystickButton::new(1).unwrap();
    let b9 = JoystickButton::new(9).unwrap();
    assert_eq!(stick.get_button_pressed(b0, ControllerButtons::new(2, 0b10)), Ok(false));
    assert_eq!(stick.get_button_pressed(b1, buttons), Ok(true));
    assert_eq!(
        stick.get_button_pressed(b9, ControllerButtons::new(2, 0b10)),
        Err(JoystickError::ButtonUnplugged)
    );

    let mut axes = vec![0i64; 12];
    axes[2] = -123_456;
    assert_eq!(stick.get_stick_axis(JoystickAxis::Axis2, ControllerAxes::new(3, axes)), Ok(-123_456));
    assert_eq!(
        stick.get_stick_axis(JoystickAxis::Axis5, ControllerAxes::new(3, vec![0i64; 12])),
        Err(JoystickError::AxisUnplugged)
    );

    let mut povs = vec![-1i16; 12];
    povs[0] = 270;
    assert_eq!(stick.get_stick_pov(JoystickPOV::Pov0, ControllerPOVs::new(1, povs)), Ok(270));
    assert_eq!(
        stick.get_stick_pov(JoystickPOV::Pov3, ControllerPOVs::new(1, vec![-1i16; 12])),
        Err(JoystickError::PovUnplugged)
    );
}

#[test]
fn alarm_tick_rearms_one_period_later() {
    assert_eq!(alarm_tick(1_000_000, 20_000), Some(1_020_000));
    assert_eq!(alarm_tick(1, 0), Some(1));
}

#[test]
fn alarm_tick_stops_on_zero_timestamp() {
    assert_eq!(alarm_tick(0, 20_000), None);
}
