use robot_core::state::channel::{ControllerChannel, ModeChannel};
use robot_core::state::ds::{
    controller_from_reads, ControllerAxes, ControllerButtons, ControllerPOVs, ControllerState,
    DriverStation, RobotMode,
};
use robot_core::state::manager::{Dispatch, Manager, ManagerEvent, ManagerOutcome};

fn snapshot(axis0: i64, buttons: u32) -> ControllerState {
    let mut axes = vec![0i64; 12];
    axes[0] = axis0;
    ControllerState::new(
        ControllerAxes::new(2, axes),
        ControllerPOVs::new(1, vec![0i16; 12]),
        ControllerButtons::new(8, buttons),
    )
}

#[test]
fn mode_precedence_enabled_dominates_estop() {
    // An enabled, e-stopped control word still reads as a driving mode:
    // deliberate precedence.
    assert_eq!(RobotMode::from_flags(true, true, true), RobotMode::Autonomous);
    assert_eq!(RobotMode::from_flags(true, false, true), RobotMode::Teleop);
    assert_eq!(RobotMode::from_flags(false, false, true), RobotMode::EStop);
    assert_eq!(RobotMode::from_flags(false, true, true), RobotMode::EStop);
    assert_eq!(RobotMode::from_flags(false, true, false), RobotMode::Disabled);
    assert_eq!(RobotMode::from_flags(false, false, false), RobotMode::Disabled);
}

#[test]
fn mode_channel_coalesces_equal_writes() {
    let mut ch = ModeChannel::new(RobotMode::Disabled);
    let rec = ch.subscribe();
    assert!(!rec.has_changed(&ch));
    // A write of the value already published wakes nobody.
    assert!(!ch.send(RobotMode::Disabled));
    assert!(!rec.has_changed(&ch));
    // A genuinely new value wakes the receiver.
    assert!(ch.send(RobotMode::Teleop));
    assert!(rec.has_changed(&ch));
}

#[test]
fn mode_channel_latest_value_wins() {
    let mut ch = ModeChannel::new(RobotMode::Disabled);
    let mut rec = ch.subscribe();
    assert!(ch.send(RobotMode::Autonomous));
    assert!(ch.send(RobotMode::Teleop));
    // The reader missed Autonomous and only ever observes the latest.
    assert_eq!(rec.borrow_and_update(&ch), RobotMode::Teleop);
    assert!(!rec.has_changed(&ch));
}

#[test]
fn controller_channel_coalesces_equal_snapshots() {
    let mut ch = ControllerChannel::new(None);
    let rec = ch.subscribe();
    assert!(ch.send(Some(snapshot(100, 3))));
    let rec2 = ch.subscribe();
    // The same snapshot data again: skipped, nobody woken.
    assert!(!ch.send(Some(snapshot(100, 3))));
    assert!(!rec2.has_changed(&ch));
    // Different data publishes.
    assert!(ch.send(Some(snapshot(200, 3))));
    assert!(rec2.has_changed(&ch));
    assert!(rec.has_changed(&ch));
}

#[test]
fn controller_channel_absence_only_agrees_with_absence() {
    let mut ch = ControllerChannel::new(None);
    assert!(!ch.send(None));
    assert!(ch.send(Some(snapshot(0, 0))));
    assert!(ch.send(None));
}

#[test]
fn driver_station_publishes_only_changes() {
    let mut ds = DriverStation::new(2);
    let mode_rec = ds.get_state_receiver();
    let pad_rec = ds.get_controller_receiver(0);

    let o = ds.poll(RobotMode::Teleop, vec![Some(snapshot(100, 1)), None]);
    assert!(o.mode_published);
    assert_eq!(o.controllers_published, vec![true, false]);
    assert!(mode_rec.has_changed(ds.mode_slot()));
    assert!(pad_rec.has_changed(ds.controller_slot(0)));

    // The same observation again: nothing goes out.
    let o2 = ds.poll(RobotMode::Teleop, vec![Some(snapshot(100, 1)), None]);
    assert!(!o2.mode_published);
    assert_eq!(o2.controllers_published, vec![false, false]);

    // One axis moves on port 0: only that port publishes.
    let o3 = ds.poll(RobotMode::Teleop, vec![Some(snapshot(150, 1)), None]);
    assert!(!o3.mode_published);
    assert_eq!(o3.controllers_published, vec![true, false]);
}

#[test]
fn driver_station_receiver_reads_latest_snapshot() {
    let mut ds = DriverStation::new(1);
    let mut rec = ds.get_controller_receiver(0);
    ds.poll(RobotMode::Disabled, vec![Some(snapshot(42, 0))]);
    let slot = ds.controller_slot(0);
    assert!(rec.has_changed(slot));
    let seen = rec.borrow_and_update(slot);
    assert_eq!(seen.as_ref().unwrap().axis(0), Some(42));
    assert!(!rec.has_changed(slot));
}

#[test]
fn driver_station_unplug_publishes_absence() {
    let mut ds = DriverStation::new(1);
    ds.poll(RobotMode::Disabled, vec![Some(snapshot(1, 0))]);
    let o = ds.poll(RobotMode::Disabled, vec![None]);
    assert_eq!(o.controllers_published, vec![true]);
    let mut rec = ds.get_state_receiver();
    assert_eq!(rec.borrow_and_update(ds.mode_slot()), RobotMode::Disabled);
}

#[test]
fn controller_from_reads_needs_every_part() {
    let full = controller_from_reads(
        Some(ControllerAxes::new(1, vec![7i64; 12])),
        Some(ControllerPOVs::new(0, vec![0i16; 12])),
        Some(ControllerButtons::new(0, 0)),
    );
    assert!(full.is_some());
    assert_eq!(full.unwrap().axis(0), Some(7));

    let missing = controller_from_reads(
        Some(ControllerAxes::new(1, vec![7i64; 12])),
        None,
        Some(ControllerButtons::new(0, 0)),
    );
    assert!(missing.is_none());
}

#[test]
fn manager_dispatches_by_mode() {
    assert_eq!(Manager::new(RobotMode::Disabled).dispatch(), Dispatch::RunDisabled);
    assert_eq!(Manager::new(RobotMode::Autonomous).dispatch(), Dispatch::RunAutonomous);
    assert_eq!(Manager::new(RobotMode::Teleop).dispatch(), Dispatch::RunTeleop);
}

#[test]
fn manager_estop_dispatches_nothing() {
    // EStop runs no behavior at all.
    let mgr = Manager::new(RobotMode::EStop);
    assert_eq!(mgr.dispatch(), Dispatch::RunNothing);
}

#[test]
fn manager_mode_change_cancels_before_redispatch() {
    // Teleop behavior in flight, Autonomous arrives: the outcome orders
    // cancellation first, and the next dispatch is autonomous.
    let mut mgr = Manager::new(RobotMode::Teleop);
    let outcome = mgr.on_event(ManagerEvent::ModeChanged(RobotMode::Autonomous));
    assert_eq!(outcome, ManagerOutcome::CancelThenDispatch(RobotMode::Autonomous));
    assert_eq!(mgr.dispatch(), Dispatch::RunAutonomous);
}

#[test]
fn manager_shutdown_returns_success_at_once() {
    // Shutdown mid-behavior: success, without waiting for the behavior.
    let mut mgr = Manager::new(RobotMode::Teleop);
    assert_eq!(mgr.on_event(ManagerEvent::ShutdownReceived), ManagerOutcome::ReturnSuccess);
    assert_eq!(mgr.dispatch(), Dispatch::RunTeleop);
}

#[test]
fn manager_closed_channel_is_the_only_error() {
    let mut mgr = Manager::new(RobotMode::Disabled);
    assert_eq!(mgr.on_event(ManagerEvent::ModeChannelClosed), ManagerOutcome::ReturnChannelError);
}

#[test]
fn manager_completed_behavior_waits_for_next_mode() {
    let mut mgr = Manager::new(RobotMode::Autonomous);
    assert_eq!(mgr.on_event(ManagerEvent::BehaviorCompleted), ManagerOutcome::AwaitNextMode);
    // Still serving the same mode: no busy-loop redispatch happened.
    assert_eq!(mgr.dispatch(), Dispatch::RunAutonomous);
}

#[test]
fn valid_port_receiver_tracks_its_own_channel() {
    // A receiver for a configured port answers from that port's slot.
    let mut ds = DriverStation::new(3);
    let rec2 = ds.get_controller_receiver(2);
    ds.poll(
        RobotMode::Disabled,
        vec![Some(snapshot(5, 0)), None, Some(snapshot(9, 0))],
    );
    assert!(rec2.has_changed(ds.controller_slot(2)));
}
