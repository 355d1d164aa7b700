//! The mode manager: exactly one mode-appropriate behavior at a time,
//! preempted the instant the mode changes.
//!
//! The manager's decisions are a pure state machine; the embedding program
//! runs the loop around it. Each iteration it asks [`Manager::dispatch`]
//! which behavior to start for the mode now in the channel slot, runs that
//! behavior, and races it against the shutdown signal and the mode
//! channel. The first event to occur is handed to [`Manager::on_event`],
//! whose outcome orders what happens next: a shutdown ends the run
//! successfully at once, a closed mode channel ends it with a channel
//! error, a new mode cancels the in-flight behavior before the new mode's
//! behavior is dispatched, and a behavior that completes on its own leaves
//! the manager waiting for the next mode update (it never busy-loops
//! redispatching the same behavior).

use crate::state::ds::RobotMode;
use vstd::prelude::*;

verus! {

/// Which behavior a mode calls for. An e-stopped robot runs nothing at
/// all — a deliberate safety state, not a missing arm.
#[derive(Clone, Copy, Debug, PartialEq, Eq, Structural)]
pub enum Dispatch {
    RunDisabled,
    RunAutonomous,
    RunTeleop,
    RunNothing,
}

/// The behavior each mode dispatches.
pub open spec fn dispatch_of(mode: RobotMode) -> Dispatch {
    match mode {
        RobotMode::Disabled => Dispatch::RunDisabled,
        RobotMode::Autonomous => Dispatch::RunAutonomous,
        RobotMode::Teleop => Dispatch::RunTeleop,
        RobotMode::EStop => Dispatch::RunNothing,
    }
}

/// The first event to win the manager's three-way race while a behavior
/// is in flight.
#[derive(Clone, Copy, Debug, PartialEq, Eq, Structural)]
pub enum ManagerEvent {
    /// The external shutdown signal fired.
    ShutdownReceived,
    /// A new value appeared on the mode channel.
    ModeChanged(RobotMode),
    /// The running behavior returned on its own.
    BehaviorCompleted,
    /// The mode channel was closed: every sender is gone.
    ModeChannelClosed,
}

/// What the manager does in answer to an event.
#[derive(Clone, Copy, Debug, PartialEq, Eq, Structural)]
pub enum ManagerOutcome {
    /// Stop managing and report success, without waiting for the running
    /// behavior to complete.
    ReturnSuccess,
    /// Stop managing and report the mode channel's closure.
    ReturnChannelError,
    /// Cancel the in-flight behavior, then dispatch the named mode's
    /// behavior — in that order; the old behavior must not run on once the
    /// new one is dispatched.
    CancelThenDispatch(RobotMode),
    /// Wait for the next mode update before dispatching anything.
    AwaitNextMode,
}

/// The outcome each event commands.
pub open spec fn outcome_of(event: ManagerEvent) -> ManagerOutcome {
    match event {
        ManagerEvent::ShutdownReceived => ManagerOutcome::ReturnSuccess,
        ManagerEvent::ModeChanged(m) => ManagerOutcome::CancelThenDispatch(m),
        ManagerEvent::BehaviorCompleted => ManagerOutcome::AwaitNextMode,
        ManagerEvent::ModeChannelClosed => ManagerOutcome::ReturnChannelError,
    }
}

/// The mode the manager serves after an event: only a mode change moves
/// it.
pub open spec fn mode_after(current: RobotMode, event: ManagerEvent) -> RobotMode {
    match event {
        ManagerEvent::ModeChanged(m) => m,
        _ => current,
    }
}

/// The mode manager's state: the mode whose behavior is currently being
/// served. Dispatch of the starting mode happens immediately at manager
/// start, with no initial idle wait.
pub struct Manager {
    current: RobotMode,
}

impl Manager {
    /// The mode whose behavior the manager is serving.
    pub closed spec fn mode(&self) -> RobotMode {
        self.current
    }

    /// A manager serving `initial_mode`, the value in the mode channel's
    /// slot at start.
    pub fn new(initial_mode: RobotMode) -> (r: Self)
        ensures
            r.mode() == initial_mode,
    {
        Manager { current: initial_mode }
    }

    /// Which behavior to start for the mode being served.
    pub fn dispatch(&self) -> (d: Dispatch)
        ensures
            d == dispatch_of(self.mode()),
    {
        match self.current {
            RobotMode::Disabled => Dispatch::RunDisabled,
            RobotMode::Autonomous => Dispatch::RunAutonomous,
            RobotMode::Teleop => Dispatch::RunTeleop,
            RobotMode::EStop => Dispatch::RunNothing,
        }
    }

    /// Steps the manager on the first event that won the race.
    pub fn on_event(&mut self, event: ManagerEvent) -> (o: ManagerOutcome)
        ensures
            o == outcome_of(event),
            final(self).mode() == mode_after(old(self).mode(), event),
    {
        match event {
            ManagerEvent::ShutdownReceived => ManagerOutcome::ReturnSuccess,
            ManagerEvent::ModeChanged(m) => {
                self.current = m;
                ManagerOutcome::CancelThenDispatch(m)
            },
            ManagerEvent::BehaviorCompleted => ManagerOutcome::AwaitNextMode,
            ManagerEvent::ModeChannelClosed => ManagerOutcome::ReturnChannelError,
        }
    }
}

/// A mode change observed mid-behavior preempts it: the outcome orders the
/// cancellation strictly before the new dispatch, and what is dispatched
/// next is the new mode's behavior, whatever was running before.
pub proof fn lemma_mode_change_preempts(current: RobotMode, new_mode: RobotMode)
    ensures
        outcome_of(ManagerEvent::ModeChanged(new_mode)) == ManagerOutcome::CancelThenDispatch(
            new_mode,
        ),
        dispatch_of(mode_after(current, ManagerEvent::ModeChanged(new_mode))) == dispatch_of(
            new_mode,
        ),
{
}

/// A shutdown observed mid-behavior ends the run successfully at once,
/// whatever mode was being served; nothing further is dispatched.
pub proof fn lemma_shutdown_ends_run(current: RobotMode)
    ensures
        outcome_of(ManagerEvent::ShutdownReceived) == ManagerOutcome::ReturnSuccess,
        mode_after(current, ManagerEvent::ShutdownReceived) == current,
{
}

/// An e-stopped robot dispatches no behavior at all.
pub proof fn lemma_estop_dispatches_nothing()
    ensures
        dispatch_of(RobotMode::EStop) == Dispatch::RunNothing,
{
}

} // verus!
