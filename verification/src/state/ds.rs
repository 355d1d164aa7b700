//! The driver station: operating mode derivation, controller snapshots, and
//! the change-coalescing distributor the poll thread drives.
//!
//! The embedding program owns the dedicated poll thread: each tick it
//! blocks on the hardware until new driver-station data arrives or a
//! bounded timeout elapses (so shutdown is observed even without data),
//! reads the raw control word and controller arrays, and hands the plain
//! values to [`DriverStation::poll`], which republishes only what changed.

use crate::state::channel::{
    ControllerChannel, ControllerReceiver, ModeChannel, ModeReceiver,
};
use vstd::prelude::*;

verus! {

/// Fixed capacity of the per-controller axis and POV arrays.
pub const CONTROLLER_SLOTS: usize = 12;

/// The robot's operating phase, authoritative for which behavior runs.
#[derive(Clone, Copy, Debug, PartialEq, Eq, Structural)]
pub enum RobotMode {
    Disabled,
    Autonomous,
    Teleop,
    EStop,
}

impl Default for RobotMode {
    /// A robot starts out disabled.
    fn default() -> (r: Self)
        ensures
            r == RobotMode::Disabled,
    {
        RobotMode::Disabled
    }
}

/// Mode precedence over the raw control-word flags. Enabled dominates
/// e-stop here: an enabled, e-stopped control word still reads as a driving
/// mode. That ordering is deliberate, not an oversight to silently repair.
pub open spec fn mode_from_flags(enabled: bool, autonomous: bool, e_stopped: bool) -> RobotMode {
    if enabled && autonomous {
        RobotMode::Autonomous
    } else if enabled {
        RobotMode::Teleop
    } else if e_stopped {
        RobotMode::EStop
    } else {
        RobotMode::Disabled
    }
}

impl RobotMode {
    /// Derives the mode from the control word's three flags.
    pub fn from_flags(enabled: bool, autonomous: bool, e_stopped: bool) -> (r: Self)
        ensures
            r == mode_from_flags(enabled, autonomous, e_stopped),
    {
        if enabled {
            if autonomous {
                RobotMode::Autonomous
            } else {
                RobotMode::Teleop
            }
        } else if e_stopped {
            RobotMode::EStop
        } else {
            RobotMode::Disabled
        }
    }
}

/// One controller's axis values: `count` axes are reported, each a signed
/// normalized fixed-point scalar in slot `0..count`.
#[derive(Debug)]
pub struct ControllerAxes {
    count: i16,
    axes: Vec<i64>,
}

impl ControllerAxes {
    /// The axis array always holds `CONTROLLER_SLOTS` slots, of which the
    /// first `count` are meaningful.
    #[verifier::type_invariant]
    pub closed spec fn wf(self) -> bool {
        0 <= self.count <= CONTROLLER_SLOTS && self.axes@.len() == CONTROLLER_SLOTS
    }

    /// How many axes the controller reports.
    pub closed spec fn axis_count(&self) -> int {
        self.count as int
    }

    /// The value in axis slot `n`.
    pub closed spec fn axis_at(&self, n: int) -> int {
        self.axes@[n] as int
    }

    /// Whether two axis snapshots carry the same data.
    pub open spec fn agrees(&self, other: &ControllerAxes) -> bool {
        &&& self.axis_count() == other.axis_count()
        &&& forall|i: int|
            0 <= i < CONTROLLER_SLOTS ==> self.axis_at(i) == other.axis_at(i)
    }

    /// A snapshot from a raw count and a full array of slots.
    pub fn new(count: i16, axes: Vec<i64>) -> (r: Self)
        requires
            0 <= count <= CONTROLLER_SLOTS,
            axes@.len() == CONTROLLER_SLOTS,
        ensures
            r.axis_count() == count,
            forall|i: int| 0 <= i < CONTROLLER_SLOTS ==> r.axis_at(i) == axes@[i],
    {
        ControllerAxes { count, axes }
    }

    /// The snapshot of an absent controller: nothing reported.
    pub fn empty() -> (r: Self)
        ensures
            r.axis_count() == 0,
            forall|i: int| 0 <= i < CONTROLLER_SLOTS ==> r.axis_at(i) == 0,
    {
        let mut axes: Vec<i64> = Vec::new();
        let mut i: usize = 0;
        while i < CONTROLLER_SLOTS
            invariant
                i <= CONTROLLER_SLOTS,
                axes@.len() == i,
                forall|j: int| 0 <= j < i ==> axes@[j] == 0i64,
            decreases CONTROLLER_SLOTS - i,
        {
            axes.push(0);
            i = i + 1;
        }
        ControllerAxes { count: 0, axes }
    }

    /// The value of axis `n`, or nothing if no such axis is reported.
    pub fn get(&self, n: u8) -> (r: Option<i64>)
        ensures
            r is Some <==> (n as int) < self.axis_count(),
            r is Some ==> r.unwrap() == self.axis_at(n as int),
    {
        proof {
            use_type_invariant(&*self);
        }
        if (n as i16) < self.count {
            Some(self.axes[n as usize])
        } else {
            None
        }
    }

    /// Compares two snapshots slot for slot.
    pub fn same_as(&self, other: &ControllerAxes) -> (r: bool)
        ensures
            r == self.agrees(other),
    {
        proof {
            use_type_invariant(&*self);
            use_type_invariant(&*other);
        }
        if self.count != other.count {
            return false;
        }
        let mut i: usize = 0;
        while i < CONTROLLER_SLOTS
            invariant
                i <= CONTROLLER_SLOTS,
                self.wf(),
                other.wf(),
                self.count == other.count,
                forall|j: int| 0 <= j < i ==> self.axis_at(j) == other.axis_at(j),
            decreases CONTROLLER_SLOTS - i,
        {
            if self.axes[i] != other.axes[i] {
                proof {
                    assert(self.axis_at(i as int) != other.axis_at(i as int));
                }
                return false;
            }
            i = i + 1;
        }
        true
    }
}

/// One controller's POV (D-pad) values: each reported slot holds a heading
/// in degrees, or `-1` for centered.
#[derive(Debug)]
pub struct ControllerPOVs {
    count: i16,
    povs: Vec<i16>,
}

impl ControllerPOVs {
    /// The POV array always holds `CONTROLLER_SLOTS` slots, of which the
    /// first `count` are meaningful.
    #[verifier::type_invariant]
    pub closed spec fn wf(self) -> bool {
        0 <= self.count <= CONTROLLER_SLOTS && self.povs@.len() == CONTROLLER_SLOTS
    }

    /// How many POVs the controller reports.
    pub closed spec fn pov_count(&self) -> int {
        self.count as int
    }

    /// The heading in POV slot `n`.
    pub closed spec fn pov_at(&self, n: int) -> int {
        self.povs@[n] as int
    }

    /// Whether two POV snapshots carry the same data.
    pub open spec fn agrees(&self, other: &ControllerPOVs) -> bool {
        &&& self.pov_count() == other.pov_count()
        &&& forall|i: int| 0 <= i < CONTROLLER_SLOTS ==> self.pov_at(i) == other.pov_at(i)
    }

    /// A snapshot from a raw count and a full array of slots.
    pub fn new(count: i16, povs: Vec<i16>) -> (r: Self)
        requires
            0 <= count <= CONTROLLER_SLOTS,
            povs@.len() == CONTROLLER_SLOTS,
        ensures
            r.pov_count() == count,
            forall|i: int| 0 <= i < CONTROLLER_SLOTS ==> r.pov_at(i) == povs@[i],
    {
        ControllerPOVs { count, povs }
    }

    /// The snapshot of an absent controller: nothing reported.
    pub fn empty() -> (r: Self)
        ensures
            r.pov_count() == 0,
            forall|i: int| 0 <= i < CONTROLLER_SLOTS ==> r.pov_at(i) == 0,
    {
        let mut povs: Vec<i16> = Vec::new();
        let mut i: usize = 0;
        while i < CONTROLLER_SLOTS
            invariant
                i <= CONTROLLER_SLOTS,
                povs@.len() == i,
                forall|j: int| 0 <= j < i ==> povs@[j] == 0i16,
            decreases CONTROLLER_SLOTS - i,
        {
            povs.push(0);
            i = i + 1;
        }
        ControllerPOVs { count: 0, povs }
    }

    /// The heading of POV `n`, or nothing if no such POV is reported.
    pub fn get(&self, n: u8) -> (r: Option<i16>)
        ensures
            r is Some <==> (n as int) < self.pov_count(),
            r is Some ==> r.unwrap() == self.pov_at(n as int),
    {
        proof {
            use_type_invariant(&*self);
        }
        if (n as i16) < self.count {
            Some(self.povs[n as usize])
        } else {
            None
        }
    }

    /// Compares two snapshots slot for slot.
    pub fn same_as(&self, other: &ControllerPOVs) -> (r: bool)
        ensures
            r == self.agrees(other),
    {
        proof {
            use_type_invariant(&*self);
            use_type_invariant(&*other);
        }
        if self.count != other.count {
            return false;
        }
        let mut i: usize = 0;
        while i < CONTROLLER_SLOTS
            invariant
                i <= CONTROLLER_SLOTS,
                self.wf(),
                other.wf(),
                self.count == other.count,
                forall|j: int| 0 <= j < i ==> self.pov_at(j) == other.pov_at(j),
            decreases CONTROLLER_SLOTS - i,
        {
            if self.povs[i] != other.povs[i] {
                proof {
                    assert(self.pov_at(i as int) != other.pov_at(i as int));
                }
                return false;
            }
            i = i + 1;
        }
        true
    }
}

/// One controller's buttons: a bitfield of which the low `count` bits are
/// meaningful.
#[derive(Debug)]
pub struct ControllerButtons {
    count: u8,
    buttons: u32,
}

impl ControllerButtons {
    /// At most 32 buttons fit the bitfield.
    #[verifier::type_invariant]
    pub closed spec fn wf(self) -> bool {
        self.count <= 32
    }

    /// How many buttons the controller reports.
    pub closed spec fn button_count(&self) -> int {
        self.count as int
    }

    /// The raw button bitfield.
    pub closed spec fn bits(&self) -> u32 {
        self.buttons
    }

    /// Whether button `n` is held, read from the bitfield.
    pub open spec fn button_at(&self, n: int) -> bool {
        (self.bits() >> (n as u32)) & 1u32 == 1u32
    }

    /// Whether two button snapshots carry the same data.
    pub open spec fn agrees(&self, other: &ControllerButtons) -> bool {
        self.button_count() == other.button_count() && self.bits() == other.bits()
    }

    /// A snapshot from a raw count and bitfield.
    pub fn new(count: u8, buttons: u32) -> (r: Self)
        requires
            count <= 32,
        ensures
            r.button_count() == count,
            r.bits() == buttons,
    {
        ControllerButtons { count, buttons }
    }

    /// The snapshot of an absent controller: nothing reported.
    pub fn empty() -> (r: Self)
        ensures
            r.button_count() == 0,
            r.bits() == 0u32,
    {
        ControllerButtons { count: 0, buttons: 0 }
    }

    /// Whether button `n` is held, or nothing if no such button is
    /// reported.
    pub fn get(&self, n: u8) -> (r: Option<bool>)
        ensures
            r is Some <==> (n as int) < self.button_count(),
            r is Some ==> r.unwrap() == self.button_at(n as int),
    {
        proof {
            use_type_invariant(&*self);
        }
        if n < self.count {
            let b = self.buttons;
            let nn = n as u32;
            proof {
                assert(((b & (1u32 << nn)) != 0) == ((b >> nn) & 1u32 == 1u32)) by (bit_vector)
                    requires nn < 32u32;
            }
            Some(b & (1u32 << nn) != 0)
        } else {
            None
        }
    }

    /// Compares two snapshots bit for bit.
    pub fn same_as(&self, other: &ControllerButtons) -> (r: bool)
        ensures
            r == self.agrees(other),
    {
        self.count == other.count && self.buttons == other.buttons
    }
}

/// A snapshot of one gamepad: its axes, POV hats, and buttons, as read in
/// one poll tick.
#[derive(Debug)]
pub struct ControllerState {
    /// The axis part of the snapshot.
    pub axes: ControllerAxes,
    /// The POV part of the snapshot.
    pub povs: ControllerPOVs,
    /// The button part of the snapshot.
    pub buttons: ControllerButtons,
}

impl ControllerState {
    /// How many axes the controller reports.
    pub open spec fn axis_count(&self) -> int {
        self.axes.axis_count()
    }

    /// The value in axis slot `n`.
    pub open spec fn axis_at(&self, n: int) -> int {
        self.axes.axis_at(n)
    }

    /// How many POVs the controller reports.
    pub open spec fn pov_count(&self) -> int {
        self.povs.pov_count()
    }

    /// The heading in POV slot `n`.
    pub open spec fn pov_at(&self, n: int) -> int {
        self.povs.pov_at(n)
    }

    /// How many buttons the controller reports.
    pub open spec fn button_count(&self) -> int {
        self.buttons.button_count()
    }

    /// The raw button bitfield.
    pub open spec fn button_bits(&self) -> u32 {
        self.buttons.bits()
    }

    /// Whether button `n` is held.
    pub open spec fn button_at(&self, n: int) -> bool {
        (self.button_bits() >> (n as u32)) & 1u32 == 1u32
    }

    /// Whether two snapshots carry the same data.
    pub open spec fn agrees(&self, other: &ControllerState) -> bool {
        &&& self.axes.agrees(&other.axes)
        &&& self.povs.agrees(&other.povs)
        &&& self.buttons.agrees(&other.buttons)
    }

    /// A snapshot from its three parts.
    pub fn new(axes: ControllerAxes, povs: ControllerPOVs, buttons: ControllerButtons) -> (r:
        ControllerState)
        ensures
            r.axes == axes,
            r.povs == povs,
            r.buttons == buttons,
    {
        ControllerState { axes, povs, buttons }
    }

    /// The value of axis `n`, or nothing if no such axis is reported.
    pub fn axis(&self, n: u8) -> (r: Option<i64>)
        ensures
            r is Some <==> (n as int) < self.axis_count(),
            r is Some ==> r.unwrap() == self.axis_at(n as int),
    {
        self.axes.get(n)
    }

    /// The heading of POV `n`, or nothing if no such POV is reported.
    pub fn pov(&self, n: u8) -> (r: Option<i16>)
        ensures
            r is Some <==> (n as int) < self.pov_count(),
            r is Some ==> r.unwrap() == self.pov_at(n as int),
    {
        self.povs.get(n)
    }

    /// Whether button `n` is held, or nothing if no such button is
    /// reported.
    pub fn button(&self, n: u8) -> (r: Option<bool>)
        ensures
            r is Some <==> (n as int) < self.button_count(),
            r is Some ==> r.unwrap() == self.button_at(n as int),
    {
        self.buttons.get(n)
    }

    /// Compares two snapshots part for part.
    pub fn same_as(&self, other: &ControllerState) -> (r: bool)
        ensures
            r == self.agrees(other),
    {
        self.axes.same_as(&other.axes) && self.povs.same_as(&other.povs)
            && self.buttons.same_as(&other.buttons)
    }
}

/// Whether two optional snapshots carry the same data; absence only agrees
/// with absence.
pub open spec fn opt_agrees(a: Option<ControllerState>, b: Option<ControllerState>) -> bool {
    match (a, b) {
        (Option::None, Option::None) => true,
        (Option::Some(x), Option::Some(y)) => x.agrees(&y),
        _ => false,
    }
}

/// Agreement of optional snapshots is symmetric.
pub proof fn lemma_opt_agrees_symmetric(a: Option<ControllerState>, b: Option<ControllerState>)
    ensures
        opt_agrees(a, b) == opt_agrees(b, a),
{
}

/// Compares two optional snapshots.
pub fn opt_same_as(a: &Option<ControllerState>, b: &Option<ControllerState>) -> (r: bool)
    ensures
        r == opt_agrees(*a, *b),
{
    match a {
        Option::Some(x) => match b {
            Option::Some(y) => x.same_as(y),
            Option::None => false,
        },
        Option::None => b.is_none(),
    }
}

/// A controller snapshot built from the three optional raw reads of one
/// poll tick: a failed or absent read of any part means the whole
/// controller reads as absent, never as a crash.
pub fn controller_from_reads(
    axes: Option<ControllerAxes>,
    povs: Option<ControllerPOVs>,
    buttons: Option<ControllerButtons>,
) -> (r: Option<ControllerState>)
    ensures
        r is Some <==> (axes is Some && povs is Some && buttons is Some),
        r is Some ==> {
            let s = r.unwrap();
            &&& s.axes == axes.unwrap()
            &&& s.povs == povs.unwrap()
            &&& s.buttons == buttons.unwrap()
        },
{
    match (axes, povs, buttons) {
        (Option::Some(a), Option::Some(p), Option::Some(b)) => Some(ControllerState::new(a, p, b)),
        _ => None,
    }
}

/// What one call of [`DriverStation::poll`] published: the mode slot and
/// each controller slot, `true` where a change went out.
pub struct PollOutcome {
    /// Whether the mode channel took a new value.
    pub mode_published: bool,
    /// Whether each controller channel took a new value, by port.
    pub controllers_published: Vec<bool>,
}

/// The state distributor: one latest-value channel for the operating mode
/// and one per configured controller port. The embedding program's poll
/// thread feeds [`DriverStation::poll`] each tick; consumers subscribe
/// through the receiver constructors and never block the poller.
pub struct DriverStation {
    mode_channel: ModeChannel,
    controllers: Vec<ControllerChannel>,
}

impl DriverStation {
    /// How many controller ports are configured.
    pub closed spec fn controller_count(&self) -> int {
        self.controllers@.len() as int
    }

    /// The mode currently published.
    pub closed spec fn mode(&self) -> RobotMode {
        self.mode_channel.value_spec()
    }

    /// How many distinct modes have been published.
    pub closed spec fn mode_version(&self) -> int {
        self.mode_channel.version_spec()
    }

    /// The snapshot currently published for port `i`.
    pub closed spec fn controller_value(&self, i: int) -> Option<ControllerState> {
        self.controllers@[i].value_spec()
    }

    /// How many distinct snapshots have been published for port `i`.
    pub closed spec fn controller_version(&self, i: int) -> int {
        self.controllers@[i].version_spec()
    }

    /// A distributor for `controller_ports` ports, publishing the initial
    /// state: mode disabled, no controller present anywhere.
    pub fn new(controller_ports: usize) -> (r: Self)
        ensures
            r.controller_count() == controller_ports,
            r.mode() == RobotMode::Disabled,
            r.mode_version() == 0,
            forall|i: int|
                0 <= i < controller_ports ==> (#[trigger] r.controller_value(i)) is None,
            forall|i: int| 0 <= i < controller_ports ==> #[trigger] r.controller_version(i) == 0,
    {
        let mut controllers: Vec<ControllerChannel> = Vec::new();
        let mut i: usize = 0;
        while i < controller_ports
            invariant
                i <= controller_ports,
                controllers@.len() == i,
                forall|j: int| 0 <= j < i ==> (#[trigger] controllers@[j].value_spec()) is None,
                forall|j: int| 0 <= j < i ==> #[trigger] controllers@[j].version_spec() == 0,
            decreases controller_ports - i,
        {
            controllers.push(ControllerChannel::new(None));
            i = i + 1;
        }
        DriverStation { mode_channel: ModeChannel::new(RobotMode::Disabled), controllers }
    }

    /// A fresh reader over the mode channel.
    pub fn get_state_receiver(&self) -> (r: ModeReceiver)
        ensures
            r.seen_spec() == self.mode_version(),
    {
        self.mode_channel.subscribe()
    }

    /// A fresh reader over one controller port's channel. Requesting a
    /// port outside the configured count is a programming error, rejected
    /// here as a precondition rather than answered with wrong data.
    pub fn get_controller_receiver(&self, port: usize) -> (r: ControllerReceiver)
        requires
            port < self.controller_count(),
        ensures
            r.seen_spec() == self.controller_version(port as int),
    {
        self.controllers[port].subscribe()
    }

    /// Reads the mode channel directly (for the embedding program's
    /// select loop).
    pub fn mode_slot(&self) -> (r: &ModeChannel)
        ensures
            r.value_spec() == self.mode(),
            r.version_spec() == self.mode_version(),
    {
        &self.mode_channel
    }

    /// Reads one controller port's channel directly.
    pub fn controller_slot(&self, port: usize) -> (r: &ControllerChannel)
        requires
            port < self.controller_count(),
        ensures
            r.value_spec() == self.controller_value(port as int),
            r.version_spec() == self.controller_version(port as int),
    {
        &self.controllers[port]
    }

    /// One poll tick: publishes the observed mode and the observed
    /// snapshot of every configured port, skipping every slot whose value
    /// is unchanged, so no consumer is woken without news.
    pub fn poll(&mut self, mode: RobotMode, states: Vec<Option<ControllerState>>) -> (o:
        PollOutcome)
        requires
            states@.len() == old(self).controller_count(),
            old(self).mode_version() < u64::MAX,
            forall|i: int|
                0 <= i < old(self).controller_count() ==> #[trigger] old(self).controller_version(
                    i,
                ) < u64::MAX,
        ensures
            final(self).controller_count() == old(self).controller_count(),
            o.controllers_published@.len() == old(self).controller_count(),
            o.mode_published == (mode != old(self).mode()),
            final(self).mode() == mode,
            final(self).mode_version() == if o.mode_published {
                old(self).mode_version() + 1
            } else {
                old(self).mode_version()
            },
            forall|i: int|
                0 <= i < old(self).controller_count() ==> #[trigger] o.controllers_published@[i]
                    == !opt_agrees(states@[i], old(self).controller_value(i)),
            forall|i: int|
                0 <= i < old(self).controller_count() ==> opt_agrees(
                    #[trigger] final(self).controller_value(i),
                    states@[i],
                ),
            forall|i: int|
                0 <= i < old(self).controller_count() && !o.controllers_published@[i]
                    ==> #[trigger] final(self).controller_value(i) == old(self).controller_value(i),
            forall|i: int|
                0 <= i < old(self).controller_count() && o.controllers_published@[i]
                    ==> #[trigger] final(self).controller_value(i) == states@[i],
            forall|i: int|
                0 <= i < old(self).controller_count() ==> #[trigger] final(self).controller_version(i) == if o.controllers_published@[i] {
                    old(self).controller_version(i) + 1
                } else {
                    old(self).controller_version(i)
                },
    {
        proof {
            assert forall|j: int|
                0 <= j < old(self).controllers@.len()
                implies (#[trigger] old(self).controllers@[j].version_spec()) < u64::MAX by {
                assert(old(self).controller_version(j) < u64::MAX);
            }
        }
        let mode_published = self.mode_channel.send(mode);
        let mut controllers_published: Vec<bool> = Vec::new();
        let mut rest = states;
        let ghost all_states = rest@;
        let mut i: usize = 0;
        while i < self.controllers.len()
            invariant
                i <= self.controllers@.len(),
                self.controllers@.len() == old(self).controllers@.len(),
                all_states.len() == old(self).controllers@.len(),
                rest@ == all_states.subrange(i as int, all_states.len() as int),
                controllers_published@.len() == i,
                mode_published == (mode != old(self).mode_channel.value_spec()),
                self.mode_channel.value_spec() == mode,
                self.mode_channel.version_spec() == if mode_published {
                    old(self).mode_channel.version_spec() + 1
                } else {
                    old(self).mode_channel.version_spec()
                },
                forall|j: int|
                    i <= j < self.controllers@.len() ==> #[trigger] self.controllers@[j] == old(self).controllers@[j],
                forall|j: int|
                    0 <= j < i ==> #[trigger] controllers_published@[j] == !opt_agrees(
                        all_states[j],
                        old(self).controllers@[j].value_spec(),
                    ),
                forall|j: int|
                    0 <= j < i ==> opt_agrees(
                        #[trigger] self.controllers@[j].value_spec(),
                        all_states[j],
                    ),
                forall|j: int|
                    0 <= j < i && !controllers_published@[j] ==> #[trigger] self.controllers@[j]
                        == old(self).controllers@[j],
                forall|j: int|
                    0 <= j < i && controllers_published@[j]
                        ==> #[trigger] self.controllers@[j].value_spec() == all_states[j],
                forall|j: int|
                    0 <= j < i ==> #[trigger] self.controllers@[j].version_spec() == if
                    controllers_published@[j] {
                        old(self).controllers@[j].version_spec() + 1
                    } else {
                        old(self).controllers@[j].version_spec()
                    },
                forall|j: int|
                    0 <= j < old(self).controllers@.len() ==> #[trigger] old(self).controllers@[j].version_spec() < u64::MAX,
            decreases self.controllers@.len() - i,
        {
            let v = rest.remove(0);
            let p = {
                let ch = &mut self.controllers[i];
                ch.send(v)
            };
            controllers_published.push(p);
            i = i + 1;
        }
        PollOutcome { mode_published, controllers_published }
    }
}

} // verus!
