//! Single-slot latest-value broadcast channels.
//!
//! A channel holds exactly one current value per topic. A write overwrites
//! the slot and bumps a version counter that wakes every consumer; a write
//! whose value equals the one already published is skipped outright, so
//! consumers are never woken for data they have already seen (the
//! coalescing property). Readers never consume the value: any number of
//! receivers can observe the latest slot independently, each tracking the
//! last version it has seen. A slow reader never backpressures the writer;
//! it simply misses intermediate values.

use crate::state::ds::{opt_agrees, ControllerState, RobotMode};
use vstd::prelude::*;

verus! {

/// The latest-value slot for the robot's operating mode.
pub struct ModeChannel {
    value: RobotMode,
    version: u64,
}

/// An independent reader over a [`ModeChannel`].
#[derive(Clone, Copy, Debug)]
pub struct ModeReceiver {
    seen: u64,
}

impl ModeChannel {
    /// The value currently in the slot.
    pub closed spec fn value_spec(&self) -> RobotMode {
        self.value
    }

    /// How many distinct values have been published.
    pub closed spec fn version_spec(&self) -> int {
        self.version as int
    }

    /// A channel holding `initial`, with no publication yet.
    pub fn new(initial: RobotMode) -> (r: Self)
        ensures
            r.value_spec() == initial,
            r.version_spec() == 0,
    {
        ModeChannel { value: initial, version: 0 }
    }

    /// Publishes `v`: the slot is overwritten and every receiver is woken,
    /// unless `v` equals the value already published — then the write is
    /// skipped whole and no receiver sees a new notification.
    pub fn send(&mut self, v: RobotMode) -> (published: bool)
        requires
            old(self).version_spec() < u64::MAX,
        ensures
            published == (v != old(self).value_spec()),
            !published ==> *final(self) == *old(self),
            final(self).value_spec() == v,
            final(self).version_spec() == if published {
                old(self).version_spec() + 1
            } else {
                old(self).version_spec()
            },
    {
        if v != self.value {
            self.value = v;
            self.version = self.version + 1;
            true
        } else {
            false
        }
    }

    /// A fresh reader; the value currently in the slot counts as seen.
    pub fn subscribe(&self) -> (r: ModeReceiver)
        ensures
            r.seen_spec() == self.version_spec(),
    {
        ModeReceiver { seen: self.version }
    }
}

impl ModeReceiver {
    /// The slot version this reader last observed.
    pub closed spec fn seen_spec(&self) -> int {
        self.seen as int
    }

    /// Whether the channel holds a publication this reader has not
    /// observed yet.
    pub fn has_changed(&self, ch: &ModeChannel) -> (r: bool)
        ensures
            r == (self.seen_spec() != ch.version_spec()),
    {
        self.seen != ch.version
    }

    /// Reads the latest value and marks it seen.
    pub fn borrow_and_update(&mut self, ch: &ModeChannel) -> (r: RobotMode)
        ensures
            r == ch.value_spec(),
            final(self).seen_spec() == ch.version_spec(),
    {
        self.seen = ch.version;
        ch.value
    }
}

/// The latest-value slot for one controller port. `None` stands for no
/// controller present on the port.
pub struct ControllerChannel {
    value: Option<ControllerState>,
    version: u64,
}

/// An independent reader over a [`ControllerChannel`].
#[derive(Clone, Copy, Debug)]
pub struct ControllerReceiver {
    seen: u64,
}

impl ControllerChannel {
    /// The value currently in the slot.
    pub closed spec fn value_spec(&self) -> Option<ControllerState> {
        self.value
    }

    /// How many distinct values have been published.
    pub closed spec fn version_spec(&self) -> int {
        self.version as int
    }

    /// A channel holding `initial`, with no publication yet.
    pub fn new(initial: Option<ControllerState>) -> (r: Self)
        ensures
            r.value_spec() == initial,
            r.version_spec() == 0,
    {
        ControllerChannel { value: initial, version: 0 }
    }

    /// Publishes `v` unless it carries the same snapshot as the value
    /// already published — then the write is skipped whole and no receiver
    /// sees a new notification.
    pub fn send(&mut self, v: Option<ControllerState>) -> (published: bool)
        requires
            old(self).version_spec() < u64::MAX,
        ensures
            published == !opt_agrees(v, old(self).value_spec()),
            !published ==> *final(self) == *old(self),
            !published ==> opt_agrees(final(self).value_spec(), v),
            published ==> final(self).value_spec() == v,
            final(self).version_spec() == if published {
                old(self).version_spec() + 1
            } else {
                old(self).version_spec()
            },
    {
        let same = crate::state::ds::opt_same_as(&v, &self.value);
        proof {
            crate::state::ds::lemma_opt_agrees_symmetric(v, self.value);
        }
        if !same {
            self.value = v;
            self.version = self.version + 1;
            true
        } else {
            false
        }
    }

    /// A fresh reader; the value currently in the slot counts as seen.
    pub fn subscribe(&self) -> (r: ControllerReceiver)
        ensures
            r.seen_spec() == self.version_spec(),
    {
        ControllerReceiver { seen: self.version }
    }
}

impl ControllerReceiver {
    /// The slot version this reader last observed.
    pub closed spec fn seen_spec(&self) -> int {
        self.seen as int
    }

    /// Whether the channel holds a publication this reader has not
    /// observed yet.
    pub fn has_changed(&self, ch: &ControllerChannel) -> (r: bool)
        ensures
            r == (self.seen_spec() != ch.version_spec()),
    {
        self.seen != ch.version
    }

    /// Reads the latest snapshot and marks it seen.
    pub fn borrow_and_update<'a>(&mut self, ch: &'a ControllerChannel) -> (r: &'a Option<
        ControllerState,
    >)
        ensures
            *r == ch.value_spec(),
            final(self).seen_spec() == ch.version_spec(),
    {
        self.seen = ch.version;
        &ch.value
    }
}

} // verus!
