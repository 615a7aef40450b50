//! The shared clock snapshot: one point-in-time reading of the five on-chain
//! time fields, updated wholesale by a single writer and read by many venue
//! instances.
//!
//! The snapshot is a best-effort shared clock: readers need only approximate
//! on-chain time, and a caller that shares one snapshot across threads must
//! serialize updates against reads itself.

use vstd::prelude::*;

verus! {

/// A point-in-time reading of the on-chain clock.
#[derive(Clone, Copy, Debug, PartialEq, Eq, Structural)]
pub struct Clock {
    pub slot: u64,
    /// The timestamp of the first slot of the current epoch.
    pub epoch_start_timestamp: i64,
    pub epoch: u64,
    pub leader_schedule_epoch: u64,
    pub unix_timestamp: i64,
}

/// The snapshot venues read: the five fields of the most recent reading.
#[derive(Clone, Copy, Debug, PartialEq, Eq, Structural)]
pub struct ClockRef {
    pub slot: u64,
    /// The timestamp of the first slot of the current epoch.
    pub epoch_start_timestamp: i64,
    pub epoch: u64,
    pub leader_schedule_epoch: u64,
    pub unix_timestamp: i64,
}

impl ClockRef {
    /// Overwrites all five fields with a new reading.
    pub fn update(&mut self, clock: Clock)
        ensures
            final(self).slot == clock.slot,
            final(self).epoch_start_timestamp == clock.epoch_start_timestamp,
            final(self).epoch == clock.epoch,
            final(self).leader_schedule_epoch == clock.leader_schedule_epoch,
            final(self).unix_timestamp == clock.unix_timestamp,
    {
        self.epoch = clock.epoch;
        self.slot = clock.slot;
        self.unix_timestamp = clock.unix_timestamp;
        self.epoch_start_timestamp = clock.epoch_start_timestamp;
        self.leader_schedule_epoch = clock.leader_schedule_epoch;
    }
}

impl From<Clock> for ClockRef {
    /// A snapshot exposing exactly the five values of the reading.
    fn from(clock: Clock) -> (r: ClockRef) {
        ClockRef {
            epoch: clock.epoch,
            epoch_start_timestamp: clock.epoch_start_timestamp,
            leader_schedule_epoch: clock.leader_schedule_epoch,
            slot: clock.slot,
            unix_timestamp: clock.unix_timestamp,
        }
    }
}

impl vstd::std_specs::convert::FromSpecImpl<Clock> for ClockRef {
    open spec fn obeys_from_spec() -> bool {
        true
    }

    open spec fn from_spec(clock: Clock) -> ClockRef {
        ClockRef {
            slot: clock.slot,
            epoch_start_timestamp: clock.epoch_start_timestamp,
            epoch: clock.epoch,
            leader_schedule_epoch: clock.leader_schedule_epoch,
            unix_timestamp: clock.unix_timestamp,
        }
    }
}

impl Default for ClockRef {
    /// A snapshot with all five fields zero.
    fn default() -> (r: ClockRef)
        ensures
            r.slot == 0,
            r.epoch_start_timestamp == 0,
            r.epoch == 0,
            r.leader_schedule_epoch == 0,
            r.unix_timestamp == 0,
    {
        ClockRef {
            slot: 0,
            epoch_start_timestamp: 0,
            epoch: 0,
            leader_schedule_epoch: 0,
            unix_timestamp: 0,
        }
    }
}

} // verus!
