//! The graphics host: fences on sync points, and how a channel's priority
//! becomes a timeslice.

use crate::error::{ioctl_status, spec_ioctl_status, IoctlOutcome, NvGpuResult};
use vstd::prelude::*;

verus! {

/// Represent a SyncPoint identifier.
pub type SyncPointId = i32;

/// A fence: the sync point `id` reaching `value`.
#[derive(Clone, Copy, Debug, PartialEq, Eq, Structural)]
pub struct RawFence {
    pub id: SyncPointId,
    pub value: u32,
}

/// The result of the host's operations.
pub type NvHostResult<T> = NvGpuResult<T>;

/// The error number of a request that the device does not know.
pub const ENOTTY: i32 = 25;

/// Channel priority, as the host takes it when it sets a timeslice.
#[derive(Clone, Copy, Debug, PartialEq, Eq, Structural)]
pub enum ChannelPriority {
    Low,
    Medium,
    High,
}

impl ChannelPriority {
    /// The level that the priority stands for.
    pub open spec fn level(self) -> u32 {
        match self {
            ChannelPriority::Low => 50,
            ChannelPriority::Medium => 100,
            ChannelPriority::High => 150,
        }
    }

    /// The timeslice, in microseconds, that a channel of this priority runs
    /// with.
    pub open spec fn spec_timeslice_us(self) -> u32 {
        match self {
            ChannelPriority::High => 5200,
            ChannelPriority::Medium => 2600,
            ChannelPriority::Low => 1300,
        }
    }

    /// The timeslice, in microseconds, that a channel of this priority runs
    /// with.
    #[verifier::when_used_as_spec(spec_timeslice_us)]
    pub fn timeslice_us(self) -> (r: u32)
        ensures
            r == self.spec_timeslice_us(),
    {
        match self {
            ChannelPriority::High => 5200,
            ChannelPriority::Medium => 2600,
            ChannelPriority::Low => 1300,
        }
    }
}

impl From<ChannelPriority> for u32 {
    fn from(input: ChannelPriority) -> (r: u32) {
        match input {
            ChannelPriority::Low => 50,
            ChannelPriority::Medium => 100,
            ChannelPriority::High => 150,
        }
    }
}

impl vstd::std_specs::convert::FromSpecImpl<ChannelPriority> for u32 {
    open spec fn obeys_from_spec() -> bool {
        true
    }

    open spec fn from_spec(input: ChannelPriority) -> u32 {
        input.level()
    }
}

/// What the outcome of setting a timeslice means. A device that does not
/// know the request at all is taken as having accepted it; every other
/// outcome is read as that of any device-node call.
pub open spec fn spec_timeslice_status(outcome: IoctlOutcome) -> NvHostResult<()> {
    if outcome == IoctlOutcome::Failed(Some(ENOTTY)) {
        Ok(())
    } else {
        spec_ioctl_status(outcome)
    }
}

/// Classifies the outcome of setting a timeslice.
pub fn timeslice_status(outcome: IoctlOutcome) -> (r: NvHostResult<()>)
    ensures
        r == spec_timeslice_status(outcome),
{
    match outcome {
        IoctlOutcome::Failed(Some(code)) => {
            if code == ENOTTY {
                return Ok(());
            }
        },
        _ => {},
    }
    ioctl_status(outcome)
}

} // verus!
