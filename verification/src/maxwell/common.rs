//! Values that the engines share.

use vstd::prelude::*;

verus! {

/// How a release combines its payload with what is in memory.
#[derive(PartialEq, Eq, Debug, Clone, Copy, Structural)]
pub enum ReductionOperation {
    Add,
    Min,
    Max,
    Increment,
    Decrement,
    And,
    Or,
    Xor,
    Unknown(u32),
}

impl ReductionOperation {
    /// The number that stands for the value in a register.
    pub open spec fn to_raw(self) -> u32 {
        match self {
            ReductionOperation::Add => 0,
            ReductionOperation::Min => 1,
            ReductionOperation::Max => 2,
            ReductionOperation::Increment => 3,
            ReductionOperation::Decrement => 4,
            ReductionOperation::And => 5,
            ReductionOperation::Or => 6,
            ReductionOperation::Xor => 7,
            ReductionOperation::Unknown(val) => val,
        }
    }

    /// The value that a number in a register stands for.
    pub open spec fn from_raw(mode: u32) -> Self {
        match mode {
            0 => ReductionOperation::Add,
            1 => ReductionOperation::Min,
            2 => ReductionOperation::Max,
            3 => ReductionOperation::Increment,
            4 => ReductionOperation::Decrement,
            5 => ReductionOperation::And,
            6 => ReductionOperation::Or,
            7 => ReductionOperation::Xor,
            val => ReductionOperation::Unknown(val),
        }
    }
}

impl From<ReductionOperation> for u32 {
    fn from(mode: ReductionOperation) -> (r: u32) {
        match mode {
            ReductionOperation::Add => 0,
            ReductionOperation::Min => 1,
            ReductionOperation::Max => 2,
            ReductionOperation::Increment => 3,
            ReductionOperation::Decrement => 4,
            ReductionOperation::And => 5,
            ReductionOperation::Or => 6,
            ReductionOperation::Xor => 7,
            ReductionOperation::Unknown(val) => val,
        }
    }
}

impl vstd::std_specs::convert::FromSpecImpl<ReductionOperation> for u32 {
    open spec fn obeys_from_spec() -> bool {
        true
    }

    open spec fn from_spec(mode: ReductionOperation) -> u32 {
        mode.to_raw()
    }
}

impl From<u32> for ReductionOperation {
    fn from(mode: u32) -> (r: ReductionOperation) {
        match mode {
            0 => ReductionOperation::Add,
            1 => ReductionOperation::Min,
            2 => ReductionOperation::Max,
            3 => ReductionOperation::Increment,
            4 => ReductionOperation::Decrement,
            5 => ReductionOperation::And,
            6 => ReductionOperation::Or,
            7 => ReductionOperation::Xor,
            val => ReductionOperation::Unknown(val),
        }
    }
}

impl vstd::std_specs::convert::FromSpecImpl<u32> for ReductionOperation {
    open spec fn obeys_from_spec() -> bool {
        true
    }

    open spec fn from_spec(mode: u32) -> ReductionOperation {
        ReductionOperation::from_raw(mode)
    }
}
} // verus!
