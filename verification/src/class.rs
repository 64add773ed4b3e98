//! The engine classes that a channel can be bound to.

use vstd::prelude::*;

verus! {

/// An engine class of the GPU.
#[derive(Clone, Copy, Debug, PartialEq, Eq, Structural)]
#[allow(non_camel_case_types)]
pub enum ClassId {
    MAXWELL_B_3D,
    MAXWELL_B_COMPUTE,
    INLINE_TO_MEMORY,
    MAXWELL_A_2D,
    MAXWELL_B_DMA,
}

impl ClassId {
    /// The number of the class.
    pub open spec fn number(self) -> u32 {
        match self {
            ClassId::MAXWELL_B_3D => 0xB197,
            ClassId::MAXWELL_B_COMPUTE => 0xB1C0,
            ClassId::INLINE_TO_MEMORY => 0xA140,
            ClassId::MAXWELL_A_2D => 0x902D,
            ClassId::MAXWELL_B_DMA => 0xB0B5,
        }
    }
}

impl From<ClassId> for u32 {
    fn from(class_id: ClassId) -> (r: u32) {
        match class_id {
            ClassId::MAXWELL_B_3D => 0xB197,
            ClassId::MAXWELL_B_COMPUTE => 0xB1C0,
            ClassId::INLINE_TO_MEMORY => 0xA140,
            ClassId::MAXWELL_A_2D => 0x902D,
            ClassId::MAXWELL_B_DMA => 0xB0B5,
        }
    }
}

impl vstd::std_specs::convert::FromSpecImpl<ClassId> for u32 {
    open spec fn obeys_from_spec() -> bool {
        true
    }

    open spec fn from_spec(class_id: ClassId) -> u32 {
        class_id.number()
    }
}

} // verus!
