//! The copy engine: its launch register and the commands of a linear copy.

use crate::bits::{
    field_get, field_set, flag_get, flag_set, lemma_bit_is_flag, lemma_bit_range_is_field,
    lemma_set_bit_range_is_field, word_bit, word_bit_range, word_set_bit, word_set_bit_range,
};
use crate::command::{
    address_words, Command, CommandSubmissionMode, CommandView, GpuVirtualAddress, SubChannelId,
};
use crate::error::NvGpuResult;
use crate::fifo_entry::header_word;
use crate::stream::{CommandStream, StreamView};
use vstd::prelude::*;

verus! {

/// How a copy moves its data.
#[derive(PartialEq, Eq, Debug, Clone, Copy, Structural)]
pub enum DataTransferType {
    Off,
    Pipelined,
    NonPipelined,
    Unknown(u32),
}

impl DataTransferType {
    /// The number that stands for the value in a register.
    pub open spec fn to_raw(self) -> u32 {
        match self {
            DataTransferType::Off => 0,
            DataTransferType::Pipelined => 1,
            DataTransferType::NonPipelined => 2,
            DataTransferType::Unknown(val) => val,
        }
    }

    /// The value that a number in a register stands for.
    pub open spec fn from_raw(mode: u32) -> Self {
        match mode {
            0 => DataTransferType::Off,
            1 => DataTransferType::Pipelined,
            2 => DataTransferType::NonPipelined,
            val => DataTransferType::Unknown(val),
        }
    }
}

impl From<DataTransferType> for u32 {
    fn from(mode: DataTransferType) -> (r: u32) {
        match mode {
            DataTransferType::Off => 0,
            DataTransferType::Pipelined => 1,
            DataTransferType::NonPipelined => 2,
            DataTransferType::Unknown(val) => val,
        }
    }
}

impl vstd::std_specs::convert::FromSpecImpl<DataTransferType> for u32 {
    open spec fn obeys_from_spec() -> bool {
        true
    }

    open spec fn from_spec(mode: DataTransferType) -> u32 {
        mode.to_raw()
    }
}

impl From<u32> for DataTransferType {
    fn from(mode: u32) -> (r: DataTransferType) {
        match mode {
            0 => DataTransferType::Off,
            1 => DataTransferType::Pipelined,
            2 => DataTransferType::NonPipelined,
            val => DataTransferType::Unknown(val),
        }
    }
}

impl vstd::std_specs::convert::FromSpecImpl<u32> for DataTransferType {
    open spec fn obeys_from_spec() -> bool {
        true
    }

    open spec fn from_spec(mode: u32) -> DataTransferType {
        DataTransferType::from_raw(mode)
    }
}

/// What a copy releases when it is done.
#[derive(PartialEq, Eq, Debug, Clone, Copy, Structural)]
pub enum SemaphoreType {
    Off,
    ReleaseOneWord,
    ReleaseFourWord,
    Unknown(u32),
}

impl SemaphoreType {
    /// The number that stands for the value in a register.
    pub open spec fn to_raw(self) -> u32 {
        match self {
            SemaphoreType::Off => 0,
            SemaphoreType::ReleaseOneWord => 1,
            SemaphoreType::ReleaseFourWord => 2,
            SemaphoreType::Unknown(val) => val,
        }
    }

    /// The value that a number in a register stands for.
    pub open spec fn from_raw(mode: u32) -> Self {
        match mode {
            0 => SemaphoreType::Off,
            1 => SemaphoreType::ReleaseOneWord,
            2 => SemaphoreType::ReleaseFourWord,
            val => SemaphoreType::Unknown(val),
        }
    }
}

impl From<SemaphoreType> for u32 {
    fn from(mode: SemaphoreType) -> (r: u32) {
        match mode {
            SemaphoreType::Off => 0,
            SemaphoreType::ReleaseOneWord => 1,
            SemaphoreType::ReleaseFourWord => 2,
            SemaphoreType::Unknown(val) => val,
        }
    }
}

impl vstd::std_specs::convert::FromSpecImpl<SemaphoreType> for u32 {
    open spec fn obeys_from_spec() -> bool {
        true
    }

    open spec fn from_spec(mode: SemaphoreType) -> u32 {
        mode.to_raw()
    }
}

impl From<u32> for SemaphoreType {
    fn from(mode: u32) -> (r: SemaphoreType) {
        match mode {
            0 => SemaphoreType::Off,
            1 => SemaphoreType::ReleaseOneWord,
            2 => SemaphoreType::ReleaseFourWord,
            val => SemaphoreType::Unknown(val),
        }
    }
}

impl vstd::std_specs::convert::FromSpecImpl<u32> for SemaphoreType {
    open spec fn obeys_from_spec() -> bool {
        true
    }

    open spec fn from_spec(mode: u32) -> SemaphoreType {
        SemaphoreType::from_raw(mode)
    }
}

/// Whether a copy raises an interrupt when it is done.
#[derive(PartialEq, Eq, Debug, Clone, Copy, Structural)]
pub enum InterruptType {
    Off,
    Blocking,
    NonBlocking,
    Unknown(u32),
}

impl InterruptType {
    /// The number that stands for the value in a register.
    pub open spec fn to_raw(self) -> u32 {
        match self {
            InterruptType::Off => 0,
            InterruptType::Blocking => 1,
            InterruptType::NonBlocking => 2,
            InterruptType::Unknown(val) => val,
        }
    }

    /// The value that a number in a register stands for.
    pub open spec fn from_raw(mode: u32) -> Self {
        match mode {
            0 => InterruptType::Off,
            1 => InterruptType::Blocking,
            2 => InterruptType::NonBlocking,
            val => InterruptType::Unknown(val),
        }
    }
}

impl From<InterruptType> for u32 {
    fn from(mode: InterruptType) -> (r: u32) {
        match mode {
            InterruptType::Off => 0,
            InterruptType::Blocking => 1,
            InterruptType::NonBlocking => 2,
            InterruptType::Unknown(val) => val,
        }
    }
}

impl vstd::std_specs::convert::FromSpecImpl<InterruptType> for u32 {
    open spec fn obeys_from_spec() -> bool {
        true
    }

    open spec fn from_spec(mode: InterruptType) -> u32 {
        mode.to_raw()
    }
}

impl From<u32> for InterruptType {
    fn from(mode: u32) -> (r: InterruptType) {
        match mode {
            0 => InterruptType::Off,
            1 => InterruptType::Blocking,
            2 => InterruptType::NonBlocking,
            val => InterruptType::Unknown(val),
        }
    }
}

impl vstd::std_specs::convert::FromSpecImpl<u32> for InterruptType {
    open spec fn obeys_from_spec() -> bool {
        true
    }

    open spec fn from_spec(mode: u32) -> InterruptType {
        InterruptType::from_raw(mode)
    }
}

/// How a surface lies in memory.
#[derive(PartialEq, Eq, Debug, Clone, Copy, Structural)]
pub enum MemoryLayout {
    BlockLinear,
    Pitch,
    Unknown(u32),
}

impl MemoryLayout {
    /// The number that stands for the value in a register.
    pub open spec fn to_raw(self) -> u32 {
        match self {
            MemoryLayout::BlockLinear => 0,
            MemoryLayout::Pitch => 1,
            MemoryLayout::Unknown(val) => val,
        }
    }

    /// The value that a number in a register stands for.
    pub open spec fn from_raw(mode: u32) -> Self {
        match mode {
            0 => MemoryLayout::BlockLinear,
            1 => MemoryLayout::Pitch,
            val => MemoryLayout::Unknown(val),
        }
    }
}

impl From<MemoryLayout> for u32 {
    fn from(mode: MemoryLayout) -> (r: u32) {
        match mode {
            MemoryLayout::BlockLinear => 0,
            MemoryLayout::Pitch => 1,
            MemoryLayout::Unknown(val) => val,
        }
    }
}

impl vstd::std_specs::convert::FromSpecImpl<MemoryLayout> for u32 {
    open spec fn obeys_from_spec() -> bool {
        true
    }

    open spec fn from_spec(mode: MemoryLayout) -> u32 {
        mode.to_raw()
    }
}

impl From<u32> for MemoryLayout {
    fn from(mode: u32) -> (r: MemoryLayout) {
        match mode {
            0 => MemoryLayout::BlockLinear,
            1 => MemoryLayout::Pitch,
            val => MemoryLayout::Unknown(val),
        }
    }
}

impl vstd::std_specs::convert::FromSpecImpl<u32> for MemoryLayout {
    open spec fn obeys_from_spec() -> bool {
        true
    }

    open spec fn from_spec(mode: u32) -> MemoryLayout {
        MemoryLayout::from_raw(mode)
    }
}

/// The kind of address that a copy is given.
#[derive(PartialEq, Eq, Debug, Clone, Copy, Structural)]
pub enum MemoryType {
    Virtual,
    Physical,
    Unknown(u32),
}

impl MemoryType {
    /// The number that stands for the value in a register.
    pub open spec fn to_raw(self) -> u32 {
        match self {
            MemoryType::Virtual => 0,
            MemoryType::Physical => 1,
            MemoryType::Unknown(val) => val,
        }
    }

    /// The value that a number in a register stands for.
    pub open spec fn from_raw(mode: u32) -> Self {
        match mode {
            0 => MemoryType::Virtual,
            1 => MemoryType::Physical,
            val => MemoryType::Unknown(val),
        }
    }
}

impl From<MemoryType> for u32 {
    fn from(mode: MemoryType) -> (r: u32) {
        match mode {
            MemoryType::Virtual => 0,
            MemoryType::Physical => 1,
            MemoryType::Unknown(val) => val,
        }
    }
}

impl vstd::std_specs::convert::FromSpecImpl<MemoryType> for u32 {
    open spec fn obeys_from_spec() -> bool {
        true
    }

    open spec fn from_spec(mode: MemoryType) -> u32 {
        mode.to_raw()
    }
}

impl From<u32> for MemoryType {
    fn from(mode: u32) -> (r: MemoryType) {
        match mode {
            0 => MemoryType::Virtual,
            1 => MemoryType::Physical,
            val => MemoryType::Unknown(val),
        }
    }
}

impl vstd::std_specs::convert::FromSpecImpl<u32> for MemoryType {
    open spec fn obeys_from_spec() -> bool {
        true
    }

    open spec fn from_spec(mode: u32) -> MemoryType {
        MemoryType::from_raw(mode)
    }
}

/// How a semaphore release combines its payload with what is in memory.
#[derive(PartialEq, Eq, Debug, Clone, Copy, Structural)]
pub enum SemaphoreReduction {
    IMin,
    IMax,
    IXor,
    IAnd,
    IOr,
    IAdd,
    Increment,
    Decrement,
    FAdd,
    Unknown(u32),
}

impl SemaphoreReduction {
    /// The number that stands for the value in a register.
    pub open spec fn to_raw(self) -> u32 {
        match self {
            SemaphoreReduction::IMin => 0,
            SemaphoreReduction::IMax => 1,
            SemaphoreReduction::IXor => 2,
            SemaphoreReduction::IAnd => 3,
            SemaphoreReduction::IOr => 4,
            SemaphoreReduction::IAdd => 5,
            SemaphoreReduction::Increment => 6,
            SemaphoreReduction::Decrement => 7,
            SemaphoreReduction::FAdd => 0xA,
            SemaphoreReduction::Unknown(val) => val,
        }
    }

    /// The value that a number in a register stands for.
    pub open spec fn from_raw(mode: u32) -> Self {
        match mode {
            0 => SemaphoreReduction::IMin,
            1 => SemaphoreReduction::IMax,
            2 => SemaphoreReduction::IXor,
            3 => SemaphoreReduction::IAnd,
            4 => SemaphoreReduction::IOr,
            5 => SemaphoreReduction::IAdd,
            6 => SemaphoreReduction::Increment,
            7 => SemaphoreReduction::Decrement,
            0xA => SemaphoreReduction::FAdd,
            val => SemaphoreReduction::Unknown(val),
        }
    }
}

impl From<SemaphoreReduction> for u32 {
    fn from(mode: SemaphoreReduction) -> (r: u32) {
        match mode {
            SemaphoreReduction::IMin => 0,
            SemaphoreReduction::IMax => 1,
            SemaphoreReduction::IXor => 2,
            SemaphoreReduction::IAnd => 3,
            SemaphoreReduction::IOr => 4,
            SemaphoreReduction::IAdd => 5,
            SemaphoreReduction::Increment => 6,
            SemaphoreReduction::Decrement => 7,
            SemaphoreReduction::FAdd => 0xA,
            SemaphoreReduction::Unknown(val) => val,
        }
    }
}

impl vstd::std_specs::convert::FromSpecImpl<SemaphoreReduction> for u32 {
    open spec fn obeys_from_spec() -> bool {
        true
    }

    open spec fn from_spec(mode: SemaphoreReduction) -> u32 {
        mode.to_raw()
    }
}

impl From<u32> for SemaphoreReduction {
    fn from(mode: u32) -> (r: SemaphoreReduction) {
        match mode {
            0 => SemaphoreReduction::IMin,
            1 => SemaphoreReduction::IMax,
            2 => SemaphoreReduction::IXor,
            3 => SemaphoreReduction::IAnd,
            4 => SemaphoreReduction::IOr,
            5 => SemaphoreReduction::IAdd,
            6 => SemaphoreReduction::Increment,
            7 => SemaphoreReduction::Decrement,
            0xA => SemaphoreReduction::FAdd,
            val => SemaphoreReduction::Unknown(val),
        }
    }
}

impl vstd::std_specs::convert::FromSpecImpl<u32> for SemaphoreReduction {
    open spec fn obeys_from_spec() -> bool {
        true
    }

    open spec fn from_spec(mode: u32) -> SemaphoreReduction {
        SemaphoreReduction::from_raw(mode)
    }
}

/// Whether a copy goes past the second-level cache.
#[derive(PartialEq, Eq, Debug, Clone, Copy, Structural)]
pub enum BypassL2 {
    UsePteSetting,
    ForceVolatile,
    Unknown(u32),
}

impl BypassL2 {
    /// The number that stands for the value in a register.
    pub open spec fn to_raw(self) -> u32 {
        match self {
            BypassL2::UsePteSetting => 0,
            BypassL2::ForceVolatile => 1,
            BypassL2::Unknown(val) => val,
        }
    }

    /// The value that a number in a register stands for.
    pub open spec fn from_raw(mode: u32) -> Self {
        match mode {
            0 => BypassL2::UsePteSetting,
            1 => BypassL2::ForceVolatile,
            val => BypassL2::Unknown(val),
        }
    }
}

impl From<BypassL2> for u32 {
    fn from(mode: BypassL2) -> (r: u32) {
        match mode {
            BypassL2::UsePteSetting => 0,
            BypassL2::ForceVolatile => 1,
            BypassL2::Unknown(val) => val,
        }
    }
}

impl vstd::std_specs::convert::FromSpecImpl<BypassL2> for u32 {
    open spec fn obeys_from_spec() -> bool {
        true
    }

    open spec fn from_spec(mode: BypassL2) -> u32 {
        mode.to_raw()
    }
}

impl From<u32> for BypassL2 {
    fn from(mode: u32) -> (r: BypassL2) {
        match mode {
            0 => BypassL2::UsePteSetting,
            1 => BypassL2::ForceVolatile,
            val => BypassL2::Unknown(val),
        }
    }
}

impl vstd::std_specs::convert::FromSpecImpl<u32> for BypassL2 {
    open spec fn obeys_from_spec() -> bool {
        true
    }

    open spec fn from_spec(mode: u32) -> BypassL2 {
        BypassL2::from_raw(mode)
    }
}
/// The register that launches a copy.
#[derive(Clone, Copy, Debug)]
pub struct LaunchDma(pub u32);

impl LaunchDma {
    /// A launch register with nothing set.
    pub fn new() -> (r: LaunchDma)
        ensures
            r.0 == 0,
    {
        LaunchDma(0)
    }

    #[inline]
    pub fn data_transfer(&self) -> (r: DataTransferType)
        ensures
            r == DataTransferType::from_raw(field_get(self.0, 1, 0)),
    {
        proof {
            lemma_bit_range_is_field(self.0, 1, 0);
        }
        DataTransferType::from(word_bit_range(self.0, 1, 0))
    }

    #[inline]
    pub fn set_data_transfer(&mut self, value: DataTransferType)
        ensures
            final(self).0 == field_set(old(self).0, 1, 0, value.to_raw()),
    {
        proof {
            lemma_set_bit_range_is_field(self.0, 1, 0, value.to_raw());
        }
        word_set_bit_range(&mut self.0, 1, 0, u32::from(value));
    }

    #[inline]
    pub fn flush_enable(&self) -> (r: bool)
        ensures
            r == flag_get(self.0, 2),
    {
        proof {
            lemma_bit_is_flag(self.0, 2, false);
        }
        word_bit(self.0, 2)
    }

    #[inline]
    pub fn set_flush_enable(&mut self, value: bool)
        ensures
            final(self).0 == flag_set(old(self).0, 2, value),
    {
        proof {
            lemma_bit_is_flag(self.0, 2, value);
        }
        word_set_bit(&mut self.0, 2, value);
    }

    #[inline]
    pub fn semaphore_type(&self) -> (r: SemaphoreType)
        ensures
            r == SemaphoreType::from_raw(field_get(self.0, 4, 3)),
    {
        proof {
            lemma_bit_range_is_field(self.0, 4, 3);
        }
        SemaphoreType::from(word_bit_range(self.0, 4, 3))
    }

    #[inline]
    pub fn set_semaphore_type(&mut self, value: SemaphoreType)
        ensures
            final(self).0 == field_set(old(self).0, 4, 3, value.to_raw()),
    {
        proof {
            lemma_set_bit_range_is_field(self.0, 4, 3, value.to_raw());
        }
        word_set_bit_range(&mut self.0, 4, 3, u32::from(value));
    }

    #[inline]
    pub fn interrupt_type(&self) -> (r: InterruptType)
        ensures
            r == InterruptType::from_raw(field_get(self.0, 6, 5)),
    {
        proof {
            lemma_bit_range_is_field(self.0, 6, 5);
        }
        InterruptType::from(word_bit_range(self.0, 6, 5))
    }

    #[inline]
    pub fn set_interrupt_type(&mut self, value: InterruptType)
        ensures
            final(self).0 == field_set(old(self).0, 6, 5, value.to_raw()),
    {
        proof {
            lemma_set_bit_range_is_field(self.0, 6, 5, value.to_raw());
        }
        word_set_bit_range(&mut self.0, 6, 5, u32::from(value));
    }

    #[inline]
    pub fn src_memory_layout(&self) -> (r: MemoryLayout)
        ensures
            r == MemoryLayout::from_raw(field_get(self.0, 7, 7)),
    {
        proof {
            lemma_bit_range_is_field(self.0, 7, 7);
        }
        MemoryLayout::from(word_bit_range(self.0, 7, 7))
    }

    #[inline]
    pub fn set_src_memory_layout(&mut self, value: MemoryLayout)
        ensures
            final(self).0 == field_set(old(self).0, 7, 7, value.to_raw()),
    {
        proof {
            lemma_set_bit_range_is_field(self.0, 7, 7, value.to_raw());
        }
        word_set_bit_range(&mut self.0, 7, 7, u32::from(value));
    }

    #[inline]
    pub fn dst_memory_layout(&self) -> (r: MemoryLayout)
        ensures
            r == MemoryLayout::from_raw(field_get(self.0, 8, 8)),
    {
        proof {
            lemma_bit_range_is_field(self.0, 8, 8);
        }
        MemoryLayout::from(word_bit_range(self.0, 8, 8))
    }

    #[inline]
    pub fn set_dst_memory_layout(&mut self, value: MemoryLayout)
        ensures
            final(self).0 == field_set(old(self).0, 8, 8, value.to_raw()),
    {
        proof {
            lemma_set_bit_range_is_field(self.0, 8, 8, value.to_raw());
        }
        word_set_bit_range(&mut self.0, 8, 8, u32::from(value));
    }

    #[inline]
    pub fn multi_line_enable(&self) -> (r: bool)
        ensures
            r == flag_get(self.0, 9),
    {
        proof {
            lemma_bit_is_flag(self.0, 9, false);
        }
        word_bit(self.0, 9)
    }

    #[inline]
    pub fn set_multi_line_enable(&mut self, value: bool)
        ensures
            final(self).0 == flag_set(old(self).0, 9, value),
    {
        proof {
            lemma_bit_is_flag(self.0, 9, value);
        }
        word_set_bit(&mut self.0, 9, value);
    }

    #[inline]
    pub fn remap_emable(&self) -> (r: bool)
        ensures
            r == flag_get(self.0, 10),
    {
        proof {
            lemma_bit_is_flag(self.0, 10, false);
        }
        word_bit(self.0, 10)
    }

    #[inline]
    pub fn set_remap_emable(&mut self, value: bool)
        ensures
            final(self).0 == flag_set(old(self).0, 10, value),
    {
        proof {
            lemma_bit_is_flag(self.0, 10, value);
        }
        word_set_bit(&mut self.0, 10, value);
    }

    #[inline]
    pub fn rmw_disable(&self) -> (r: bool)
        ensures
            r == flag_get(self.0, 11),
    {
        proof {
            lemma_bit_is_flag(self.0, 11, false);
        }
        word_bit(self.0, 11)
    }

    #[inline]
    pub fn set_rmw_disable(&mut self, value: bool)
        ensures
            final(self).0 == flag_set(old(self).0, 11, value),
    {
        proof {
            lemma_bit_is_flag(self.0, 11, value);
        }
        word_set_bit(&mut self.0, 11, value);
    }

    #[inline]
    pub fn src_type(&self) -> (r: MemoryType)
        ensures
            r == MemoryType::from_raw(field_get(self.0, 12, 12)),
    {
        proof {
            lemma_bit_range_is_field(self.0, 12, 12);
        }
        MemoryType::from(word_bit_range(self.0, 12, 12))
    }

    #[inline]
    pub fn set_src_type(&mut self, value: MemoryType)
        ensures
            final(self).0 == field_set(old(self).0, 12, 12, value.to_raw()),
    {
        proof {
            lemma_set_bit_range_is_field(self.0, 12, 12, value.to_raw());
        }
        word_set_bit_range(&mut self.0, 12, 12, u32::from(value));
    }

    #[inline]
    pub fn dst_type(&self) -> (r: MemoryType)
        ensures
            r == MemoryType::from_raw(field_get(self.0, 13, 13)),
    {
        proof {
            lemma_bit_range_is_field(self.0, 13, 13);
        }
        MemoryType::from(word_bit_range(self.0, 13, 13))
    }

    #[inline]
    pub fn set_dst_type(&mut self, value: MemoryType)
        ensures
            final(self).0 == field_set(old(self).0, 13, 13, value.to_raw()),
    {
        proof {
            lemma_set_bit_range_is_field(self.0, 13, 13, value.to_raw());
        }
        word_set_bit_range(&mut self.0, 13, 13, u32::from(value));
    }

    #[inline]
    pub fn semaphore_reduction(&self) -> (r: SemaphoreReduction)
        ensures
            r == SemaphoreReduction::from_raw(field_get(self.0, 17, 14)),
    {
        proof {
            lemma_bit_range_is_field(self.0, 17, 14);
        }
        SemaphoreReduction::from(word_bit_range(self.0, 17, 14))
    }

    #[inline]
    pub fn set_semaphore_reduction(&mut self, value: SemaphoreReduction)
        ensures
            final(self).0 == field_set(old(self).0, 17, 14, value.to_raw()),
    {
        proof {
            lemma_set_bit_range_is_field(self.0, 17, 14, value.to_raw());
        }
        word_set_bit_range(&mut self.0, 17, 14, u32::from(value));
    }

    #[inline]
    pub fn reduction_signed(&self) -> (r: bool)
        ensures
            r == flag_get(self.0, 18),
    {
        proof {
            lemma_bit_is_flag(self.0, 18, false);
        }
        word_bit(self.0, 18)
    }

    #[inline]
    pub fn set_reduction_signed(&mut self, value: bool)
        ensures
            final(self).0 == flag_set(old(self).0, 18, value),
    {
        proof {
            lemma_bit_is_flag(self.0, 18, value);
        }
        word_set_bit(&mut self.0, 18, value);
    }

    #[inline]
    pub fn reduction_enable(&self) -> (r: bool)
        ensures
            r == flag_get(self.0, 19),
    {
        proof {
            lemma_bit_is_flag(self.0, 19, false);
        }
        word_bit(self.0, 19)
    }

    #[inline]
    pub fn set_reduction_enable(&mut self, value: bool)
        ensures
            final(self).0 == flag_set(old(self).0, 19, value),
    {
        proof {
            lemma_bit_is_flag(self.0, 19, value);
        }
        word_set_bit(&mut self.0, 19, value);
    }

    #[inline]
    pub fn bypass_l2(&self) -> (r: BypassL2)
        ensures
            r == BypassL2::from_raw(field_get(self.0, 20, 20)),
    {
        proof {
            lemma_bit_range_is_field(self.0, 20, 20);
        }
        BypassL2::from(word_bit_range(self.0, 20, 20))
    }

    #[inline]
    pub fn set_bypass_l2(&mut self, value: BypassL2)
        ensures
            final(self).0 == field_set(old(self).0, 20, 20, value.to_raw()),
    {
        proof {
            lemma_set_bit_range_is_field(self.0, 20, 20, value.to_raw());
        }
        word_set_bit_range(&mut self.0, 20, 20, u32::from(value));
    }
}

/// The launch register of a linear copy between virtual addresses: not
/// pipelined, flushed at the end, both sides in pitch layout.
pub const LINEAR_COPY_LAUNCH: u32 = 0x186;

/// A command without arguments in its header, as a value.
pub open spec fn command_of(
    method: u32,
    sub_channel: SubChannelId,
    mode: CommandSubmissionMode,
    arguments: Seq<u32>,
) -> CommandView {
    CommandView { header: header_word(method, sub_channel.number(), mode.id()), mode, arguments }
}

/// An inline command, as a value.
pub open spec fn inline_command_of(method: u32, sub_channel: SubChannelId, argument: u32)
    -> CommandView {
    CommandView {
        header: field_set(
            header_word(method, sub_channel.number(), CommandSubmissionMode::Inline.id()),
            26,
            16,
            argument,
        ),
        mode: CommandSubmissionMode::Inline,
        arguments: Seq::empty(),
    }
}

/// The commands of a copy of `size` bytes from `src` to `dst`, as one line:
/// one line to copy, the shape of the destination and of the source, the
/// two addresses with the source first, the length of the line, and the
/// launch.
pub open spec fn memcpy_1d_commands(dst: GpuVirtualAddress, src: GpuVirtualAddress, size: u32)
    -> Seq<CommandView> {
    seq![
        inline_command_of(0x107, SubChannelId::DirectMemoryAccess, 1),
        command_of(
            0x1C5,
            SubChannelId::DirectMemoryAccess,
            CommandSubmissionMode::Increasing,
            seq![size, 1, 0],
        ),
        command_of(
            0x1CC,
            SubChannelId::DirectMemoryAccess,
            CommandSubmissionMode::Increasing,
            seq![size, 1, 0],
        ),
        command_of(
            0x100,
            SubChannelId::DirectMemoryAccess,
            CommandSubmissionMode::Increasing,
            address_words(src) + address_words(dst),
        ),
        command_of(
            0x106,
            SubChannelId::DirectMemoryAccess,
            CommandSubmissionMode::Increasing,
            seq![size],
        ),
        command_of(
            0xC0,
            SubChannelId::DirectMemoryAccess,
            CommandSubmissionMode::Increasing,
            seq![LINEAR_COPY_LAUNCH],
        ),
    ]
}

/// The launch register of a linear copy.
fn linear_copy_launch() -> (r: LaunchDma)
    ensures
        r.0 == LINEAR_COPY_LAUNCH,
{
    let mut launch_dma = LaunchDma::new();
    launch_dma.set_data_transfer(DataTransferType::NonPipelined);
    launch_dma.set_flush_enable(true);
    launch_dma.set_src_memory_layout(MemoryLayout::Pitch);
    launch_dma.set_dst_memory_layout(MemoryLayout::Pitch);
    launch_dma.set_src_type(MemoryType::Virtual);
    launch_dma.set_dst_type(MemoryType::Virtual);
    assert(field_set(
        field_set(
            field_set(field_set(flag_set(field_set(0, 1, 0, 2), 2, true), 7, 7, 1), 8, 8, 1),
            12,
            12,
            0,
        ),
        13,
        13,
        0,
    ) == 0x186) by (bit_vector);
    launch_dma
}

/// Puts the commands of a copy of `size` bytes from `src` to `dst` at the
/// end of the list of `command_stream`.
pub fn memcpy_1d(
    command_stream: &mut CommandStream,
    dst: GpuVirtualAddress,
    src: GpuVirtualAddress,
    size: u32,
) -> (r: NvGpuResult<()>)
    ensures
        r is Ok,
        final(command_stream)@ == (StreamView {
            pending: old(command_stream)@.pending + memcpy_1d_commands(dst, src, size),
            ..old(command_stream)@
        }),
{
    // Setup lines to 1
    let setup_lines = Command::new_inline(0x107, SubChannelId::DirectMemoryAccess, 1);
    command_stream.push(setup_lines)?;

    let mut setup_dst = Command::new(
        0x1C5,
        SubChannelId::DirectMemoryAccess,
        CommandSubmissionMode::Increasing,
    );
    // Width = size
    setup_dst.push_argument(size)?;
    // Height = 1
    setup_dst.push_argument(1)?;
    // Depth = 0
    setup_dst.push_argument(0)?;
    assert(setup_dst@.arguments =~= seq![size, 1, 0]);
    command_stream.push(setup_dst)?;

    let mut setup_src = Command::new(
        0x1CC,
        SubChannelId::DirectMemoryAccess,
        CommandSubmissionMode::Increasing,
    );
    // Width = size
    setup_src.push_argument(size)?;
    // Height = 1
    setup_src.push_argument(1)?;
    // Depth = 0
    setup_src.push_argument(0)?;
    assert(setup_src@.arguments =~= seq![size, 1, 0]);
    command_stream.push(setup_src)?;

    // Setup input and output address
    let mut setup_io = Command::new(
        0x100,
        SubChannelId::DirectMemoryAccess,
        CommandSubmissionMode::Increasing,
    );
    setup_io.push_address(src)?;
    setup_io.push_address(dst)?;
    assert(setup_io@.arguments =~= address_words(src) + address_words(dst));
    command_stream.push(setup_io)?;

    let mut setup_line_len = Command::new(
        0x106,
        SubChannelId::DirectMemoryAccess,
        CommandSubmissionMode::Increasing,
    );
    // LineLengthIn = size
    setup_line_len.push_argument(size)?;
    assert(setup_line_len@.arguments =~= seq![size]);
    command_stream.push(setup_line_len)?;

    let mut launch_dma_command = Command::new(
        0xC0,
        SubChannelId::DirectMemoryAccess,
        CommandSubmissionMode::Increasing,
    );
    let launch_dma = linear_copy_launch();
    launch_dma_command.push_argument(launch_dma.0)?;
    assert(launch_dma_command@.arguments =~= seq![LINEAR_COPY_LAUNCH]);
    command_stream.push(launch_dma_command)?;

    assert(command_stream@.pending =~= old(command_stream)@.pending + memcpy_1d_commands(
        dst,
        src,
        size,
    ));
    Ok(())
}

} // verus!
