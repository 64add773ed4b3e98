//! The compute engine: the queue meta data that describes a launch, and
//! the commands that copy bytes from the command stream into memory.

use crate::bits::{
    field_get_u64, field_set_u64, flag_get_u64, flag_set_u64, lemma_bit_is_flag_u64,
    lemma_bit_range_is_field_u64, lemma_set_bit_range_is_field_u64, wide_bit, wide_bit_range,
    wide_set_bit, wide_set_bit_range,
};
use crate::command::{
    address_words, packed_words, Command, CommandSubmissionMode, CommandView, GpuVirtualAddress,
    SubChannelId,
};
use crate::error::NvGpuResult;
use crate::maxwell::common::ReductionOperation;
use crate::maxwell::dma::command_of;
use crate::stream::{CommandStream, StreamView};
use crate::word_array::{
    array_bits, array_flag, array_with_bits, array_with_flag, bit_range, lemma_array_bits_bound,
    lemma_small_ones, narrow_bit_range, set_bit_range,
};
use vstd::prelude::*;

verus! {

/// The kind of the dependent descriptor.
#[derive(PartialEq, Eq, Debug, Clone, Copy, Structural)]
pub enum DependentQmdType {
    Queue,
    Grid,
}

impl DependentQmdType {
    /// The number that stands for the value in a register.
    pub open spec fn to_raw(self) -> u32 {
        match self {
            DependentQmdType::Queue => 0,
            DependentQmdType::Grid => 1,
        }
    }

    /// The value that a number in a register stands for. Only the
    /// numbers that the register defines stand for one.
    pub open spec fn from_raw(mode: u32) -> Self {
        match mode {
            0 => DependentQmdType::Queue,
            _ => DependentQmdType::Grid,
        }
    }

    /// The value that the number `mode` stands for. The register
    /// defines no value for a number above 1.
    pub fn from(mode: u32) -> (r: Self)
        requires
            mode <= 1,
        ensures
            r == Self::from_raw(mode),
    {
        match mode {
            0 => DependentQmdType::Queue,
            _ => DependentQmdType::Grid,
        }
    }
}

impl From<DependentQmdType> for u32 {
    fn from(mode: DependentQmdType) -> (r: u32) {
        match mode {
            DependentQmdType::Queue => 0,
            DependentQmdType::Grid => 1,
        }
    }
}

impl vstd::std_specs::convert::FromSpecImpl<DependentQmdType> for u32 {
    open spec fn obeys_from_spec() -> bool {
        true
    }

    open spec fn from_spec(mode: DependentQmdType) -> u32 {
        mode.to_raw()
    }
}

/// The memory barrier of a release.
#[derive(PartialEq, Eq, Debug, Clone, Copy, Structural)]
pub enum ReleaseMembarType {
    Off,
    SysMembar,
}

impl ReleaseMembarType {
    /// The number that stands for the value in a register.
    pub open spec fn to_raw(self) -> u32 {
        match self {
            ReleaseMembarType::Off => 0,
            ReleaseMembarType::SysMembar => 1,
        }
    }

    /// The value that a number in a register stands for. Only the
    /// numbers that the register defines stand for one.
    pub open spec fn from_raw(mode: u32) -> Self {
        match mode {
            0 => ReleaseMembarType::Off,
            _ => ReleaseMembarType::SysMembar,
        }
    }

    /// The value that the number `mode` stands for. The register
    /// defines no value for a number above 1.
    pub fn from(mode: u32) -> (r: Self)
        requires
            mode <= 1,
        ensures
            r == Self::from_raw(mode),
    {
        match mode {
            0 => ReleaseMembarType::Off,
            _ => ReleaseMembarType::SysMembar,
        }
    }
}

impl From<ReleaseMembarType> for u32 {
    fn from(mode: ReleaseMembarType) -> (r: u32) {
        match mode {
            ReleaseMembarType::Off => 0,
            ReleaseMembarType::SysMembar => 1,
        }
    }
}

impl vstd::std_specs::convert::FromSpecImpl<ReleaseMembarType> for u32 {
    open spec fn obeys_from_spec() -> bool {
        true
    }

    open spec fn from_spec(mode: ReleaseMembarType) -> u32 {
        mode.to_raw()
    }
}

/// The memory barrier of the work distributor.
#[derive(PartialEq, Eq, Debug, Clone, Copy, Structural)]
pub enum CwdMembarTypeL1 {
    Off,
    SysMembar,
    Invalid,
    Membar,
}

impl CwdMembarTypeL1 {
    /// The number that stands for the value in a register.
    pub open spec fn to_raw(self) -> u32 {
        match self {
            CwdMembarTypeL1::Off => 0,
            CwdMembarTypeL1::SysMembar => 1,
            CwdMembarTypeL1::Invalid => 2,
            CwdMembarTypeL1::Membar => 3,
        }
    }

    /// The value that a number in a register stands for. Only the
    /// numbers that the register defines stand for one.
    pub open spec fn from_raw(mode: u32) -> Self {
        match mode {
            0 => CwdMembarTypeL1::Off,
            1 => CwdMembarTypeL1::SysMembar,
            2 => CwdMembarTypeL1::Invalid,
            _ => CwdMembarTypeL1::Membar,
        }
    }

    /// The value that the number `mode` stands for. The register
    /// defines no value for a number above 3.
    pub fn from(mode: u32) -> (r: Self)
        requires
            mode <= 3,
        ensures
            r == Self::from_raw(mode),
    {
        match mode {
            0 => CwdMembarTypeL1::Off,
            1 => CwdMembarTypeL1::SysMembar,
            2 => CwdMembarTypeL1::Invalid,
            _ => CwdMembarTypeL1::Membar,
        }
    }
}

impl From<CwdMembarTypeL1> for u32 {
    fn from(mode: CwdMembarTypeL1) -> (r: u32) {
        match mode {
            CwdMembarTypeL1::Off => 0,
            CwdMembarTypeL1::SysMembar => 1,
            CwdMembarTypeL1::Invalid => 2,
            CwdMembarTypeL1::Membar => 3,
        }
    }
}

impl vstd::std_specs::convert::FromSpecImpl<CwdMembarTypeL1> for u32 {
    open spec fn obeys_from_spec() -> bool {
        true
    }

    open spec fn from_spec(mode: CwdMembarTypeL1) -> u32 {
        mode.to_raw()
    }
}

/// How 32-bit floats treat NaN.
#[derive(PartialEq, Eq, Debug, Clone, Copy, Structural)]
pub enum Fp32NanBehavior {
    Legacy,
    Fp64Compatible,
}

impl Fp32NanBehavior {
    /// The number that stands for the value in a register.
    pub open spec fn to_raw(self) -> u32 {
        match self {
            Fp32NanBehavior::Legacy => 0,
            Fp32NanBehavior::Fp64Compatible => 1,
        }
    }

    /// The value that a number in a register stands for. Only the
    /// numbers that the register defines stand for one.
    pub open spec fn from_raw(mode: u32) -> Self {
        match mode {
            0 => Fp32NanBehavior::Legacy,
            _ => Fp32NanBehavior::Fp64Compatible,
        }
    }

    /// The value that the number `mode` stands for. The register
    /// defines no value for a number above 1.
    pub fn from(mode: u32) -> (r: Self)
        requires
            mode <= 1,
        ensures
            r == Self::from_raw(mode),
    {
        match mode {
            0 => Fp32NanBehavior::Legacy,
            _ => Fp32NanBehavior::Fp64Compatible,
        }
    }
}

impl From<Fp32NanBehavior> for u32 {
    fn from(mode: Fp32NanBehavior) -> (r: u32) {
        match mode {
            Fp32NanBehavior::Legacy => 0,
            Fp32NanBehavior::Fp64Compatible => 1,
        }
    }
}

impl vstd::std_specs::convert::FromSpecImpl<Fp32NanBehavior> for u32 {
    open spec fn obeys_from_spec() -> bool {
        true
    }

    open spec fn from_spec(mode: Fp32NanBehavior) -> u32 {
        mode.to_raw()
    }
}

/// What the conversion of a NaN to an integer gives.
#[derive(PartialEq, Eq, Debug, Clone, Copy, Structural)]
pub enum Fp32F2INanBehavior {
    PassZero,
    PassIndefinite,
}

impl Fp32F2INanBehavior {
    /// The number that stands for the value in a register.
    pub open spec fn to_raw(self) -> u32 {
        match self {
            Fp32F2INanBehavior::PassZero => 0,
            Fp32F2INanBehavior::PassIndefinite => 1,
        }
    }

    /// The value that a number in a register stands for. Only the
    /// numbers that the register defines stand for one.
    pub open spec fn from_raw(mode: u32) -> Self {
        match mode {
            0 => Fp32F2INanBehavior::PassZero,
            _ => Fp32F2INanBehavior::PassIndefinite,
        }
    }

    /// The value that the number `mode` stands for. The register
    /// defines no value for a number above 1.
    pub fn from(mode: u32) -> (r: Self)
        requires
            mode <= 1,
        ensures
            r == Self::from_raw(mode),
    {
        match mode {
            0 => Fp32F2INanBehavior::PassZero,
            _ => Fp32F2INanBehavior::PassIndefinite,
        }
    }
}

impl From<Fp32F2INanBehavior> for u32 {
    fn from(mode: Fp32F2INanBehavior) -> (r: u32) {
        match mode {
            Fp32F2INanBehavior::PassZero => 0,
            Fp32F2INanBehavior::PassIndefinite => 1,
        }
    }
}

impl vstd::std_specs::convert::FromSpecImpl<Fp32F2INanBehavior> for u32 {
    open spec fn obeys_from_spec() -> bool {
        true
    }

    open spec fn from_spec(mode: Fp32F2INanBehavior) -> u32 {
        mode.to_raw()
    }
}

/// The limit on the depth of calls.
#[derive(PartialEq, Eq, Debug, Clone, Copy, Structural)]
pub enum ApiVisibleCallLimit {
    Limit32,
    NoCheck,
}

impl ApiVisibleCallLimit {
    /// The number that stands for the value in a register.
    pub open spec fn to_raw(self) -> u32 {
        match self {
            ApiVisibleCallLimit::Limit32 => 0,
            ApiVisibleCallLimit::NoCheck => 1,
        }
    }

    /// The value that a number in a register stands for. Only the
    /// numbers that the register defines stand for one.
    pub open spec fn from_raw(mode: u32) -> Self {
        match mode {
            0 => ApiVisibleCallLimit::Limit32,
            _ => ApiVisibleCallLimit::NoCheck,
        }
    }

    /// The value that the number `mode` stands for. The register
    /// defines no value for a number above 1.
    pub fn from(mode: u32) -> (r: Self)
        requires
            mode <= 1,
        ensures
            r == Self::from_raw(mode),
    {
        match mode {
            0 => ApiVisibleCallLimit::Limit32,
            _ => ApiVisibleCallLimit::NoCheck,
        }
    }
}

impl From<ApiVisibleCallLimit> for u32 {
    fn from(mode: ApiVisibleCallLimit) -> (r: u32) {
        match mode {
            ApiVisibleCallLimit::Limit32 => 0,
            ApiVisibleCallLimit::NoCheck => 1,
        }
    }
}

impl vstd::std_specs::convert::FromSpecImpl<ApiVisibleCallLimit> for u32 {
    open spec fn obeys_from_spec() -> bool {
        true
    }

    open spec fn from_spec(mode: ApiVisibleCallLimit) -> u32 {
        mode.to_raw()
    }
}

/// The width of a bank of shared memory.
#[derive(PartialEq, Eq, Debug, Clone, Copy, Structural)]
pub enum SharedMemoryBankMapping {
    FourBytesPerBank,
    EightBytesPerBank,
}

impl SharedMemoryBankMapping {
    /// The number that stands for the value in a register.
    pub open spec fn to_raw(self) -> u32 {
        match self {
            SharedMemoryBankMapping::FourBytesPerBank => 0,
            SharedMemoryBankMapping::EightBytesPerBank => 1,
        }
    }

    /// The value that a number in a register stands for. Only the
    /// numbers that the register defines stand for one.
    pub open spec fn from_raw(mode: u32) -> Self {
        match mode {
            0 => SharedMemoryBankMapping::FourBytesPerBank,
            _ => SharedMemoryBankMapping::EightBytesPerBank,
        }
    }

    /// The value that the number `mode` stands for. The register
    /// defines no value for a number above 1.
    pub fn from(mode: u32) -> (r: Self)
        requires
            mode <= 1,
        ensures
            r == Self::from_raw(mode),
    {
        match mode {
            0 => SharedMemoryBankMapping::FourBytesPerBank,
            _ => SharedMemoryBankMapping::EightBytesPerBank,
        }
    }
}

impl From<SharedMemoryBankMapping> for u32 {
    fn from(mode: SharedMemoryBankMapping) -> (r: u32) {
        match mode {
            SharedMemoryBankMapping::FourBytesPerBank => 0,
            SharedMemoryBankMapping::EightBytesPerBank => 1,
        }
    }
}

impl vstd::std_specs::convert::FromSpecImpl<SharedMemoryBankMapping> for u32 {
    open spec fn obeys_from_spec() -> bool {
        true
    }

    open spec fn from_spec(mode: SharedMemoryBankMapping) -> u32 {
        mode.to_raw()
    }
}

/// How a sampler is found.
#[derive(PartialEq, Eq, Debug, Clone, Copy, Structural)]
pub enum SamplerIndex {
    Independently,
    ViaHeaderIndex,
}

impl SamplerIndex {
    /// The number that stands for the value in a register.
    pub open spec fn to_raw(self) -> u32 {
        match self {
            SamplerIndex::Independently => 0,
            SamplerIndex::ViaHeaderIndex => 1,
        }
    }

    /// The value that a number in a register stands for. Only the
    /// numbers that the register defines stand for one.
    pub open spec fn from_raw(mode: u32) -> Self {
        match mode {
            0 => SamplerIndex::Independently,
            _ => SamplerIndex::ViaHeaderIndex,
        }
    }

    /// The value that the number `mode` stands for. The register
    /// defines no value for a number above 1.
    pub fn from(mode: u32) -> (r: Self)
        requires
            mode <= 1,
        ensures
            r == Self::from_raw(mode),
    {
        match mode {
            0 => SamplerIndex::Independently,
            _ => SamplerIndex::ViaHeaderIndex,
        }
    }
}

impl From<SamplerIndex> for u32 {
    fn from(mode: SamplerIndex) -> (r: u32) {
        match mode {
            SamplerIndex::Independently => 0,
            SamplerIndex::ViaHeaderIndex => 1,
        }
    }
}

impl vstd::std_specs::convert::FromSpecImpl<SamplerIndex> for u32 {
    open spec fn obeys_from_spec() -> bool {
        true
    }

    open spec fn from_spec(mode: SamplerIndex) -> u32 {
        mode.to_raw()
    }
}

/// What narrow 32-bit float instructions do with denormals.
#[derive(PartialEq, Eq, Debug, Clone, Copy, Structural)]
pub enum Fp32NarrowInstruction {
    KeepDenorms,
    FlushDenorms,
}

impl Fp32NarrowInstruction {
    /// The number that stands for the value in a register.
    pub open spec fn to_raw(self) -> u32 {
        match self {
            Fp32NarrowInstruction::KeepDenorms => 0,
            Fp32NarrowInstruction::FlushDenorms => 1,
        }
    }

    /// The value that a number in a register stands for. Only the
    /// numbers that the register defines stand for one.
    pub open spec fn from_raw(mode: u32) -> Self {
        match mode {
            0 => Fp32NarrowInstruction::KeepDenorms,
            _ => Fp32NarrowInstruction::FlushDenorms,
        }
    }

    /// The value that the number `mode` stands for. The register
    /// defines no value for a number above 1.
    pub fn from(mode: u32) -> (r: Self)
        requires
            mode <= 1,
        ensures
            r == Self::from_raw(mode),
    {
        match mode {
            0 => Fp32NarrowInstruction::KeepDenorms,
            _ => Fp32NarrowInstruction::FlushDenorms,
        }
    }
}

impl From<Fp32NarrowInstruction> for u32 {
    fn from(mode: Fp32NarrowInstruction) -> (r: u32) {
        match mode {
            Fp32NarrowInstruction::KeepDenorms => 0,
            Fp32NarrowInstruction::FlushDenorms => 1,
        }
    }
}

impl vstd::std_specs::convert::FromSpecImpl<Fp32NarrowInstruction> for u32 {
    open spec fn obeys_from_spec() -> bool {
        true
    }

    open spec fn from_spec(mode: Fp32NarrowInstruction) -> u32 {
        mode.to_raw()
    }
}

/// The split of the first-level cache.
#[derive(PartialEq, Eq, Debug, Clone, Copy, Structural)]
pub enum L1Configuration {
    DirectlyAddressableMemorySize16kb,
    DirectlyAddressableMemorySize32kb,
    DirectlyAddressableMemorySize48kb,
}

impl L1Configuration {
    /// The number that stands for the value in a register.
    pub open spec fn to_raw(self) -> u32 {
        match self {
            L1Configuration::DirectlyAddressableMemorySize16kb => 0,
            L1Configuration::DirectlyAddressableMemorySize32kb => 1,
            L1Configuration::DirectlyAddressableMemorySize48kb => 2,
        }
    }

    /// The value that a number in a register stands for. Only the
    /// numbers that the register defines stand for one.
    pub open spec fn from_raw(mode: u32) -> Self {
        match mode {
            0 => L1Configuration::DirectlyAddressableMemorySize16kb,
            1 => L1Configuration::DirectlyAddressableMemorySize32kb,
            _ => L1Configuration::DirectlyAddressableMemorySize48kb,
        }
    }

    /// The value that the number `mode` stands for. The register
    /// defines no value for a number above 2.
    pub fn from(mode: u32) -> (r: Self)
        requires
            mode <= 2,
        ensures
            r == Self::from_raw(mode),
    {
        match mode {
            0 => L1Configuration::DirectlyAddressableMemorySize16kb,
            1 => L1Configuration::DirectlyAddressableMemorySize32kb,
            _ => L1Configuration::DirectlyAddressableMemorySize48kb,
        }
    }
}

impl From<L1Configuration> for u32 {
    fn from(mode: L1Configuration) -> (r: u32) {
        match mode {
            L1Configuration::DirectlyAddressableMemorySize16kb => 0,
            L1Configuration::DirectlyAddressableMemorySize32kb => 1,
            L1Configuration::DirectlyAddressableMemorySize48kb => 2,
        }
    }
}

impl vstd::std_specs::convert::FromSpecImpl<L1Configuration> for u32 {
    open spec fn obeys_from_spec() -> bool {
        true
    }

    open spec fn from_spec(mode: L1Configuration) -> u32 {
        mode.to_raw()
    }
}

/// The size of what a release writes.
#[derive(PartialEq, Eq, Debug, Clone, Copy, Structural)]
pub enum StructureSize {
    FourWords,
    OneWord,
}

impl StructureSize {
    /// The number that stands for the value in a register.
    pub open spec fn to_raw(self) -> u32 {
        match self {
            StructureSize::FourWords => 0,
            StructureSize::OneWord => 1,
        }
    }

    /// The value that a number in a register stands for. Only the
    /// numbers that the register defines stand for one.
    pub open spec fn from_raw(mode: u32) -> Self {
        match mode {
            0 => StructureSize::FourWords,
            _ => StructureSize::OneWord,
        }
    }

    /// The value that the number `mode` stands for. The register
    /// defines no value for a number above 1.
    pub fn from(mode: u32) -> (r: Self)
        requires
            mode <= 1,
        ensures
            r == Self::from_raw(mode),
    {
        match mode {
            0 => StructureSize::FourWords,
            _ => StructureSize::OneWord,
        }
    }
}

impl From<StructureSize> for u32 {
    fn from(mode: StructureSize) -> (r: u32) {
        match mode {
            StructureSize::FourWords => 0,
            StructureSize::OneWord => 1,
        }
    }
}

impl vstd::std_specs::convert::FromSpecImpl<StructureSize> for u32 {
    open spec fn obeys_from_spec() -> bool {
        true
    }

    open spec fn from_spec(mode: StructureSize) -> u32 {
        mode.to_raw()
    }
}
/// One constant buffer of a launch: 40 bits of address, a flag, and a size.
#[derive(Clone, Copy, Debug)]
pub struct QueueMetaData17ConstantBuffer(pub u64);

impl QueueMetaData17ConstantBuffer {
    #[inline]
    pub fn address_lower(&self) -> (r: u32)
        ensures
            r == field_get_u64(self.0, 31, 0),
    {
        proof {
            lemma_bit_range_is_field_u64(self.0, 31, 0);
        }
        wide_bit_range(self.0, 31, 0)
    }

    #[inline]
    pub fn set_address_lower(&mut self, value: u32)
        ensures
            final(self).0 == field_set_u64(old(self).0, 31, 0, value),
    {
        proof {
            lemma_set_bit_range_is_field_u64(self.0, 31, 0, value);
        }
        wide_set_bit_range(&mut self.0, 31, 0, value);
    }

    #[inline]
    pub fn address_upper(&self) -> (r: u32)
        ensures
            r == field_get_u64(self.0, 39, 32),
    {
        proof {
            lemma_bit_range_is_field_u64(self.0, 39, 32);
        }
        wide_bit_range(self.0, 39, 32)
    }

    #[inline]
    pub fn set_address_upper(&mut self, value: u32)
        ensures
            final(self).0 == field_set_u64(old(self).0, 39, 32, value),
    {
        proof {
            lemma_set_bit_range_is_field_u64(self.0, 39, 32, value);
        }
        wide_set_bit_range(&mut self.0, 39, 32, value);
    }

    #[inline]
    pub fn reserved_addr(&self) -> (r: u32)
        ensures
            r == field_get_u64(self.0, 45, 40),
    {
        proof {
            lemma_bit_range_is_field_u64(self.0, 45, 40);
        }
        wide_bit_range(self.0, 45, 40)
    }

    #[inline]
    pub fn set_reserved_addr(&mut self, value: u32)
        ensures
            final(self).0 == field_set_u64(old(self).0, 45, 40, value),
    {
        proof {
            lemma_set_bit_range_is_field_u64(self.0, 45, 40, value);
        }
        wide_set_bit_range(&mut self.0, 45, 40, value);
    }

    #[inline]
    pub fn invalidate(&self) -> (r: bool)
        ensures
            r == flag_get_u64(self.0, 46),
    {
        proof {
            lemma_bit_is_flag_u64(self.0, 46, false);
        }
        wide_bit(self.0, 46)
    }

    #[inline]
    pub fn set_invalidate(&mut self, value: bool)
        ensures
            final(self).0 == flag_set_u64(old(self).0, 46, value),
    {
        proof {
            lemma_bit_is_flag_u64(self.0, 46, value);
        }
        wide_set_bit(&mut self.0, 46, value);
    }

    #[inline]
    pub fn size(&self) -> (r: u32)
        ensures
            r == field_get_u64(self.0, 63, 47),
    {
        proof {
            lemma_bit_range_is_field_u64(self.0, 63, 47);
        }
        wide_bit_range(self.0, 63, 47)
    }

    #[inline]
    pub fn set_size(&mut self, value: u32)
        ensures
            final(self).0 == field_set_u64(old(self).0, 63, 47, value),
    {
        proof {
            lemma_set_bit_range_is_field_u64(self.0, 63, 47, value);
        }
        wide_set_bit_range(&mut self.0, 63, 47, value);
    }
}

/// One release of a launch: where to write, what, and how.
#[derive(Clone, Copy, Debug)]
pub struct QueueMetaData17Release(pub [u32; 3]);

impl QueueMetaData17Release {
    /// Reads the bits `lsb..=msb` of the words.
    pub fn bit_range(&self, msb: usize, lsb: usize) -> (r: u32)
        requires
            lsb <= msb < 32 * 3,
            msb - lsb < 32,
        ensures
            r == array_bits(self.0@, msb as int, lsb as int),
    {
        bit_range(self.0.as_slice(), msb, lsb)
    }

    /// Writes the low bits of `value` to the bits `lsb..=msb` of the words.
    pub fn set_bit_range(&mut self, msb: usize, lsb: usize, value: u32)
        requires
            lsb <= msb < 32 * 3,
        ensures
            final(self).0@ == array_with_bits(old(self).0@, msb as int, lsb as int, value),
    {
        set_bit_range(&mut self.0, msb, lsb, value);
    }

    /// Reads bit `bit` of the words.
    pub fn bit(&self, bit: usize) -> (r: bool)
        requires
            bit < 32 * 3,
        ensures
            r == array_flag(self.0@, bit as int),
    {
        bit_range(self.0.as_slice(), bit, bit) != 0
    }

    /// Writes bit `bit` of the words.
    pub fn set_bit(&mut self, bit: usize, value: bool)
        requires
            bit < 32 * 3,
        ensures
            final(self).0@ == array_with_flag(old(self).0@, bit as int, value),
    {
        let raw: u32 = if value {
            1
        } else {
            0
        };
        set_bit_range(&mut self.0, bit, bit, raw);
    }

    #[inline]
    pub fn address_lower(&self) -> (r: u32)
        ensures
            r == array_bits(self.0@, 31, 0),
    {
        self.bit_range(31, 0)
    }

    #[inline]
    pub fn set_address_lower(&mut self, value: u32)
        ensures
            final(self).0@ == array_with_bits(old(self).0@, 31, 0, value),
    {
        self.set_bit_range(31, 0, value);
    }

    #[inline]
    pub fn address_upper(&self) -> (r: u32)
        ensures
            r == array_bits(self.0@, 39, 32),
    {
        self.bit_range(39, 32)
    }

    #[inline]
    pub fn set_address_upper(&mut self, value: u32)
        ensures
            final(self).0@ == array_with_bits(old(self).0@, 39, 32, value),
    {
        self.set_bit_range(39, 32, value);
    }

    #[inline]
    pub fn reduction_op(&self) -> (r: ReductionOperation)
        ensures
            r == ReductionOperation::from_raw(array_bits(self.0@, 54, 52)),
    {
        ReductionOperation::from(self.bit_range(54, 52))
    }

    #[inline]
    pub fn set_reduction_op(&mut self, value: ReductionOperation)
        ensures
            final(self).0@ == array_with_bits(old(self).0@, 54, 52, value.to_raw()),
    {
        self.set_bit_range(54, 52, u32::from(value));
    }

    #[inline]
    pub fn reduction_signed(&self) -> (r: bool)
        ensures
            r == array_flag(self.0@, 56),
    {
        self.bit(56)
    }

    #[inline]
    pub fn set_reduction_signed(&mut self, value: bool)
        ensures
            final(self).0@ == array_with_flag(old(self).0@, 56, value),
    {
        self.set_bit(56, value);
    }

    #[inline]
    pub fn reduction_enable(&self) -> (r: bool)
        ensures
            r == array_flag(self.0@, 58),
    {
        self.bit(58)
    }

    #[inline]
    pub fn set_reduction_enable(&mut self, value: bool)
        ensures
            final(self).0@ == array_with_flag(old(self).0@, 58, value),
    {
        self.set_bit(58, value);
    }

    #[inline]
    pub fn structure_size(&self) -> (r: StructureSize)
        ensures
            r == StructureSize::from_raw(array_bits(self.0@, 63, 63)),
    {
        proof {
            lemma_array_bits_bound(self.0@, 63, 63);
            lemma_small_ones();
        }
        StructureSize::from(self.bit_range(63, 63))
    }

    #[inline]
    pub fn set_structure_size(&mut self, value: StructureSize)
        ensures
            final(self).0@ == array_with_bits(old(self).0@, 63, 63, value.to_raw()),
    {
        self.set_bit_range(63, 63, u32::from(value));
    }

    #[inline]
    pub fn payload(&self) -> (r: u32)
        ensures
            r == array_bits(self.0@, 95, 64),
    {
        self.bit_range(95, 64)
    }

    #[inline]
    pub fn set_payload(&mut self, value: u32)
        ensures
            final(self).0@ == array_with_bits(old(self).0@, 95, 64, value),
    {
        self.set_bit_range(95, 64, value);
    }
}

/// The number of words of the queue meta data.
pub const QMD_WORDS: usize = 0x40;

/// The word at which the releases begin.
pub const QMD_RELEASE_OFFSET: usize = 0x17;

/// The word at which the constant buffers begin.
pub const QMD_CONSTANT_BUFFER_OFFSET: usize = 0x1D;

/// The queue meta data of a launch, version 1.7.
#[derive(Clone, Copy, Debug)]
pub struct QueueMetaData17(pub [u32; 64]);

/// `words` with the words of `part` from `start` on.
pub open spec fn with_words(words: Seq<u32>, start: int, part: Seq<u32>) -> Seq<u32> {
    Seq::new(
        words.len(),
        |i: int|
            if start <= i < start + part.len() {
                part[i - start]
            } else {
                words[i]
            },
    )
}

/// The lower and the upper half of a 64-bit value, lower first.
pub open spec fn halves(value: u64) -> Seq<u32> {
    seq![value as u32, (value >> 32) as u32]
}

impl QueueMetaData17 {
    /// Reads the bits `lsb..=msb` of the words.
    pub fn bit_range(&self, msb: usize, lsb: usize) -> (r: u32)
        requires
            lsb <= msb < 32 * 64,
            msb - lsb < 32,
        ensures
            r == array_bits(self.0@, msb as int, lsb as int),
    {
        bit_range(self.0.as_slice(), msb, lsb)
    }

    /// Writes the low bits of `value` to the bits `lsb..=msb` of the words.
    pub fn set_bit_range(&mut self, msb: usize, lsb: usize, value: u32)
        requires
            lsb <= msb < 32 * 64,
        ensures
            final(self).0@ == array_with_bits(old(self).0@, msb as int, lsb as int, value),
    {
        set_bit_range(&mut self.0, msb, lsb, value);
    }

    /// Reads bit `bit` of the words.
    pub fn bit(&self, bit: usize) -> (r: bool)
        requires
            bit < 32 * 64,
        ensures
            r == array_flag(self.0@, bit as int),
    {
        bit_range(self.0.as_slice(), bit, bit) != 0
    }

    /// Writes bit `bit` of the words.
    pub fn set_bit(&mut self, bit: usize, value: bool)
        requires
            bit < 32 * 64,
        ensures
            final(self).0@ == array_with_flag(old(self).0@, bit as int, value),
    {
        let raw: u32 = if value {
            1
        } else {
            0
        };
        set_bit_range(&mut self.0, bit, bit, raw);
    }

    #[inline]
    pub fn outer_put(&self) -> (r: u32)
        ensures
            r == array_bits(self.0@, 30, 0),
    {
        self.bit_range(30, 0)
    }

    #[inline]
    pub fn set_outer_put(&mut self, value: u32)
        ensures
            final(self).0@ == array_with_bits(old(self).0@, 30, 0, value),
    {
        self.set_bit_range(30, 0, value);
    }

    #[inline]
    pub fn outer_overflow(&self) -> (r: bool)
        ensures
            r == array_flag(self.0@, 31),
    {
        self.bit(31)
    }

    #[inline]
    pub fn set_outer_overflow(&mut self, value: bool)
        ensures
            final(self).0@ == array_with_flag(old(self).0@, 31, value),
    {
        self.set_bit(31, value);
    }

    #[inline]
    pub fn outer_get(&self) -> (r: u32)
        ensures
            r == array_bits(self.0@, 62, 32),
    {
        self.bit_range(62, 32)
    }

    #[inline]
    pub fn set_outer_get(&mut self, value: u32)
        ensures
            final(self).0@ == array_with_bits(old(self).0@, 62, 32, value),
    {
        self.set_bit_range(62, 32, value);
    }

    #[inline]
    pub fn outer_sticky_overflow(&self) -> (r: bool)
        ensures
            r == array_flag(self.0@, 63),
    {
        self.bit(63)
    }

    #[inline]
    pub fn set_outer_sticky_overflow(&mut self, value: bool)
        ensures
            final(self).0@ == array_with_flag(old(self).0@, 63, value),
    {
        self.set_bit(63, value);
    }

    #[inline]
    pub fn inner_put(&self) -> (r: u32)
        ensures
            r == array_bits(self.0@, 94, 64),
    {
        self.bit_range(94, 64)
    }

    #[inline]
    pub fn set_inner_put(&mut self, value: u32)
        ensures
            final(self).0@ == array_with_bits(old(self).0@, 94, 64, value),
    {
        self.set_bit_range(94, 64, value);
    }

    #[inline]
    pub fn inner_overflow(&self) -> (r: bool)
        ensures
            r == array_flag(self.0@, 95),
    {
        self.bit(95)
    }

    #[inline]
    pub fn set_inner_overflow(&mut self, value: bool)
        ensures
            final(self).0@ == array_with_flag(old(self).0@, 95, value),
    {
        self.set_bit(95, value);
    }

    #[inline]
    pub fn inner_get(&self) -> (r: u32)
        ensures
            r == array_bits(self.0@, 126, 96),
    {
        self.bit_range(126, 96)
    }

    #[inline]
    pub fn set_inner_get(&mut self, value: u32)
        ensures
            final(self).0@ == array_with_bits(old(self).0@, 126, 96, value),
    {
        self.set_bit_range(126, 96, value);
    }

    #[inline]
    pub fn inner_sticky_overflow(&self) -> (r: bool)
        ensures
            r == array_flag(self.0@, 127),
    {
        self.bit(127)
    }

    #[inline]
    pub fn set_inner_sticky_overflow(&mut self, value: bool)
        ensures
            final(self).0@ == array_with_flag(old(self).0@, 127, value),
    {
        self.set_bit(127, value);
    }

    #[inline]
    pub fn qmd_reserved_a_a(&self) -> (r: u32)
        ensures
            r == array_bits(self.0@, 159, 128),
    {
        self.bit_range(159, 128)
    }

    #[inline]
    pub fn set_qmd_reserved_a_a(&mut self, value: u32)
        ensures
            final(self).0@ == array_with_bits(old(self).0@, 159, 128, value),
    {
        self.set_bit_range(159, 128, value);
    }

    #[inline]
    pub fn dependent_qmd_pointer(&self) -> (r: u32)
        ensures
            r == array_bits(self.0@, 191, 160),
    {
        self.bit_range(191, 160)
    }

    #[inline]
    pub fn set_dependent_qmd_pointer(&mut self, value: u32)
        ensures
            final(self).0@ == array_with_bits(old(self).0@, 191, 160, value),
    {
        self.set_bit_range(191, 160, value);
    }

    #[inline]
    pub fn qmd_group_id(&self) -> (r: u8)
        ensures
            r == array_bits(self.0@, 197, 192),
    {
        narrow_bit_range(self.0.as_slice(), 197, 192)
    }

    #[inline]
    pub fn set_qmd_group_id(&mut self, value: u8)
        ensures
            final(self).0@ == array_with_bits(old(self).0@, 197, 192, value as u32),
    {
        self.set_bit_range(197, 192, value as u32);
    }

    #[inline]
    pub fn sm_global_caching_enable(&self) -> (r: bool)
        ensures
            r == array_flag(self.0@, 198),
    {
        self.bit(198)
    }

    #[inline]
    pub fn set_sm_global_caching_enable(&mut self, value: bool)
        ensures
            final(self).0@ == array_with_flag(old(self).0@, 198, value),
    {
        self.set_bit(198, value);
    }

    #[inline]
    pub fn run_cta_in_one_sm_partition(&self) -> (r: bool)
        ensures
            r == array_flag(self.0@, 199),
    {
        self.bit(199)
    }

    #[inline]
    pub fn set_run_cta_in_one_sm_partition(&mut self, value: bool)
        ensures
            final(self).0@ == array_with_flag(old(self).0@, 199, value),
    {
        self.set_bit(199, value);
    }

    #[inline]
    pub fn is_queue(&self) -> (r: bool)
        ensures
            r == array_flag(self.0@, 200),
    {
        self.bit(200)
    }

    #[inline]
    pub fn set_is_queue(&mut self, value: bool)
        ensures
            final(self).0@ == array_with_flag(old(self).0@, 200, value),
    {
        self.set_bit(200, value);
    }

    #[inline]
    pub fn add_to_head_of_qmd_group_linked_list(&self) -> (r: bool)
        ensures
            r == array_flag(self.0@, 201),
    {
        self.bit(201)
    }

    #[inline]
    pub fn set_add_to_head_of_qmd_group_linked_list(&mut self, value: bool)
        ensures
            final(self).0@ == array_with_flag(old(self).0@, 201, value),
    {
        self.set_bit(201, value);
    }

    #[inline]
    pub fn semaphore_release_enable0(&self) -> (r: bool)
        ensures
            r == array_flag(self.0@, 202),
    {
        self.bit(202)
    }

    #[inline]
    pub fn set_semaphore_release_enable0(&mut self, value: bool)
        ensures
            final(self).0@ == array_with_flag(old(self).0@, 202, value),
    {
        self.set_bit(202, value);
    }

    #[inline]
    pub fn semaphore_release_enable1(&self) -> (r: bool)
        ensures
            r == array_flag(self.0@, 203),
    {
        self.bit(203)
    }

    #[inline]
    pub fn set_semaphore_release_enable1(&mut self, value: bool)
        ensures
            final(self).0@ == array_with_flag(old(self).0@, 203, value),
    {
        self.set_bit(203, value);
    }

    #[inline]
    pub fn require_scheduling_pcas(&self) -> (r: bool)
        ensures
            r == array_flag(self.0@, 204),
    {
        self.bit(204)
    }

    #[inline]
    pub fn set_require_scheduling_pcas(&mut self, value: bool)
        ensures
            final(self).0@ == array_with_flag(old(self).0@, 204, value),
    {
        self.set_bit(204, value);
    }

    #[inline]
    pub fn dependent_qmd_schedule_enable(&self) -> (r: bool)
        ensures
            r == array_flag(self.0@, 205),
    {
        self.bit(205)
    }

    #[inline]
    pub fn set_dependent_qmd_schedule_enable(&mut self, value: bool)
        ensures
            final(self).0@ == array_with_flag(old(self).0@, 205, value),
    {
        self.set_bit(205, value);
    }

    #[inline]
    pub fn dependent_qmd_type(&self) -> (r: DependentQmdType)
        ensures
            r == DependentQmdType::from_raw(array_bits(self.0@, 206, 206)),
    {
        proof {
            lemma_array_bits_bound(self.0@, 206, 206);
            lemma_small_ones();
        }
        DependentQmdType::from(self.bit_range(206, 206))
    }

    #[inline]
    pub fn set_dependent_qmd_type(&mut self, value: DependentQmdType)
        ensures
            final(self).0@ == array_with_bits(old(self).0@, 206, 206, value.to_raw()),
    {
        self.set_bit_range(206, 206, u32::from(value));
    }

    #[inline]
    pub fn dependent_qmd_field_copy(&self) -> (r: bool)
        ensures
            r == array_flag(self.0@, 207),
    {
        self.bit(207)
    }

    #[inline]
    pub fn set_dependent_qmd_field_copy(&mut self, value: bool)
        ensures
            final(self).0@ == array_with_flag(old(self).0@, 207, value),
    {
        self.set_bit(207, value);
    }

    #[inline]
    pub fn qmd_reserved_b(&self) -> (r: u32)
        ensures
            r == array_bits(self.0@, 223, 208),
    {
        self.bit_range(223, 208)
    }

    #[inline]
    pub fn set_qmd_reserved_b(&mut self, value: u32)
        ensures
            final(self).0@ == array_with_bits(old(self).0@, 223, 208, value),
    {
        self.set_bit_range(223, 208, value);
    }

    #[inline]
    pub fn circular_queue_size(&self) -> (r: u32)
        ensures
            r == array_bits(self.0@, 248, 224),
    {
        self.bit_range(248, 224)
    }

    #[inline]
    pub fn set_circular_queue_size(&mut self, value: u32)
        ensures
            final(self).0@ == array_with_bits(old(self).0@, 248, 224, value),
    {
        self.set_bit_range(248, 224, value);
    }

    #[inline]
    pub fn qmd_reserved_c(&self) -> (r: bool)
        ensures
            r == array_flag(self.0@, 249),
    {
        self.bit(249)
    }

    #[inline]
    pub fn set_qmd_reserved_c(&mut self, value: bool)
        ensures
            final(self).0@ == array_with_flag(old(self).0@, 249, value),
    {
        self.set_bit(249, value);
    }

    #[inline]
    pub fn invalidate_texture_header_cache(&self) -> (r: bool)
        ensures
            r == array_flag(self.0@, 250),
    {
        self.bit(250)
    }

    #[inline]
    pub fn set_invalidate_texture_header_cache(&mut self, value: bool)
        ensures
            final(self).0@ == array_with_flag(old(self).0@, 250, value),
    {
        self.set_bit(250, value);
    }

    #[inline]
    pub fn invalidate_texture_sampler_cache(&self) -> (r: bool)
        ensures
            r == array_flag(self.0@, 251),
    {
        self.bit(251)
    }

    #[inline]
    pub fn set_invalidate_texture_sampler_cache(&mut self, value: bool)
        ensures
            final(self).0@ == array_with_flag(old(self).0@, 251, value),
    {
        self.set_bit(251, value);
    }

    #[inline]
    pub fn invalidate_texture_data_cache(&self) -> (r: bool)
        ensures
            r == array_flag(self.0@, 252),
    {
        self.bit(252)
    }

    #[inline]
    pub fn set_invalidate_texture_data_cache(&mut self, value: bool)
        ensures
            final(self).0@ == array_with_flag(old(self).0@, 252, value),
    {
        self.set_bit(252, value);
    }

    #[inline]
    pub fn invalidate_shader_data_cache(&self) -> (r: bool)
        ensures
            r == array_flag(self.0@, 253),
    {
        self.bit(253)
    }

    #[inline]
    pub fn set_invalidate_shader_data_cache(&mut self, value: bool)
        ensures
            final(self).0@ == array_with_flag(old(self).0@, 253, value),
    {
        self.set_bit(253, value);
    }

    #[inline]
    pub fn invalidate_instruction_cache(&self) -> (r: bool)
        ensures
            r == array_flag(self.0@, 254),
    {
        self.bit(254)
    }

    #[inline]
    pub fn set_invalidate_instruction_cache(&mut self, value: bool)
        ensures
            final(self).0@ == array_with_flag(old(self).0@, 254, value),
    {
        self.set_bit(254, value);
    }

    #[inline]
    pub fn invalidate_shader_constant_cache(&self) -> (r: bool)
        ensures
            r == array_flag(self.0@, 255),
    {
        self.bit(255)
    }

    #[inline]
    pub fn set_invalidate_shader_constant_cache(&mut self, value: bool)
        ensures
            final(self).0@ == array_with_flag(old(self).0@, 255, value),
    {
        self.set_bit(255, value);
    }

    #[inline]
    pub fn program_offset(&self) -> (r: u32)
        ensures
            r == array_bits(self.0@, 287, 256),
    {
        self.bit_range(287, 256)
    }

    #[inline]
    pub fn set_program_offset(&mut self, value: u32)
        ensures
            final(self).0@ == array_with_bits(old(self).0@, 287, 256, value),
    {
        self.set_bit_range(287, 256, value);
    }

    #[inline]
    pub fn circular_queue_addr_lower(&self) -> (r: u32)
        ensures
            r == array_bits(self.0@, 319, 288),
    {
        self.bit_range(319, 288)
    }

    #[inline]
    pub fn set_circular_queue_addr_lower(&mut self, value: u32)
        ensures
            final(self).0@ == array_with_bits(old(self).0@, 319, 288, value),
    {
        self.set_bit_range(319, 288, value);
    }

    #[inline]
    pub fn circular_queue_addr_upper(&self) -> (r: u32)
        ensures
            r == array_bits(self.0@, 327, 320),
    {
        self.bit_range(327, 320)
    }

    #[inline]
    pub fn set_circular_queue_addr_upper(&mut self, value: u32)
        ensures
            final(self).0@ == array_with_bits(old(self).0@, 327, 320, value),
    {
        self.set_bit_range(327, 320, value);
    }

    #[inline]
    pub fn qmd_reserved_d(&self) -> (r: u32)
        ensures
            r == array_bits(self.0@, 335, 328),
    {
        self.bit_range(335, 328)
    }

    #[inline]
    pub fn set_qmd_reserved_d(&mut self, value: u32)
        ensures
            final(self).0@ == array_with_bits(old(self).0@, 335, 328, value),
    {
        self.set_bit_range(335, 328, value);
    }

    #[inline]
    pub fn circular_queue_entry_size(&self) -> (r: u32)
        ensures
            r == array_bits(self.0@, 351, 336),
    {
        self.bit_range(351, 336)
    }

    #[inline]
    pub fn set_circular_queue_entry_size(&mut self, value: u32)
        ensures
            final(self).0@ == array_with_bits(old(self).0@, 351, 336, value),
    {
        self.set_bit_range(351, 336, value);
    }

    #[inline]
    pub fn cwd_reference_count_id(&self) -> (r: u32)
        ensures
            r == array_bits(self.0@, 357, 352),
    {
        self.bit_range(357, 352)
    }

    #[inline]
    pub fn set_cwd_reference_count_id(&mut self, value: u32)
        ensures
            final(self).0@ == array_with_bits(old(self).0@, 357, 352, value),
    {
        self.set_bit_range(357, 352, value);
    }

    #[inline]
    pub fn cwd_reference_count_delta_minus_one(&self) -> (r: u32)
        ensures
            r == array_bits(self.0@, 365, 358),
    {
        self.bit_range(365, 358)
    }

    #[inline]
    pub fn set_cwd_reference_count_delta_minus_one(&mut self, value: u32)
        ensures
            final(self).0@ == array_with_bits(old(self).0@, 365, 358, value),
    {
        self.set_bit_range(365, 358, value);
    }

    #[inline]
    pub fn release_membar_type(&self) -> (r: ReleaseMembarType)
        ensures
            r == ReleaseMembarType::from_raw(array_bits(self.0@, 366, 366)),
    {
        proof {
            lemma_array_bits_bound(self.0@, 366, 366);
            lemma_small_ones();
        }
        ReleaseMembarType::from(self.bit_range(366, 366))
    }

    #[inline]
    pub fn set_release_membar_type(&mut self, value: ReleaseMembarType)
        ensures
            final(self).0@ == array_with_bits(old(self).0@, 366, 366, value.to_raw()),
    {
        self.set_bit_range(366, 366, u32::from(value));
    }

    #[inline]
    pub fn cwd_reference_count_incr_enable(&self) -> (r: bool)
        ensures
            r == array_flag(self.0@, 367),
    {
        self.bit(367)
    }

    #[inline]
    pub fn set_cwd_reference_count_incr_enable(&mut self, value: bool)
        ensures
            final(self).0@ == array_with_flag(old(self).0@, 367, value),
    {
        self.set_bit(367, value);
    }

    #[inline]
    pub fn cwd_membar_type(&self) -> (r: CwdMembarTypeL1)
        ensures
            r == CwdMembarTypeL1::from_raw(array_bits(self.0@, 369, 368)),
    {
        proof {
            lemma_array_bits_bound(self.0@, 369, 368);
            lemma_small_ones();
        }
        CwdMembarTypeL1::from(self.bit_range(369, 368))
    }

    #[inline]
    pub fn set_cwd_membar_type(&mut self, value: CwdMembarTypeL1)
        ensures
            final(self).0@ == array_with_bits(old(self).0@, 369, 368, value.to_raw()),
    {
        self.set_bit_range(369, 368, u32::from(value));
    }

    #[inline]
    pub fn sequentially_run_ctas(&self) -> (r: bool)
        ensures
            r == array_flag(self.0@, 370),
    {
        self.bit(370)
    }

    #[inline]
    pub fn set_sequentially_run_ctas(&mut self, value: bool)
        ensures
            final(self).0@ == array_with_flag(old(self).0@, 370, value),
    {
        self.set_bit(370, value);
    }

    #[inline]
    pub fn cwd_reference_count_decr_enable(&self) -> (r: bool)
        ensures
            r == array_flag(self.0@, 371),
    {
        self.bit(371)
    }

    #[inline]
    pub fn set_cwd_reference_count_decr_enable(&mut self, value: bool)
        ensures
            final(self).0@ == array_with_flag(old(self).0@, 371, value),
    {
        self.set_bit(371, value);
    }

    #[inline]
    pub fn throttled(&self) -> (r: bool)
        ensures
            r == array_flag(self.0@, 372),
    {
        self.bit(372)
    }

    #[inline]
    pub fn set_throttled(&mut self, value: bool)
        ensures
            final(self).0@ == array_with_flag(old(self).0@, 372, value),
    {
        self.set_bit(372, value);
    }

    #[inline]
    pub fn fp32_nan_behavior(&self) -> (r: Fp32NanBehavior)
        ensures
            r == Fp32NanBehavior::from_raw(array_bits(self.0@, 376, 376)),
    {
        proof {
            lemma_array_bits_bound(self.0@, 376, 376);
            lemma_small_ones();
        }
        Fp32NanBehavior::from(self.bit_range(376, 376))
    }

    #[inline]
    pub fn set_fp32_nan_behavior(&mut self, value: Fp32NanBehavior)
        ensures
            final(self).0@ == array_with_bits(old(self).0@, 376, 376, value.to_raw()),
    {
        self.set_bit_range(376, 376, u32::from(value));
    }

    #[inline]
    pub fn fp32_f2i_nan_behavior(&self) -> (r: Fp32F2INanBehavior)
        ensures
            r == Fp32F2INanBehavior::from_raw(array_bits(self.0@, 377, 377)),
    {
        proof {
            lemma_array_bits_bound(self.0@, 377, 377);
            lemma_small_ones();
        }
        Fp32F2INanBehavior::from(self.bit_range(377, 377))
    }

    #[inline]
    pub fn set_fp32_f2i_nan_behavior(&mut self, value: Fp32F2INanBehavior)
        ensures
            final(self).0@ == array_with_bits(old(self).0@, 377, 377, value.to_raw()),
    {
        self.set_bit_range(377, 377, u32::from(value));
    }

    #[inline]
    pub fn api_visible_call_limit(&self) -> (r: ApiVisibleCallLimit)
        ensures
            r == ApiVisibleCallLimit::from_raw(array_bits(self.0@, 378, 378)),
    {
        proof {
            lemma_array_bits_bound(self.0@, 378, 378);
            lemma_small_ones();
        }
        ApiVisibleCallLimit::from(self.bit_range(378, 378))
    }

    #[inline]
    pub fn set_api_visible_call_limit(&mut self, value: ApiVisibleCallLimit)
        ensures
            final(self).0@ == array_with_bits(old(self).0@, 378, 378, value.to_raw()),
    {
        self.set_bit_range(378, 378, u32::from(value));
    }

    #[inline]
    pub fn shared_memory_bank_mapping(&self) -> (r: SharedMemoryBankMapping)
        ensures
            r == SharedMemoryBankMapping::from_raw(array_bits(self.0@, 379, 379)),
    {
        proof {
            lemma_array_bits_bound(self.0@, 379, 379);
            lemma_small_ones();
        }
        SharedMemoryBankMapping::from(self.bit_range(379, 379))
    }

    #[inline]
    pub fn set_shared_memory_bank_mapping(&mut self, value: SharedMemoryBankMapping)
        ensures
            final(self).0@ == array_with_bits(old(self).0@, 379, 379, value.to_raw()),
    {
        self.set_bit_range(379, 379, u32::from(value));
    }

    #[inline]
    pub fn sampler_index(&self) -> (r: SamplerIndex)
        ensures
            r == SamplerIndex::from_raw(array_bits(self.0@, 382, 382)),
    {
        proof {
            lemma_array_bits_bound(self.0@, 382, 382);
            lemma_small_ones();
        }
        SamplerIndex::from(self.bit_range(382, 382))
    }

    #[inline]
    pub fn set_sampler_index(&mut self, value: SamplerIndex)
        ensures
            final(self).0@ == array_with_bits(old(self).0@, 382, 382, value.to_raw()),
    {
        self.set_bit_range(382, 382, u32::from(value));
    }

    #[inline]
    pub fn fp32_narrow_instruction(&self) -> (r: Fp32NarrowInstruction)
        ensures
            r == Fp32NarrowInstruction::from_raw(array_bits(self.0@, 383, 383)),
    {
        proof {
            lemma_array_bits_bound(self.0@, 383, 383);
            lemma_small_ones();
        }
        Fp32NarrowInstruction::from(self.bit_range(383, 383))
    }

    #[inline]
    pub fn set_fp32_narrow_instruction(&mut self, value: Fp32NarrowInstruction)
        ensures
            final(self).0@ == array_with_bits(old(self).0@, 383, 383, value.to_raw()),
    {
        self.set_bit_range(383, 383, u32::from(value));
    }

    #[inline]
    pub fn cta_raster_width(&self) -> (r: u32)
        ensures
            r == array_bits(self.0@, 415, 384),
    {
        self.bit_range(415, 384)
    }

    #[inline]
    pub fn set_cta_raster_width(&mut self, value: u32)
        ensures
            final(self).0@ == array_with_bits(old(self).0@, 415, 384, value),
    {
        self.set_bit_range(415, 384, value);
    }

    #[inline]
    pub fn cta_raster_height(&self) -> (r: u32)
        ensures
            r == array_bits(self.0@, 431, 416),
    {
        self.bit_range(431, 416)
    }

    #[inline]
    pub fn set_cta_raster_height(&mut self, value: u32)
        ensures
            final(self).0@ == array_with_bits(old(self).0@, 431, 416, value),
    {
        self.set_bit_range(431, 416, value);
    }

    #[inline]
    pub fn cta_raster_depth(&self) -> (r: u32)
        ensures
            r == array_bits(self.0@, 447, 432),
    {
        self.bit_range(447, 432)
    }

    #[inline]
    pub fn set_cta_raster_depth(&mut self, value: u32)
        ensures
            final(self).0@ == array_with_bits(old(self).0@, 447, 432, value),
    {
        self.set_bit_range(447, 432, value);
    }

    #[inline]
    pub fn cta_raster_width_resume(&self) -> (r: u32)
        ensures
            r == array_bits(self.0@, 479, 448),
    {
        self.bit_range(479, 448)
    }

    #[inline]
    pub fn set_cta_raster_width_resume(&mut self, value: u32)
        ensures
            final(self).0@ == array_with_bits(old(self).0@, 479, 448, value),
    {
        self.set_bit_range(479, 448, value);
    }

    #[inline]
    pub fn cta_raster_height_resume(&self) -> (r: u32)
        ensures
            r == array_bits(self.0@, 495, 480),
    {
        self.bit_range(495, 480)
    }

    #[inline]
    pub fn set_cta_raster_height_resume(&mut self, value: u32)
        ensures
            final(self).0@ == array_with_bits(old(self).0@, 495, 480, value),
    {
        self.set_bit_range(495, 480, value);
    }

    #[inline]
    pub fn cta_raster_depth_resume(&self) -> (r: u32)
        ensures
            r == array_bits(self.0@, 511, 496),
    {
        self.bit_range(511, 496)
    }

    #[inline]
    pub fn set_cta_raster_depth_resume(&mut self, value: u32)
        ensures
            final(self).0@ == array_with_bits(old(self).0@, 511, 496, value),
    {
        self.set_bit_range(511, 496, value);
    }

    #[inline]
    pub fn queue_entries_per_cta_minus_one(&self) -> (r: u32)
        ensures
            r == array_bits(self.0@, 518, 512),
    {
        self.bit_range(518, 512)
    }

    #[inline]
    pub fn set_queue_entries_per_cta_minus_one(&mut self, value: u32)
        ensures
            final(self).0@ == array_with_bits(old(self).0@, 518, 512, value),
    {
        self.set_bit_range(518, 512, value);
    }

    #[inline]
    pub fn coalesce_waiting_period(&self) -> (r: u32)
        ensures
            r == array_bits(self.0@, 529, 522),
    {
        self.bit_range(529, 522)
    }

    #[inline]
    pub fn set_coalesce_waiting_period(&mut self, value: u32)
        ensures
            final(self).0@ == array_with_bits(old(self).0@, 529, 522, value),
    {
        self.set_bit_range(529, 522, value);
    }

    #[inline]
    pub fn shared_memory_size(&self) -> (r: u32)
        ensures
            r == array_bits(self.0@, 561, 544),
    {
        self.bit_range(561, 544)
    }

    #[inline]
    pub fn set_shared_memory_size(&mut self, value: u32)
        ensures
            final(self).0@ == array_with_bits(old(self).0@, 561, 544, value),
    {
        self.set_bit_range(561, 544, value);
    }

    #[inline]
    pub fn qmd_reserved_g(&self) -> (r: u32)
        ensures
            r == array_bits(self.0@, 575, 562),
    {
        self.bit_range(575, 562)
    }

    #[inline]
    pub fn set_qmd_reserved_g(&mut self, value: u32)
        ensures
            final(self).0@ == array_with_bits(old(self).0@, 575, 562, value),
    {
        self.set_bit_range(575, 562, value);
    }

    #[inline]
    pub fn qmd_version(&self) -> (r: u32)
        ensures
            r == array_bits(self.0@, 579, 576),
    {
        self.bit_range(579, 576)
    }

    #[inline]
    pub fn set_qmd_version(&mut self, value: u32)
        ensures
            final(self).0@ == array_with_bits(old(self).0@, 579, 576, value),
    {
        self.set_bit_range(579, 576, value);
    }

    #[inline]
    pub fn qmd_major_version(&self) -> (r: u32)
        ensures
            r == array_bits(self.0@, 583, 580),
    {
        self.bit_range(583, 580)
    }

    #[inline]
    pub fn set_qmd_major_version(&mut self, value: u32)
        ensures
            final(self).0@ == array_with_bits(old(self).0@, 583, 580, value),
    {
        self.set_bit_range(583, 580, value);
    }

    #[inline]
    pub fn qmd_reserved_h(&self) -> (r: u32)
        ensures
            r == array_bits(self.0@, 591, 584),
    {
        self.bit_range(591, 584)
    }

    #[inline]
    pub fn set_qmd_reserved_h(&mut self, value: u32)
        ensures
            final(self).0@ == array_with_bits(old(self).0@, 591, 584, value),
    {
        self.set_bit_range(591, 584, value);
    }

    #[inline]
    pub fn cta_thread_dimension0(&self) -> (r: u32)
        ensures
            r == array_bits(self.0@, 607, 592),
    {
        self.bit_range(607, 592)
    }

    #[inline]
    pub fn set_cta_thread_dimension0(&mut self, value: u32)
        ensures
            final(self).0@ == array_with_bits(old(self).0@, 607, 592, value),
    {
        self.set_bit_range(607, 592, value);
    }

    #[inline]
    pub fn cta_thread_dimension1(&self) -> (r: u32)
        ensures
            r == array_bits(self.0@, 623, 608),
    {
        self.bit_range(623, 608)
    }

    #[inline]
    pub fn set_cta_thread_dimension1(&mut self, value: u32)
        ensures
            final(self).0@ == array_with_bits(old(self).0@, 623, 608, value),
    {
        self.set_bit_range(623, 608, value);
    }

    #[inline]
    pub fn cta_thread_dimension2(&self) -> (r: u32)
        ensures
            r == array_bits(self.0@, 639, 624),
    {
        self.bit_range(639, 624)
    }

    #[inline]
    pub fn set_cta_thread_dimension2(&mut self, value: u32)
        ensures
            final(self).0@ == array_with_bits(old(self).0@, 639, 624, value),
    {
        self.set_bit_range(639, 624, value);
    }

    #[inline]
    pub fn constant_buffer_valid(&self) -> (r: u8)
        ensures
            r == array_bits(self.0@, 647, 640),
    {
        narrow_bit_range(self.0.as_slice(), 647, 640)
    }

    #[inline]
    pub fn set_constant_buffer_valid(&mut self, value: u8)
        ensures
            final(self).0@ == array_with_bits(old(self).0@, 647, 640, value as u32),
    {
        self.set_bit_range(647, 640, value as u32);
    }

    #[inline]
    pub fn qmd_reserved_i(&self) -> (r: u32)
        ensures
            r == array_bits(self.0@, 668, 648),
    {
        self.bit_range(668, 648)
    }

    #[inline]
    pub fn set_qmd_reserved_i(&mut self, value: u32)
        ensures
            final(self).0@ == array_with_bits(old(self).0@, 668, 648, value),
    {
        self.set_bit_range(668, 648, value);
    }

    #[inline]
    pub fn l1_configuration(&self) -> (r: L1Configuration)
        requires
            array_bits(self.0@, 671, 669) <= 2,
        ensures
            r == L1Configuration::from_raw(array_bits(self.0@, 671, 669)),
    {
        L1Configuration::from(self.bit_range(671, 669))
    }

    #[inline]
    pub fn set_l1_configuration(&mut self, value: L1Configuration)
        ensures
            final(self).0@ == array_with_bits(old(self).0@, 671, 669, value.to_raw()),
    {
        self.set_bit_range(671, 669, u32::from(value));
    }

    #[inline]
    pub fn sm_disable_mask_lower(&self) -> (r: u32)
        ensures
            r == array_bits(self.0@, 703, 672),
    {
        self.bit_range(703, 672)
    }

    #[inline]
    pub fn set_sm_disable_mask_lower(&mut self, value: u32)
        ensures
            final(self).0@ == array_with_bits(old(self).0@, 703, 672, value),
    {
        self.set_bit_range(703, 672, value);
    }

    #[inline]
    pub fn sm_disable_mask_upper(&self) -> (r: u32)
        ensures
            r == array_bits(self.0@, 735, 704),
    {
        self.bit_range(735, 704)
    }

    #[inline]
    pub fn set_sm_disable_mask_upper(&mut self, value: u32)
        ensures
            final(self).0@ == array_with_bits(old(self).0@, 735, 704, value),
    {
        self.set_bit_range(735, 704, value);
    }

    #[inline]
    pub fn shader_local_memory_low_size(&self) -> (r: u32)
        ensures
            r == array_bits(self.0@, 1463, 1440),
    {
        self.bit_range(1463, 1440)
    }

    #[inline]
    pub fn set_shader_local_memory_low_size(&mut self, value: u32)
        ensures
            final(self).0@ == array_with_bits(old(self).0@, 1463, 1440, value),
    {
        self.set_bit_range(1463, 1440, value);
    }

    #[inline]
    pub fn qmd_reserved_n(&self) -> (r: u32)
        ensures
            r == array_bits(self.0@, 1466, 1464),
    {
        self.bit_range(1466, 1464)
    }

    #[inline]
    pub fn set_qmd_reserved_n(&mut self, value: u32)
        ensures
            final(self).0@ == array_with_bits(old(self).0@, 1466, 1464, value),
    {
        self.set_bit_range(1466, 1464, value);
    }

    #[inline]
    pub fn barrier_count(&self) -> (r: u32)
        ensures
            r == array_bits(self.0@, 1471, 1467),
    {
        self.bit_range(1471, 1467)
    }

    #[inline]
    pub fn set_barrier_count(&mut self, value: u32)
        ensures
            final(self).0@ == array_with_bits(old(self).0@, 1471, 1467, value),
    {
        self.set_bit_range(1471, 1467, value);
    }

    #[inline]
    pub fn shader_local_memory_high_size(&self) -> (r: u32)
        ensures
            r == array_bits(self.0@, 1495, 1472),
    {
        self.bit_range(1495, 1472)
    }

    #[inline]
    pub fn set_shader_local_memory_high_size(&mut self, value: u32)
        ensures
            final(self).0@ == array_with_bits(old(self).0@, 1495, 1472, value),
    {
        self.set_bit_range(1495, 1472, value);
    }

    #[inline]
    pub fn register_count(&self) -> (r: u32)
        ensures
            r == array_bits(self.0@, 1503, 1496),
    {
        self.bit_range(1503, 1496)
    }

    #[inline]
    pub fn set_register_count(&mut self, value: u32)
        ensures
            final(self).0@ == array_with_bits(old(self).0@, 1503, 1496, value),
    {
        self.set_bit_range(1503, 1496, value);
    }

    #[inline]
    pub fn shader_local_memory_crs_size(&self) -> (r: u32)
        ensures
            r == array_bits(self.0@, 1527, 1504),
    {
        self.bit_range(1527, 1504)
    }

    #[inline]
    pub fn set_shader_local_memory_crs_size(&mut self, value: u32)
        ensures
            final(self).0@ == array_with_bits(old(self).0@, 1527, 1504, value),
    {
        self.set_bit_range(1527, 1504, value);
    }

    #[inline]
    pub fn sass_version(&self) -> (r: u32)
        ensures
            r == array_bits(self.0@, 1535, 1528),
    {
        self.bit_range(1535, 1528)
    }

    #[inline]
    pub fn set_sass_version(&mut self, value: u32)
        ensures
            final(self).0@ == array_with_bits(old(self).0@, 1535, 1528, value),
    {
        self.set_bit_range(1535, 1528, value);
    }

    #[inline]
    pub fn hw_only_inner_get(&self) -> (r: u32)
        ensures
            r == array_bits(self.0@, 1566, 1536),
    {
        self.bit_range(1566, 1536)
    }

    #[inline]
    pub fn set_hw_only_inner_get(&mut self, value: u32)
        ensures
            final(self).0@ == array_with_bits(old(self).0@, 1566, 1536, value),
    {
        self.set_bit_range(1566, 1536, value);
    }

    #[inline]
    pub fn hw_only_require_scheduling_pcas(&self) -> (r: bool)
        ensures
            r == array_flag(self.0@, 1567),
    {
        self.bit(1567)
    }

    #[inline]
    pub fn set_hw_only_require_scheduling_pcas(&mut self, value: bool)
        ensures
            final(self).0@ == array_with_flag(old(self).0@, 1567, value),
    {
        self.set_bit(1567, value);
    }

    #[inline]
    pub fn hw_only_inner_put(&self) -> (r: u32)
        ensures
            r == array_bits(self.0@, 1598, 1568),
    {
        self.bit_range(1598, 1568)
    }

    #[inline]
    pub fn set_hw_only_inner_put(&mut self, value: u32)
        ensures
            final(self).0@ == array_with_bits(old(self).0@, 1598, 1568, value),
    {
        self.set_bit_range(1598, 1568, value);
    }

    #[inline]
    pub fn hw_only_scg_type(&self) -> (r: bool)
        ensures
            r == array_flag(self.0@, 1599),
    {
        self.bit(1599)
    }

    #[inline]
    pub fn set_hw_only_scg_type(&mut self, value: bool)
        ensures
            final(self).0@ == array_with_flag(old(self).0@, 1599, value),
    {
        self.set_bit(1599, value);
    }

    #[inline]
    pub fn hw_only_span_list_head_index(&self) -> (r: u32)
        ensures
            r == array_bits(self.0@, 1629, 1600),
    {
        self.bit_range(1629, 1600)
    }

    #[inline]
    pub fn set_hw_only_span_list_head_index(&mut self, value: u32)
        ensures
            final(self).0@ == array_with_bits(old(self).0@, 1629, 1600, value),
    {
        self.set_bit_range(1629, 1600, value);
    }

    #[inline]
    pub fn qmd_reserved_q(&self) -> (r: bool)
        ensures
            r == array_flag(self.0@, 1630),
    {
        self.bit(1630)
    }

    #[inline]
    pub fn set_qmd_reserved_q(&mut self, value: bool)
        ensures
            final(self).0@ == array_with_flag(old(self).0@, 1630, value),
    {
        self.set_bit(1630, value);
    }

    #[inline]
    pub fn hw_only_span_list_head_index_valid(&self) -> (r: bool)
        ensures
            r == array_flag(self.0@, 1631),
    {
        self.bit(1631)
    }

    #[inline]
    pub fn set_hw_only_span_list_head_index_valid(&mut self, value: bool)
        ensures
            final(self).0@ == array_with_flag(old(self).0@, 1631, value),
    {
        self.set_bit(1631, value);
    }

    #[inline]
    pub fn hw_only_sked_next_qmd_pointer(&self) -> (r: u32)
        ensures
            r == array_bits(self.0@, 1663, 1632),
    {
        self.bit_range(1663, 1632)
    }

    #[inline]
    pub fn set_hw_only_sked_next_qmd_pointer(&mut self, value: u32)
        ensures
            final(self).0@ == array_with_bits(old(self).0@, 1663, 1632, value),
    {
        self.set_bit_range(1663, 1632, value);
    }

    #[inline]
    pub fn qmd_spare_e(&self) -> (r: u32)
        ensures
            r == array_bits(self.0@, 1695, 1664),
    {
        self.bit_range(1695, 1664)
    }

    #[inline]
    pub fn set_qmd_spare_e(&mut self, value: u32)
        ensures
            final(self).0@ == array_with_bits(old(self).0@, 1695, 1664, value),
    {
        self.set_bit_range(1695, 1664, value);
    }

    #[inline]
    pub fn qmd_spare_f(&self) -> (r: u32)
        ensures
            r == array_bits(self.0@, 1727, 1696),
    {
        self.bit_range(1727, 1696)
    }

    #[inline]
    pub fn set_qmd_spare_f(&mut self, value: u32)
        ensures
            final(self).0@ == array_with_bits(old(self).0@, 1727, 1696, value),
    {
        self.set_bit_range(1727, 1696, value);
    }

    #[inline]
    pub fn qmd_spare_g(&self) -> (r: u32)
        ensures
            r == array_bits(self.0@, 1759, 1728),
    {
        self.bit_range(1759, 1728)
    }

    #[inline]
    pub fn set_qmd_spare_g(&mut self, value: u32)
        ensures
            final(self).0@ == array_with_bits(old(self).0@, 1759, 1728, value),
    {
        self.set_bit_range(1759, 1728, value);
    }

    #[inline]
    pub fn qmd_spare_h(&self) -> (r: u32)
        ensures
            r == array_bits(self.0@, 1791, 1760),
    {
        self.bit_range(1791, 1760)
    }

    #[inline]
    pub fn set_qmd_spare_h(&mut self, value: u32)
        ensures
            final(self).0@ == array_with_bits(old(self).0@, 1791, 1760, value),
    {
        self.set_bit_range(1791, 1760, value);
    }

    #[inline]
    pub fn qmd_spare_i(&self) -> (r: u32)
        ensures
            r == array_bits(self.0@, 1823, 1792),
    {
        self.bit_range(1823, 1792)
    }

    #[inline]
    pub fn set_qmd_spare_i(&mut self, value: u32)
        ensures
            final(self).0@ == array_with_bits(old(self).0@, 1823, 1792, value),
    {
        self.set_bit_range(1823, 1792, value);
    }

    #[inline]
    pub fn qmd_spare_j(&self) -> (r: u32)
        ensures
            r == array_bits(self.0@, 1855, 1824),
    {
        self.bit_range(1855, 1824)
    }

    #[inline]
    pub fn set_qmd_spare_j(&mut self, value: u32)
        ensures
            final(self).0@ == array_with_bits(old(self).0@, 1855, 1824, value),
    {
        self.set_bit_range(1855, 1824, value);
    }

    #[inline]
    pub fn qmd_spare_k(&self) -> (r: u32)
        ensures
            r == array_bits(self.0@, 1887, 1856),
    {
        self.bit_range(1887, 1856)
    }

    #[inline]
    pub fn set_qmd_spare_k(&mut self, value: u32)
        ensures
            final(self).0@ == array_with_bits(old(self).0@, 1887, 1856, value),
    {
        self.set_bit_range(1887, 1856, value);
    }

    #[inline]
    pub fn qmd_spare_l(&self) -> (r: u32)
        ensures
            r == array_bits(self.0@, 1919, 1888),
    {
        self.bit_range(1919, 1888)
    }

    #[inline]
    pub fn set_qmd_spare_l(&mut self, value: u32)
        ensures
            final(self).0@ == array_with_bits(old(self).0@, 1919, 1888, value),
    {
        self.set_bit_range(1919, 1888, value);
    }

    #[inline]
    pub fn qmd_spare_m(&self) -> (r: u32)
        ensures
            r == array_bits(self.0@, 1951, 1920),
    {
        self.bit_range(1951, 1920)
    }

    #[inline]
    pub fn set_qmd_spare_m(&mut self, value: u32)
        ensures
            final(self).0@ == array_with_bits(old(self).0@, 1951, 1920, value),
    {
        self.set_bit_range(1951, 1920, value);
    }

    #[inline]
    pub fn qmd_spare_n(&self) -> (r: u32)
        ensures
            r == array_bits(self.0@, 1983, 1952),
    {
        self.bit_range(1983, 1952)
    }

    #[inline]
    pub fn set_qmd_spare_n(&mut self, value: u32)
        ensures
            final(self).0@ == array_with_bits(old(self).0@, 1983, 1952, value),
    {
        self.set_bit_range(1983, 1952, value);
    }

    #[inline]
    pub fn debug_id_upper(&self) -> (r: u32)
        ensures
            r == array_bits(self.0@, 2015, 1984),
    {
        self.bit_range(2015, 1984)
    }

    #[inline]
    pub fn set_debug_id_upper(&mut self, value: u32)
        ensures
            final(self).0@ == array_with_bits(old(self).0@, 2015, 1984, value),
    {
        self.set_bit_range(2015, 1984, value);
    }

    #[inline]
    pub fn debug_id_lower(&self) -> (r: u32)
        ensures
            r == array_bits(self.0@, 2047, 2016),
    {
        self.bit_range(2047, 2016)
    }

    #[inline]
    pub fn set_debug_id_lower(&mut self, value: u32)
        ensures
            final(self).0@ == array_with_bits(old(self).0@, 2047, 2016, value),
    {
        self.set_bit_range(2047, 2016, value);
    }

    /// Writes the release of number `index`, of which there are two.
    pub fn set_release(&mut self, index: usize, value: &QueueMetaData17Release)
        requires
            index <= 1,
        ensures
            final(self).0@ == with_words(old(self).0@, QMD_RELEASE_OFFSET + index * 3, value.0@),
    {
        let start = QMD_RELEASE_OFFSET + index * 3;
        self.0[start] = value.0[0];
        self.0[start + 1] = value.0[1];
        self.0[start + 2] = value.0[2];
        assert(self.0@ =~= with_words(old(self).0@, start as int, value.0@));
    }

    /// Writes the constant buffer of number `index`, of which there are
    /// eight: its lower half, then its upper half.
    pub fn set_constant_buffer(&mut self, index: usize, value: &QueueMetaData17ConstantBuffer)
        requires
            index <= 7,
        ensures
            final(self).0@ == with_words(
                old(self).0@,
                QMD_CONSTANT_BUFFER_OFFSET + index * 2,
                halves(value.0),
            ),
    {
        let start = QMD_CONSTANT_BUFFER_OFFSET + index * 2;
        self.0[start] = #[verifier::truncate] (value.0 as u32);
        self.0[start + 1] = #[verifier::truncate] ((value.0 >> 32) as u32);
        assert(self.0@ =~= with_words(old(self).0@, start as int, halves(value.0)));
    }
}

/// The commands that copy `data` to `dst` through the command stream: the
/// length and the destination, the launch, and the bytes themselves.
pub open spec fn memcpy_inline_commands(dst: GpuVirtualAddress, data: Seq<u8>) -> Seq<CommandView> {
    seq![
        command_of(
            0x60,
            SubChannelId::Compute,
            CommandSubmissionMode::Increasing,
            seq![data.len() as u32, 1] + address_words(dst),
        ),
        command_of(0x6C, SubChannelId::Compute, CommandSubmissionMode::Increasing, seq![0x11]),
        command_of(
            0x6D,
            SubChannelId::Compute,
            CommandSubmissionMode::NonIncreasing,
            packed_words(data),
        ),
    ]
}

/// Puts the commands that copy `data` to `dst` through the command stream
/// at the end of the list of `command_stream`. The length goes out in 32
/// bits; of longer data it is the low 32 bits of the length.
pub fn memcpy_inline_host_to_device(
    command_stream: &mut CommandStream,
    dst: GpuVirtualAddress,
    data: &[u8],
) -> (r: NvGpuResult<()>)
    ensures
        r is Ok,
        final(command_stream)@ == (StreamView {
            pending: old(command_stream)@.pending + memcpy_inline_commands(dst, data@),
            ..old(command_stream)@
        }),
{
    // Setup dst and size.
    let mut setup_dst = Command::new(0x60, SubChannelId::Compute, CommandSubmissionMode::Increasing);
    setup_dst.push_argument(#[verifier::truncate] (data.len() as u32))?;
    setup_dst.push_argument(1)?;
    setup_dst.push_address(dst)?;
    assert(setup_dst@.arguments =~= seq![data@.len() as u32, 1] + address_words(dst));
    command_stream.push(setup_dst)?;

    let mut launch_dma_command = Command::new(
        0x6C,
        SubChannelId::Compute,
        CommandSubmissionMode::Increasing,
    );
    launch_dma_command.push_argument(0x11)?;
    assert(launch_dma_command@.arguments =~= seq![0x11u32]);
    command_stream.push(launch_dma_command)?;

    // Finally send inline data
    let mut inline_data = Command::new(
        0x6D,
        SubChannelId::Compute,
        CommandSubmissionMode::NonIncreasing,
    );
    inline_data.push_inlined_buffer(data)?;
    assert(inline_data@.arguments =~= packed_words(data@));
    command_stream.push(inline_data)?;

    assert(command_stream@.pending =~= old(command_stream)@.pending + memcpy_inline_commands(
        dst,
        data@,
    ));
    Ok(())
}

} // verus!
