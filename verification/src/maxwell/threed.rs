//! The 3D engine: its report register and the command that asks for a
//! report.

use crate::bits::{
    field_get, field_set, flag_get, flag_set, lemma_bit_is_flag, lemma_bit_range_is_field,
    lemma_set_bit_range_is_field, word_bit, word_bit_range, word_set_bit, word_set_bit_range,
};
use crate::command::{
    address_words, Command, CommandSubmissionMode, GpuVirtualAddress, SubChannelId,
};
use crate::error::NvGpuResult;
use crate::maxwell::dma::command_of;
use crate::stream::{CommandStream, StreamView};
use vstd::prelude::*;

verus! {

/// The counter that a report reads.
#[derive(PartialEq, Eq, Debug, Clone, Copy, Structural)]
pub enum ReportCounterType {
    Zero,
    InputVertices,
    InputPrimitives,
    VertexShaderInvocations,
    GeometryShaderInvocations,
    GeometryShaderPrimitives,
    TransformFeedbackPrimitivesWritten,
    ClipperInputPrimitives,
    ClipperOutputPrimitives,
    PrimitivesGenerated,
    FragmentShaderInvocations,
    SamplesPassed,
    TessControlShaderInvocations,
    TessEvaluationShaderInvocations,
    TessEvaluationShaderPrimitives,
    ZcullStats0,
    ZcullStats1,
    ZcullStats2,
    ZcullStats3,
    Unknown(u32),
}

impl ReportCounterType {
    /// The number that stands for the value in a register.
    pub open spec fn to_raw(self) -> u32 {
        match self {
            ReportCounterType::Zero => 0,
            ReportCounterType::InputVertices => 1,
            ReportCounterType::InputPrimitives => 3,
            ReportCounterType::VertexShaderInvocations => 5,
            ReportCounterType::GeometryShaderInvocations => 5,
            ReportCounterType::GeometryShaderPrimitives => 5,
            ReportCounterType::TransformFeedbackPrimitivesWritten => 0xb,
            ReportCounterType::ClipperInputPrimitives => 0xf,
            ReportCounterType::ClipperOutputPrimitives => 0x11,
            ReportCounterType::PrimitivesGenerated => 0x12,
            ReportCounterType::FragmentShaderInvocations => 0x13,
            ReportCounterType::SamplesPassed => 0x15,
            ReportCounterType::TessControlShaderInvocations => 0x1b,
            ReportCounterType::TessEvaluationShaderInvocations => 0x1d,
            ReportCounterType::TessEvaluationShaderPrimitives => 0x1f,
            ReportCounterType::ZcullStats0 => 0x2a,
            ReportCounterType::ZcullStats1 => 0x2c,
            ReportCounterType::ZcullStats2 => 0x2e,
            ReportCounterType::ZcullStats3 => 0x30,
            ReportCounterType::Unknown(val) => val,
        }
    }

    /// The value that a number in a register stands for.
    pub open spec fn from_raw(mode: u32) -> Self {
        match mode {
            0 => ReportCounterType::Zero,
            1 => ReportCounterType::InputVertices,
            3 => ReportCounterType::InputPrimitives,
            5 => ReportCounterType::VertexShaderInvocations,
            7 => ReportCounterType::GeometryShaderInvocations,
            9 => ReportCounterType::GeometryShaderPrimitives,
            0xb => ReportCounterType::TransformFeedbackPrimitivesWritten,
            0xf => ReportCounterType::ClipperInputPrimitives,
            0x11 => ReportCounterType::ClipperOutputPrimitives,
            0x12 => ReportCounterType::PrimitivesGenerated,
            0x13 => ReportCounterType::FragmentShaderInvocations,
            0x15 => ReportCounterType::SamplesPassed,
            0x1b => ReportCounterType::TessControlShaderInvocations,
            0x1d => ReportCounterType::TessEvaluationShaderInvocations,
            0x1f => ReportCounterType::TessEvaluationShaderPrimitives,
            0x2a => ReportCounterType::ZcullStats0,
            0x2c => ReportCounterType::ZcullStats1,
            0x2e => ReportCounterType::ZcullStats2,
            0x30 => ReportCounterType::ZcullStats3,
            val => ReportCounterType::Unknown(val),
        }
    }
}

impl From<ReportCounterType> for u32 {
    fn from(mode: ReportCounterType) -> (r: u32) {
        match mode {
            ReportCounterType::Zero => 0,
            ReportCounterType::InputVertices => 1,
            ReportCounterType::InputPrimitives => 3,
            ReportCounterType::VertexShaderInvocations => 5,
            ReportCounterType::GeometryShaderInvocations => 5,
            ReportCounterType::GeometryShaderPrimitives => 5,
            ReportCounterType::TransformFeedbackPrimitivesWritten => 0xb,
            ReportCounterType::ClipperInputPrimitives => 0xf,
            ReportCounterType::ClipperOutputPrimitives => 0x11,
            ReportCounterType::PrimitivesGenerated => 0x12,
            ReportCounterType::FragmentShaderInvocations => 0x13,
            ReportCounterType::SamplesPassed => 0x15,
            ReportCounterType::TessControlShaderInvocations => 0x1b,
            ReportCounterType::TessEvaluationShaderInvocations => 0x1d,
            ReportCounterType::TessEvaluationShaderPrimitives => 0x1f,
            ReportCounterType::ZcullStats0 => 0x2a,
            ReportCounterType::ZcullStats1 => 0x2c,
            ReportCounterType::ZcullStats2 => 0x2e,
            ReportCounterType::ZcullStats3 => 0x30,
            ReportCounterType::Unknown(val) => val,
        }
    }
}

impl vstd::std_specs::convert::FromSpecImpl<ReportCounterType> for u32 {
    open spec fn obeys_from_spec() -> bool {
        true
    }

    open spec fn from_spec(mode: ReportCounterType) -> u32 {
        mode.to_raw()
    }
}

impl From<u32> for ReportCounterType {
    fn from(mode: u32) -> (r: ReportCounterType) {
        match mode {
            0 => ReportCounterType::Zero,
            1 => ReportCounterType::InputVertices,
            3 => ReportCounterType::InputPrimitives,
            5 => ReportCounterType::VertexShaderInvocations,
            7 => ReportCounterType::GeometryShaderInvocations,
            9 => ReportCounterType::GeometryShaderPrimitives,
            0xb => ReportCounterType::TransformFeedbackPrimitivesWritten,
            0xf => ReportCounterType::ClipperInputPrimitives,
            0x11 => ReportCounterType::ClipperOutputPrimitives,
            0x12 => ReportCounterType::PrimitivesGenerated,
            0x13 => ReportCounterType::FragmentShaderInvocations,
            0x15 => ReportCounterType::SamplesPassed,
            0x1b => ReportCounterType::TessControlShaderInvocations,
            0x1d => ReportCounterType::TessEvaluationShaderInvocations,
            0x1f => ReportCounterType::TessEvaluationShaderPrimitives,
            0x2a => ReportCounterType::ZcullStats0,
            0x2c => ReportCounterType::ZcullStats1,
            0x2e => ReportCounterType::ZcullStats2,
            0x30 => ReportCounterType::ZcullStats3,
            val => ReportCounterType::Unknown(val),
        }
    }
}

impl vstd::std_specs::convert::FromSpecImpl<u32> for ReportCounterType {
    open spec fn obeys_from_spec() -> bool {
        true
    }

    open spec fn from_spec(mode: u32) -> ReportCounterType {
        ReportCounterType::from_raw(mode)
    }
}

/// How a report combines its payload with what is in memory.
#[derive(PartialEq, Eq, Debug, Clone, Copy, Structural)]
pub enum ReductionOperation {
    Add,
    Min,
    Max,
    Increment,
    Decrement,
    And,
    Or,
    Xor,
    Unknown(u32),
}

impl ReductionOperation {
    /// The number that stands for the value in a register.
    pub open spec fn to_raw(self) -> u32 {
        match self {
            ReductionOperation::Add => 0,
            ReductionOperation::Min => 1,
            ReductionOperation::Max => 2,
            ReductionOperation::Increment => 3,
            ReductionOperation::Decrement => 4,
            ReductionOperation::And => 5,
            ReductionOperation::Or => 6,
            ReductionOperation::Xor => 7,
            ReductionOperation::Unknown(val) => val,
        }
    }

    /// The value that a number in a register stands for.
    pub open spec fn from_raw(mode: u32) -> Self {
        match mode {
            0 => ReductionOperation::Add,
            1 => ReductionOperation::Min,
            2 => ReductionOperation::Max,
            3 => ReductionOperation::Increment,
            4 => ReductionOperation::Decrement,
            5 => ReductionOperation::And,
            6 => ReductionOperation::Or,
            7 => ReductionOperation::Xor,
            val => ReductionOperation::Unknown(val),
        }
    }
}

impl From<ReductionOperation> for u32 {
    fn from(mode: ReductionOperation) -> (r: u32) {
        match mode {
            ReductionOperation::Add => 0,
            ReductionOperation::Min => 1,
            ReductionOperation::Max => 2,
            ReductionOperation::Increment => 3,
            ReductionOperation::Decrement => 4,
            ReductionOperation::And => 5,
            ReductionOperation::Or => 6,
            ReductionOperation::Xor => 7,
            ReductionOperation::Unknown(val) => val,
        }
    }
}

impl vstd::std_specs::convert::FromSpecImpl<ReductionOperation> for u32 {
    open spec fn obeys_from_spec() -> bool {
        true
    }

    open spec fn from_spec(mode: ReductionOperation) -> u32 {
        mode.to_raw()
    }
}

impl From<u32> for ReductionOperation {
    fn from(mode: u32) -> (r: ReductionOperation) {
        match mode {
            0 => ReductionOperation::Add,
            1 => ReductionOperation::Min,
            2 => ReductionOperation::Max,
            3 => ReductionOperation::Increment,
            4 => ReductionOperation::Decrement,
            5 => ReductionOperation::And,
            6 => ReductionOperation::Or,
            7 => ReductionOperation::Xor,
            val => ReductionOperation::Unknown(val),
        }
    }
}

impl vstd::std_specs::convert::FromSpecImpl<u32> for ReductionOperation {
    open spec fn obeys_from_spec() -> bool {
        true
    }

    open spec fn from_spec(mode: u32) -> ReductionOperation {
        ReductionOperation::from_raw(mode)
    }
}

/// What a report does.
#[derive(PartialEq, Eq, Debug, Clone, Copy, Structural)]
pub enum ReportControlOperation {
    Release,
    Counter,
    Trap,
    Unknown(u32),
}

impl ReportControlOperation {
    /// The number that stands for the value in a register.
    pub open spec fn to_raw(self) -> u32 {
        match self {
            ReportControlOperation::Release => 0,
            ReportControlOperation::Counter => 2,
            ReportControlOperation::Trap => 3,
            ReportControlOperation::Unknown(val) => val,
        }
    }

    /// The value that a number in a register stands for.
    pub open spec fn from_raw(mode: u32) -> Self {
        match mode {
            0 => ReportControlOperation::Release,
            2 => ReportControlOperation::Counter,
            3 => ReportControlOperation::Trap,
            val => ReportControlOperation::Unknown(val),
        }
    }
}

impl From<ReportControlOperation> for u32 {
    fn from(mode: ReportControlOperation) -> (r: u32) {
        match mode {
            ReportControlOperation::Release => 0,
            ReportControlOperation::Counter => 2,
            ReportControlOperation::Trap => 3,
            ReportControlOperation::Unknown(val) => val,
        }
    }
}

impl vstd::std_specs::convert::FromSpecImpl<ReportControlOperation> for u32 {
    open spec fn obeys_from_spec() -> bool {
        true
    }

    open spec fn from_spec(mode: ReportControlOperation) -> u32 {
        mode.to_raw()
    }
}

impl From<u32> for ReportControlOperation {
    fn from(mode: u32) -> (r: ReportControlOperation) {
        match mode {
            0 => ReportControlOperation::Release,
            2 => ReportControlOperation::Counter,
            3 => ReportControlOperation::Trap,
            val => ReportControlOperation::Unknown(val),
        }
    }
}

impl vstd::std_specs::convert::FromSpecImpl<u32> for ReportControlOperation {
    open spec fn obeys_from_spec() -> bool {
        true
    }

    open spec fn from_spec(mode: u32) -> ReportControlOperation {
        ReportControlOperation::from_raw(mode)
    }
}
/// The register that says what a report does.
#[derive(Clone, Copy, Debug)]
pub struct ReportControl(pub u32);

impl ReportControl {
    /// A report register with nothing set but the reserved bits, which all
    /// have to be set.
    pub fn new() -> (r: ReportControl)
        ensures
            r.0 == 0xF000,
    {
        let mut result = ReportControl(0);
        result.set_reserved(0xF);
        assert(field_set(0, 15, 12, 0xF) == 0xF000) by (bit_vector);
        result
    }

    #[inline]
    pub fn operation(&self) -> (r: ReportControlOperation)
        ensures
            r == ReportControlOperation::from_raw(field_get(self.0, 1, 0)),
    {
        proof {
            lemma_bit_range_is_field(self.0, 1, 0);
        }
        ReportControlOperation::from(word_bit_range(self.0, 1, 0))
    }

    #[inline]
    pub fn set_operation(&mut self, value: ReportControlOperation)
        ensures
            final(self).0 == field_set(old(self).0, 1, 0, value.to_raw()),
    {
        proof {
            lemma_set_bit_range_is_field(self.0, 1, 0, value.to_raw());
        }
        word_set_bit_range(&mut self.0, 1, 0, u32::from(value));
    }

    #[inline]
    pub fn flush_disable(&self) -> (r: bool)
        ensures
            r == flag_get(self.0, 2),
    {
        proof {
            lemma_bit_is_flag(self.0, 2, false);
        }
        word_bit(self.0, 2)
    }

    #[inline]
    pub fn set_flush_disable(&mut self, value: bool)
        ensures
            final(self).0 == flag_set(old(self).0, 2, value),
    {
        proof {
            lemma_bit_is_flag(self.0, 2, value);
        }
        word_set_bit(&mut self.0, 2, value);
    }

    #[inline]
    pub fn reduction_enable(&self) -> (r: bool)
        ensures
            r == flag_get(self.0, 3),
    {
        proof {
            lemma_bit_is_flag(self.0, 3, false);
        }
        word_bit(self.0, 3)
    }

    #[inline]
    pub fn set_reduction_enable(&mut self, value: bool)
        ensures
            final(self).0 == flag_set(old(self).0, 3, value),
    {
        proof {
            lemma_bit_is_flag(self.0, 3, value);
        }
        word_set_bit(&mut self.0, 3, value);
    }

    #[inline]
    pub fn fence_enable(&self) -> (r: bool)
        ensures
            r == flag_get(self.0, 4),
    {
        proof {
            lemma_bit_is_flag(self.0, 4, false);
        }
        word_bit(self.0, 4)
    }

    #[inline]
    pub fn set_fence_enable(&mut self, value: bool)
        ensures
            final(self).0 == flag_set(old(self).0, 4, value),
    {
        proof {
            lemma_bit_is_flag(self.0, 4, value);
        }
        word_set_bit(&mut self.0, 4, value);
    }

    #[inline]
    pub fn reduction_operation(&self) -> (r: ReductionOperation)
        ensures
            r == ReductionOperation::from_raw(field_get(self.0, 11, 9)),
    {
        proof {
            lemma_bit_range_is_field(self.0, 11, 9);
        }
        ReductionOperation::from(word_bit_range(self.0, 11, 9))
    }

    #[inline]
    pub fn set_reduction_operation(&mut self, value: ReductionOperation)
        ensures
            final(self).0 == field_set(old(self).0, 11, 9, value.to_raw()),
    {
        proof {
            lemma_set_bit_range_is_field(self.0, 11, 9, value.to_raw());
        }
        word_set_bit_range(&mut self.0, 11, 9, u32::from(value));
    }

    #[inline]
    pub fn reserved(&self) -> (r: u32)
        ensures
            r == field_get(self.0, 15, 12),
    {
        proof {
            lemma_bit_range_is_field(self.0, 15, 12);
        }
        word_bit_range(self.0, 15, 12)
    }

    #[inline]
    pub fn set_reserved(&mut self, value: u32)
        ensures
            final(self).0 == field_set(old(self).0, 15, 12, value),
    {
        proof {
            lemma_set_bit_range_is_field(self.0, 15, 12, value);
        }
        word_set_bit_range(&mut self.0, 15, 12, value);
    }

    #[inline]
    pub fn reduction_signed(&self) -> (r: bool)
        ensures
            r == flag_get(self.0, 17),
    {
        proof {
            lemma_bit_is_flag(self.0, 17, false);
        }
        word_bit(self.0, 17)
    }

    #[inline]
    pub fn set_reduction_signed(&mut self, value: bool)
        ensures
            final(self).0 == flag_set(old(self).0, 17, value),
    {
        proof {
            lemma_bit_is_flag(self.0, 17, value);
        }
        word_set_bit(&mut self.0, 17, value);
    }

    #[inline]
    pub fn counter_type(&self) -> (r: ReportCounterType)
        ensures
            r == ReportCounterType::from_raw(field_get(self.0, 27, 23)),
    {
        proof {
            lemma_bit_range_is_field(self.0, 27, 23);
        }
        ReportCounterType::from(word_bit_range(self.0, 27, 23))
    }

    #[inline]
    pub fn set_counter_type(&mut self, value: ReportCounterType)
        ensures
            final(self).0 == field_set(old(self).0, 27, 23, value.to_raw()),
    {
        proof {
            lemma_set_bit_range_is_field(self.0, 27, 23, value.to_raw());
        }
        word_set_bit_range(&mut self.0, 27, 23, u32::from(value));
    }

    #[inline]
    pub fn is_one_word(&self) -> (r: bool)
        ensures
            r == flag_get(self.0, 28),
    {
        proof {
            lemma_bit_is_flag(self.0, 28, false);
        }
        word_bit(self.0, 28)
    }

    #[inline]
    pub fn set_one_word(&mut self, value: bool)
        ensures
            final(self).0 == flag_set(old(self).0, 28, value),
    {
        proof {
            lemma_bit_is_flag(self.0, 28, value);
        }
        word_set_bit(&mut self.0, 28, value);
    }
}

/// Puts the command that asks for a report at `gpu_va` at the end of the
/// list of `command_stream`: the address, the payload, what to report.
pub fn query_get(
    command_stream: &mut CommandStream,
    gpu_va: GpuVirtualAddress,
    payload: u32,
    report_control: ReportControl,
) -> (r: NvGpuResult<()>)
    ensures
        r is Ok,
        final(command_stream)@ == old(command_stream)@.pushed(
            command_of(
                0x6c0,
                SubChannelId::ThreeD,
                CommandSubmissionMode::Increasing,
                address_words(gpu_va) + seq![payload, report_control.0],
            ),
        ),
{
    let mut query_get = Command::new(0x6c0, SubChannelId::ThreeD, CommandSubmissionMode::Increasing);
    query_get.push_address(gpu_va)?;
    query_get.push_argument(payload)?;
    query_get.push_argument(report_control.0)?;
    assert(query_get@.arguments =~= address_words(gpu_va) + seq![payload, report_control.0]);
    // Push the command
    command_stream.push(query_get)
}

} // verus!
