use nvgpu::class::ClassId;
use nvgpu::command::{Command, CommandSubmissionMode, SubChannelId};
use nvgpu::maxwell::common::ReductionOperation;
use nvgpu::maxwell::compute::{
    memcpy_inline_host_to_device, ApiVisibleCallLimit, CwdMembarTypeL1, DependentQmdType,
    Fp32F2INanBehavior, Fp32NanBehavior, Fp32NarrowInstruction, L1Configuration, QueueMetaData17,
    QueueMetaData17ConstantBuffer, QueueMetaData17Release, ReleaseMembarType, SamplerIndex,
    SharedMemoryBankMapping, StructureSize,
};
use nvgpu::maxwell::dma::{
    memcpy_1d, BypassL2, DataTransferType, InterruptType, LaunchDma, MemoryLayout, MemoryType,
    SemaphoreReduction, SemaphoreType, LINEAR_COPY_LAUNCH,
};
use nvgpu::maxwell::threed::{
    query_get, ReportControl, ReportControlOperation, ReportCounterType,
};
use nvgpu::kernel::KernelCall;
use nvgpu::nvmap::KernelReply;
use nvgpu::stream::{CommandStream, StreamProgress};
use nvgpu::word_array::{bit_range, narrow_bit_range, set_bit_range};

/// The words that a flush of `stream` writes to its buffer.
fn flushed_words(stream: &mut CommandStream) -> Vec<u32> {
    let replies = [
        KernelReply::Handle(1),
        KernelReply::Fd(2),
        KernelReply::Done,
        KernelReply::GpuAddress(0x1000),
        KernelReply::HostAddress(0x2000),
    ];
    let mut progress = stream.flush();
    for reply in replies {
        assert!(matches!(progress, StreamProgress::Call(KernelCall::Memory(_))));
        progress = stream.resume(reply);
    }
    match progress {
        StreamProgress::Call(KernelCall::Write { address, words }) => {
            assert_eq!(address, 0x2000);
            words
        }
        other => panic!("a write was expected, not {:?}", other),
    }
}

#[test]
fn class_numbers_are_those_of_the_hardware() {
    assert_eq!(u32::from(ClassId::MAXWELL_B_3D), 0xB197);
    assert_eq!(u32::from(ClassId::MAXWELL_B_COMPUTE), 0xB1C0);
    assert_eq!(u32::from(ClassId::INLINE_TO_MEMORY), 0xA140);
    assert_eq!(u32::from(ClassId::MAXWELL_A_2D), 0x902D);
    assert_eq!(u32::from(ClassId::MAXWELL_B_DMA), 0xB0B5);
}

#[test]
fn reduction_operation_converts_both_ways() {
    assert_eq!(u32::from(ReductionOperation::Add), 0);
    assert_eq!(u32::from(ReductionOperation::Xor), 7);
    assert_eq!(u32::from(ReductionOperation::Unknown(9)), 9);
    assert_eq!(ReductionOperation::from(4), ReductionOperation::Decrement);
    assert_eq!(ReductionOperation::from(8), ReductionOperation::Unknown(8));
    assert_eq!(
        nvgpu::maxwell::threed::ReductionOperation::from(5),
        nvgpu::maxwell::threed::ReductionOperation::And
    );
    assert_eq!(u32::from(nvgpu::maxwell::threed::ReductionOperation::Max), 2);
}

#[test]
fn copy_values_convert_both_ways() {
    assert_eq!(u32::from(DataTransferType::NonPipelined), 2);
    assert_eq!(DataTransferType::from(0), DataTransferType::Off);
    assert_eq!(DataTransferType::from(3), DataTransferType::Unknown(3));
    assert_eq!(SemaphoreType::from(1), SemaphoreType::ReleaseOneWord);
    assert_eq!(u32::from(SemaphoreType::ReleaseFourWord), 2);
    assert_eq!(InterruptType::from(2), InterruptType::NonBlocking);
    assert_eq!(u32::from(InterruptType::Blocking), 1);
    assert_eq!(MemoryLayout::from(1), MemoryLayout::Pitch);
    assert_eq!(u32::from(MemoryLayout::BlockLinear), 0);
    assert_eq!(MemoryType::from(1), MemoryType::Physical);
    assert_eq!(u32::from(MemoryType::Virtual), 0);
    assert_eq!(SemaphoreReduction::from(0xA), SemaphoreReduction::FAdd);
    assert_eq!(SemaphoreReduction::from(8), SemaphoreReduction::Unknown(8));
    assert_eq!(u32::from(SemaphoreReduction::FAdd), 10);
    assert_eq!(u32::from(SemaphoreReduction::Decrement), 7);
    assert_eq!(BypassL2::from(1), BypassL2::ForceVolatile);
    assert_eq!(u32::from(BypassL2::UsePteSetting), 0);
}

#[test]
fn report_values_convert_both_ways() {
    assert_eq!(ReportCounterType::from(0x15), ReportCounterType::SamplesPassed);
    assert_eq!(ReportCounterType::from(7), ReportCounterType::GeometryShaderInvocations);
    assert_eq!(ReportCounterType::from(9), ReportCounterType::GeometryShaderPrimitives);
    assert_eq!(ReportCounterType::from(2), ReportCounterType::Unknown(2));
    assert_eq!(u32::from(ReportCounterType::ZcullStats3), 0x30);
    assert_eq!(u32::from(ReportCounterType::VertexShaderInvocations), 5);
    assert_eq!(u32::from(ReportCounterType::GeometryShaderInvocations), 5);
    assert_eq!(u32::from(ReportCounterType::GeometryShaderPrimitives), 5);
    assert_eq!(ReportControlOperation::from(2), ReportControlOperation::Counter);
    assert_eq!(ReportControlOperation::from(1), ReportControlOperation::Unknown(1));
    assert_eq!(u32::from(ReportControlOperation::Trap), 3);
}

#[test]
fn compute_values_convert_both_ways() {
    assert_eq!(DependentQmdType::from(1), DependentQmdType::Grid);
    assert_eq!(u32::from(DependentQmdType::Queue), 0);
    assert_eq!(ReleaseMembarType::from(0), ReleaseMembarType::Off);
    assert_eq!(u32::from(ReleaseMembarType::SysMembar), 1);
    assert_eq!(CwdMembarTypeL1::from(3), CwdMembarTypeL1::Membar);
    assert_eq!(CwdMembarTypeL1::from(2), CwdMembarTypeL1::Invalid);
    assert_eq!(u32::from(CwdMembarTypeL1::SysMembar), 1);
    assert_eq!(Fp32NanBehavior::from(1), Fp32NanBehavior::Fp64Compatible);
    assert_eq!(u32::from(Fp32NanBehavior::Legacy), 0);
    assert_eq!(Fp32F2INanBehavior::from(1), Fp32F2INanBehavior::PassIndefinite);
    assert_eq!(u32::from(Fp32F2INanBehavior::PassZero), 0);
    assert_eq!(ApiVisibleCallLimit::from(1), ApiVisibleCallLimit::NoCheck);
    assert_eq!(u32::from(ApiVisibleCallLimit::Limit32), 0);
    assert_eq!(SharedMemoryBankMapping::from(1), SharedMemoryBankMapping::EightBytesPerBank);
    assert_eq!(u32::from(SharedMemoryBankMapping::FourBytesPerBank), 0);
    assert_eq!(SamplerIndex::from(1), SamplerIndex::ViaHeaderIndex);
    assert_eq!(u32::from(SamplerIndex::Independently), 0);
    assert_eq!(Fp32NarrowInstruction::from(1), Fp32NarrowInstruction::FlushDenorms);
    assert_eq!(u32::from(Fp32NarrowInstruction::KeepDenorms), 0);
    assert_eq!(L1Configuration::from(2), L1Configuration::DirectlyAddressableMemorySize48kb);
    assert_eq!(L1Configuration::from(0), L1Configuration::DirectlyAddressableMemorySize16kb);
    assert_eq!(u32::from(L1Configuration::DirectlyAddressableMemorySize32kb), 1);
    assert_eq!(StructureSize::from(1), StructureSize::OneWord);
    assert_eq!(u32::from(StructureSize::FourWords), 0);
}

#[test]
fn launch_register_of_a_linear_copy() {
    let mut launch = LaunchDma::new();
    assert_eq!(launch.0, 0);
    launch.set_data_transfer(DataTransferType::NonPipelined);
    assert_eq!(launch.0, 0x2);
    launch.set_flush_enable(true);
    assert_eq!(launch.0, 0x6);
    launch.set_src_memory_layout(MemoryLayout::Pitch);
    assert_eq!(launch.0, 0x86);
    launch.set_dst_memory_layout(MemoryLayout::Pitch);
    assert_eq!(launch.0, 0x186);
    launch.set_src_type(MemoryType::Virtual);
    launch.set_dst_type(MemoryType::Virtual);
    assert_eq!(launch.0, LINEAR_COPY_LAUNCH);
    assert_eq!(launch.data_transfer(), DataTransferType::NonPipelined);
    assert!(launch.flush_enable());
    assert_eq!(launch.src_memory_layout(), MemoryLayout::Pitch);
    assert_eq!(launch.dst_memory_layout(), MemoryLayout::Pitch);
    assert_eq!(launch.src_type(), MemoryType::Virtual);
    assert_eq!(launch.dst_type(), MemoryType::Virtual);
    assert_eq!(launch.semaphore_type(), SemaphoreType::Off);
    assert!(!launch.multi_line_enable());
}

#[test]
fn launch_register_fields_sit_where_the_hardware_reads_them() {
    let mut launch = LaunchDma::new();
    launch.set_semaphore_type(SemaphoreType::ReleaseFourWord);
    assert_eq!(launch.0, 2 << 3);
    launch.set_interrupt_type(InterruptType::NonBlocking);
    assert_eq!(launch.0, (2 << 3) | (2 << 5));
    launch.set_multi_line_enable(true);
    launch.set_remap_emable(true);
    launch.set_rmw_disable(true);
    assert_eq!(launch.0, (2 << 3) | (2 << 5) | (7 << 9));
    launch.set_src_type(MemoryType::Physical);
    launch.set_dst_type(MemoryType::Physical);
    assert_eq!(launch.0 >> 12, 3);
    launch.set_semaphore_reduction(SemaphoreReduction::FAdd);
    assert_eq!(launch.semaphore_reduction(), SemaphoreReduction::FAdd);
    assert_eq!((launch.0 >> 14) & 0xf, 0xA);
    launch.set_reduction_signed(true);
    launch.set_reduction_enable(true);
    launch.set_bypass_l2(BypassL2::ForceVolatile);
    assert_eq!(launch.0 >> 18, 7);
    assert!(launch.reduction_signed());
    assert!(launch.reduction_enable());
    assert_eq!(launch.bypass_l2(), BypassL2::ForceVolatile);
    assert_eq!(launch.interrupt_type(), InterruptType::NonBlocking);
    assert!(launch.remap_emable());
    assert!(launch.rmw_disable());
    launch.set_semaphore_type(SemaphoreType::Unknown(7));
    assert_eq!(launch.semaphore_type(), SemaphoreType::Unknown(3));
}

#[test]
fn report_register_has_its_reserved_bits_set() {
    let mut report = ReportControl::new();
    assert_eq!(report.0, 0xF000);
    assert_eq!(report.reserved(), 0xF);
    report.set_operation(ReportControlOperation::Counter);
    report.set_flush_disable(true);
    report.set_reduction_enable(true);
    report.set_fence_enable(true);
    assert_eq!(report.0, 0xF01E);
    report.set_reduction_operation(ReductionOperation::Xor.into_threed());
    assert_eq!(report.0, 0xFE1E);
    report.set_reduction_signed(true);
    report.set_counter_type(ReportCounterType::SamplesPassed);
    report.set_one_word(true);
    assert_eq!(report.0, 0x1A82_FE1E);
    assert_eq!(report.operation(), ReportControlOperation::Counter);
    assert_eq!(report.counter_type(), ReportCounterType::SamplesPassed);
    assert!(report.is_one_word());
    assert!(report.flush_disable());
    assert!(report.reduction_enable());
    assert!(report.fence_enable());
    assert!(report.reduction_signed());
    report.set_reserved(0);
    assert_eq!(report.0, 0x1A82_0E1E);
}

trait IntoThreed {
    fn into_threed(self) -> nvgpu::maxwell::threed::ReductionOperation;
}

impl IntoThreed for ReductionOperation {
    fn into_threed(self) -> nvgpu::maxwell::threed::ReductionOperation {
        nvgpu::maxwell::threed::ReductionOperation::from(u32::from(self))
    }
}

#[test]
fn linear_copy_is_six_commands() {
    let mut stream = CommandStream::new();
    assert_eq!(memcpy_1d(&mut stream, 0x2_0000_1000, 0x1_0000_2000, 0x40), Ok(()));
    assert_eq!(stream.pending_len(), 6);
    assert_eq!(
        flushed_words(&mut stream),
        vec![
            0x8001_8107,
            0x2003_81C5,
            0x40,
            1,
            0,
            0x2003_81CC,
            0x40,
            1,
            0,
            0x2004_8100,
            1,
            0x2000,
            2,
            0x1000,
            0x2001_8106,
            0x40,
            0x2001_80C0,
            0x186,
        ]
    );
}

#[test]
fn report_query_is_one_command() {
    let mut stream = CommandStream::new();
    assert_eq!(query_get(&mut stream, 0x3_0000_0040, 0x1234, ReportControl::new()), Ok(()));
    assert_eq!(flushed_words(&mut stream), vec![0x2004_06C0, 3, 0x40, 0x1234, 0xF000]);
}

#[test]
fn inline_copy_is_three_commands() {
    let mut stream = CommandStream::new();
    assert_eq!(memcpy_inline_host_to_device(&mut stream, 0x1_0000_0000, &[42]), Ok(()));
    assert_eq!(
        flushed_words(&mut stream),
        vec![0x2004_2060, 1, 1, 1, 0, 0x2001_206C, 0x11, 0x6001_206D, 42]
    );
    let mut stream = CommandStream::new();
    assert_eq!(memcpy_inline_host_to_device(&mut stream, 8, &[1, 2, 3, 4, 5]), Ok(()));
    assert_eq!(
        flushed_words(&mut stream),
        vec![0x2004_2060, 5, 1, 0, 8, 0x2001_206C, 0x11, 0x6002_206D, 0x0403_0201, 5]
    );
}

#[test]
fn command_header_matches_a_foreign_decoder() {
    let mut command = Command::new(0x6D, SubChannelId::Compute, CommandSubmissionMode::NonIncreasing);
    command.push_argument(1).unwrap();
    let header = command.into_vec()[0];
    assert_eq!(header & 0x1fff, 0x6D);
    assert_eq!((header >> 13) & 7, 1);
    assert_eq!((header >> 16) & 0x7ff, 1);
    assert_eq!(header >> 29, 3);
}

#[test]
fn bit_ranges_run_across_words() {
    let words = [0x8000_0001u32, 0xffff_0003, 0x1234_5678];
    assert_eq!(bit_range(&words, 0, 0), 1);
    assert_eq!(bit_range(&words, 31, 31), 1);
    assert_eq!(bit_range(&words, 31, 0), 0x8000_0001);
    assert_eq!(bit_range(&words, 33, 30), 0b1110);
    assert_eq!(bit_range(&words, 62, 31), 0xfffe_0007);
    assert_eq!(bit_range(&words, 63, 32), 0xffff_0003);
    assert_eq!(bit_range(&words, 95, 64), 0x1234_5678);
    assert_eq!(bit_range(&words, 71, 60), 0x78f);
    assert_eq!(narrow_bit_range(&words, 71, 64), 0x78);
}

#[test]
fn written_bit_ranges_read_back() {
    let mut words = [0xffff_ffffu32; 4];
    set_bit_range(&mut words, 39, 28, 0x5a5);
    assert_eq!(words, [0x5fff_ffff, 0xffff_ff5a, 0xffff_ffff, 0xffff_ffff]);
    assert_eq!(bit_range(&words, 39, 28), 0x5a5);
    assert_eq!(bit_range(&words, 27, 0), 0xfff_ffff);
    assert_eq!(bit_range(&words, 63, 40), 0xff_ffff);
    set_bit_range(&mut words, 127, 96, 0);
    assert_eq!(words[3], 0);
    set_bit_range(&mut words, 100, 64, 0x8000_0001);
    assert_eq!(words[2], 0x8000_0001);
    assert_eq!(words[3], 0);
    set_bit_range(&mut words, 3, 0, 0xffff_fff0);
    assert_eq!(words[0], 0x5fff_fff0);
}

#[test]
fn constant_buffer_fields_sit_in_their_bits() {
    let mut buffer = QueueMetaData17ConstantBuffer(0);
    buffer.set_address_lower(0x1234_5678);
    buffer.set_address_upper(0x1ab);
    buffer.set_reserved_addr(0xff);
    buffer.set_invalidate(true);
    buffer.set_size(0x1_0001);
    assert_eq!(buffer.0, 0x8000_ffab_1234_5678);
    assert_eq!(buffer.address_lower(), 0x1234_5678);
    assert_eq!(buffer.address_upper(), 0xab);
    assert_eq!(buffer.reserved_addr(), 0x3f);
    assert!(buffer.invalidate());
    assert_eq!(buffer.size(), 0x1_0001);
    buffer.set_invalidate(false);
    assert_eq!(buffer.0, 0x8000_bfab_1234_5678);
    assert!(!buffer.invalidate());
}

#[test]
fn release_fields_sit_in_their_bits() {
    let mut release = QueueMetaData17Release([0; 3]);
    release.set_address_lower(0xdead_beef);
    release.set_address_upper(0x12);
    release.set_reduction_op(ReductionOperation::Or);
    release.set_reduction_signed(true);
    release.set_reduction_enable(true);
    release.set_structure_size(StructureSize::OneWord);
    release.set_payload(0xcafe);
    assert_eq!(release.0, [0xdead_beef, 0x8560_0012, 0xcafe]);
    assert_eq!(release.address_lower(), 0xdead_beef);
    assert_eq!(release.address_upper(), 0x12);
    assert_eq!(release.reduction_op(), ReductionOperation::Or);
    assert!(release.reduction_signed());
    assert!(release.reduction_enable());
    assert_eq!(release.structure_size(), StructureSize::OneWord);
    assert_eq!(release.payload(), 0xcafe);
    assert_eq!(release.bit_range(39, 28), 0x12d);
    assert!(release.bit(63));
    release.set_bit(63, false);
    assert_eq!(release.structure_size(), StructureSize::FourWords);
    release.set_bit_range(95, 64, 7);
    assert_eq!(release.payload(), 7);
}

#[test]
fn queue_meta_data_fields_sit_in_their_bits() {
    let mut qmd = QueueMetaData17([0; 64]);
    qmd.set_outer_put(0xffff_ffff);
    assert_eq!(qmd.0[0], 0x7fff_ffff);
    qmd.set_outer_overflow(true);
    assert_eq!(qmd.0[0], 0xffff_ffff);
    qmd.set_qmd_group_id(0x3f);
    qmd.set_sm_global_caching_enable(true);
    assert_eq!(qmd.0[6], 0x7f);
    assert_eq!(qmd.qmd_group_id(), 0x3f);
    qmd.set_dependent_qmd_type(DependentQmdType::Grid);
    assert_eq!(qmd.0[6], 0x407f);
    assert_eq!(qmd.dependent_qmd_type(), DependentQmdType::Grid);
    qmd.set_circular_queue_size(0x1ff_ffff);
    assert_eq!(qmd.0[7], 0x1ff_ffff);
    qmd.set_cwd_membar_type(CwdMembarTypeL1::Membar);
    assert_eq!(qmd.0[11], 3 << 16);
    assert_eq!(qmd.cwd_membar_type(), CwdMembarTypeL1::Membar);
    qmd.set_cta_raster_width(0x10);
    qmd.set_cta_raster_height(0x20);
    qmd.set_cta_raster_depth(0x30);
    assert_eq!(qmd.0[12], 0x10);
    assert_eq!(qmd.0[13], 0x0030_0020);
    qmd.set_qmd_version(7);
    qmd.set_qmd_major_version(1);
    assert_eq!(qmd.0[18], 0x17);
    qmd.set_cta_thread_dimension0(8);
    qmd.set_cta_thread_dimension1(4);
    qmd.set_cta_thread_dimension2(2);
    assert_eq!(qmd.0[18], 0x0008_0017);
    assert_eq!(qmd.0[19], 0x0002_0004);
    qmd.set_constant_buffer_valid(0x81);
    qmd.set_l1_configuration(L1Configuration::DirectlyAddressableMemorySize48kb);
    assert_eq!(qmd.0[20], 0x4000_0081);
    assert_eq!(qmd.constant_buffer_valid(), 0x81);
    assert_eq!(qmd.l1_configuration(), L1Configuration::DirectlyAddressableMemorySize48kb);
    qmd.set_register_count(0x20);
    qmd.set_barrier_count(1);
    assert_eq!(qmd.0[45], 1 << 27);
    assert_eq!(qmd.0[46], 0x20 << 24);
    assert_eq!(qmd.register_count(), 0x20);
    qmd.set_debug_id_lower(0xffff_ffff);
    assert_eq!(qmd.0[63], 0xffff_ffff);
    assert_eq!(qmd.debug_id_lower(), 0xffff_ffff);
    assert!(qmd.outer_overflow());
    assert!(!qmd.is_queue());
    assert_eq!(qmd.bit_range(30, 0), 0x7fff_ffff);
    assert!(qmd.bit(198));
    qmd.set_bit(198, false);
    assert!(!qmd.sm_global_caching_enable());
    qmd.set_bit_range(223, 208, 0xabcd);
    assert_eq!(qmd.qmd_reserved_b(), 0xabcd);
}

#[test]
fn releases_and_constant_buffers_sit_in_their_words() {
    let mut qmd = QueueMetaData17([0; 64]);
    qmd.set_release(0, &QueueMetaData17Release([1, 2, 3]));
    qmd.set_release(1, &QueueMetaData17Release([4, 5, 6]));
    assert_eq!(&qmd.0[0x17..0x1D], &[1, 2, 3, 4, 5, 6]);
    qmd.set_constant_buffer(0, &QueueMetaData17ConstantBuffer(0x1111_2222_3333_4444));
    qmd.set_constant_buffer(7, &QueueMetaData17ConstantBuffer(0x5555_6666_7777_8888));
    assert_eq!(&qmd.0[0x1D..0x1F], &[0x3333_4444, 0x1111_2222]);
    assert_eq!(&qmd.0[0x2B..0x2D], &[0x7777_8888, 0x5555_6666]);
    assert_eq!(qmd.0[0x16], 0);
    assert_eq!(qmd.0[0x2D], 0);
    let touched = qmd.0.iter().filter(|word| **word != 0).count();
    assert_eq!(touched, 10);
}
