use nvgpu::allocation::{
    AllocationProgress, AllocationStage, GpuAllocated, PendingAllocation, MAX_USER_SIZE, PAGE_SIZE,
};
use nvgpu::error::GpuError;
use nvgpu::nvmap::{Handle, KernelReply, MemoryCall};

fn expect_call(progress: AllocationProgress) -> (PendingAllocation, MemoryCall) {
    match progress {
        AllocationProgress::Call(pending, call) => (pending, call),
        other => panic!("a call was expected, not {:?}", other),
    }
}

fn expect_ready(progress: AllocationProgress) -> GpuAllocated {
    match progress {
        AllocationProgress::Ready(allocation) => allocation,
        other => panic!("an allocation was expected, not {:?}", other),
    }
}

fn expect_failed(progress: AllocationProgress) -> GpuError {
    match progress {
        AllocationProgress::Failed(error) => error,
        other => panic!("a failure was expected, not {:?}", other),
    }
}

fn allocate(user_size: usize, align: usize, gpu_address: u64) -> GpuAllocated {
    let (pending, _) = GpuAllocated::new(user_size, align).unwrap();
    let (pending, _) = expect_call(pending.resume(KernelReply::Handle(0x55)));
    let (pending, _) = expect_call(pending.resume(KernelReply::Fd(9)));
    let (pending, _) = expect_call(pending.resume(KernelReply::Done));
    expect_ready(pending.resume(KernelReply::GpuAddress(gpu_address)))
}

#[test]
fn page_size_is_four_kilobytes() {
    assert_eq!(PAGE_SIZE, 0x1000);
}

#[test]
fn allocation_of_one_page() {
    let allocation = allocate(4096, 0x1000, 0x4_0000_0000);
    assert_ne!(allocation.gpu_address(), 0);
    assert_eq!(allocation.gpu_address() % 0x1000, 0);
    assert_eq!(allocation.gpu_address(), 0x4_0000_0000);
    assert_eq!(allocation.user_size(), 4096);
    assert_eq!(allocation.handle(), Handle::from_raw(0x55, 9, 4096));
}

#[test]
fn allocation_asks_the_kernel_step_by_step() {
    let (pending, call) = GpuAllocated::new(5000, 0x20000).unwrap();
    assert_eq!(call, MemoryCall::Create { size: 0x2000 });
    assert_eq!(
        pending,
        PendingAllocation {
            user_size: 5000,
            size: 0x2000,
            align: 0x20000,
            stage: AllocationStage::Creating
        }
    );

    let (pending, call) = expect_call(pending.resume(KernelReply::Handle(0x55)));
    assert_eq!(call, MemoryCall::GetFd { handle: 0x55 });

    let (pending, call) = expect_call(pending.resume(KernelReply::Fd(9)));
    assert_eq!(
        call,
        MemoryCall::Allocate { handle: 0x55, heap_mask: 1, flags: 1, align: 0x20000 }
    );

    let (pending, call) = expect_call(pending.resume(KernelReply::Done));
    assert_eq!(
        call,
        MemoryCall::MapBuffer {
            flags: 0x100,
            compr_kind: 0,
            incompr_kind: 0,
            dmabuf_fd: 9,
            page_size: 0x1000,
            buffer_offset: 0,
            mapping_size: 0,
            offset: 0,
        }
    );

    let allocation = expect_ready(pending.resume(KernelReply::GpuAddress(0x10_0000)));
    assert_eq!(allocation.user_size(), 5000);
    assert_eq!(allocation.handle().size(), 0x2000);
    assert_eq!(allocation.handle().addr(), None);
}

#[test]
fn size_is_rounded_up_to_whole_pages() {
    for (user_size, size) in [
        (0usize, 0u32),
        (1, 0x1000),
        (0xfff, 0x1000),
        (0x1000, 0x1000),
        (0x1001, 0x2000),
        (0xffff_f000, 0xffff_f000),
        (0xffff_efff, 0xffff_f000),
    ] {
        let (_, call) = GpuAllocated::new(user_size, 0).unwrap();
        assert_eq!(call, MemoryCall::Create { size });
    }
}

#[test]
fn alignment_is_a_page_at_least() {
    for (align, expected) in [
        (0usize, 0x1000u32),
        (1, 0x1000),
        (0xfff, 0x1000),
        (0x1000, 0x1000),
        (0x1001, 0x1001),
        (0x20000, 0x20000),
        (0xffff_ffff, 0xffff_ffff),
    ] {
        let (pending, _) = GpuAllocated::new(16, align).unwrap();
        assert_eq!(pending.align, expected);
    }
}

#[test]
fn sizes_beyond_32_bits_are_refused() {
    assert_eq!(MAX_USER_SIZE, 0xffff_f000);
    assert_eq!(GpuAllocated::new(0xffff_f001, 0x1000), Err(GpuError::ResourceExhausted));
    assert_eq!(GpuAllocated::new(usize::MAX, 0x1000), Err(GpuError::ResourceExhausted));
    assert_eq!(GpuAllocated::new(16, 0x1_0000_0000), Err(GpuError::ResourceExhausted));
    assert!(GpuAllocated::new(0xffff_f000, 0xffff_ffff).is_ok());
}

#[test]
fn failed_creation_has_nothing_to_free() {
    let (pending, _) = GpuAllocated::new(16, 0).unwrap();
    let error = expect_failed(pending.resume(KernelReply::Failed(GpuError::KernelRequestFailed(12))));
    assert_eq!(error, GpuError::KernelRequestFailed(12));
}

#[test]
fn failure_after_creation_frees_the_handle() {
    let denied = KernelReply::Failed(GpuError::KernelRequestFailed(12));
    for failing_step in 1..4 {
        let (mut pending, _) = GpuAllocated::new(16, 0).unwrap();
        let replies = [
            KernelReply::Handle(0x77),
            KernelReply::Fd(4),
            KernelReply::Done,
            KernelReply::GpuAddress(0x1000),
        ];
        for step in 0..failing_step {
            pending = expect_call(pending.resume(replies[step])).0;
        }
        let (pending, call) = expect_call(pending.resume(denied));
        assert_eq!(call, MemoryCall::Free { handle: 0x77 });
        assert_eq!(
            pending.stage,
            AllocationStage::Freeing { error: GpuError::KernelRequestFailed(12) }
        );
        assert_eq!(
            expect_failed(pending.resume(KernelReply::Done)),
            GpuError::KernelRequestFailed(12)
        );
    }
}

#[test]
fn failed_free_still_reports_the_first_failure() {
    let (pending, _) = GpuAllocated::new(16, 0).unwrap();
    let (pending, _) = expect_call(pending.resume(KernelReply::Handle(1)));
    let (pending, _) =
        expect_call(pending.resume(KernelReply::Failed(GpuError::KernelRequestFailed(9))));
    assert_eq!(
        expect_failed(pending.resume(KernelReply::Failed(GpuError::KernelRequestFailed(5)))),
        GpuError::KernelRequestFailed(9)
    );
}

#[test]
fn reply_of_the_wrong_kind_is_a_state_violation() {
    let (pending, _) = GpuAllocated::new(16, 0).unwrap();
    assert_eq!(expect_failed(pending.resume(KernelReply::Done)), GpuError::StateViolation);

    let (pending, _) = GpuAllocated::new(16, 0).unwrap();
    let (pending, _) = expect_call(pending.resume(KernelReply::Handle(1)));
    let (pending, call) = expect_call(pending.resume(KernelReply::GpuAddress(3)));
    assert_eq!(call, MemoryCall::Free { handle: 1 });
    assert_eq!(expect_failed(pending.resume(KernelReply::Done)), GpuError::StateViolation);
}

#[test]
fn host_mapping_is_lazy_and_idempotent() {
    let mut allocation = allocate(64, 0, 0x1000);
    assert_eq!(allocation.host_address(), Err(GpuError::StateViolation));
    assert_eq!(allocation.map(), Some(MemoryCall::MapHost { fd: 9, size: 0x1000 }));
    assert_eq!(allocation.mapped(KernelReply::HostAddress(0x7f00_0000)), Ok(0x7f00_0000));
    assert_eq!(allocation.host_address(), Ok(0x7f00_0000));
    assert_eq!(allocation.map(), None);
    assert_eq!(allocation.gpu_address(), 0x1000);

    assert_eq!(
        allocation.unmap(),
        Some(MemoryCall::UnmapHost { mapped_address: 0x7f00_0000, size: 0x1000 })
    );
    assert_eq!(allocation.unmapped(KernelReply::Done), Ok(()));
    assert_eq!(allocation.unmap(), None);
    assert_eq!(allocation.host_address(), Err(GpuError::StateViolation));
    assert_eq!(allocation.gpu_address(), 0x1000);

    assert_eq!(allocation.map(), Some(MemoryCall::MapHost { fd: 9, size: 0x1000 }));
    assert_eq!(allocation.mapped(KernelReply::HostAddress(0x7f10_0000)), Ok(0x7f10_0000));
    assert_eq!(allocation.gpu_address(), 0x1000);
}

#[test]
fn failed_mapping_leaves_the_allocation_unmapped() {
    let mut allocation = allocate(64, 0, 0x1000);
    assert_eq!(
        allocation.mapped(KernelReply::Failed(GpuError::KernelRequestFailed(12))),
        Err(GpuError::KernelRequestFailed(12))
    );
    assert_eq!(allocation.map(), Some(MemoryCall::MapHost { fd: 9, size: 0x1000 }));
    assert_eq!(allocation.mapped(KernelReply::Done), Err(GpuError::StateViolation));
    assert_eq!(allocation.host_address(), Err(GpuError::StateViolation));
}

#[test]
fn failed_unmapping_leaves_the_allocation_mapped() {
    let mut allocation = allocate(64, 0, 0x1000);
    assert_eq!(allocation.mapped(KernelReply::HostAddress(0x5000)), Ok(0x5000));
    assert_eq!(
        allocation.unmapped(KernelReply::Failed(GpuError::KernelRequestFailed(22))),
        Err(GpuError::KernelRequestFailed(22))
    );
    assert_eq!(allocation.host_address(), Ok(0x5000));
}

#[test]
fn cache_maintenance_covers_the_whole_handle() {
    let mut allocation = allocate(5000, 0, 0x1000);
    assert_eq!(allocation.flush(), None);
    assert_eq!(allocation.invalidate(), None);
    assert_eq!(allocation.mapped(KernelReply::HostAddress(0x7f00_0000)), Ok(0x7f00_0000));
    assert_eq!(
        allocation.flush(),
        Some(MemoryCall::Cache { address: 0x7f00_0000, handle: 0x55, length: 0x2000, operation: 2 })
    );
    assert_eq!(
        allocation.invalidate(),
        Some(MemoryCall::Cache { address: 0x7f00_0000, handle: 0x55, length: 0x2000, operation: 1 })
    );
}

#[test]
fn array_length_counts_whole_elements() {
    let allocation = allocate(18, 0, 0x1000);
    assert_eq!(allocation.array_len(4), 4);
    assert_eq!(allocation.array_len(8), 2);
    assert_eq!(allocation.array_len(1), 18);
    assert_eq!(allocation.array_len(19), 0);
    assert_eq!(allocation.array_len(0), 0);
}

#[test]
fn release_unmaps_the_host_view_first() {
    let mut allocation = allocate(64, 0, 0x9000);
    assert_eq!(allocation.mapped(KernelReply::HostAddress(0x5000)), Ok(0x5000));
    assert_eq!(
        allocation.release(),
        vec![
            MemoryCall::UnmapHost { mapped_address: 0x5000, size: 0x1000 },
            MemoryCall::UnmapBuffer { offset: 0x9000 },
        ]
    );
    let allocation = allocate(64, 0, 0x9000);
    assert_eq!(allocation.release(), vec![MemoryCall::UnmapBuffer { offset: 0x9000 }]);
}

#[test]
fn memory_manager_calls_carry_their_arguments() {
    let mut handle = Handle::from_raw(3, 4, 0x3000);
    assert_eq!(handle.size(), 0x3000);
    assert_eq!(handle.addr(), None);
    assert_eq!(nvgpu::nvmap::create(0x3000), MemoryCall::Create { size: 0x3000 });
    assert_eq!(nvgpu::nvmap::create_from_fd(4), MemoryCall::CreateFromFd { fd: 4 });
    assert_eq!(nvgpu::nvmap::get_fd(3), MemoryCall::GetFd { handle: 3 });
    assert_eq!(
        nvgpu::nvmap::allocate(&handle, 1 << 30, 3, 0x10),
        MemoryCall::Allocate { handle: 3, heap_mask: 0x4000_0000, flags: 3, align: 0x10 }
    );
    assert_eq!(nvgpu::nvmap::writeback(&handle, 0, 4), None);
    assert_eq!(nvgpu::nvmap::mapped(&mut handle, KernelReply::HostAddress(0x1000)), Ok(0x1000));
    assert_eq!(
        nvgpu::nvmap::writeback(&handle, 8, 4),
        Some(MemoryCall::Cache { address: 0x1008, handle: 3, length: 4, operation: 0 })
    );
    assert_eq!(
        nvgpu::nvmap::invalidate(&handle, 0, 4),
        Some(MemoryCall::Cache { address: 0x1000, handle: 3, length: 4, operation: 1 })
    );
    assert_eq!(
        nvgpu::nvmap::writeback_invalidate(&handle, 0, 4),
        Some(MemoryCall::Cache { address: 0x1000, handle: 3, length: 4, operation: 2 })
    );
    assert_eq!(
        nvgpu::nvmap::map_buffer_external(4, 1, 2, 3, 0x1000, 5, 6, 7),
        MemoryCall::MapBuffer {
            flags: 0x101,
            compr_kind: 2,
            incompr_kind: 3,
            dmabuf_fd: 4,
            page_size: 0x1000,
            buffer_offset: 5,
            mapping_size: 6,
            offset: 7,
        }
    );
    assert_eq!(nvgpu::nvmap::unmap_buffer(0x1234), MemoryCall::UnmapBuffer { offset: 0x1234 });
    assert_eq!(nvgpu::nvmap::free(handle), MemoryCall::Free { handle: 3 });
}
