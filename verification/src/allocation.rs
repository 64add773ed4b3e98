//! Memory that the host and the GPU both see.
//!
//! An allocation owns one memory handle, has one address in the GPU's
//! address space for as long as it lives, and is mapped into the process
//! only while somebody needs to look at it. Making one takes several calls
//! to the kernel; `PendingAllocation` says which comes next.

use crate::command::GpuVirtualAddress;
use crate::error::{GpuError, NvGpuResult};
use crate::nvmap::{
    spec_cache_maintenance, spec_map, spec_mapped, spec_mapped_result, spec_unmap, spec_unmapped,
    Handle, KernelReply, MemoryCall, NvMapResult, RawHandle, CACHE_OPERATION_INVALIDATE,
    CACHE_OPERATION_WRITE_BACK_INVALIDATE, HANDLE_WRITE_COMBINE, HEAP_CARVEOUT_GENERIC,
    MAP_BUFFER_FLAG_DIRECT_KIND,
};
use vstd::prelude::*;

verus! {

/// The size of a page, and the least alignment of an allocation.
pub const PAGE_SIZE: u32 = 0x1000;

/// The largest size that still rounds up to a page multiple of 32 bits.
pub const MAX_USER_SIZE: usize = 0xffff_f000;

/// The alignment that is asked for: never less than a page.
pub open spec fn allocation_align(align: usize) -> u32 {
    if align < PAGE_SIZE {
        PAGE_SIZE
    } else {
        align as u32
    }
}

/// The size that is asked for: the least multiple of the page size that
/// holds `user_size` bytes.
pub open spec fn allocation_size(user_size: usize) -> u32 {
    ((user_size + (PAGE_SIZE - 1)) / (PAGE_SIZE as int) * PAGE_SIZE) as u32
}

/// Whether an allocation of this size and alignment can be asked for at
/// all: both have to fit the 32 bits that the kernel takes.
pub open spec fn allocation_fits(user_size: usize, align: usize) -> bool {
    user_size <= MAX_USER_SIZE && align <= u32::MAX
}

/// The call that maps the memory of `handle` for the GPU, wherever the
/// kernel finds room.
pub open spec fn allocation_map_call(handle: Handle) -> MemoryCall {
    MemoryCall::MapBuffer {
        flags: MAP_BUFFER_FLAG_DIRECT_KIND,
        compr_kind: 0,
        incompr_kind: 0,
        dmabuf_fd: handle.fd,
        page_size: PAGE_SIZE,
        buffer_offset: 0,
        mapping_size: 0,
        offset: 0,
    }
}

/// What an allocation is.
pub struct AllocationView {
    /// The memory handle that the allocation owns.
    pub handle: Handle,
    /// Where the memory sits in the GPU's address space.
    pub gpu_address: GpuVirtualAddress,
    /// The number of bytes that were asked for.
    pub user_size: usize,
}

impl AllocationView {
    /// The calls that give the allocation up, in order: out of the process
    /// if it is mapped there, then out of the GPU's address space.
    pub open spec fn release_calls(self) -> Seq<MemoryCall> {
        match spec_unmap(self.handle) {
            Some(call) => seq![call, MemoryCall::UnmapBuffer { offset: self.gpu_address }],
            None => seq![MemoryCall::UnmapBuffer { offset: self.gpu_address }],
        }
    }
}

/// Memory that the host and the GPU both see.
#[derive(Debug)]
pub struct GpuAllocated {
    handle: Handle,
    gpu_address: GpuVirtualAddress,
    user_size: usize,
}

impl View for GpuAllocated {
    type V = AllocationView;

    closed spec fn view(&self) -> AllocationView {
        AllocationView {
            handle: self.handle,
            gpu_address: self.gpu_address,
            user_size: self.user_size,
        }
    }
}

/// Which reply an allocation in the making waits for.
#[derive(Clone, Copy, Debug, PartialEq, Eq, Structural)]
pub enum AllocationStage {
    /// The handle.
    Creating,
    /// The file descriptor behind the handle.
    GettingFd { raw_handle: RawHandle },
    /// Memory for the handle.
    Allocating { handle: Handle },
    /// The address in the GPU's address space.
    Mapping { handle: Handle },
    /// The end of the handle, after a step that failed with `error`.
    Freeing { error: GpuError },
}

/// An allocation in the making.
#[derive(Clone, Copy, Debug, PartialEq, Eq, Structural)]
pub struct PendingAllocation {
    /// The number of bytes that were asked for.
    pub user_size: usize,
    /// The number of bytes that the handle is created with.
    pub size: u32,
    /// The alignment that the memory is allocated with.
    pub align: u32,
    /// What was asked of the kernel last.
    pub stage: AllocationStage,
}

/// How far an allocation has come.
#[derive(Debug)]
pub enum AllocationProgress {
    /// The kernel has to be asked this; the reply goes to `resume`.
    Call(PendingAllocation, MemoryCall),
    /// The allocation is there.
    Ready(GpuAllocated),
    /// The allocation failed, and what it had taken is given back.
    Failed(GpuError),
}

/// How far an allocation has come, as a value.
pub enum AllocationProgressView {
    Call(PendingAllocation, MemoryCall),
    Ready(AllocationView),
    Failed(GpuError),
}

impl View for AllocationProgress {
    type V = AllocationProgressView;

    open spec fn view(&self) -> AllocationProgressView {
        match *self {
            AllocationProgress::Call(pending, call) => AllocationProgressView::Call(pending, call),
            AllocationProgress::Ready(allocation) => AllocationProgressView::Ready(allocation@),
            AllocationProgress::Failed(error) => AllocationProgressView::Failed(error),
        }
    }
}

impl PendingAllocation {
    /// What is left to do after a step failed: free the handle, then report.
    pub open spec fn abandon(self, raw_handle: RawHandle, reply: KernelReply)
        -> AllocationProgressView {
        let error = match reply {
            KernelReply::Failed(e) => e,
            _ => GpuError::StateViolation,
        };
        AllocationProgressView::Call(
            PendingAllocation { stage: AllocationStage::Freeing { error }, ..self },
            MemoryCall::Free { handle: raw_handle },
        )
    }

    /// What follows the reply to the call that was made last. Each step
    /// takes the reply that its call gives; a failure, or a reply of another
    /// kind, ends the allocation, after the handle was freed if there was
    /// one.
    pub open spec fn spec_resume(self, reply: KernelReply) -> AllocationProgressView {
        match self.stage {
            AllocationStage::Creating => match reply {
                KernelReply::Handle(raw_handle) => AllocationProgressView::Call(
                    PendingAllocation {
                        stage: AllocationStage::GettingFd { raw_handle },
                        ..self
                    },
                    MemoryCall::GetFd { handle: raw_handle },
                ),
                KernelReply::Failed(e) => AllocationProgressView::Failed(e),
                _ => AllocationProgressView::Failed(GpuError::StateViolation),
            },
            AllocationStage::GettingFd { raw_handle } => match reply {
                KernelReply::Fd(fd) => AllocationProgressView::Call(
                    PendingAllocation {
                        stage: AllocationStage::Allocating {
                            handle: Handle {
                                size: self.size,
                                raw_handle,
                                fd,
                                mapped_address: None,
                            },
                        },
                        ..self
                    },
                    MemoryCall::Allocate {
                        handle: raw_handle,
                        heap_mask: HEAP_CARVEOUT_GENERIC,
                        flags: HANDLE_WRITE_COMBINE,
                        align: self.align,
                    },
                ),
                _ => self.abandon(raw_handle, reply),
            },
            AllocationStage::Allocating { handle } => match reply {
                KernelReply::Done => AllocationProgressView::Call(
                    PendingAllocation { stage: AllocationStage::Mapping { handle }, ..self },
                    allocation_map_call(handle),
                ),
                _ => self.abandon(handle.raw_handle, reply),
            },
            AllocationStage::Mapping { handle } => match reply {
                KernelReply::GpuAddress(gpu_address) => AllocationProgressView::Ready(
                    AllocationView { handle, gpu_address, user_size: self.user_size },
                ),
                _ => self.abandon(handle.raw_handle, reply),
            },
            AllocationStage::Freeing { error } => AllocationProgressView::Failed(error),
        }
    }

    fn abandoned(self, raw_handle: RawHandle, reply: KernelReply) -> (r: AllocationProgress)
        ensures
            r@ == self.abandon(raw_handle, reply),
    {
        let error = match reply {
            KernelReply::Failed(e) => e,
            _ => GpuError::StateViolation,
        };
        AllocationProgress::Call(
            PendingAllocation { stage: AllocationStage::Freeing { error }, ..self },
            MemoryCall::Free { handle: raw_handle },
        )
    }

    /// Takes the reply to the call that was made last and says what comes
    /// next.
    pub fn resume(self, reply: KernelReply) -> (r: AllocationProgress)
        ensures
            r@ == self.spec_resume(reply),
    {
        match self.stage {
            AllocationStage::Creating => match reply {
                KernelReply::Handle(raw_handle) => AllocationProgress::Call(
                    PendingAllocation {
                        stage: AllocationStage::GettingFd { raw_handle },
                        ..self
                    },
                    crate::nvmap::get_fd(raw_handle),
                ),
                KernelReply::Failed(e) => AllocationProgress::Failed(e),
                _ => AllocationProgress::Failed(GpuError::StateViolation),
            },
            AllocationStage::GettingFd { raw_handle } => match reply {
                KernelReply::Fd(fd) => {
                    let handle = Handle::from_raw(raw_handle, fd, self.size);
                    let call = crate::nvmap::allocate(
                        &handle,
                        HEAP_CARVEOUT_GENERIC,
                        HANDLE_WRITE_COMBINE,
                        self.align,
                    );
                    AllocationProgress::Call(
                        PendingAllocation { stage: AllocationStage::Allocating { handle }, ..self },
                        call,
                    )
                },
                _ => self.abandoned(raw_handle, reply),
            },
            AllocationStage::Allocating { handle } => match reply {
                KernelReply::Done => {
                    let call = crate::nvmap::map_buffer(&handle, 0, PAGE_SIZE, 0);
                    assert(0u32 | (1u32 << 8u32) == (1u32 << 8u32)) by (bit_vector);
                    AllocationProgress::Call(
                        PendingAllocation { stage: AllocationStage::Mapping { handle }, ..self },
                        call,
                    )
                },
                _ => self.abandoned(handle.raw_handle, reply),
            },
            AllocationStage::Mapping { handle } => match reply {
                KernelReply::GpuAddress(gpu_address) => AllocationProgress::Ready(
                    GpuAllocated::from_raw(handle, gpu_address, self.user_size),
                ),
                _ => self.abandoned(handle.raw_handle, reply),
            },
            AllocationStage::Freeing { error } => AllocationProgress::Failed(error),
        }
    }
}

impl GpuAllocated {
    /// Begins an allocation of `user_size` bytes: rounds the alignment up to
    /// a page at least and the size up to whole pages, and gives the first
    /// call to make. Fails where size or alignment do not fit 32 bits.
    pub fn new(user_size: usize, align: usize) -> (r: NvGpuResult<(PendingAllocation, MemoryCall)>)
        ensures
            !allocation_fits(user_size, align) ==> r == Err::<(PendingAllocation, MemoryCall), GpuError>(
                GpuError::ResourceExhausted,
            ),
            allocation_fits(user_size, align) ==> r == Ok::<(PendingAllocation, MemoryCall), GpuError>(
                (
                    PendingAllocation {
                        user_size,
                        size: allocation_size(user_size),
                        align: allocation_align(align),
                        stage: AllocationStage::Creating,
                    },
                    MemoryCall::Create { size: allocation_size(user_size) },
                ),
            ),
    {
        if user_size > MAX_USER_SIZE || align > u32::MAX as usize {
            return Err(GpuError::ResourceExhausted);
        }
        let align = if align < PAGE_SIZE as usize {
            PAGE_SIZE
        } else {
            align as u32
        };
        let user_size32 = user_size as u32;
        let size = (user_size32 + (PAGE_SIZE - 1)) & !(PAGE_SIZE - 1);
        assert(size == (user_size32 + 0xfff) / 0x1000 * 0x1000) by (bit_vector)
            requires
                user_size32 <= 0xffff_f000u32,
                size == ((user_size32 + 0xfffu32) as u32) & !0xfffu32,
        ;
        Ok(
            (
                PendingAllocation { user_size, size, align, stage: AllocationStage::Creating },
                crate::nvmap::create(size),
            ),
        )
    }

    /// An allocation from what the kernel gave.
    pub fn from_raw(handle: Handle, gpu_address: GpuVirtualAddress, user_size: usize) -> (r: Self)
        ensures
            r@ == (AllocationView { handle, gpu_address, user_size }),
    {
        GpuAllocated { handle, gpu_address, user_size }
    }

    /// The memory handle of the allocation.
    pub fn handle(&self) -> (r: Handle)
        ensures
            r == self@.handle,
    {
        self.handle
    }

    /// The call that maps the allocation into the process, or nothing where
    /// it is mapped already.
    pub fn map(&self) -> (r: Option<MemoryCall>)
        ensures
            r == spec_map(self@.handle),
    {
        crate::nvmap::map(&self.handle)
    }

    /// Takes the reply to a mapping call: the allocation is mapped from now
    /// on if the reply holds an address. Nothing else changes.
    pub fn mapped(&mut self, reply: KernelReply) -> (r: NvMapResult<usize>)
        ensures
            final(self)@ == (AllocationView {
                handle: spec_mapped(old(self)@.handle, reply),
                ..old(self)@
            }),
            r == spec_mapped_result(reply),
    {
        crate::nvmap::mapped(&mut self.handle, reply)
    }

    /// Where the allocation sits in the process. It is a state violation to
    /// ask before a mapping went through.
    pub fn host_address(&self) -> (r: NvMapResult<usize>)
        ensures
            r == match self@.handle.mapped_address {
                Some(address) => Ok::<usize, GpuError>(address),
                None => Err::<usize, GpuError>(GpuError::StateViolation),
            },
    {
        match self.handle.addr() {
            Some(address) => Ok(address),
            None => Err(GpuError::StateViolation),
        }
    }

    /// The number of elements of `element_size` bytes that the allocation
    /// holds for its user, none if the elements have no size.
    pub fn array_len(&self, element_size: usize) -> (r: usize)
        ensures
            element_size == 0 ==> r == 0,
            element_size > 0 ==> r == self@.user_size / element_size,
    {
        if element_size == 0 {
            0
        } else {
            self.user_size / element_size
        }
    }

    /// The call that takes the allocation out of the process, or nothing
    /// where it is not mapped.
    pub fn unmap(&self) -> (r: Option<MemoryCall>)
        ensures
            r == spec_unmap(self@.handle),
    {
        crate::nvmap::unmap(&self.handle)
    }

    /// Takes the reply to an unmapping call: the allocation is unmapped from
    /// now on unless the call failed. Nothing else changes.
    pub fn unmapped(&mut self, reply: KernelReply) -> (r: NvMapResult<()>)
        ensures
            final(self)@ == (AllocationView {
                handle: spec_unmapped(old(self)@.handle, reply),
                ..old(self)@
            }),
            r == reply.spec_status(),
    {
        crate::nvmap::unmapped(&mut self.handle, reply)
    }

    /// The call that drops what the host has cached of the whole memory, so
    /// that it reads what the device wrote; nothing where the allocation is
    /// not mapped.
    pub fn invalidate(&self) -> (r: Option<MemoryCall>)
        ensures
            r == spec_cache_maintenance(
                self@.handle,
                0,
                self@.handle.size,
                CACHE_OPERATION_INVALIDATE,
            ),
    {
        crate::nvmap::invalidate(&self.handle, 0, self.handle.size())
    }

    /// The call that writes back what the host has cached of the whole
    /// memory and then drops it, so that the device reads what the host
    /// wrote; nothing where the allocation is not mapped.
    pub fn flush(&self) -> (r: Option<MemoryCall>)
        ensures
            r == spec_cache_maintenance(
                self@.handle,
                0,
                self@.handle.size,
                CACHE_OPERATION_WRITE_BACK_INVALIDATE,
            ),
    {
        crate::nvmap::writeback_invalidate(&self.handle, 0, self.handle.size())
    }

    /// Where the memory sits in the GPU's address space.
    pub fn gpu_address(&self) -> (r: GpuVirtualAddress)
        ensures
            r == self@.gpu_address,
    {
        self.gpu_address
    }

    /// The number of bytes that were asked for.
    pub fn user_size(&self) -> (r: usize)
        ensures
            r == self@.user_size,
    {
        self.user_size
    }

    /// Gives the allocation up: the calls to make, in order. A call that
    /// fails here leaves memory behind that nothing refers to any more.
    pub fn release(self) -> (r: Vec<MemoryCall>)
        ensures
            r@ == self@.release_calls(),
    {
        let mut calls = Vec::new();
        match crate::nvmap::unmap(&self.handle) {
            Some(call) => {
                calls.push(call);
            },
            None => {},
        }
        calls.push(crate::nvmap::unmap_buffer(self.gpu_address));
        assert(calls@ =~= self@.release_calls());
        calls
    }
}

/// An allocation that was begun and whose every kernel step went through
/// has the size that was asked for, a handle of whole pages that holds it,
/// and the address that the kernel gave.
pub proof fn lemma_allocation_keeps_request(
    user_size: usize,
    align: usize,
    raw_handle: RawHandle,
    fd: i32,
    gpu_address: GpuVirtualAddress,
)
    requires
        allocation_fits(user_size, align),
    ensures
        ({
            let begun = PendingAllocation {
                user_size,
                size: allocation_size(user_size),
                align: allocation_align(align),
                stage: AllocationStage::Creating,
            };
            let handle = Handle {
                size: allocation_size(user_size),
                raw_handle,
                fd,
                mapped_address: None,
            };
            &&& begun.spec_resume(KernelReply::Handle(raw_handle)) matches AllocationProgressView::Call(
                second,
                _,
            )
            &&& second.spec_resume(KernelReply::Fd(fd)) matches AllocationProgressView::Call(third, _)
            &&& third.spec_resume(KernelReply::Done) matches AllocationProgressView::Call(fourth, _)
            &&& fourth.spec_resume(KernelReply::GpuAddress(gpu_address))
                == AllocationProgressView::Ready(AllocationView { handle, gpu_address, user_size })
        }),
        allocation_size(user_size) >= user_size,
        allocation_size(user_size) % PAGE_SIZE == 0,
        allocation_size(user_size) - user_size < PAGE_SIZE,
        allocation_align(align) >= PAGE_SIZE,
        allocation_align(align) >= align,
{
}

/// The call that frees the handle `raw_handle`, from an allocation that
/// has nothing left to do but that.
pub open spec fn frees_handle(progress: AllocationProgressView, raw_handle: RawHandle) -> bool {
    &&& progress matches AllocationProgressView::Call(next, call)
    &&& call == (MemoryCall::Free { handle: raw_handle })
    &&& next.stage is Freeing
}

/// Once the kernel has made a handle, an allocation that does not come
/// about frees it before it reports the failure.
pub proof fn lemma_failed_allocation_frees_handle(pending: PendingAllocation, reply: KernelReply)
    ensures
        match pending.stage {
            AllocationStage::Creating => !(reply is Handle) ==> pending.spec_resume(
                reply,
            ) is Failed,
            AllocationStage::GettingFd { raw_handle } => !(reply is Fd) ==> frees_handle(
                pending.spec_resume(reply),
                raw_handle,
            ),
            AllocationStage::Allocating { handle } => !(reply is Done) ==> frees_handle(
                pending.spec_resume(reply),
                handle.raw_handle,
            ),
            AllocationStage::Mapping { handle } => !(reply is GpuAddress) ==> frees_handle(
                pending.spec_resume(reply),
                handle.raw_handle,
            ),
            AllocationStage::Freeing { error } => pending.spec_resume(reply)
                == AllocationProgressView::Failed(error),
        },
{
}

} // verus!
