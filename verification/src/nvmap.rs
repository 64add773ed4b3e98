//! The memory manager and the address space, as the driver sees them: what
//! it asks of them, what they answer, and the handle that it keeps.
//!
//! Nothing here talks to a device. A function that the driver needs the
//! kernel for gives back the call to make; the embedding program makes it
//! and hands the reply in.

use crate::command::GpuVirtualAddress;
use crate::error::{ioctl_status, spec_ioctl_status, GpuError, IoctlOutcome, NvGpuResult};
use crate::nvhost::RawFence;
use vstd::prelude::*;

verus! {

/// This is the raw representation of a memory handle, as the driver
/// returns it.
pub type RawHandle = u32;

/// The result of the memory manager's operations.
pub type NvMapResult<T> = NvGpuResult<T>;

/// Heap mask: I/O virtual memory manager.
pub const HEAP_IOVMM: u32 = 1 << 30;

/// Heap mask: IRAM carveout.
pub const HEAP_CARVEOUT_IRAM: u32 = 1 << 29;

/// Heap mask: VPR carveout.
pub const HEAP_CARVEOUT_VPR: u32 = 1 << 28;

/// Heap mask: security co-processor carveout.
pub const HEAP_CARVEOUT_TSEC: u32 = 1 << 27;

/// Heap mask: video memory carveout.
pub const HEAP_CARVEOUT_VIDMEM: u32 = 1 << 26;

/// Heap mask: IVM carveout.
pub const HEAP_CARVEOUT_IVM: u32 = 1 << 1;

/// Heap mask: generic carveout.
pub const HEAP_CARVEOUT_GENERIC: u32 = 1;

/// Allocation flag: uncacheable.
pub const HANDLE_UNCACHEABLE: u32 = 0;

/// Allocation flag: write combine.
pub const HANDLE_WRITE_COMBINE: u32 = 1;

/// Allocation flag: inner cacheable.
pub const HANDLE_INNER_CACHEABLE: u32 = 2;

/// Allocation flag: inner and outer cacheable.
pub const HANDLE_CACHEABLE: u32 = 3;

/// Cache maintenance: write back.
pub const CACHE_OPERATION_WRITE_BACK: i32 = 0;

/// Cache maintenance: invalidate.
pub const CACHE_OPERATION_INVALIDATE: i32 = 1;

/// Cache maintenance: write back, then invalidate.
pub const CACHE_OPERATION_WRITE_BACK_INVALIDATE: i32 = 2;

/// Flag that every buffer mapping is made with.
pub const MAP_BUFFER_FLAG_DIRECT_KIND: u32 = 1 << 8;

/// One request to the memory manager or to the address space, with the
/// arguments of the device-node call.
#[derive(Clone, Copy, Debug, PartialEq, Eq, Structural)]
pub enum MemoryCall {
    /// Memory manager: create a handle for `size` bytes.
    Create { size: u32 },
    /// Memory manager: create a handle for memory behind a file descriptor.
    CreateFromFd { fd: i32 },
    /// Memory manager: the file descriptor behind a handle.
    GetFd { handle: RawHandle },
    /// Memory manager: give the handle memory.
    Allocate { handle: RawHandle, heap_mask: u32, flags: u32, align: u32 },
    /// Map the handle's memory into the process.
    MapHost { fd: i32, size: u32 },
    /// Take the handle's memory out of the process.
    UnmapHost { mapped_address: usize, size: u32 },
    /// Memory manager: cache maintenance on mapped memory.
    Cache { address: u64, handle: RawHandle, length: u32, operation: i32 },
    /// Memory manager: free the handle and its memory.
    Free { handle: RawHandle },
    /// Address space: map a buffer for the GPU.
    MapBuffer {
        flags: u32,
        compr_kind: i16,
        incompr_kind: i16,
        dmabuf_fd: i32,
        page_size: u32,
        buffer_offset: u64,
        mapping_size: u64,
        offset: GpuVirtualAddress,
    },
    /// Address space: take a buffer away from the GPU.
    UnmapBuffer { offset: GpuVirtualAddress },
}

/// What came back from a call.
#[derive(Clone, Copy, Debug, PartialEq, Eq, Structural)]
pub enum KernelReply {
    /// The call went through; there is nothing to give back.
    Done,
    /// The handle that was created.
    Handle(RawHandle),
    /// The file descriptor behind a handle.
    Fd(i32),
    /// Where the memory sits in the process.
    HostAddress(usize),
    /// Where the buffer sits in the GPU's address space.
    GpuAddress(GpuVirtualAddress),
    /// The fence of a submission, if it gave one.
    Fence(Option<RawFence>),
    /// The call failed.
    Failed(GpuError),
}

impl KernelReply {
    /// The reply to a call that gives `value` back when it goes through.
    pub open spec fn spec_from_outcome(outcome: IoctlOutcome, value: KernelReply) -> KernelReply {
        match spec_ioctl_status(outcome) {
            Ok(_) => value,
            Err(e) => KernelReply::Failed(e),
        }
    }

    /// The reply to a call that gives `value` back when it goes through:
    /// `value` on status zero, the failure on any other outcome.
    pub fn from_outcome(outcome: IoctlOutcome, value: KernelReply) -> (r: KernelReply)
        ensures
            r == Self::spec_from_outcome(outcome, value),
    {
        match ioctl_status(outcome) {
            Ok(_) => value,
            Err(e) => KernelReply::Failed(e),
        }
    }

    /// What the reply means for a call that gives nothing back: any reply
    /// but a failure is taken as success.
    pub open spec fn spec_status(self) -> NvGpuResult<()> {
        match self {
            KernelReply::Failed(e) => Err(e),
            _ => Ok(()),
        }
    }

    /// What the reply means for a call that gives nothing back.
    pub fn status(self) -> (r: NvGpuResult<()>)
        ensures
            r == self.spec_status(),
    {
        match self {
            KernelReply::Failed(e) => Err(e),
            _ => Ok(()),
        }
    }
}

/// High level representation of a memory handle.
#[derive(Clone, Copy, Debug, PartialEq, Eq, Structural)]
pub struct Handle {
    /// The size of the memory region behind the memory handle.
    pub size: u32,
    /// The memory handle.
    pub raw_handle: RawHandle,
    /// The file descriptor associated to this handle.
    pub fd: i32,
    /// The mapped address of the memory handle, while it is mapped.
    pub mapped_address: Option<usize>,
}

impl Handle {
    /// Get the size of the memory region behind the memory handle.
    pub fn size(&self) -> (r: u32)
        ensures
            r == self.size,
    {
        self.size
    }

    /// Get the mapped address of the memory handle.
    pub fn addr(&self) -> (r: Option<usize>)
        ensures
            r == self.mapped_address,
    {
        self.mapped_address
    }

    /// A handle that is not mapped.
    pub fn from_raw(raw_handle: RawHandle, fd: i32, size: u32) -> (r: Self)
        ensures
            r == (Handle { size, raw_handle, fd, mapped_address: None }),
    {
        Handle { size, raw_handle, fd, mapped_address: None }
    }
}

/// The call that creates a handle for `size` bytes.
pub fn create(size: u32) -> (r: MemoryCall)
    ensures
        r == (MemoryCall::Create { size }),
{
    MemoryCall::Create { size }
}

/// The call that creates a handle for the memory behind `fd`.
pub fn create_from_fd(fd: i32) -> (r: MemoryCall)
    ensures
        r == (MemoryCall::CreateFromFd { fd }),
{
    MemoryCall::CreateFromFd { fd }
}

/// The call that asks for the file descriptor behind `handle`.
pub fn get_fd(handle: RawHandle) -> (r: MemoryCall)
    ensures
        r == (MemoryCall::GetFd { handle }),
{
    MemoryCall::GetFd { handle }
}

/// The call that gives `handle` memory from the heaps of `heap_mask`.
pub fn allocate(handle: &Handle, heap_mask: u32, flags: u32, align: u32) -> (r: MemoryCall)
    ensures
        r == (MemoryCall::Allocate { handle: handle.raw_handle, heap_mask, flags, align }),
{
    MemoryCall::Allocate { handle: handle.raw_handle, heap_mask, flags, align }
}

/// The call that frees `handle`.
pub fn free(handle: Handle) -> (r: MemoryCall)
    ensures
        r == (MemoryCall::Free { handle: handle.raw_handle }),
{
    MemoryCall::Free { handle: handle.raw_handle }
}

/// The call that maps `handle` into the process, or nothing where it is
/// mapped already.
pub open spec fn spec_map(handle: Handle) -> Option<MemoryCall> {
    if handle.mapped_address is Some {
        None
    } else {
        Some(MemoryCall::MapHost { fd: handle.fd, size: handle.size })
    }
}

/// The call that maps `handle` into the process, or nothing where it is
/// mapped already.
pub fn map(handle: &Handle) -> (r: Option<MemoryCall>)
    ensures
        r == spec_map(*handle),
{
    if handle.addr().is_some() {
        return None;
    }
    Some(MemoryCall::MapHost { fd: handle.fd, size: handle.size() })
}

/// The handle after the reply to a mapping call: mapped where the reply
/// holds an address, unchanged otherwise.
pub open spec fn spec_mapped(handle: Handle, reply: KernelReply) -> Handle {
    match reply {
        KernelReply::HostAddress(address) => Handle { mapped_address: Some(address), ..handle },
        _ => handle,
    }
}

/// What the reply to a mapping call means: the address on success, the
/// kernel's failure as it is, a state violation for any other reply.
pub open spec fn spec_mapped_result(reply: KernelReply) -> NvMapResult<usize> {
    match reply {
        KernelReply::HostAddress(address) => Ok(address),
        KernelReply::Failed(e) => Err(e),
        _ => Err(GpuError::StateViolation),
    }
}

/// Takes the reply to a mapping call.
pub fn mapped(handle: &mut Handle, reply: KernelReply) -> (r: NvMapResult<usize>)
    ensures
        *final(handle) == spec_mapped(*old(handle), reply),
        r == spec_mapped_result(reply),
{
    match reply {
        KernelReply::HostAddress(address) => {
            handle.mapped_address = Some(address);
            Ok(address)
        },
        KernelReply::Failed(e) => Err(e),
        _ => Err(GpuError::StateViolation),
    }
}

/// The call that takes `handle` out of the process, or nothing where it is
/// not mapped.
pub open spec fn spec_unmap(handle: Handle) -> Option<MemoryCall> {
    match handle.mapped_address {
        Some(address) => Some(MemoryCall::UnmapHost { mapped_address: address, size: handle.size }),
        None => None,
    }
}

/// The call that takes `handle` out of the process, or nothing where it is
/// not mapped.
pub fn unmap(handle: &Handle) -> (r: Option<MemoryCall>)
    ensures
        r == spec_unmap(*handle),
{
    match handle.addr() {
        Some(address) => Some(MemoryCall::UnmapHost { mapped_address: address, size: handle.size }),
        None => None,
    }
}

/// The handle after the reply to an unmapping call: unmapped unless the
/// call failed.
pub open spec fn spec_unmapped(handle: Handle, reply: KernelReply) -> Handle {
    match reply {
        KernelReply::Failed(_) => handle,
        _ => Handle { mapped_address: None, ..handle },
    }
}

/// Takes the reply to an unmapping call.
pub fn unmapped(handle: &mut Handle, reply: KernelReply) -> (r: NvMapResult<()>)
    ensures
        *final(handle) == spec_unmapped(*old(handle), reply),
        r == reply.spec_status(),
{
    match reply {
        KernelReply::Failed(e) => Err(e),
        _ => {
            handle.mapped_address = None;
            Ok(())
        },
    }
}

/// The cache maintenance call for `size` bytes at `offset` of the mapped
/// memory, or nothing where the handle is not mapped.
pub open spec fn spec_cache_maintenance(handle: Handle, offset: u32, size: u32, operation: i32)
    -> Option<MemoryCall> {
    match handle.mapped_address {
        Some(address) => Some(
            MemoryCall::Cache {
                address: (address + offset) as u64,
                handle: handle.raw_handle,
                length: size,
                operation,
            },
        ),
        None => None,
    }
}

/// The cache maintenance call for `size` bytes at `offset` of the mapped
/// memory, or nothing where the handle is not mapped. The place that it
/// names must be an address.
pub fn cache_maintenance(handle: &Handle, offset: u32, size: u32, operation: i32) -> (r: Option<
    MemoryCall,
>)
    requires
        handle.mapped_address matches Some(address) ==> address + offset <= u64::MAX,
    ensures
        r == spec_cache_maintenance(*handle, offset, size, operation),
{
    match handle.addr() {
        None => None,
        Some(mapped_address) => Some(
            MemoryCall::Cache {
                address: mapped_address as u64 + offset as u64,
                handle: handle.raw_handle,
                length: size,
                operation,
            },
        ),
    }
}

/// The call that writes the caches of the mapped memory back.
pub fn writeback(handle: &Handle, offset: u32, size: u32) -> (r: Option<MemoryCall>)
    requires
        handle.mapped_address matches Some(address) ==> address + offset <= u64::MAX,
    ensures
        r == spec_cache_maintenance(*handle, offset, size, CACHE_OPERATION_WRITE_BACK),
{
    cache_maintenance(handle, offset, size, CACHE_OPERATION_WRITE_BACK)
}

/// The call that invalidates the caches of the mapped memory.
pub fn invalidate(handle: &Handle, offset: u32, size: u32) -> (r: Option<MemoryCall>)
    requires
        handle.mapped_address matches Some(address) ==> address + offset <= u64::MAX,
    ensures
        r == spec_cache_maintenance(*handle, offset, size, CACHE_OPERATION_INVALIDATE),
{
    cache_maintenance(handle, offset, size, CACHE_OPERATION_INVALIDATE)
}

/// The call that writes the caches of the mapped memory back and
/// invalidates them.
pub fn writeback_invalidate(handle: &Handle, offset: u32, size: u32) -> (r: Option<MemoryCall>)
    requires
        handle.mapped_address matches Some(address) ==> address + offset <= u64::MAX,
    ensures
        r == spec_cache_maintenance(*handle, offset, size, CACHE_OPERATION_WRITE_BACK_INVALIDATE),
{
    cache_maintenance(handle, offset, size, CACHE_OPERATION_WRITE_BACK_INVALIDATE)
}

/// The call that maps the buffer behind `dmabuf_fd` for the GPU. Every
/// mapping is made with the direct-kind flag, whatever `flags` holds.
pub fn map_buffer_external(
    dmabuf_fd: i32,
    flags: u32,
    compr_kind: i16,
    incompr_kind: i16,
    page_size: u32,
    buffer_offset: u64,
    mapping_size: u64,
    fixed_address: GpuVirtualAddress,
) -> (r: MemoryCall)
    ensures
        r == (MemoryCall::MapBuffer {
            flags: flags | MAP_BUFFER_FLAG_DIRECT_KIND,
            compr_kind,
            incompr_kind,
            dmabuf_fd,
            page_size,
            buffer_offset,
            mapping_size,
            offset: fixed_address,
        }),
{
    MemoryCall::MapBuffer {
        flags: flags | MAP_BUFFER_FLAG_DIRECT_KIND,
        compr_kind,
        incompr_kind,
        dmabuf_fd,
        page_size,
        buffer_offset,
        mapping_size,
        offset: fixed_address,
    }
}

/// The call that maps the whole memory of `handle` for the GPU.
pub fn map_buffer(handle: &Handle, flags: u32, page_size: u32, fixed_address: GpuVirtualAddress)
    -> (r: MemoryCall)
    ensures
        r == (MemoryCall::MapBuffer {
            flags: flags | MAP_BUFFER_FLAG_DIRECT_KIND,
            compr_kind: 0,
            incompr_kind: 0,
            dmabuf_fd: handle.fd,
            page_size,
            buffer_offset: 0,
            mapping_size: 0,
            offset: fixed_address,
        }),
{
    map_buffer_external(handle.fd, flags, 0, 0, page_size, 0, 0, fixed_address)
}

/// The call that takes the buffer at `address` away from the GPU.
pub fn unmap_buffer(address: GpuVirtualAddress) -> (r: MemoryCall)
    ensures
        r == (MemoryCall::UnmapBuffer { offset: address }),
{
    MemoryCall::UnmapBuffer { offset: address }
}

} // verus!
