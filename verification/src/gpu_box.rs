//! A box, but available to the GPU: memory for one value that the host and
//! the GPU both see.

use crate::allocation::{AllocationView, GpuAllocated};
use crate::command::GpuVirtualAddress;
use crate::error::{GpuError, NvGpuResult};
use crate::kernel::{KernelCall, KernelCallView};
use crate::nvmap::{
    spec_cache_maintenance, spec_map, spec_mapped, spec_mapped_result, spec_unmap, spec_unmapped,
    KernelReply, MemoryCall, NvMapResult, CACHE_OPERATION_INVALIDATE,
    CACHE_OPERATION_WRITE_BACK_INVALIDATE,
};
use crate::upload::{begun_view, spec_begin_sized, Upload, UploadView};
use core::marker::PhantomData;
use vstd::layout::size_of;
use vstd::prelude::*;

verus! {

/// The number of words that a value of `size` bytes takes.
pub open spec fn words_of(size: nat) -> nat {
    (size + 3) / 4
}

/// What beginning a box gives: the upload of the words into memory of the
/// size of one value that stays mapped into the process, if the words are
/// those of one value.
pub open spec fn spec_new_box(words: Seq<u32>, size: usize) -> NvGpuResult<
    (UploadView, KernelCallView),
> {
    if words.len() != words_of(size as nat) {
        Err(GpuError::InvalidUsage)
    } else {
        spec_begin_sized(words, size, true)
    }
}

/// Memory for one value of `T` that the host and the GPU both see.
#[derive(Debug)]
pub struct GpuBox<T: Sized> {
    inner: GpuAllocated,
    phantom: PhantomData<T>,
}

impl<T: Sized> View for GpuBox<T> {
    type V = AllocationView;

    closed spec fn view(&self) -> AllocationView {
        self.inner@
    }
}

impl<T: Sized> GpuBox<T> {
    /// Begins a box for the value whose words are `words`: memory of the
    /// size of a `T` is allocated and mapped into the process, the words
    /// are written there, and the caches are written back, so that the
    /// device sees the value at once. Words that are not those of one
    /// value are refused.
    pub fn new(words: Vec<u32>) -> (r: NvGpuResult<(Upload, KernelCall)>)
        ensures
            begun_view(r) == spec_new_box(words@, size_of::<T>() as usize),
    {
        let size = core::mem::size_of::<T>();
        let count = if size % 4 == 0 {
            size / 4
        } else {
            size / 4 + 1
        };
        if words.len() != count {
            return Err(GpuError::InvalidUsage);
        }
        Upload::begin_sized(words, size, true)
    }

    /// The box of the memory that an upload made ready.
    pub fn from_allocation(inner: GpuAllocated) -> (r: Self)
        ensures
            r@ == inner@,
    {
        GpuBox { inner, phantom: PhantomData }
    }

    /// The memory of the box.
    pub fn into_allocation(self) -> (r: GpuAllocated)
        ensures
            r@ == self@,
    {
        self.inner
    }

    /// The call that maps the box into the process, or nothing where it is
    /// mapped already.
    pub fn map(&self) -> (r: Option<MemoryCall>)
        ensures
            r == spec_map(self@.handle),
    {
        self.inner.map()
    }

    /// Takes the reply to a mapping call.
    pub fn mapped(&mut self, reply: KernelReply) -> (r: NvMapResult<usize>)
        ensures
            final(self)@ == (AllocationView {
                handle: spec_mapped(old(self)@.handle, reply),
                ..old(self)@
            }),
            r == spec_mapped_result(reply),
    {
        self.inner.mapped(reply)
    }

    /// Where the value sits in the process. It is a state violation to ask
    /// while the box is not mapped.
    pub fn host_address(&self) -> (r: NvMapResult<usize>)
        ensures
            r == match self@.handle.mapped_address {
                Some(address) => Ok::<usize, GpuError>(address),
                None => Err::<usize, GpuError>(GpuError::StateViolation),
            },
    {
        self.inner.host_address()
    }

    /// The call that takes the box out of the process, or nothing where it
    /// is not mapped.
    pub fn unmap(&self) -> (r: Option<MemoryCall>)
        ensures
            r == spec_unmap(self@.handle),
    {
        self.inner.unmap()
    }

    /// Takes the reply to an unmapping call.
    pub fn unmapped(&mut self, reply: KernelReply) -> (r: NvMapResult<()>)
        ensures
            final(self)@ == (AllocationView {
                handle: spec_unmapped(old(self)@.handle, reply),
                ..old(self)@
            }),
            r == reply.spec_status(),
    {
        self.inner.unmapped(reply)
    }

    /// The call that drops what the host has cached of the value.
    pub fn invalidate(&self) -> (r: Option<MemoryCall>)
        ensures
            r == spec_cache_maintenance(
                self@.handle,
                0,
                self@.handle.size,
                CACHE_OPERATION_INVALIDATE,
            ),
    {
        self.inner.invalidate()
    }

    /// The call that writes back what the host has cached of the value.
    pub fn flush(&self) -> (r: Option<MemoryCall>)
        ensures
            r == spec_cache_maintenance(
                self@.handle,
                0,
                self@.handle.size,
                CACHE_OPERATION_WRITE_BACK_INVALIDATE,
            ),
    {
        self.inner.flush()
    }

    /// Where the value sits in the GPU's address space.
    pub fn gpu_address(&self) -> (r: GpuVirtualAddress)
        ensures
            r == self@.gpu_address,
    {
        self.inner.gpu_address()
    }
}

} // verus!
