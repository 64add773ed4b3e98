//! Bringing words into memory that the GPU reads: allocate, map, copy,
//! write the caches back, and unmap again unless the host wants to keep
//! looking.

use crate::allocation::{
    allocation_align, allocation_fits, allocation_size, AllocationProgress,
    AllocationProgressView, AllocationStage, AllocationView, GpuAllocated, PendingAllocation,
};
use crate::command::Command;
use crate::error::{GpuError, NvGpuResult};
use crate::kernel::{KernelCall, KernelCallView};
use crate::nvmap::{
    spec_cache_maintenance, spec_map, spec_mapped, spec_mapped_result, spec_unmap, spec_unmapped,
    KernelReply, MemoryCall, CACHE_OPERATION_WRITE_BACK_INVALIDATE,
};
use vstd::prelude::*;

verus! {

/// The alignment of every buffer that is uploaded.
pub const UPLOAD_ALIGNMENT: usize = 0x20000;

/// Which reply an upload waits for.
#[derive(Clone, Copy, Debug, PartialEq, Eq, Structural)]
pub enum UploadStep {
    /// One of the allocation.
    Allocating(PendingAllocation),
    /// The address of the buffer in the process.
    MappingHost,
    /// The end of the copy.
    Writing,
    /// The end of the cache maintenance.
    Flushing,
    /// The end of the mapping into the process.
    Unmapping,
}

/// An upload on its way.
#[derive(Debug)]
pub struct Upload {
    words: Vec<u32>,
    keep_mapped: bool,
    step: UploadStep,
    buffer: Option<GpuAllocated>,
}

/// What an upload on its way is.
pub struct UploadView {
    /// The words that are still to be copied.
    pub words: Seq<u32>,
    /// Whether the buffer stays mapped into the process at the end.
    pub keep_mapped: bool,
    /// What was asked last.
    pub step: UploadStep,
    /// The buffer, once it is allocated.
    pub buffer: Option<AllocationView>,
}

impl View for Upload {
    type V = UploadView;

    closed spec fn view(&self) -> UploadView {
        UploadView {
            words: self.words@,
            keep_mapped: self.keep_mapped,
            step: self.step,
            buffer: match self.buffer {
                Some(buffer) => Some(buffer@),
                None => None,
            },
        }
    }
}

/// How far an upload has come.
#[derive(Debug)]
pub enum UploadProgress {
    /// This has to be done; the reply goes to `resume`.
    Call(Upload, KernelCall),
    /// The words are in the buffer and the device sees them.
    Ready(GpuAllocated),
    /// The upload failed. The buffer, if there was one by then, is handed
    /// back for release.
    Failed(Option<GpuAllocated>, GpuError),
}

/// How far an upload has come, as a value.
pub enum UploadProgressView {
    Call(UploadView, KernelCallView),
    Ready(AllocationView),
    Failed(Option<AllocationView>, GpuError),
}

impl View for UploadProgress {
    type V = UploadProgressView;

    open spec fn view(&self) -> UploadProgressView {
        match *self {
            UploadProgress::Call(upload, call) => UploadProgressView::Call(upload@, call@),
            UploadProgress::Ready(buffer) => UploadProgressView::Ready(buffer@),
            UploadProgress::Failed(buffer, error) => UploadProgressView::Failed(
                match buffer {
                    Some(buffer) => Some(buffer@),
                    None => None,
                },
                error,
            ),
        }
    }
}

/// The number of bytes that `count` words take.
pub open spec fn byte_size(count: nat) -> nat {
    4 * count
}

/// Whether `count` words fit a buffer that is asked for with `user_size`
/// bytes: the words must not take more than the whole pages that the
/// buffer is made of.
pub open spec fn words_fit(count: nat, user_size: usize) -> bool {
    allocation_fits(user_size, UPLOAD_ALIGNMENT) && byte_size(count) <= allocation_size(user_size)
}

/// The first step of an upload of `words` into a buffer of `user_size`
/// bytes, or the failure where the words do not fit such a buffer or no
/// such buffer can be asked for.
pub open spec fn spec_begin_sized(words: Seq<u32>, user_size: usize, keep_mapped: bool)
    -> NvGpuResult<(UploadView, KernelCallView)> {
    if !allocation_fits(user_size, UPLOAD_ALIGNMENT) {
        Err(GpuError::ResourceExhausted)
    } else if !words_fit(words.len(), user_size) {
        Err(GpuError::InvalidUsage)
    } else {
        Ok(
            (
                UploadView {
                    words,
                    keep_mapped,
                    step: UploadStep::Allocating(
                        PendingAllocation {
                            user_size,
                            size: allocation_size(user_size),
                            align: allocation_align(UPLOAD_ALIGNMENT),
                            stage: AllocationStage::Creating,
                        },
                    ),
                    buffer: None,
                },
                KernelCallView::Memory(MemoryCall::Create { size: allocation_size(user_size) }),
            ),
        )
    }
}

/// The first step of an upload of `words` into a buffer of just their
/// size, or the failure where that many words cannot be asked for.
pub open spec fn spec_begin(words: Seq<u32>, keep_mapped: bool) -> NvGpuResult<
    (UploadView, KernelCallView),
> {
    if byte_size(words.len()) <= usize::MAX {
        spec_begin_sized(words, byte_size(words.len()) as usize, keep_mapped)
    } else {
        Err(GpuError::ResourceExhausted)
    }
}

/// What beginning an upload gave, as a value.
pub open spec fn begun_view(begun: NvGpuResult<(Upload, KernelCall)>) -> NvGpuResult<
    (UploadView, KernelCallView),
> {
    match begun {
        Ok((upload, call)) => Ok((upload@, call@)),
        Err(error) => Err(error),
    }
}

impl UploadView {
    /// The upload with its buffer allocated: next the buffer is mapped into
    /// the process.
    pub open spec fn allocated(self, buffer: AllocationView) -> UploadProgressView {
        match spec_map(buffer.handle) {
            Some(call) => UploadProgressView::Call(
                UploadView { step: UploadStep::MappingHost, buffer: Some(buffer), ..self },
                KernelCallView::Memory(call),
            ),
            None => UploadProgressView::Failed(Some(buffer), GpuError::StateViolation),
        }
    }

    /// The upload with its buffer copied: next the caches are written back.
    pub open spec fn written(self, buffer: AllocationView) -> UploadProgressView {
        match spec_cache_maintenance(
            buffer.handle,
            0,
            buffer.handle.size,
            CACHE_OPERATION_WRITE_BACK_INVALIDATE,
        ) {
            Some(call) => UploadProgressView::Call(
                UploadView { step: UploadStep::Flushing, buffer: Some(buffer), ..self },
                KernelCallView::Memory(call),
            ),
            None => UploadProgressView::Failed(Some(buffer), GpuError::StateViolation),
        }
    }

    /// The upload with its caches written back: the end, or first the end
    /// of the mapping into the process.
    pub open spec fn flushed(self, buffer: AllocationView) -> UploadProgressView {
        if self.keep_mapped {
            UploadProgressView::Ready(buffer)
        } else {
            match spec_unmap(buffer.handle) {
                Some(call) => UploadProgressView::Call(
                    UploadView { step: UploadStep::Unmapping, buffer: Some(buffer), ..self },
                    KernelCallView::Memory(call),
                ),
                None => UploadProgressView::Ready(buffer),
            }
        }
    }

    /// What follows the reply to the call that was made last. A failure at
    /// any step ends the upload; the buffer, once it is there, comes back
    /// with the failure.
    pub open spec fn spec_resume(self, reply: KernelReply) -> UploadProgressView {
        match (self.step, self.buffer) {
            (UploadStep::Allocating(pending), None) => match pending.spec_resume(reply) {
                AllocationProgressView::Call(next, call) => UploadProgressView::Call(
                    UploadView { step: UploadStep::Allocating(next), ..self },
                    KernelCallView::Memory(call),
                ),
                AllocationProgressView::Ready(buffer) => self.allocated(buffer),
                AllocationProgressView::Failed(error) => UploadProgressView::Failed(None, error),
            },
            (UploadStep::MappingHost, Some(buffer)) => {
                let mapped = AllocationView { handle: spec_mapped(buffer.handle, reply), ..buffer };
                match spec_mapped_result(reply) {
                    Ok(address) => UploadProgressView::Call(
                        UploadView {
                            words: Seq::empty(),
                            step: UploadStep::Writing,
                            buffer: Some(mapped),
                            ..self
                        },
                        KernelCallView::Write { address, words: self.words },
                    ),
                    Err(error) => UploadProgressView::Failed(Some(mapped), error),
                }
            },
            (UploadStep::Writing, Some(buffer)) => match reply.spec_status() {
                Ok(_) => self.written(buffer),
                Err(error) => UploadProgressView::Failed(Some(buffer), error),
            },
            (UploadStep::Flushing, Some(buffer)) => match reply.spec_status() {
                Ok(_) => self.flushed(buffer),
                Err(error) => UploadProgressView::Failed(Some(buffer), error),
            },
            (UploadStep::Unmapping, Some(buffer)) => {
                let unmapped = AllocationView {
                    handle: spec_unmapped(buffer.handle, reply),
                    ..buffer
                };
                match reply.spec_status() {
                    Ok(_) => UploadProgressView::Ready(unmapped),
                    Err(error) => UploadProgressView::Failed(Some(unmapped), error),
                }
            },
            (_, buffer) => UploadProgressView::Failed(buffer, GpuError::StateViolation),
        }
    }
}

impl Upload {
    /// Begins the upload of `words` into a buffer of its own, of just
    /// their size. The buffer stays mapped into the process at the end only
    /// if `keep_mapped` says so.
    pub fn begin(words: Vec<u32>, keep_mapped: bool) -> (r: NvGpuResult<(Upload, KernelCall)>)
        ensures
            begun_view(r) == spec_begin(words@, keep_mapped),
    {
        let count = words.len();
        if count > usize::MAX / 4 {
            return Err(GpuError::ResourceExhausted);
        }
        Self::begin_sized(words, count * 4, keep_mapped)
    }

    /// Begins the upload of `words` into a buffer of `user_size` bytes.
    /// Words that do not fit the pages of such a buffer are refused.
    pub fn begin_sized(words: Vec<u32>, user_size: usize, keep_mapped: bool) -> (r: NvGpuResult<
        (Upload, KernelCall),
    >)
        ensures
            begun_view(r) == spec_begin_sized(words@, user_size, keep_mapped),
    {
        let (pending, call) = GpuAllocated::new(user_size, UPLOAD_ALIGNMENT)?;
        if words.len() > (pending.size / 4) as usize {
            return Err(GpuError::InvalidUsage);
        }
        Ok(
            (
                Upload { words, keep_mapped, step: UploadStep::Allocating(pending), buffer: None },
                KernelCall::Memory(call),
            ),
        )
    }

    fn with_buffer(self, buffer: GpuAllocated) -> (r: UploadProgress)
        ensures
            r@ == self@.allocated(buffer@),
    {
        match buffer.map() {
            Some(call) => UploadProgress::Call(
                Upload {
                    words: self.words,
                    keep_mapped: self.keep_mapped,
                    step: UploadStep::MappingHost,
                    buffer: Some(buffer),
                },
                KernelCall::Memory(call),
            ),
            None => UploadProgress::Failed(Some(buffer), GpuError::StateViolation),
        }
    }

    fn after_write(self, buffer: GpuAllocated) -> (r: UploadProgress)
        ensures
            r@ == self@.written(buffer@),
    {
        match buffer.flush() {
            Some(call) => UploadProgress::Call(
                Upload {
                    words: self.words,
                    keep_mapped: self.keep_mapped,
                    step: UploadStep::Flushing,
                    buffer: Some(buffer),
                },
                KernelCall::Memory(call),
            ),
            None => UploadProgress::Failed(Some(buffer), GpuError::StateViolation),
        }
    }

    fn after_flush(self, buffer: GpuAllocated) -> (r: UploadProgress)
        ensures
            r@ == self@.flushed(buffer@),
    {
        if self.keep_mapped {
            return UploadProgress::Ready(buffer);
        }
        match buffer.unmap() {
            Some(call) => UploadProgress::Call(
                Upload {
                    words: self.words,
                    keep_mapped: self.keep_mapped,
                    step: UploadStep::Unmapping,
                    buffer: Some(buffer),
                },
                KernelCall::Memory(call),
            ),
            None => UploadProgress::Ready(buffer),
        }
    }

    /// Takes the reply to the call that was made last and says what comes
    /// next.
    pub fn resume(self, reply: KernelReply) -> (r: UploadProgress)
        ensures
            r@ == self@.spec_resume(reply),
    {
        let Upload { words, keep_mapped, step, buffer } = self;
        match (step, buffer) {
            (UploadStep::Allocating(pending), None) => match pending.resume(reply) {
                AllocationProgress::Call(next, call) => UploadProgress::Call(
                    Upload { words, keep_mapped, step: UploadStep::Allocating(next), buffer: None },
                    KernelCall::Memory(call),
                ),
                AllocationProgress::Ready(buffer) => {
                    let upload = Upload { words, keep_mapped, step, buffer: None };
                    upload.with_buffer(buffer)
                },
                AllocationProgress::Failed(error) => UploadProgress::Failed(None, error),
            },
            (UploadStep::MappingHost, Some(buffer)) => {
                let mut buffer = buffer;
                match buffer.mapped(reply) {
                    Ok(address) => UploadProgress::Call(
                        Upload {
                            words: Vec::new(),
                            keep_mapped,
                            step: UploadStep::Writing,
                            buffer: Some(buffer),
                        },
                        KernelCall::Write { address, words },
                    ),
                    Err(error) => UploadProgress::Failed(Some(buffer), error),
                }
            },
            (UploadStep::Writing, Some(buffer)) => match reply.status() {
                Ok(_) => {
                    let upload = Upload { words, keep_mapped, step, buffer: None };
                    upload.after_write(buffer)
                },
                Err(error) => UploadProgress::Failed(Some(buffer), error),
            },
            (UploadStep::Flushing, Some(buffer)) => match reply.status() {
                Ok(_) => {
                    let upload = Upload { words, keep_mapped, step, buffer: None };
                    upload.after_flush(buffer)
                },
                Err(error) => UploadProgress::Failed(Some(buffer), error),
            },
            (UploadStep::Unmapping, Some(buffer)) => {
                let mut buffer = buffer;
                match buffer.unmapped(reply) {
                    Ok(_) => UploadProgress::Ready(buffer),
                    Err(error) => UploadProgress::Failed(Some(buffer), error),
                }
            },
            (_, buffer) => UploadProgress::Failed(buffer, GpuError::StateViolation),
        }
    }
}

impl Command {
    /// Begins the upload of the words of the command into a buffer of
    /// their own, which is not mapped into the process at the end.
    pub fn into_gpu_allocated(self) -> (r: NvGpuResult<(Upload, KernelCall)>)
        ensures
            begun_view(r) == spec_begin(self@.words(), false),
    {
        let vec = self.into_vec();
        Upload::begin(vec, false)
    }
}

impl UploadView {
    /// The number of bytes of the buffer that the upload fills: those of
    /// the handle once there is one, those that the handle is asked for
    /// before.
    pub open spec fn buffer_size(self) -> nat {
        match (self.step, self.buffer) {
            (UploadStep::Allocating(pending), _) => pending.size as nat,
            (_, Some(buffer)) => buffer.handle.size as nat,
            (_, None) => 0,
        }
    }

    /// The handle in the making is of the size that was asked for, and the
    /// words that are still to be copied fit the buffer.
    pub open spec fn wf(self) -> bool {
        &&& self.step is Allocating <==> self.buffer is None
        &&& byte_size(self.words.len()) <= self.buffer_size()
        &&& self.step matches UploadStep::Allocating(pending) ==> match pending.stage {
            AllocationStage::Allocating { handle } => handle.size == pending.size,
            AllocationStage::Mapping { handle } => handle.size == pending.size,
            _ => true,
        }
    }
}

/// The copy never runs past the buffer: an upload that began is well
/// formed and stays so, and the words that it asks to be written take no
/// more bytes than the handle has, at the address where the handle is
/// mapped.
pub proof fn lemma_write_stays_in_buffer(upload: UploadView, reply: KernelReply)
    requires
        upload.wf(),
    ensures
        match upload.spec_resume(reply) {
            UploadProgressView::Call(next, call) => {
                &&& next.wf()
                &&& call matches KernelCallView::Write { address, words } ==> {
                    &&& next.buffer matches Some(buffer)
                    &&& buffer.handle.mapped_address == Some(address)
                    &&& byte_size(words.len()) <= buffer.handle.size
                    &&& words == upload.words
                }
            },
            _ => true,
        },
{
}

/// An upload that began is well formed.
pub proof fn lemma_begun_upload_is_well_formed(
    words: Seq<u32>,
    user_size: usize,
    keep_mapped: bool,
)
    ensures
        spec_begin_sized(words, user_size, keep_mapped) matches Ok((upload, _)) ==> upload.wf(),
        spec_begin(words, keep_mapped) matches Ok((upload, _)) ==> upload.wf()
            && upload.buffer_size() >= byte_size(words.len()),
{
    if byte_size(words.len()) <= usize::MAX && allocation_fits(
        byte_size(words.len()) as usize,
        UPLOAD_ALIGNMENT,
    ) {
        crate::allocation::lemma_allocation_keeps_request(
            byte_size(words.len()) as usize,
            UPLOAD_ALIGNMENT,
            0,
            0,
            0,
        );
    }
}

/// Where every call goes through, an upload asks for the buffer, maps it
/// into the process, has the words copied to where it is mapped, has the
/// caches written back, and takes the buffer out of the process again
/// unless it is to stay there; then the buffer is ready, with the size and
/// the address that it was given.
pub proof fn lemma_upload_runs_to_the_end(
    words: Seq<u32>,
    user_size: usize,
    keep_mapped: bool,
    raw_handle: crate::nvmap::RawHandle,
    fd: i32,
    gpu_address: crate::command::GpuVirtualAddress,
    address: usize,
)
    requires
        words_fit(words.len(), user_size),
    ensures
        ({
            let handle = crate::nvmap::Handle {
                size: allocation_size(user_size),
                raw_handle,
                fd,
                mapped_address: None,
            };
            let mapped = crate::nvmap::Handle { mapped_address: Some(address), ..handle };
            let ready = AllocationView {
                handle: if keep_mapped {
                    mapped
                } else {
                    handle
                },
                gpu_address,
                user_size,
            };
            &&& spec_begin_sized(words, user_size, keep_mapped) matches Ok((created, _))
            &&& created.spec_resume(KernelReply::Handle(raw_handle)) matches UploadProgressView::Call(
                with_handle,
                _,
            )
            &&& with_handle.spec_resume(KernelReply::Fd(fd)) matches UploadProgressView::Call(
                with_fd,
                _,
            )
            &&& with_fd.spec_resume(KernelReply::Done) matches UploadProgressView::Call(
                with_memory,
                _,
            )
            &&& with_memory.spec_resume(KernelReply::GpuAddress(gpu_address))
                matches UploadProgressView::Call(allocated, map)
            &&& map == KernelCallView::Memory(
                MemoryCall::MapHost { fd, size: allocation_size(user_size) },
            )
            &&& allocated.spec_resume(KernelReply::HostAddress(address))
                matches UploadProgressView::Call(mapping, write)
            &&& write == (KernelCallView::Write { address, words })
            &&& mapping.spec_resume(KernelReply::Done) matches UploadProgressView::Call(
                writing,
                cache,
            )
            &&& cache == KernelCallView::Memory(
                MemoryCall::Cache {
                    address: address as u64,
                    handle: raw_handle,
                    length: allocation_size(user_size),
                    operation: CACHE_OPERATION_WRITE_BACK_INVALIDATE,
                },
            )
            &&& if keep_mapped {
                writing.spec_resume(KernelReply::Done) == UploadProgressView::Ready(ready)
            } else {
                &&& writing.spec_resume(KernelReply::Done) matches UploadProgressView::Call(
                    flushing,
                    unmap,
                )
                &&& unmap == KernelCallView::Memory(
                    MemoryCall::UnmapHost {
                        mapped_address: address,
                        size: allocation_size(user_size),
                    },
                )
                &&& flushing.spec_resume(KernelReply::Done) == UploadProgressView::Ready(ready)
            }
        }),
{
}

/// An upload never gives a buffer back as ready unless every step that it
/// asked for went through: a failed reply ends it with a failure, and the
/// buffer, once there is one, comes back with it.
pub proof fn lemma_failed_step_fails_upload(upload: UploadView, error: GpuError)
    requires
        upload.step is Allocating <==> upload.buffer is None,
    ensures
        match upload.spec_resume(KernelReply::Failed(error)) {
            UploadProgressView::Ready(_) => false,
            UploadProgressView::Failed(buffer, _) => upload.buffer is Some ==> buffer is Some,
            UploadProgressView::Call(next, call) => upload.step is Allocating && call matches KernelCallView::Memory(
                MemoryCall::Free { .. },
            ),
        },
{
}

} // verus!
