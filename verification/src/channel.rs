//! The channel: what a submission of the ring looks like at the device
//! node, and what the node's answer means.

use crate::error::{ioctl_status, spec_ioctl_status, GpuError, IoctlOutcome, NvGpuResult};
use crate::nvhost::RawFence;
use crate::queue::{SubmitRequest, SUBMIT_FLAG_FENCE_GET};
use vstd::prelude::*;

verus! {

/// The fence that stands for "none" in the arguments of a submission.
pub open spec fn no_fence() -> RawFence {
    RawFence { id: (-1i32), value: 0xFFFF_FFFF }
}

/// The arguments of a submission, but for the descriptors themselves.
#[derive(Clone, Copy, Debug, PartialEq, Eq, Structural)]
pub struct SubmitArguments {
    /// The number of descriptors.
    pub num_entries: u32,
    /// The flags of the submission.
    pub flags: u32,
    /// The fence to wait for on the way in, the fence of the submission on
    /// the way out.
    pub fence: RawFence,
}

/// The arguments for handing `entries_len` descriptors over.
pub open spec fn spec_submit_arguments(
    entries_len: usize,
    input_fence: Option<RawFence>,
    flags: u32,
) -> SubmitArguments {
    SubmitArguments {
        num_entries: entries_len as u32,
        flags,
        fence: match input_fence {
            Some(fence) => fence,
            None => no_fence(),
        },
    }
}

/// The arguments for handing `entries_len` descriptors over. Where there
/// is no fence to wait for, the place of the fence holds the fence that
/// stands for none. The count is that of the ring, which is far below what
/// 32 bits hold; of a longer list it is the low 32 bits of the length.
pub fn submit_arguments(entries_len: usize, input_fence: Option<RawFence>, flags: u32) -> (r:
    SubmitArguments)
    ensures
        r == spec_submit_arguments(entries_len, input_fence, flags),
{
    let fence = match input_fence {
        Some(fence) => fence,
        None => RawFence { id: -1, value: 0xFFFF_FFFF },
    };
    SubmitArguments { num_entries: #[verifier::truncate] (entries_len as u32), flags, fence }
}

/// The arguments for the submission that `request` asks for.
pub fn request_arguments(request: &SubmitRequest) -> (r: SubmitArguments)
    ensures
        r == spec_submit_arguments(request@.entries.len() as usize, request@.wait_fence, request@.flags),
{
    submit_arguments(request.entries.len(), request.wait_fence, request.flags)
}

/// Whether a submission with these flags gives a fence back.
pub open spec fn gives_fence(flags: u32) -> bool {
    flags & SUBMIT_FLAG_FENCE_GET != 0
}

/// What the outcome of a submission means: on success the fence that the
/// kernel wrote, if the flags asked for one.
pub open spec fn spec_submit_result(outcome: IoctlOutcome, flags: u32, fence: RawFence)
    -> NvGpuResult<Option<RawFence>> {
    match spec_ioctl_status(outcome) {
        Ok(_) => if gives_fence(flags) {
            Ok(Some(fence))
        } else {
            Ok(None)
        },
        Err(error) => Err(error),
    }
}

/// Classifies the outcome of a submission, given the fence that the kernel
/// left in the arguments.
pub fn submit_result(outcome: IoctlOutcome, flags: u32, fence: RawFence) -> (r: NvGpuResult<
    Option<RawFence>,
>)
    ensures
        r == spec_submit_result(outcome, flags, fence),
{
    match ioctl_status(outcome) {
        Ok(_) => {
            let output_fence = if flags & SUBMIT_FLAG_FENCE_GET != 0 {
                Some(fence)
            } else {
                None
            };
            Ok(output_fence)
        },
        Err(error) => Err(error),
    }
}

/// The arguments for allocating a ring of `gpfifo_queue_size` slots: the
/// number of slots and the flags.
pub fn allocate_gpfifo_arguments(gpfifo_queue_size: usize, flags: u32) -> (r: (u32, u32))
    ensures
        r == (gpfifo_queue_size as u32, flags),
{
    (#[verifier::truncate] (gpfifo_queue_size as u32), flags)
}

/// Every submission that the ring asks for gives a fence back.
pub proof fn lemma_ring_submissions_give_fences()
    ensures
        gives_fence(10),
        gives_fence(11),
{
    assert(10u32 & (1u32 << 1u32) != 0 && 11u32 & (1u32 << 1u32) != 0) by (bit_vector);
}

} // verus!
