//! What the driver asks of the world around it.

use crate::nvhost::RawFence;
use crate::nvmap::MemoryCall;
use crate::queue::{SubmitRequest, SubmitRequestView};
use vstd::prelude::*;

verus! {

/// One thing that the embedding program has to do for the driver before
/// the driver can go on.
#[derive(Debug)]
pub enum KernelCall {
    /// Ask the memory manager or the address space.
    Memory(MemoryCall),
    /// Copy `words` to the mapped memory at `address`.
    Write { address: usize, words: Vec<u32> },
    /// Hand descriptors to the channel.
    Submit(SubmitRequest),
    /// Block until the fence is reached.
    Wait(RawFence),
}

/// One thing that the embedding program has to do, as a value.
pub enum KernelCallView {
    Memory(MemoryCall),
    Write { address: usize, words: Seq<u32> },
    Submit(SubmitRequestView),
    Wait(RawFence),
}

impl View for KernelCall {
    type V = KernelCallView;

    open spec fn view(&self) -> KernelCallView {
        match *self {
            KernelCall::Memory(call) => KernelCallView::Memory(call),
            KernelCall::Write { address, words } => KernelCallView::Write { address, words: words@ },
            KernelCall::Submit(request) => KernelCallView::Submit(request@),
            KernelCall::Wait(fence) => KernelCallView::Wait(fence),
        }
    }
}

} // verus!
