//! The hardware ring: a fixed number of slots for descriptors of command
//! buffers, and the one fence that tells when what was handed over is done.

use crate::command::GpuVirtualAddress;
use crate::error::{GpuError, NvGpuResult};
use crate::fifo_entry::GpFifoRawOffset;
use crate::nvhost::RawFence;
use vstd::prelude::*;

verus! {

/// The number of descriptors that the ring holds.
pub const GPFIFO_QUEUE_SIZE: usize = 0x800;

/// Flag of a submission: wait for the fence that comes with it.
pub const SUBMIT_FLAG_FENCE_WAIT: u32 = 1 << 0;

/// Flag of a submission: give a fence back.
pub const SUBMIT_FLAG_FENCE_GET: u32 = 1 << 1;

/// Flag of a submission: the fences are file descriptors.
pub const SUBMIT_FLAG_SYNC_FENCE: u32 = 1 << 3;

/// The descriptor of a command buffer: where it is, and how many words it
/// holds, the count above bit 42.
pub open spec fn ring_entry(gpu_address: GpuVirtualAddress, command_count: u64) -> GpFifoRawOffset {
    gpu_address | (command_count << 42)
}

/// Where the ring stands between two operations.
#[derive(Clone, Copy, Debug, PartialEq, Eq, Structural)]
pub enum QueueState {
    /// No descriptor, no fence.
    Idle,
    /// Descriptors that no submission has taken yet.
    Filling,
    /// Nothing to submit, and a fence that was not waited for.
    Submitted,
}

/// What a submission hands to the kernel.
#[derive(Debug)]
pub struct SubmitRequest {
    /// The descriptors, in the order in which they were appended.
    pub entries: Vec<GpFifoRawOffset>,
    /// The fence of the submission before, which this one has to wait for.
    pub wait_fence: Option<RawFence>,
    /// The flags of the submission.
    pub flags: u32,
}

/// What a submission hands to the kernel, as a value.
pub struct SubmitRequestView {
    pub entries: Seq<GpFifoRawOffset>,
    pub wait_fence: Option<RawFence>,
    pub flags: u32,
}

impl View for SubmitRequest {
    type V = SubmitRequestView;

    open spec fn view(&self) -> SubmitRequestView {
        SubmitRequestView { entries: self.entries@, wait_fence: self.wait_fence, flags: self.flags }
    }
}

/// What the ring is: the descriptors appended since the last submission
/// that went through, and the fence of that submission.
pub struct QueueView {
    pub entries: Seq<GpFifoRawOffset>,
    pub waiting_fence: Option<RawFence>,
}

impl QueueView {
    /// The ring before anything happened.
    pub open spec fn empty() -> QueueView {
        QueueView { entries: Seq::empty(), waiting_fence: None }
    }

    /// No more descriptors than the ring has slots.
    pub open spec fn wf(self) -> bool {
        self.entries.len() <= GPFIFO_QUEUE_SIZE
    }

    /// Every slot is taken.
    pub open spec fn is_full(self) -> bool {
        self.entries.len() >= GPFIFO_QUEUE_SIZE
    }

    /// Where the ring stands.
    pub open spec fn state(self) -> QueueState {
        if self.entries.len() > 0 {
            QueueState::Filling
        } else if self.waiting_fence is Some {
            QueueState::Submitted
        } else {
            QueueState::Idle
        }
    }

    /// Whether an append goes through.
    pub open spec fn append_result(self) -> NvGpuResult<()> {
        if self.is_full() {
            Err(GpuError::ResourceExhausted)
        } else {
            Ok(())
        }
    }

    /// The ring after an append: one descriptor more, unless it was full.
    pub open spec fn appended(self, gpu_address: GpuVirtualAddress, command_count: u64) -> QueueView {
        if self.is_full() {
            self
        } else {
            QueueView { entries: self.entries.push(ring_entry(gpu_address, command_count)), ..self }
        }
    }

    /// The ring after one append for each pair of `batch`, in order.
    pub open spec fn appended_all(self, batch: Seq<(GpuVirtualAddress, u64)>) -> QueueView
        decreases batch.len(),
    {
        if batch.len() == 0 {
            self
        } else {
            self.appended_all(batch.drop_last()).appended(batch.last().0, batch.last().1)
        }
    }

    /// The flags of the next submission: always a fence back, as a file
    /// descriptor; a wait only where there is a fence to wait for.
    pub open spec fn submit_flags(self) -> u32 {
        if self.waiting_fence is Some {
            11
        } else {
            10
        }
    }

    /// What the next submission hands to the kernel.
    pub open spec fn submit_request(self) -> SubmitRequestView {
        SubmitRequestView {
            entries: self.entries,
            wait_fence: self.waiting_fence,
            flags: self.submit_flags(),
        }
    }

    /// The ring while a submission is with the kernel: the fence has gone
    /// with it.
    pub open spec fn submitting(self) -> QueueView {
        QueueView { waiting_fence: None, ..self }
    }

    /// The ring after the kernel answered a submission: on success the
    /// descriptors are gone and the new fence is kept; on failure nothing
    /// changes.
    pub open spec fn submitted(self, reply: NvGpuResult<Option<RawFence>>) -> QueueView {
        match reply {
            Ok(fence) => QueueView { entries: Seq::empty(), waiting_fence: fence },
            Err(_) => self,
        }
    }

    /// The ring after a wait: no fence is left.
    pub open spec fn waited(self) -> QueueView {
        QueueView { waiting_fence: None, ..self }
    }
}

/// The ring of one channel.
#[derive(Debug)]
pub struct GpFifoQueue {
    queue: Vec<GpFifoRawOffset>,
    waiting_fence: Option<RawFence>,
}

impl View for GpFifoQueue {
    type V = QueueView;

    closed spec fn view(&self) -> QueueView {
        QueueView { entries: self.queue@, waiting_fence: self.waiting_fence }
    }
}

impl GpFifoQueue {
    /// An empty ring with no fence.
    pub fn new() -> (r: Self)
        ensures
            r@ == QueueView::empty(),
    {
        GpFifoQueue { queue: Vec::new(), waiting_fence: None }
    }

    /// The number of descriptors that wait for the next submission.
    pub fn position(&self) -> (r: usize)
        ensures
            r == self@.entries.len(),
    {
        self.queue.len()
    }

    /// The fence of the last submission, while nobody has waited for it.
    pub fn waiting_fence(&self) -> (r: Option<RawFence>)
        ensures
            r == self@.waiting_fence,
    {
        self.waiting_fence
    }

    /// Where the ring stands.
    pub fn state(&self) -> (r: QueueState)
        ensures
            r == self@.state(),
    {
        if self.queue.len() > 0 {
            QueueState::Filling
        } else if self.waiting_fence.is_some() {
            QueueState::Submitted
        } else {
            QueueState::Idle
        }
    }

    /// Appends the descriptor of the command buffer of `command_count` words
    /// at `gpu_address`. A full ring is left as it was and the call fails.
    pub fn append(&mut self, gpu_address: GpuVirtualAddress, command_count: u64, _flags: u32) -> (r:
        NvGpuResult<()>)
        ensures
            r == old(self)@.append_result(),
            final(self)@ == old(self)@.appended(gpu_address, command_count),
            old(self)@.wf() ==> final(self)@.wf(),
    {
        if self.queue.len() >= GPFIFO_QUEUE_SIZE {
            return Err(GpuError::ResourceExhausted);
        }
        self.queue.push(gpu_address | (command_count << 42));
        Ok(())
    }

    /// Begins a submission: gives what the kernel is to be handed, and
    /// lets go of the fence, which travels with the request.
    pub fn submit(&mut self) -> (r: SubmitRequest)
        ensures
            r@ == old(self)@.submit_request(),
            final(self)@ == old(self)@.submitting(),
    {
        let waiting_fence = self.waiting_fence.take();
        // 1 << 3 => fds
        let mut flags: u32 = SUBMIT_FLAG_FENCE_GET | SUBMIT_FLAG_SYNC_FENCE;
        // We have something to wait on from past request.
        if waiting_fence.is_some() {
            flags |= SUBMIT_FLAG_FENCE_WAIT;
        }
        assert(((1u32 << 1u32) | (1u32 << 3u32)) == 10 && (10u32 | (1u32 << 0u32)) == 11)
            by (bit_vector);
        SubmitRequest { entries: self.queue.clone(), wait_fence: waiting_fence, flags }
    }

    /// Ends a submission with the kernel's answer: on success keeps the new
    /// fence and empties the ring, on failure leaves the ring as it is and
    /// hands the failure on.
    pub fn complete_submit(&mut self, reply: NvGpuResult<Option<RawFence>>) -> (r: NvGpuResult<()>)
        ensures
            final(self)@ == old(self)@.submitted(reply),
            match reply {
                Ok(_) => r == Ok::<(), GpuError>(()),
                Err(e) => r == Err::<(), GpuError>(e),
            },
    {
        match reply {
            Ok(fence) => {
                self.waiting_fence = fence;
                self.queue.clear();
                Ok(())
            },
            Err(e) => Err(e),
        }
    }

    /// Gives the fence that has to be waited for, if there is one, and
    /// forgets it: after the wait the ring tracks no fence.
    pub fn wait_idle(&mut self) -> (r: Option<RawFence>)
        ensures
            r == old(self)@.waiting_fence,
            final(self)@ == old(self)@.waited(),
    {
        self.waiting_fence.take()
    }
}

/// Appends fill the ring one slot at a time until it is full, and touch
/// nothing but the descriptors.
pub proof fn lemma_appended_all(ring: QueueView, batch: Seq<(GpuVirtualAddress, u64)>)
    requires
        ring.wf(),
    ensures
        ring.appended_all(batch).wf(),
        ring.appended_all(batch).waiting_fence == ring.waiting_fence,
        ring.entries.len() + batch.len() <= GPFIFO_QUEUE_SIZE ==> ring.appended_all(
            batch,
        ).entries.len() == ring.entries.len() + batch.len(),
        ring.entries.len() + batch.len() > GPFIFO_QUEUE_SIZE ==> ring.appended_all(
            batch,
        ).entries.len() == GPFIFO_QUEUE_SIZE,
    decreases batch.len(),
{
    if batch.len() > 0 {
        lemma_appended_all(ring, batch.drop_last());
    }
}

/// A ring without descriptors takes as many appends as it has slots, and
/// refuses the one after them. A submission that goes through makes room
/// again.
pub proof fn lemma_ring_fills_at_capacity(
    ring: QueueView,
    batch: Seq<(GpuVirtualAddress, u64)>,
    fence: Option<RawFence>,
)
    requires
        ring.entries.len() == 0,
    ensures
        batch.len() < GPFIFO_QUEUE_SIZE ==> ring.appended_all(batch).append_result() is Ok,
        batch.len() >= GPFIFO_QUEUE_SIZE ==> ring.appended_all(batch).append_result() == Err::<
            (),
            GpuError,
        >(GpuError::ResourceExhausted),
        ring.appended_all(batch).submitting().submitted(Ok(fence)).append_result() is Ok,
{
    lemma_appended_all(ring, batch);
}

/// Two submissions in a row with no wait between them: the second is told
/// to wait for the fence of the first, its own fence takes the place of
/// that one, and one wait for it leaves the ring idle.
pub proof fn lemma_fences_chain(
    ring: QueueView,
    first: RawFence,
    second: RawFence,
    batch: Seq<(GpuVirtualAddress, u64)>,
)
    requires
        ring.wf(),
    ensures
        ({
            let after_first = ring.submitting().submitted(Ok(Some(first)));
            let request = after_first.appended_all(batch).submit_request();
            let after_second = after_first.appended_all(batch).submitting().submitted(
                Ok(Some(second)),
            );
            &&& after_first.waiting_fence == Some(first)
            &&& request.wait_fence == Some(first)
            &&& request.flags == 11
            &&& request.entries == after_first.appended_all(batch).entries
            &&& after_second.waiting_fence == Some(second)
            &&& after_second.state() == QueueState::Submitted
            &&& after_second.waited().state() == QueueState::Idle
        }),
{
    let after_first = ring.submitting().submitted(Ok(Some(first)));
    lemma_appended_all(after_first, batch);
}

} // verus!
