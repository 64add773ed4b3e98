//! The command stream: commands wait in a list, a flush brings them into a
//! buffer of their own and hands the buffer to the ring, and the buffers
//! stay with the stream until the hardware is known to be done with them.
//!
//! The stream never talks to the kernel. `flush` and `wait_idle` say what
//! has to be done next; the embedding program does it and calls `resume`
//! with the reply, until the stream says that it is done.

use crate::allocation::{AllocationView, GpuAllocated};
use crate::class::ClassId;
use crate::command::{Command, CommandSubmissionMode, CommandView, SubChannelId};
use crate::error::{GpuError, NvGpuResult};
use crate::fifo_entry::header_word;
use crate::kernel::{KernelCall, KernelCallView};
use crate::nvhost::RawFence;
use crate::nvmap::KernelReply;
use crate::queue::{GpFifoQueue, QueueView};
use crate::upload::{spec_begin, Upload, UploadProgress, UploadProgressView, UploadView};
use vstd::prelude::*;

verus! {

/// The commands of `list`, as values.
pub open spec fn command_views(list: Seq<Command>) -> Seq<CommandView> {
    Seq::new(list.len(), |i: int| list[i]@)
}

/// The allocations of `list`, as values.
pub open spec fn allocation_views(list: Seq<GpuAllocated>) -> Seq<AllocationView> {
    Seq::new(list.len(), |i: int| list[i]@)
}

/// The words of all commands of `pending`, in order.
pub open spec fn pending_words(pending: Seq<CommandView>) -> Seq<u32>
    decreases pending.len(),
{
    if pending.len() == 0 {
        Seq::empty()
    } else {
        pending_words(pending.drop_last()) + pending.last().words()
    }
}

/// Linearizes `commands`, one after the other.
pub fn linearize(commands: Vec<Command>) -> (r: Vec<u32>)
    ensures
        r@ == pending_words(command_views(commands@)),
{
    let mut words: Vec<u32> = Vec::new();
    let ghost views = command_views(commands@);
    for command in it: commands.into_iter()
        invariant
            it.seq() == commands@,
            views == command_views(commands@),
            words@ == pending_words(views.take(it.index() as int)),
    {
        let mut encoded = command.into_vec();
        words.append(&mut encoded);
        proof {
            let done = views.take(it.index() + 1);
            assert(done.drop_last() =~= views.take(it.index() as int));
            assert(done.last() == command@);
        }
    }
    proof {
        assert(views.take(views.len() as int) =~= views);
    }
    words
}

/// What the stream is busy with.
#[derive(Clone, Copy, Debug, PartialEq, Eq, Structural)]
pub enum StreamStage {
    /// Nothing: no call is outstanding.
    Ready,
    /// A flush, on the way to its buffer.
    Uploading,
    /// A flush, with its buffer in the ring and the ring with the kernel.
    Submitting,
    /// A wait for the fence of the last submission.
    Waiting,
}

/// What the stream says after each step.
#[derive(Debug)]
pub enum StreamProgress {
    /// This has to be done; the reply goes to `resume`.
    Call(KernelCall),
    /// The operation is over.
    Done(NvGpuResult<()>),
}

/// What the stream says after each step, as a value.
pub enum StreamProgressView {
    Call(KernelCallView),
    Done(NvGpuResult<()>),
}

impl View for StreamProgress {
    type V = StreamProgressView;

    open spec fn view(&self) -> StreamProgressView {
        match *self {
            StreamProgress::Call(call) => StreamProgressView::Call(call@),
            StreamProgress::Done(result) => StreamProgressView::Done(result),
        }
    }
}

/// What the kernel's reply to a submission means for the ring.
pub open spec fn submit_outcome(reply: KernelReply) -> NvGpuResult<Option<RawFence>> {
    match reply {
        KernelReply::Fence(fence) => Ok(fence),
        KernelReply::Failed(error) => Err(error),
        _ => Err(GpuError::StateViolation),
    }
}

/// The result without what it carries.
pub open spec fn without_value<T>(result: NvGpuResult<T>) -> NvGpuResult<()> {
    match result {
        Ok(_) => Ok(()),
        Err(error) => Err(error),
    }
}

/// What the stream is.
pub struct StreamView {
    /// The ring.
    pub ring: QueueView,
    /// The commands that wait for the next flush, oldest first.
    pub pending: Seq<CommandView>,
    /// The buffers that the ring or the hardware may still read.
    pub in_process: Seq<AllocationView>,
    /// The buffers that nothing reads any more and that wait for release.
    pub retired: Seq<AllocationView>,
    /// What the stream is busy with.
    pub stage: StreamStage,
    /// The upload of the flush that is under way.
    pub upload: Option<UploadView>,
}

impl StreamView {
    /// A stream with nothing in it.
    pub open spec fn empty() -> StreamView {
        StreamView {
            ring: QueueView::empty(),
            pending: Seq::empty(),
            in_process: Seq::empty(),
            retired: Seq::empty(),
            stage: StreamStage::Ready,
            upload: None,
        }
    }

    /// The ring holds no more than it has room for, an upload is there
    /// exactly while a flush is on its way to the buffer, and there is a
    /// free slot in the ring for that buffer.
    pub open spec fn wf(self) -> bool {
        &&& self.ring.wf()
        &&& self.stage is Uploading <==> self.upload is Some
        &&& self.stage is Uploading ==> !self.ring.is_full()
    }

    /// Whether the stream can end: nothing is under way and no fence is
    /// left to wait for.
    pub open spec fn can_end(self) -> bool {
        self.stage is Ready && self.ring.waiting_fence is None
    }

    /// The stream after a push.
    pub open spec fn pushed(self, command: CommandView) -> StreamView {
        StreamView { pending: self.pending.push(command), ..self }
    }

    /// What a flush begins with. Without commands there is nothing to do
    /// and nothing is done. A stream that is busy refuses. With a full ring
    /// nothing is touched. Otherwise the commands leave the list for good,
    /// as the words of one upload.
    pub open spec fn spec_flush(self) -> (StreamView, StreamProgressView) {
        if self.pending.len() == 0 {
            (self, StreamProgressView::Done(Ok(())))
        } else if !(self.stage is Ready) {
            (self, StreamProgressView::Done(Err(GpuError::StateViolation)))
        } else if self.ring.is_full() {
            (self, StreamProgressView::Done(Err(GpuError::ResourceExhausted)))
        } else {
            match spec_begin(pending_words(self.pending), false) {
                Ok((upload, call)) => (
                    StreamView {
                        pending: Seq::empty(),
                        stage: StreamStage::Uploading,
                        upload: Some(upload),
                        ..self
                    },
                    StreamProgressView::Call(call),
                ),
                Err(error) => (
                    StreamView { pending: Seq::empty(), ..self },
                    StreamProgressView::Done(Err(error)),
                ),
            }
        }
    }

    /// The stream with the buffer of its flush filled: the buffer becomes
    /// one descriptor of the ring, joins the buffers in process, and the
    /// ring goes to the kernel.
    pub open spec fn uploaded(self, buffer: AllocationView) -> (StreamView, StreamProgressView) {
        if self.ring.is_full() {
            (
                StreamView {
                    stage: StreamStage::Ready,
                    upload: None,
                    retired: self.retired.push(buffer),
                    ..self
                },
                StreamProgressView::Done(Err(GpuError::ResourceExhausted)),
            )
        } else {
            let ring = self.ring.appended(buffer.gpu_address, (buffer.user_size / 4) as u64);
            (
                StreamView {
                    ring: ring.submitting(),
                    in_process: self.in_process.push(buffer),
                    stage: StreamStage::Submitting,
                    upload: None,
                    ..self
                },
                StreamProgressView::Call(KernelCallView::Submit(ring.submit_request())),
            )
        }
    }

    /// The stream after a wait that went through: with nothing left in the
    /// ring, every buffer in process is retired.
    pub open spec fn settled(self) -> StreamView {
        if self.ring.entries.len() == 0 {
            StreamView {
                in_process: Seq::empty(),
                retired: self.retired + self.in_process,
                stage: StreamStage::Ready,
                ..self
            }
        } else {
            StreamView { stage: StreamStage::Ready, ..self }
        }
    }

    /// What follows the reply to the call that was made last.
    pub open spec fn spec_resume(self, reply: KernelReply) -> (StreamView, StreamProgressView) {
        match self.stage {
            StreamStage::Ready => (self, StreamProgressView::Done(Err(GpuError::StateViolation))),
            StreamStage::Uploading => match self.upload {
                None => (
                    StreamView { stage: StreamStage::Ready, ..self },
                    StreamProgressView::Done(Err(GpuError::StateViolation)),
                ),
                Some(upload) => match upload.spec_resume(reply) {
                    UploadProgressView::Call(next, call) => (
                        StreamView { upload: Some(next), ..self },
                        StreamProgressView::Call(call),
                    ),
                    UploadProgressView::Failed(buffer, error) => (
                        StreamView {
                            stage: StreamStage::Ready,
                            upload: None,
                            retired: match buffer {
                                Some(buffer) => self.retired.push(buffer),
                                None => self.retired,
                            },
                            ..self
                        },
                        StreamProgressView::Done(Err(error)),
                    ),
                    UploadProgressView::Ready(buffer) => self.uploaded(buffer),
                },
            },
            StreamStage::Submitting => (
                StreamView {
                    ring: self.ring.submitted(submit_outcome(reply)),
                    stage: StreamStage::Ready,
                    ..self
                },
                StreamProgressView::Done(without_value(submit_outcome(reply))),
            ),
            StreamStage::Waiting => match reply {
                KernelReply::Failed(error) => (
                    StreamView { stage: StreamStage::Ready, ..self },
                    StreamProgressView::Done(Err(error)),
                ),
                _ => (self.settled(), StreamProgressView::Done(Ok(()))),
            },
        }
    }

    /// What a wait begins with. A stream that is busy refuses. Without a
    /// fence there is nothing to wait for. Otherwise the fence leaves the
    /// ring and has to be waited for.
    pub open spec fn spec_wait_idle(self) -> (StreamView, StreamProgressView) {
        if !(self.stage is Ready) {
            (self, StreamProgressView::Done(Err(GpuError::StateViolation)))
        } else {
            match self.ring.waiting_fence {
                None => (self, StreamProgressView::Done(Ok(()))),
                Some(fence) => (
                    StreamView { ring: self.ring.waited(), stage: StreamStage::Waiting, ..self },
                    StreamProgressView::Call(KernelCallView::Wait(fence)),
                ),
            }
        }
    }
}

/// The command that binds `sub_channel` to the engine class `class`.
pub open spec fn bind_command(sub_channel: SubChannelId, class: ClassId) -> CommandView {
    CommandView {
        header: header_word(0, sub_channel.number(), CommandSubmissionMode::Increasing.id()),
        mode: CommandSubmissionMode::Increasing,
        arguments: seq![class.number()],
    }
}

/// The commands that bind each sub-channel to its engine.
pub open spec fn bind_commands() -> Seq<CommandView> {
    seq![
        bind_command(SubChannelId::ThreeD, ClassId::MAXWELL_B_3D),
        bind_command(SubChannelId::Compute, ClassId::MAXWELL_B_COMPUTE),
        bind_command(SubChannelId::InlineToMemory, ClassId::INLINE_TO_MEMORY),
        bind_command(SubChannelId::TwoD, ClassId::MAXWELL_A_2D),
        bind_command(SubChannelId::DirectMemoryAccess, ClassId::MAXWELL_B_DMA),
    ]
}

/// The command stream of one channel.
#[derive(Debug)]
pub struct CommandStream {
    /// The ring.
    fifo: GpFifoQueue,
    /// The commands that wait for the next flush.
    command_list: Vec<Command>,
    /// The command buffers that the ring or the hardware may still read.
    in_process: Vec<GpuAllocated>,
    /// The buffers that wait for release.
    retired: Vec<GpuAllocated>,
    /// What the stream is busy with.
    stage: StreamStage,
    /// The upload of the flush that is under way.
    upload: Option<Upload>,
}

impl View for CommandStream {
    type V = StreamView;

    closed spec fn view(&self) -> StreamView {
        StreamView {
            ring: self.fifo@,
            pending: command_views(self.command_list@),
            in_process: allocation_views(self.in_process@),
            retired: allocation_views(self.retired@),
            stage: self.stage,
            upload: match self.upload {
                Some(upload) => Some(upload@),
                None => None,
            },
        }
    }
}

impl CommandStream {
    /// A stream with nothing in it.
    pub fn new() -> (r: Self)
        ensures
            r@ == StreamView::empty(),
            r@.wf(),
    {
        let r = CommandStream {
            fifo: GpFifoQueue::new(),
            command_list: Vec::new(),
            in_process: Vec::new(),
            retired: Vec::new(),
            stage: StreamStage::Ready,
            upload: None,
        };
        assert(r@.pending =~= Seq::empty());
        assert(r@.in_process =~= Seq::empty());
        assert(r@.retired =~= Seq::empty());
        r
    }

    /// Puts `command` at the end of the list. This cannot fail.
    pub fn push(&mut self, command: Command) -> (r: NvGpuResult<()>)
        ensures
            r is Ok,
            final(self)@ == old(self)@.pushed(command@),
            old(self)@.wf() ==> final(self)@.wf(),
    {
        self.command_list.push(command);
        assert(final(self)@.pending =~= old(self)@.pending.push(command@));
        Ok(())
    }

    /// What the stream is busy with.
    pub fn stage(&self) -> (r: StreamStage)
        ensures
            r == self@.stage,
    {
        self.stage
    }

    /// The number of commands that wait for the next flush.
    pub fn pending_len(&self) -> (r: usize)
        ensures
            r == self@.pending.len(),
    {
        self.command_list.len()
    }

    /// The number of buffers that the ring or the hardware may still read.
    pub fn in_process_len(&self) -> (r: usize)
        ensures
            r == self@.in_process.len(),
    {
        self.in_process.len()
    }

    /// The fence of the last submission, while nobody has waited for it.
    pub fn waiting_fence(&self) -> (r: Option<RawFence>)
        ensures
            r == self@.ring.waiting_fence,
    {
        self.fifo.waiting_fence()
    }

    /// Begins a flush: all commands of the list, in the order in which
    /// they were pushed, become one buffer and one descriptor of the ring,
    /// and the ring is submitted. Without commands this does nothing and
    /// succeeds.
    pub fn flush(&mut self) -> (r: StreamProgress)
        ensures
            final(self)@ == old(self)@.spec_flush().0,
            r@ == old(self)@.spec_flush().1,
            old(self)@.wf() ==> final(self)@.wf(),
    {
        if self.command_list.len() == 0 {
            return StreamProgress::Done(Ok(()));
        }
        if self.stage != StreamStage::Ready {
            return StreamProgress::Done(Err(GpuError::StateViolation));
        }
        if self.fifo.position() >= crate::queue::GPFIFO_QUEUE_SIZE {
            return StreamProgress::Done(Err(GpuError::ResourceExhausted));
        }
        let mut commands: Vec<Command> = Vec::new();
        core::mem::swap(&mut self.command_list, &mut commands);
        assert(self@.pending =~= Seq::empty());
        let words = linearize(commands);
        match Upload::begin(words, false) {
            Ok((upload, call)) => {
                self.stage = StreamStage::Uploading;
                self.upload = Some(upload);
                StreamProgress::Call(call)
            },
            Err(error) => StreamProgress::Done(Err(error)),
        }
    }

    fn register(&mut self, buffer: GpuAllocated) -> (r: StreamProgress)
        requires
            old(self).upload is None,
        ensures
            final(self)@ == old(self)@.uploaded(buffer@).0,
            r@ == old(self)@.uploaded(buffer@).1,
    {
        let gpu_address = buffer.gpu_address();
        let command_count = (buffer.user_size() / 4) as u64;
        match self.fifo.append(gpu_address, command_count, 0) {
            Err(error) => {
                self.stage = StreamStage::Ready;
                self.retired.push(buffer);
                assert(self@.retired =~= old(self)@.retired.push(buffer@));
                StreamProgress::Done(Err(error))
            },
            Ok(_) => {
                self.in_process.push(buffer);
                assert(self@.in_process =~= old(self)@.in_process.push(buffer@));
                let request = self.fifo.submit();
                self.stage = StreamStage::Submitting;
                StreamProgress::Call(KernelCall::Submit(request))
            },
        }
    }

    /// Takes the reply to the call that was made last and says what comes
    /// next.
    pub fn resume(&mut self, reply: KernelReply) -> (r: StreamProgress)
        ensures
            final(self)@ == old(self)@.spec_resume(reply).0,
            r@ == old(self)@.spec_resume(reply).1,
            old(self)@.wf() ==> final(self)@.wf(),
    {
        match self.stage {
            StreamStage::Ready => StreamProgress::Done(Err(GpuError::StateViolation)),
            StreamStage::Uploading => match self.upload.take() {
                None => {
                    self.stage = StreamStage::Ready;
                    StreamProgress::Done(Err(GpuError::StateViolation))
                },
                Some(upload) => match upload.resume(reply) {
                    UploadProgress::Call(next, call) => {
                        self.upload = Some(next);
                        StreamProgress::Call(call)
                    },
                    UploadProgress::Failed(buffer, error) => {
                        self.stage = StreamStage::Ready;
                        match buffer {
                            Some(buffer) => {
                                self.retired.push(buffer);
                                assert(self@.retired =~= old(self)@.retired.push(buffer@));
                            },
                            None => {},
                        }
                        StreamProgress::Done(Err(error))
                    },
                    UploadProgress::Ready(buffer) => self.register(buffer),
                },
            },
            StreamStage::Submitting => {
                let outcome = match reply {
                    KernelReply::Fence(fence) => Ok(fence),
                    KernelReply::Failed(error) => Err(error),
                    _ => Err(GpuError::StateViolation),
                };
                let result = self.fifo.complete_submit(outcome);
                self.stage = StreamStage::Ready;
                StreamProgress::Done(result)
            },
            StreamStage::Waiting => match reply {
                KernelReply::Failed(error) => {
                    self.stage = StreamStage::Ready;
                    StreamProgress::Done(Err(error))
                },
                _ => {
                    self.stage = StreamStage::Ready;
                    if self.fifo.position() == 0 {
                        self.retired.append(&mut self.in_process);
                        assert(self@.retired =~= old(self)@.retired + old(self)@.in_process);
                        assert(self@.in_process =~= Seq::empty());
                    }
                    StreamProgress::Done(Ok(()))
                },
            },
        }
    }

    /// Begins a wait for the fence of the last submission. Only when the
    /// wait is over is it safe to give up the buffers that were in process.
    pub fn wait_idle(&mut self) -> (r: StreamProgress)
        ensures
            final(self)@ == old(self)@.spec_wait_idle().0,
            r@ == old(self)@.spec_wait_idle().1,
            old(self)@.wf() ==> final(self)@.wf(),
    {
        if self.stage != StreamStage::Ready {
            return StreamProgress::Done(Err(GpuError::StateViolation));
        }
        match self.fifo.wait_idle() {
            None => StreamProgress::Done(Ok(())),
            Some(fence) => {
                self.stage = StreamStage::Waiting;
                StreamProgress::Call(KernelCall::Wait(fence))
            },
        }
    }

    /// Ends the stream and hands out every buffer that it holds, those in
    /// process first, for release. Commands that were never flushed go
    /// with the stream. A stream that is busy, or that tracks a fence that
    /// nobody has waited for, is handed back as it is: the hardware may
    /// still read its buffers.
    pub fn teardown(self) -> (r: Result<Vec<GpuAllocated>, CommandStream>)
        ensures
            match r {
                Ok(buffers) => self@.can_end() && allocation_views(buffers@) == self@.in_process
                    + self@.retired,
                Err(stream) => !self@.can_end() && stream@ == self@,
            },
    {
        if self.stage != StreamStage::Ready || self.fifo.waiting_fence().is_some() {
            return Err(self);
        }
        let CommandStream { fifo, command_list, in_process, retired, stage, upload } = self;
        let mut buffers = in_process;
        let mut retired = retired;
        buffers.append(&mut retired);
        assert(allocation_views(buffers@) =~= self@.in_process + self@.retired);
        Ok(buffers)
    }

    /// Hands out the buffers that nothing reads any more, for release.
    pub fn take_retired(&mut self) -> (r: Vec<GpuAllocated>)
        ensures
            allocation_views(r@) == old(self)@.retired,
            final(self)@ == (StreamView { retired: Seq::empty(), ..old(self)@ }),
    {
        let mut retired: Vec<GpuAllocated> = Vec::new();
        core::mem::swap(&mut self.retired, &mut retired);
        assert(self@.retired =~= Seq::empty());
        retired
    }
}

/// Puts the command that binds `sub_channel` to `class` at the end of the
/// list.
fn bind(stream: &mut CommandStream, sub_channel: SubChannelId, class: ClassId) -> (r: NvGpuResult<
    (),
>)
    ensures
        r is Ok,
        final(stream)@ == old(stream)@.pushed(bind_command(sub_channel, class)),
{
    let mut bind_channel_command = Command::new(0, sub_channel, CommandSubmissionMode::Increasing);
    bind_channel_command.push_argument(u32::from(class))?;
    assert(bind_channel_command@.arguments =~= seq![class.number()]);
    stream.push(bind_channel_command)
}

/// Puts the commands that bind each sub-channel to its engine at the end
/// of the list.
fn bind_sub_channels(stream: &mut CommandStream) -> (r: NvGpuResult<()>)
    ensures
        r is Ok,
        final(stream)@ == (StreamView {
            pending: old(stream)@.pending + bind_commands(),
            ..old(stream)@
        }),
{
    // Bind subchannel 0, 3D
    bind(stream, SubChannelId::ThreeD, ClassId::MAXWELL_B_3D)?;
    // Bind subchannel 1, Compute
    bind(stream, SubChannelId::Compute, ClassId::MAXWELL_B_COMPUTE)?;
    // Bind subchannel 2, Inline To Memory
    bind(stream, SubChannelId::InlineToMemory, ClassId::INLINE_TO_MEMORY)?;
    // Bind subchannel 3, 2D
    bind(stream, SubChannelId::TwoD, ClassId::MAXWELL_A_2D)?;
    // Bind subchannel 4, DMA
    bind(stream, SubChannelId::DirectMemoryAccess, ClassId::MAXWELL_B_DMA)?;
    assert(stream@.pending =~= old(stream)@.pending + bind_commands());
    Ok(())
}

/// Binds each sub-channel to its engine, by one command each at the end of
/// the list, and begins a wait for whatever the stream had submitted
/// before.
pub fn setup_channel(stream: &mut CommandStream) -> (r: StreamProgress)
    ensures
        ({
            let bound = StreamView {
                pending: old(stream)@.pending + bind_commands(),
                ..old(stream)@
            };
            &&& final(stream)@ == bound.spec_wait_idle().0
            &&& r@ == bound.spec_wait_idle().1
        }),
{
    match bind_sub_channels(stream) {
        Ok(_) => stream.wait_idle(),
        Err(error) => StreamProgress::Done(Err(error)),
    }
}

/// A new stream with the sub-channels bound. The wait that binding ends
/// with finds nothing to wait for.
pub fn initialize_command_stream() -> (r: (CommandStream, StreamProgress))
    ensures
        r.0@ == (StreamView { pending: bind_commands(), ..StreamView::empty() }),
        r.1@ == StreamProgressView::Done(Ok(())),
{
    let mut command_stream = CommandStream::new();
    let progress = setup_channel(&mut command_stream);
    assert(command_stream@.pending =~= bind_commands());
    (command_stream, progress)
}

/// A flush of a stream without commands does nothing at all, whatever
/// else the stream holds: no call is made, nothing changes, and the flush
/// succeeds.
pub proof fn lemma_flush_of_nothing(stream: StreamView)
    requires
        stream.pending.len() == 0,
    ensures
        stream.spec_flush() == (stream, StreamProgressView::Done(Ok(()))),
{
}

/// Where every call goes through, a flush brings the words of all pending
/// commands, in their order, into one buffer of just their size, hands
/// the ring with the one descriptor more to the kernel, told to wait for
/// the fence before, and ends with an empty list, an empty ring, the fence
/// of this submission, and the buffer in process.
pub proof fn lemma_flush_runs_to_the_end(
    stream: StreamView,
    raw_handle: crate::nvmap::RawHandle,
    fd: i32,
    gpu_address: crate::command::GpuVirtualAddress,
    address: usize,
    fence: Option<RawFence>,
)
    requires
        stream.wf(),
        stream.stage is Ready,
        stream.pending.len() > 0,
        !stream.ring.is_full(),
        spec_begin(pending_words(stream.pending), false) is Ok,
    ensures
        ({
            let words = pending_words(stream.pending);
            let size = (4 * words.len()) as usize;
            let buffer = AllocationView {
                handle: crate::nvmap::Handle {
                    size: crate::allocation::allocation_size(size),
                    raw_handle,
                    fd,
                    mapped_address: None,
                },
                gpu_address,
                user_size: size,
            };
            let entry = crate::queue::ring_entry(gpu_address, words.len() as u64);
            let (s1, c1) = stream.spec_flush();
            let (s2, c2) = s1.spec_resume(KernelReply::Handle(raw_handle));
            let (s3, c3) = s2.spec_resume(KernelReply::Fd(fd));
            let (s4, c4) = s3.spec_resume(KernelReply::Done);
            let (s5, c5) = s4.spec_resume(KernelReply::GpuAddress(gpu_address));
            let (s6, c6) = s5.spec_resume(KernelReply::HostAddress(address));
            let (s7, c7) = s6.spec_resume(KernelReply::Done);
            let (s8, c8) = s7.spec_resume(KernelReply::Done);
            let (s9, c9) = s8.spec_resume(KernelReply::Done);
            let (s10, c10) = s9.spec_resume(KernelReply::Fence(fence));
            &&& s1.pending.len() == 0
            &&& c1 == StreamProgressView::Call(
                KernelCallView::Memory(
                    crate::nvmap::MemoryCall::Create {
                        size: crate::allocation::allocation_size(size),
                    },
                ),
            )
            &&& c6 == StreamProgressView::Call(KernelCallView::Write { address, words })
            &&& c7 matches StreamProgressView::Call(
                KernelCallView::Memory(crate::nvmap::MemoryCall::Cache { .. }),
            )
            &&& c8 matches StreamProgressView::Call(
                KernelCallView::Memory(crate::nvmap::MemoryCall::UnmapHost { .. }),
            )
            &&& c9 == StreamProgressView::Call(
                KernelCallView::Submit(
                    crate::queue::SubmitRequestView {
                        entries: stream.ring.entries.push(entry),
                        wait_fence: stream.ring.waiting_fence,
                        flags: stream.ring.submit_flags(),
                    },
                ),
            )
            &&& c10 == StreamProgressView::Done(Ok(()))
            &&& s10 == (StreamView {
                ring: QueueView { entries: Seq::empty(), waiting_fence: fence },
                pending: Seq::empty(),
                in_process: stream.in_process.push(buffer),
                stage: StreamStage::Ready,
                upload: None,
                ..stream
            })
        }),
{
    let words = pending_words(stream.pending);
    let size = (4 * words.len()) as usize;
    crate::upload::lemma_upload_runs_to_the_end(
        words,
        size,
        false,
        raw_handle,
        fd,
        gpu_address,
        address,
    );
    assert((size / 4) as u64 == words.len() as u64);
}

/// A batch is never registered in part. Whatever the reply, a step of a
/// flush leaves the descriptors of the ring as they are, or adds the one
/// descriptor of the whole batch; it adds it exactly when it hands the
/// ring to the kernel, and then the buffer is kept in process.
pub proof fn lemma_batch_is_one_entry_or_none(stream: StreamView, reply: KernelReply)
    requires
        stream.wf(),
        stream.stage is Uploading,
    ensures
        ({
            let (next, progress) = stream.spec_resume(reply);
            match progress {
                StreamProgressView::Call(KernelCallView::Submit(request)) => {
                    &&& next.stage is Submitting
                    &&& next.ring.entries.len() == stream.ring.entries.len() + 1
                    &&& next.ring.entries.drop_last() == stream.ring.entries
                    &&& request.entries == next.ring.entries
                    &&& request.wait_fence == stream.ring.waiting_fence
                    &&& next.in_process.len() == stream.in_process.len() + 1
                    &&& next.in_process.drop_last() == stream.in_process
                    &&& next.ring.entries.last() == crate::queue::ring_entry(
                        next.in_process.last().gpu_address,
                        (next.in_process.last().user_size / 4) as u64,
                    )
                },
                _ => {
                    &&& next.ring == stream.ring
                    &&& next.in_process == stream.in_process
                },
            }
        }),
{
    let (next, progress) = stream.spec_resume(reply);
    match progress {
        StreamProgressView::Call(KernelCallView::Submit(request)) => {
            assert(next.ring.entries.drop_last() =~= stream.ring.entries);
            assert(next.in_process.drop_last() =~= stream.in_process);
        },
        _ => {},
    }
}

/// Two flushes in a row with no wait between them. The submission of the
/// second is told to wait for the fence of the first; the fence of the
/// second takes the place of that one; one wait, for that fence alone,
/// retires the buffers of both.
pub proof fn lemma_second_flush_follows_first(
    stream: StreamView,
    first: RawFence,
    buffer: AllocationView,
    second: RawFence,
)
    requires
        stream.wf(),
        stream.stage is Submitting,
    ensures
        ({
            let after_first = stream.spec_resume(KernelReply::Fence(Some(first))).0;
            let (submitting, call) = after_first.uploaded(buffer);
            let after_second = submitting.spec_resume(KernelReply::Fence(Some(second))).0;
            let (waiting, wait) = after_second.spec_wait_idle();
            let idle = waiting.spec_resume(KernelReply::Done).0;
            &&& after_first.stage is Ready
            &&& after_first.ring.waiting_fence == Some(first)
            &&& call matches StreamProgressView::Call(KernelCallView::Submit(request))
            &&& request.wait_fence == Some(first)
            &&& request.flags == 11
            &&& after_second.ring.waiting_fence == Some(second)
            &&& wait == StreamProgressView::Call(KernelCallView::Wait(second))
            &&& idle.stage is Ready
            &&& idle.ring == QueueView::empty()
            &&& idle.in_process.len() == 0
            &&& idle.retired == stream.retired + stream.in_process.push(buffer)
        }),
{
    let after_first = stream.spec_resume(KernelReply::Fence(Some(first))).0;
    let (submitting, call) = after_first.uploaded(buffer);
    let after_second = submitting.spec_resume(KernelReply::Fence(Some(second))).0;
    let (waiting, wait) = after_second.spec_wait_idle();
    let idle = waiting.spec_resume(KernelReply::Done).0;
    assert(idle.retired =~= stream.retired + stream.in_process.push(buffer));
}

/// A buffer in process is given up only by a wait that went through while
/// the ring held nothing: no other step retires one.
pub proof fn lemma_buffers_outlive_the_hardware(stream: StreamView, reply: KernelReply)
    requires
        stream.wf(),
    ensures
        ({
            let next = stream.spec_resume(reply).0;
            ||| stream.in_process.is_prefix_of(next.in_process)
            ||| stream.stage is Waiting && !(reply is Failed) && stream.ring.entries.len() == 0
        }),
        stream.in_process.is_prefix_of(stream.spec_flush().0.in_process),
        stream.in_process.is_prefix_of(stream.spec_wait_idle().0.in_process),
{
    let next = stream.spec_resume(reply).0;
    if next.in_process != stream.in_process && !(stream.stage is Waiting) {
        assert(stream.stage is Uploading);
        assert(next.in_process.len() == stream.in_process.len() + 1);
    }
}

} // verus!
