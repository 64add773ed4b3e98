use std::collections::HashMap;

use nvgpu::allocation::{AllocationProgress, GpuAllocated};
use nvgpu::command::{Command, CommandSubmissionMode, SubChannelId};
use nvgpu::error::GpuError;
use nvgpu::fifo_entry::GpFifoEntry;
use nvgpu::gpu_box::GpuBox;
use nvgpu::kernel::KernelCall;
use nvgpu::maxwell::dma::memcpy_1d;
use nvgpu::nvhost::RawFence;
use nvgpu::nvmap::{KernelReply, MemoryCall};
use nvgpu::stream::{
    initialize_command_stream, setup_channel, CommandStream, StreamProgress, StreamStage,
};
use nvgpu::upload::{Upload, UploadProgress};

/// A kernel and a GPU that live in this process: memory handles are byte
/// vectors, and a submission is carried out at once.
struct Machine {
    /// The memory behind each handle.
    memory: HashMap<u32, Vec<u8>>,
    /// The handle behind each address of the process.
    host: HashMap<usize, u32>,
    /// The handle behind each address of the GPU.
    gpu: HashMap<u64, u32>,
    next_handle: u32,
    fence_value: u32,
    /// Every call that was made, in order.
    log: Vec<String>,
    /// The number of the call that fails, counted from one.
    fail_at: Option<usize>,
    /// The source, the destination and the length of the copy being set up.
    copy: (u64, u64, u32),
    /// The fences that submissions were told to wait for.
    waited_on: Vec<Option<RawFence>>,
}

impl Machine {
    fn new() -> Self {
        Machine {
            memory: HashMap::new(),
            host: HashMap::new(),
            gpu: HashMap::new(),
            next_handle: 1,
            fence_value: 0,
            log: Vec::new(),
            fail_at: None,
            copy: (0, 0, 0),
            waited_on: Vec::new(),
        }
    }

    fn read_gpu(&self, address: u64, len: usize) -> Vec<u8> {
        let (base, handle) = self
            .gpu
            .iter()
            .find(|(base, handle)| {
                **base <= address && address < **base + self.memory[*handle].len() as u64
            })
            .unwrap();
        let offset = (address - base) as usize;
        self.memory[handle][offset..offset + len].to_vec()
    }

    fn write_gpu(&mut self, address: u64, bytes: &[u8]) {
        let (base, handle) = self
            .gpu
            .iter()
            .map(|(base, handle)| (*base, *handle))
            .find(|(base, handle)| {
                *base <= address && address < *base + self.memory[handle].len() as u64
            })
            .unwrap();
        let offset = (address - base) as usize;
        self.memory.get_mut(&handle).unwrap()[offset..offset + bytes.len()].copy_from_slice(bytes);
    }

    fn read_host_word(&self, address: usize) -> u32 {
        let memory = &self.memory[&self.host[&address]];
        u32::from_le_bytes([memory[0], memory[1], memory[2], memory[3]])
    }

    /// Runs the method calls of one command buffer.
    fn execute(&mut self, words: &[u32]) {
        let mut at = 0;
        while at < words.len() {
            let header = GpFifoEntry(words[at]);
            at += 1;
            if header.submission_mode() == 4 {
                continue;
            }
            let count = header.argument_count() as usize;
            let arguments = &words[at..at + count];
            at += count;
            if header.sub_channel() != 4 {
                continue;
            }
            for (slot, argument) in arguments.iter().enumerate() {
                let method = header.method() + slot as u32;
                match method {
                    0x100 => self.copy.0 = (self.copy.0 & 0xffff_ffff) | ((*argument as u64) << 32),
                    0x101 => self.copy.0 = (self.copy.0 & !0xffff_ffff) | *argument as u64,
                    0x102 => self.copy.1 = (self.copy.1 & 0xffff_ffff) | ((*argument as u64) << 32),
                    0x103 => self.copy.1 = (self.copy.1 & !0xffff_ffff) | *argument as u64,
                    0x106 => self.copy.2 = *argument,
                    0xc0 => {
                        let bytes = self.read_gpu(self.copy.0, self.copy.2 as usize);
                        self.write_gpu(self.copy.1, &bytes);
                    }
                    _ => {}
                }
            }
        }
    }

    fn memory_call(&mut self, call: MemoryCall) -> KernelReply {
        match call {
            MemoryCall::Create { size } => {
                let handle = self.next_handle;
                self.next_handle += 1;
                self.memory.insert(handle, vec![0; size as usize]);
                KernelReply::Handle(handle)
            }
            MemoryCall::GetFd { handle } => KernelReply::Fd(100 + handle as i32),
            MemoryCall::Allocate { .. } => KernelReply::Done,
            MemoryCall::MapBuffer { dmabuf_fd, .. } => {
                let handle = (dmabuf_fd - 100) as u32;
                let address = 0x1_0000_0000 + handle as u64 * 0x10_0000;
                self.gpu.insert(address, handle);
                KernelReply::GpuAddress(address)
            }
            MemoryCall::MapHost { fd, .. } => {
                let handle = (fd - 100) as u32;
                let address = 0x7000_0000 + handle as usize * 0x10_0000;
                self.host.insert(address, handle);
                KernelReply::HostAddress(address)
            }
            MemoryCall::UnmapHost { mapped_address, .. } => {
                self.host.remove(&mapped_address);
                KernelReply::Done
            }
            MemoryCall::UnmapBuffer { offset } => {
                self.gpu.remove(&offset);
                KernelReply::Done
            }
            MemoryCall::Free { handle } => {
                self.memory.remove(&handle);
                KernelReply::Done
            }
            MemoryCall::Cache { .. } | MemoryCall::CreateFromFd { .. } => KernelReply::Done,
        }
    }

    fn perform(&mut self, call: KernelCall) -> KernelReply {
        self.log.push(match &call {
            KernelCall::Memory(call) => format!("{:?}", call).split(' ').next().unwrap().to_string(),
            KernelCall::Write { .. } => "Write".to_string(),
            KernelCall::Submit(_) => "Submit".to_string(),
            KernelCall::Wait(_) => "Wait".to_string(),
        });
        if self.fail_at == Some(self.log.len()) {
            return KernelReply::Failed(GpuError::KernelRequestFailed(12));
        }
        match call {
            KernelCall::Memory(call) => self.memory_call(call),
            KernelCall::Write { address, words } => {
                let handle = self.host[&address];
                let memory = self.memory.get_mut(&handle).unwrap();
                for (i, word) in words.iter().enumerate() {
                    memory[4 * i..4 * i + 4].copy_from_slice(&word.to_le_bytes());
                }
                KernelReply::Done
            }
            KernelCall::Submit(request) => {
                self.waited_on.push(request.wait_fence);
                for entry in &request.entries {
                    let address = entry & ((1 << 42) - 1);
                    let count = (entry >> 42) as usize;
                    let bytes = self.read_gpu(address, 4 * count);
                    let words: Vec<u32> = bytes
                        .chunks(4)
                        .map(|word| u32::from_le_bytes([word[0], word[1], word[2], word[3]]))
                        .collect();
                    self.execute(&words);
                }
                self.fence_value += 1;
                KernelReply::Fence(Some(RawFence { id: 42, value: self.fence_value }))
            }
            KernelCall::Wait(_) => KernelReply::Done,
        }
    }

    fn run(&mut self, stream: &mut CommandStream, first: StreamProgress) -> Result<(), GpuError> {
        let mut progress = first;
        loop {
            match progress {
                StreamProgress::Call(call) => {
                    let reply = self.perform(call);
                    progress = stream.resume(reply);
                }
                StreamProgress::Done(result) => return result,
            }
        }
    }

    fn upload(&mut self, words: Vec<u32>, keep_mapped: bool) -> Result<GpuAllocated, GpuError> {
        let (upload, call) = Upload::begin(words, keep_mapped)?;
        let mut progress = UploadProgress::Call(upload, call);
        loop {
            match progress {
                UploadProgress::Call(upload, call) => {
                    let reply = self.perform(call);
                    progress = upload.resume(reply);
                }
                UploadProgress::Ready(buffer) => return Ok(buffer),
                UploadProgress::Failed(buffer, error) => {
                    if let Some(buffer) = buffer {
                        self.release(buffer);
                    }
                    return Err(error);
                }
            }
        }
    }

    fn allocate(&mut self, user_size: usize, align: usize) -> Result<GpuAllocated, GpuError> {
        let (pending, call) = GpuAllocated::new(user_size, align)?;
        let mut progress = AllocationProgress::Call(pending, call);
        loop {
            match progress {
                AllocationProgress::Call(pending, call) => {
                    let reply = self.perform(KernelCall::Memory(call));
                    progress = pending.resume(reply);
                }
                AllocationProgress::Ready(allocation) => return Ok(allocation),
                AllocationProgress::Failed(error) => return Err(error),
            }
        }
    }

    fn release(&mut self, buffer: GpuAllocated) {
        for call in buffer.release() {
            assert_eq!(self.perform(KernelCall::Memory(call)), KernelReply::Done);
        }
    }
}

fn one_command(argument: u32) -> Command {
    let mut command = Command::new(0x40, SubChannelId::ThreeD, CommandSubmissionMode::Increasing);
    command.push_argument(argument).unwrap();
    command
}

#[test]
fn flush_of_nothing_does_nothing() {
    let mut machine = Machine::new();
    let mut stream = CommandStream::new();
    let progress = stream.flush();
    assert!(matches!(progress, StreamProgress::Done(Ok(()))));
    assert_eq!(stream.stage(), StreamStage::Ready);
    assert_eq!(stream.in_process_len(), 0);
    assert_eq!(stream.waiting_fence(), None);
    assert_eq!(machine.run(&mut stream, progress), Ok(()));
    assert!(machine.log.is_empty());
}

#[test]
fn flush_uploads_one_buffer_and_submits_one_descriptor() {
    let mut machine = Machine::new();
    let mut stream = CommandStream::new();
    assert_eq!(stream.push(one_command(7)), Ok(()));
    assert_eq!(stream.push(one_command(8)), Ok(()));
    assert_eq!(stream.pending_len(), 2);

    let first = stream.flush();
    assert_eq!(stream.pending_len(), 0);
    assert_eq!(stream.stage(), StreamStage::Uploading);
    assert_eq!(machine.run(&mut stream, first), Ok(()));

    assert_eq!(
        machine.log,
        vec![
            "Create",
            "GetFd",
            "Allocate",
            "MapBuffer",
            "MapHost",
            "Write",
            "Cache",
            "UnmapHost",
            "Submit"
        ]
    );
    assert_eq!(stream.stage(), StreamStage::Ready);
    assert_eq!(stream.in_process_len(), 1);
    assert_eq!(stream.waiting_fence(), Some(RawFence { id: 42, value: 1 }));
    assert_eq!(machine.waited_on, vec![None]);
    let words: Vec<u8> = [0x2001_0040u32, 7, 0x2001_0040, 8]
        .iter()
        .flat_map(|word| word.to_le_bytes())
        .collect();
    assert_eq!(machine.read_gpu(0x1_0010_0000, 16), words);
}

#[test]
fn commands_go_out_in_the_order_of_their_pushes() {
    let mut stream = CommandStream::new();
    for argument in [3u32, 1, 2] {
        assert_eq!(stream.push(one_command(argument)), Ok(()));
    }
    let mut machine = Machine::new();
    let mut progress = stream.flush();
    let mut written = Vec::new();
    loop {
        match progress {
            StreamProgress::Call(call) => {
                if let KernelCall::Write { words, .. } = &call {
                    written = words.clone();
                }
                let reply = machine.perform(call);
                progress = stream.resume(reply);
            }
            StreamProgress::Done(result) => {
                assert_eq!(result, Ok(()));
                break;
            }
        }
    }
    assert_eq!(written, vec![0x2001_0040, 3, 0x2001_0040, 1, 0x2001_0040, 2]);
}

#[test]
fn busy_stream_refuses_another_operation() {
    let mut stream = CommandStream::new();
    assert_eq!(stream.push(one_command(1)), Ok(()));
    let first = stream.flush();
    assert!(matches!(first, StreamProgress::Call(KernelCall::Memory(MemoryCall::Create { size: 0x1000 }))));
    assert!(matches!(stream.flush(), StreamProgress::Done(Ok(()))));
    assert_eq!(stream.push(one_command(2)), Ok(()));
    assert!(matches!(stream.flush(), StreamProgress::Done(Err(GpuError::StateViolation))));
    assert_eq!(stream.pending_len(), 1);
    assert!(matches!(stream.wait_idle(), StreamProgress::Done(Err(GpuError::StateViolation))));
    assert_eq!(stream.stage(), StreamStage::Uploading);
}

#[test]
fn reply_without_call_is_a_state_violation() {
    let mut stream = CommandStream::new();
    assert!(matches!(
        stream.resume(KernelReply::Done),
        StreamProgress::Done(Err(GpuError::StateViolation))
    ));
}

#[test]
fn two_flushes_chain_their_fences() {
    let mut machine = Machine::new();
    let mut stream = CommandStream::new();

    assert_eq!(stream.push(one_command(1)), Ok(()));
    let first = stream.flush();
    assert_eq!(machine.run(&mut stream, first), Ok(()));
    assert_eq!(stream.waiting_fence(), Some(RawFence { id: 42, value: 1 }));

    assert_eq!(stream.push(one_command(2)), Ok(()));
    let second = stream.flush();
    assert_eq!(machine.run(&mut stream, second), Ok(()));
    assert_eq!(stream.waiting_fence(), Some(RawFence { id: 42, value: 2 }));
    assert_eq!(machine.waited_on, vec![None, Some(RawFence { id: 42, value: 1 })]);
    assert_eq!(stream.in_process_len(), 2);
    assert!(stream.take_retired().is_empty());

    let wait = stream.wait_idle();
    assert!(matches!(wait, StreamProgress::Call(KernelCall::Wait(RawFence { id: 42, value: 2 }))));
    assert_eq!(stream.stage(), StreamStage::Waiting);
    assert_eq!(machine.run(&mut stream, wait), Ok(()));
    assert_eq!(stream.waiting_fence(), None);
    assert_eq!(stream.in_process_len(), 0);
    let retired = stream.take_retired();
    assert_eq!(retired.len(), 2);
    assert!(stream.take_retired().is_empty());
    for buffer in retired {
        machine.release(buffer);
    }
    assert!(machine.gpu.is_empty());

    assert!(matches!(stream.wait_idle(), StreamProgress::Done(Ok(()))));
}

#[test]
fn failure_at_any_step_aborts_the_flush() {
    for failing in 1..=9 {
        let mut machine = Machine::new();
        machine.fail_at = Some(failing);
        let mut stream = CommandStream::new();
        assert_eq!(stream.push(one_command(1)), Ok(()));
        let first = stream.flush();
        assert_eq!(
            machine.run(&mut stream, first),
            Err(GpuError::KernelRequestFailed(12)),
            "step {}",
            failing
        );
        assert_eq!(stream.stage(), StreamStage::Ready);
        assert_eq!(stream.pending_len(), 0);
        assert_eq!(stream.waiting_fence(), None);
        let submitted = failing == 9;
        assert_eq!(stream.in_process_len(), if submitted { 1 } else { 0 });
        let retired = stream.take_retired();
        let allocated = failing > 4 && !submitted;
        assert_eq!(retired.len(), if allocated { 1 } else { 0 }, "step {}", failing);
        if failing > 1 && failing <= 4 {
            assert_eq!(machine.log.last().unwrap(), "Free");
        }
    }
}

#[test]
fn failed_wait_retires_nothing() {
    let mut machine = Machine::new();
    let mut stream = CommandStream::new();
    assert_eq!(stream.push(one_command(1)), Ok(()));
    let first = stream.flush();
    assert_eq!(machine.run(&mut stream, first), Ok(()));
    machine.fail_at = Some(machine.log.len() + 1);
    let wait = stream.wait_idle();
    assert_eq!(machine.run(&mut stream, wait), Err(GpuError::KernelRequestFailed(12)));
    assert_eq!(stream.in_process_len(), 1);
    assert!(stream.take_retired().is_empty());
    assert_eq!(stream.stage(), StreamStage::Ready);
}

#[test]
fn setup_binds_the_five_sub_channels() {
    let mut machine = Machine::new();
    let (mut stream, progress) = initialize_command_stream();
    assert!(matches!(progress, StreamProgress::Done(Ok(()))));
    assert_eq!(stream.pending_len(), 5);
    let mut progress = stream.flush();
    let mut written = Vec::new();
    loop {
        match progress {
            StreamProgress::Call(call) => {
                if let KernelCall::Write { words, .. } = &call {
                    written = words.clone();
                }
                let reply = machine.perform(call);
                progress = stream.resume(reply);
            }
            StreamProgress::Done(result) => {
                assert_eq!(result, Ok(()));
                break;
            }
        }
    }
    assert_eq!(
        written,
        vec![
            0x2001_0000,
            0xB197,
            0x2001_2000,
            0xB1C0,
            0x2001_4000,
            0xA140,
            0x2001_6000,
            0x902D,
            0x2001_8000,
            0xB0B5
        ]
    );
}

#[test]
fn setup_waits_for_what_was_submitted_before() {
    let mut machine = Machine::new();
    let mut stream = CommandStream::new();
    assert_eq!(stream.push(one_command(1)), Ok(()));
    let first = stream.flush();
    assert_eq!(machine.run(&mut stream, first), Ok(()));
    let progress = setup_channel(&mut stream);
    assert!(matches!(
        progress,
        StreamProgress::Call(KernelCall::Wait(RawFence { id: 42, value: 1 }))
    ));
    assert_eq!(stream.pending_len(), 5);
}

#[test]
fn command_uploads_into_a_buffer_of_its_own() {
    let mut machine = Machine::new();
    let mut command = Command::new(0x40, SubChannelId::ThreeD, CommandSubmissionMode::Increasing);
    command.push_argument(9).unwrap();
    let (upload, call) = command.into_gpu_allocated().unwrap();
    let mut progress = UploadProgress::Call(upload, call);
    let buffer = loop {
        match progress {
            UploadProgress::Call(upload, call) => {
                let reply = machine.perform(call);
                progress = upload.resume(reply);
            }
            UploadProgress::Ready(buffer) => break buffer,
            UploadProgress::Failed(_, error) => panic!("the upload failed: {:?}", error),
        }
    };
    assert_eq!(buffer.user_size(), 8);
    assert_eq!(buffer.host_address(), Err(GpuError::StateViolation));
    assert_eq!(machine.read_gpu(buffer.gpu_address(), 8), vec![0x40, 0, 1, 0x20, 9, 0, 0, 0]);
}

#[test]
fn upload_may_keep_the_buffer_mapped() {
    let mut machine = Machine::new();
    let buffer = machine.upload(vec![1, 2, 3], true).unwrap();
    assert_eq!(buffer.user_size(), 12);
    assert!(buffer.host_address().is_ok());
    assert_eq!(machine.log.last().unwrap(), "Cache");
}

#[test]
fn failed_upload_hands_the_buffer_back() {
    for failing in 5..=8 {
        let mut machine = Machine::new();
        machine.fail_at = Some(failing);
        let (upload, call) = Upload::begin(vec![1, 2, 3], false).unwrap();
        let mut progress = UploadProgress::Call(upload, call);
        let (buffer, error) = loop {
            match progress {
                UploadProgress::Call(upload, call) => {
                    let reply = machine.perform(call);
                    progress = upload.resume(reply);
                }
                UploadProgress::Ready(_) => panic!("the upload went through"),
                UploadProgress::Failed(buffer, error) => break (buffer, error),
            }
        };
        assert_eq!(error, GpuError::KernelRequestFailed(12));
        let buffer = buffer.unwrap();
        assert_eq!(buffer.gpu_address(), 0x1_0010_0000);
        machine.release(buffer);
        assert!(machine.gpu.is_empty());
        assert!(machine.host.is_empty());
    }
}

#[test]
fn device_copy_arrives_in_the_second_allocation() {
    let mut machine = Machine::new();
    let mut stream = CommandStream::new();

    // Write the value through the host view of the first allocation and
    // flush it.
    let source = machine.upload(vec![0xCAFE_BABE], true).unwrap();
    let mut target = machine.allocate(4, 0x1000).unwrap();
    assert_ne!(source.gpu_address(), target.gpu_address());

    // Submit the copy and wait for it.
    assert_eq!(
        memcpy_1d(&mut stream, target.gpu_address(), source.gpu_address(), 4),
        Ok(())
    );
    let flush = stream.flush();
    assert_eq!(machine.run(&mut stream, flush), Ok(()));
    let wait = stream.wait_idle();
    assert_eq!(machine.run(&mut stream, wait), Ok(()));

    // Look at the second allocation.
    let call = target.map().unwrap();
    let reply = machine.perform(KernelCall::Memory(call));
    let address = target.mapped(reply).unwrap();
    let call = target.invalidate().unwrap();
    assert_eq!(machine.perform(KernelCall::Memory(call)), KernelReply::Done);
    assert_eq!(machine.read_host_word(address), 0xCAFE_BABE);
}

#[test]
fn teardown_hands_out_every_buffer_once_the_hardware_is_idle() {
    let mut machine = Machine::new();
    let mut stream = CommandStream::new();
    assert_eq!(stream.push(one_command(1)), Ok(()));
    let first = stream.flush();
    assert_eq!(machine.run(&mut stream, first), Ok(()));

    // The fence of the flush was not waited for: the stream stays.
    let mut stream = match stream.teardown() {
        Ok(_) => panic!("the stream ended under a fence"),
        Err(stream) => stream,
    };
    assert_eq!(stream.in_process_len(), 1);
    assert_eq!(stream.waiting_fence(), Some(RawFence { id: 42, value: 1 }));

    let wait = stream.wait_idle();
    assert_eq!(machine.run(&mut stream, wait), Ok(()));
    let buffers = stream.teardown().ok().unwrap();
    assert_eq!(buffers.len(), 1);
    for buffer in buffers {
        machine.release(buffer);
    }
    assert!(machine.gpu.is_empty());
}

#[test]
fn busy_stream_does_not_end() {
    let mut stream = CommandStream::new();
    assert_eq!(stream.push(one_command(1)), Ok(()));
    let _ = stream.flush();
    let stream = stream.teardown().err().unwrap();
    assert_eq!(stream.stage(), StreamStage::Uploading);
    assert!(CommandStream::new().teardown().ok().unwrap().is_empty());
}

#[test]
fn box_holds_one_value() {
    let mut machine = Machine::new();
    assert_eq!(GpuBox::<u64>::new(vec![1]).err(), Some(GpuError::InvalidUsage));
    assert_eq!(GpuBox::<u64>::new(vec![1, 2, 3]).err(), Some(GpuError::InvalidUsage));
    assert_eq!(GpuBox::<[u8; 5]>::new(vec![1]).err(), Some(GpuError::InvalidUsage));

    let (upload, call) = GpuBox::<[u8; 5]>::new(vec![0x0403_0201, 5]).unwrap();
    assert!(matches!(call, KernelCall::Memory(MemoryCall::Create { size: 0x1000 })));
    let mut progress = UploadProgress::Call(upload, call);
    let allocation = loop {
        match progress {
            UploadProgress::Call(upload, call) => {
                let reply = machine.perform(call);
                progress = upload.resume(reply);
            }
            UploadProgress::Ready(buffer) => break buffer,
            UploadProgress::Failed(_, error) => panic!("the upload failed: {:?}", error),
        }
    };
    assert_eq!(allocation.user_size(), 5);
    let mut value = GpuBox::<[u8; 5]>::from_allocation(allocation);
    let address = value.host_address().unwrap();
    assert_eq!(machine.read_host_word(address), 0x0403_0201);
    assert_eq!(machine.read_gpu(value.gpu_address(), 5), vec![1, 2, 3, 4, 5]);
    assert_eq!(value.map(), None);
    assert!(matches!(value.flush(), Some(MemoryCall::Cache { operation: 2, length: 0x1000, .. })));
    assert!(matches!(value.invalidate(), Some(MemoryCall::Cache { operation: 1, .. })));
    let call = value.unmap().unwrap();
    let reply = machine.perform(KernelCall::Memory(call));
    assert_eq!(value.unmapped(reply), Ok(()));
    assert_eq!(value.host_address(), Err(GpuError::StateViolation));
    assert_eq!(value.flush(), None);
    let call = value.map().unwrap();
    let reply = machine.perform(KernelCall::Memory(call));
    assert!(value.mapped(reply).is_ok());
    machine.release(value.into_allocation());
    assert!(machine.gpu.is_empty());
    assert!(machine.host.is_empty());
}

#[test]
fn words_that_do_not_fit_the_buffer_are_refused() {
    assert_eq!(Upload::begin_sized(vec![0; 1025], 4, false).err(), Some(GpuError::InvalidUsage));
    assert!(Upload::begin_sized(vec![0; 1024], 4, false).is_ok());
    assert!(Upload::begin_sized(vec![0; 1024], 0x1000, false).is_ok());
    assert_eq!(Upload::begin_sized(vec![0; 1], 0, false).err(), Some(GpuError::InvalidUsage));
    assert!(Upload::begin_sized(vec![], 0, false).is_ok());
    assert_eq!(
        Upload::begin_sized(vec![], 0xffff_f001, false).err(),
        Some(GpuError::ResourceExhausted)
    );
}
