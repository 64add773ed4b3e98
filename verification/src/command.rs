//! Encoding of one hardware method call into the words that the front-end
//! consumes: a header, then the arguments.

use crate::bits::field_set;
use crate::error::{GpuError, NvGpuResult};
use crate::fifo_entry::{header_word, GpFifoEntry};
use vstd::prelude::*;

verus! {

/// Represent a virtual address in the GPU address space.
pub type GpuVirtualAddress = u64;

/// How the front-end hands the arguments of a command to method slots.
#[derive(Clone, Copy, Debug, PartialEq, Eq, Structural)]
pub enum CommandSubmissionMode {
    /// Older form of `Increasing`.
    IncreasingOld,
    /// Each argument goes to the next method slot.
    Increasing,
    /// Older form of `NonIncreasing`.
    NonIncreasingOld,
    /// All arguments go to the same method slot.
    NonIncreasing,
    /// The one argument sits in the header itself; no words follow.
    Inline,
    /// The method slot advances once, then stays.
    IncreasingOnce,
}

impl CommandSubmissionMode {
    /// The tag of the mode in the header.
    pub open spec fn spec_id(self) -> u32 {
        match self {
            CommandSubmissionMode::IncreasingOld => 0,
            CommandSubmissionMode::Increasing => 1,
            CommandSubmissionMode::NonIncreasingOld => 2,
            CommandSubmissionMode::NonIncreasing => 3,
            CommandSubmissionMode::Inline => 4,
            CommandSubmissionMode::IncreasingOnce => 5,
        }
    }

    /// The tag of the mode in the header.
    #[verifier::when_used_as_spec(spec_id)]
    pub fn id(self) -> (r: u32)
        ensures
            r == self.spec_id(),
    {
        match self {
            CommandSubmissionMode::IncreasingOld => 0,
            CommandSubmissionMode::Increasing => 1,
            CommandSubmissionMode::NonIncreasingOld => 2,
            CommandSubmissionMode::NonIncreasing => 3,
            CommandSubmissionMode::Inline => 4,
            CommandSubmissionMode::IncreasingOnce => 5,
        }
    }
}

/// The engine that a sub-channel of the stream is bound to.
#[derive(Clone, Copy, Debug, PartialEq, Eq, Structural)]
pub enum SubChannelId {
    ThreeD,
    Compute,
    InlineToMemory,
    TwoD,
    DirectMemoryAccess,
}

impl SubChannelId {
    /// The number of the sub-channel in the header.
    pub open spec fn number(self) -> u32 {
        match self {
            SubChannelId::ThreeD => 0,
            SubChannelId::Compute => 1,
            SubChannelId::InlineToMemory => 2,
            SubChannelId::TwoD => 3,
            SubChannelId::DirectMemoryAccess => 4,
        }
    }
}

impl From<SubChannelId> for u32 {
    fn from(sub_channel_id: SubChannelId) -> (r: u32) {
        match sub_channel_id {
            SubChannelId::ThreeD => 0,
            SubChannelId::Compute => 1,
            SubChannelId::InlineToMemory => 2,
            SubChannelId::TwoD => 3,
            SubChannelId::DirectMemoryAccess => 4,
        }
    }
}

impl vstd::std_specs::convert::FromSpecImpl<SubChannelId> for u32 {
    open spec fn obeys_from_spec() -> bool {
        true
    }

    open spec fn from_spec(sub_channel_id: SubChannelId) -> u32 {
        sub_channel_id.number()
    }
}

/// The byte at `index`, or zero past the end.
pub open spec fn byte_or_zero(data: Seq<u8>, index: int) -> u8 {
    if 0 <= index < data.len() {
        data[index]
    } else {
        0
    }
}

/// Four bytes as one little-endian word.
pub open spec fn le_word(b0: u8, b1: u8, b2: u8, b3: u8) -> u32 {
    (b0 as u32) | ((b1 as u32) << 8) | ((b2 as u32) << 16) | ((b3 as u32) << 24)
}

/// The `index`-th little-endian word of `data`, zero-padded past the end.
pub open spec fn packed_word(data: Seq<u8>, index: int) -> u32 {
    le_word(
        byte_or_zero(data, 4 * index),
        byte_or_zero(data, 4 * index + 1),
        byte_or_zero(data, 4 * index + 2),
        byte_or_zero(data, 4 * index + 3),
    )
}

/// `data` as little-endian words, the last one zero-padded.
pub open spec fn packed_words(data: Seq<u8>) -> Seq<u32> {
    Seq::new(((data.len() + 3) / 4) as nat, |index: int| packed_word(data, index))
}

/// The upper and the lower half of an address, in the order in which the
/// hardware takes them.
pub open spec fn address_words(address: GpuVirtualAddress) -> Seq<u32> {
    seq![(address >> 32) as u32, address as u32]
}

/// What a command is: its header as built so far, its mode, its arguments.
pub struct CommandView {
    pub header: u32,
    pub mode: CommandSubmissionMode,
    pub arguments: Seq<u32>,
}

impl CommandView {
    /// The header as it goes out: an inline command keeps the argument that
    /// its header holds, every other command gets the number of its
    /// arguments written to the count field.
    pub open spec fn final_header(self) -> u32 {
        if self.mode is Inline {
            self.header
        } else {
            field_set(self.header, 26, 16, self.arguments.len() as u32)
        }
    }

    /// The words of the command: the header, then the arguments.
    pub open spec fn words(self) -> Seq<u32> {
        seq![self.final_header()] + self.arguments
    }

    /// An inline command carries no arguments.
    pub open spec fn wf(self) -> bool {
        self.mode is Inline ==> self.arguments.len() == 0
    }
}

/// One method call under construction.
#[derive(Debug)]
pub struct Command {
    entry: GpFifoEntry,
    submission_mode: CommandSubmissionMode,
    arguments: Vec<u32>,
}

impl View for Command {
    type V = CommandView;

    closed spec fn view(&self) -> CommandView {
        CommandView {
            header: self.entry.0,
            mode: self.submission_mode,
            arguments: self.arguments@,
        }
    }
}

impl Command {
    /// A command for `method` on `sub_channel`, without arguments.
    pub fn new(method: u32, sub_channel: SubChannelId, submission_mode: CommandSubmissionMode) -> (r:
        Self)
        ensures
            r@.header == header_word(method, sub_channel.number(), submission_mode.id()),
            r@.mode == submission_mode,
            r@.arguments == Seq::<u32>::empty(),
            r@.wf(),
    {
        Self::new_raw(method, u32::from(sub_channel), submission_mode)
    }

    /// A command for `method` on the sub-channel of number `sub_channel`,
    /// without arguments. Bits of `method` and `sub_channel` that do not fit
    /// their fields are dropped.
    pub fn new_raw(method: u32, sub_channel: u32, submission_mode: CommandSubmissionMode) -> (r:
        Self)
        ensures
            r@.header == header_word(method, sub_channel, submission_mode.id()),
            r@.mode == submission_mode,
            r@.arguments == Seq::<u32>::empty(),
            r@.wf(),
    {
        let mut entry = GpFifoEntry(0);
        entry.set_method(method);
        entry.set_sub_channel(sub_channel);
        let submission_mode_id = submission_mode.id();
        entry.set_submission_mode(submission_mode_id);
        let r = Command { entry, submission_mode, arguments: Vec::new() };
        assert(r@.arguments =~= Seq::<u32>::empty());
        r
    }

    /// An inline command for `method` on `sub_channel`, with the low 11 bits
    /// of `arguments` as its argument.
    pub fn new_inline(method: u32, sub_channel: SubChannelId, arguments: u32) -> (r: Self)
        ensures
            r@.header == field_set(
                header_word(
                    method,
                    sub_channel.number(),
                    CommandSubmissionMode::Inline.id(),
                ),
                26,
                16,
                arguments,
            ),
            r@.mode == CommandSubmissionMode::Inline,
            r@.arguments == Seq::<u32>::empty(),
            r@.wf(),
    {
        let mut res = Self::new_raw(
            method,
            u32::from(sub_channel),
            CommandSubmissionMode::Inline,
        );
        res.entry.set_inline_arguments(arguments);
        res
    }

    /// The submission mode that the command was made with.
    pub fn submission_mode(&self) -> (r: CommandSubmissionMode)
        ensures
            r == self@.mode,
    {
        self.submission_mode
    }

    /// Appends one argument. An inline command takes none: it is left as it
    /// was and the call fails.
    pub fn push_argument(&mut self, argument: u32) -> (r: NvGpuResult<()>)
        ensures
            old(self)@.mode is Inline ==> r == Err::<(), GpuError>(GpuError::InvalidUsage)
                && final(self)@ == old(self)@,
            !(old(self)@.mode is Inline) ==> r is Ok && final(self)@ == (CommandView {
                arguments: old(self)@.arguments.push(argument),
                ..old(self)@
            }),
            old(self)@.wf() ==> final(self)@.wf(),
    {
        if self.submission_mode == CommandSubmissionMode::Inline {
            return Err(GpuError::InvalidUsage);
        }
        self.arguments.push(argument);
        Ok(())
    }

    /// Appends an address as two arguments, the upper 32 bits first. An
    /// inline command takes none: it is left as it was and the call fails.
    pub fn push_address(&mut self, address: GpuVirtualAddress) -> (r: NvGpuResult<()>)
        ensures
            old(self)@.mode is Inline ==> r == Err::<(), GpuError>(GpuError::InvalidUsage)
                && final(self)@ == old(self)@,
            !(old(self)@.mode is Inline) ==> r is Ok && final(self)@ == (CommandView {
                arguments: old(self)@.arguments + address_words(address),
                ..old(self)@
            }),
            old(self)@.wf() ==> final(self)@.wf(),
    {
        if self.submission_mode == CommandSubmissionMode::Inline {
            return Err(GpuError::InvalidUsage);
        }
        self.arguments.push(#[verifier::truncate] ((address >> 32) as u32));
        self.arguments.push(#[verifier::truncate] (address as u32));
        assert(self.arguments@ =~= old(self).arguments@ + address_words(address));
        Ok(())
    }

    /// Appends `data` as little-endian words, the last one zero-padded. An
    /// inline command takes no words: given any data it is left as it was
    /// and the call fails.
    pub fn push_inlined_buffer(&mut self, data: &[u8]) -> (r: NvGpuResult<()>)
        ensures
            old(self)@.mode is Inline && data@.len() > 0 ==> r == Err::<(), GpuError>(
                GpuError::InvalidUsage,
            ) && final(self)@ == old(self)@,
            !(old(self)@.mode is Inline && data@.len() > 0) ==> r is Ok && final(self)@ == (
            CommandView {
                arguments: old(self)@.arguments + packed_words(data@),
                ..old(self)@
            }),
            old(self)@.wf() ==> final(self)@.wf(),
    {
        let len = data.len();
        if len == 0 {
            assert(self.arguments@ =~= old(self).arguments@ + packed_words(data@));
            return Ok(());
        }
        if self.submission_mode == CommandSubmissionMode::Inline {
            return Err(GpuError::InvalidUsage);
        }
        let rest_len = len % 4;
        let data_len = if rest_len == 0 {
            len / 4
        } else {
            len / 4 + 1
        };
        let mut i: usize = 0;
        while i < data_len
            invariant
                len == data@.len(),
                data_len == (len + 3) / 4,
                i <= data_len,
                self.entry == old(self).entry,
                self.submission_mode == old(self).submission_mode,
                !(self.submission_mode is Inline),
                self.arguments@.len() == old(self).arguments@.len() + i,
                forall|k: int|
                    0 <= k < old(self).arguments@.len() ==> self.arguments@[k] == old(
                        self,
                    ).arguments@[k],
                forall|k: int|
                    0 <= k < i ==> self.arguments@[old(self).arguments@.len() + k] == packed_word(
                        data@,
                        k,
                    ),
            decreases data_len - i,
        {
            let base = i * 4;
            let b0 = data[base];
            let b1 = if base + 1 < len {
                data[base + 1]
            } else {
                0
            };
            let b2 = if base + 2 < len {
                data[base + 2]
            } else {
                0
            };
            let b3 = if base + 3 < len {
                data[base + 3]
            } else {
                0
            };
            let word = (b0 as u32) | ((b1 as u32) << 8) | ((b2 as u32) << 16) | ((b3 as u32) << 24);
            self.arguments.push(word);
            i += 1;
        }
        assert(self.arguments@ =~= old(self).arguments@ + packed_words(data@));
        Ok(())
    }

    /// The words of the command: the header with the argument count
    /// written in, then the arguments. The count field holds 11 bits; of a
    /// longer list it holds the low bits of the length.
    pub fn into_vec(self) -> (r: Vec<u32>)
        ensures
            r@ == self@.words(),
            r@.len() == 1 + self@.arguments.len(),
    {
        let Command { entry, submission_mode, arguments } = self;
        let mut entry = entry;
        let mut arguments = arguments;
        let mut res = Vec::new();
        if submission_mode != CommandSubmissionMode::Inline {
            entry.set_argument_count(#[verifier::truncate] (arguments.len() as u32));
        }
        res.push(entry.0);
        res.append(&mut arguments);
        assert(res@ =~= self@.words());
        res
    }
}

/// An address always becomes two words, and the first, moved up by 32 bits
/// and joined with the second, is the address again.
pub proof fn lemma_address_words_reassemble(address: GpuVirtualAddress)
    ensures
        address_words(address).len() == 2,
        ((address_words(address)[0] as u64) << 32) | (address_words(address)[1] as u64)
            == address,
{
    assert(((((address >> 32) as u32) as u64) << 32) | ((address as u32) as u64) == address)
        by (bit_vector);
}

/// A word whose upper bytes are zero has nothing above the bytes below.
proof fn lemma_le_word_padding(b0: u8, b1: u8, b2: u8)
    ensures
        le_word(b0, 0, 0, 0) >> 8 == 0,
        le_word(b0, b1, 0, 0) >> 16 == 0,
        le_word(b0, b1, b2, 0) >> 24 == 0,
{
    assert(le_word(b0, 0, 0, 0) >> 8 == 0 && le_word(b0, b1, 0, 0) >> 16 == 0 && le_word(
        b0,
        b1,
        b2,
        0,
    ) >> 24 == 0) by (bit_vector);
}

/// Packing takes one word for every four bytes begun, none for no bytes,
/// and leaves the part of the last word that no byte fills at zero.
pub proof fn lemma_packed_words_padding(data: Seq<u8>)
    ensures
        packed_words(data).len() == (data.len() + 3) / 4,
        data.len() == 0 ==> packed_words(data).len() == 0,
        data.len() % 4 == 1 ==> packed_words(data).last() >> 8 == 0,
        data.len() % 4 == 2 ==> packed_words(data).last() >> 16 == 0,
        data.len() % 4 == 3 ==> packed_words(data).last() >> 24 == 0,
{
    let len = data.len() as int;
    let rest = len % 4;
    if rest != 0 {
        let last = len / 4;
        assert(last == (len + 3) / 4 - 1);
        assert(len == 4 * last + rest);
        let word = packed_words(data).last();
        assert(word == packed_word(data, last));
        let b0 = byte_or_zero(data, 4 * last);
        let b1 = byte_or_zero(data, 4 * last + 1);
        let b2 = byte_or_zero(data, 4 * last + 2);
        let b3 = byte_or_zero(data, 4 * last + 3);
        assert(word == le_word(b0, b1, b2, b3));
        assert(b3 == 0);
        lemma_le_word_padding(b0, b1, b2);
        if rest == 1 {
            assert(b1 == 0 && b2 == 0);
        } else if rest == 2 {
            assert(b2 == 0);
        }
    }
}

} // verus!
