//! Reading command words back: which method call a header begins, and how
//! many arguments belong to it.

use crate::error::{GpuError, NvGpuResult};
use crate::fifo_entry::GpFifoEntry;
use crate::text::{decimal, lower_hex, lower_hex_4, push_decimal, push_lower_hex, push_lower_hex_4};
use std::collections::BTreeMap;
use vstd::prelude::*;
use vstd::string::StringExecFns;

verus! {

/// The tag of the inline submission mode.
pub const INLINE_MODE: u32 = 4;

/// The number of arguments that the call of `header` takes: the one in the
/// header for an inline call, else as many as the header counts.
pub open spec fn spec_arguments_count(header: u32) -> nat {
    if GpFifoEntry(header).spec_submission_mode() == INLINE_MODE {
        1
    } else {
        GpFifoEntry(header).spec_argument_count() as nat
    }
}

/// The arguments of a call of which only the header was read: the one in
/// the header for an inline call, else one unknown argument for each that
/// the header counts.
pub open spec fn initial_arguments(header: u32) -> Map<u32, Option<u32>> {
    Map::new(
        |index: u32| index < spec_arguments_count(header),
        |index: u32|
            if GpFifoEntry(header).spec_submission_mode() == INLINE_MODE {
                Some(GpFifoEntry(header).spec_inline_arguments())
            } else {
                None
            },
    )
}

/// What a call that is being read is.
pub struct DecoderView {
    /// The header.
    pub header: u32,
    /// The arguments by their place; `None` where the word was not a number.
    pub arguments: Map<u32, Option<u32>>,
    /// The place of the argument that is read next.
    pub next_index: u32,
}

impl DecoderView {
    /// Whether every argument was read.
    pub open spec fn is_complete(self) -> bool {
        GpFifoEntry(self.header).spec_submission_mode() == INLINE_MODE || self.next_index
            == GpFifoEntry(self.header).spec_argument_count()
    }

    /// The arguments are those that the header counts, and no more of
    /// them were read than there are.
    pub open spec fn wf(self) -> bool {
        &&& self.arguments.dom() =~= Set::new(
            |index: u32| index < spec_arguments_count(self.header),
        )
        &&& self.next_index <= spec_arguments_count(self.header)
    }

    /// Whether another argument can be taken.
    pub open spec fn takes_argument(self) -> bool {
        !self.is_complete() && self.next_index < 0x7ff
    }

    /// The call after one more argument was read.
    pub open spec fn pushed(self, argument: Option<u32>) -> DecoderView {
        DecoderView {
            arguments: self.arguments.insert(self.next_index, argument),
            next_index: (self.next_index + 1) as u32,
            ..self
        }
    }
}

/// One method call that is being read word by word.
#[derive(Debug)]
pub struct GpFifoDecoder {
    raw_entry: GpFifoEntry,
    arguments: BTreeMap<u32, Option<u32>>,
    next_index: u32,
}

impl View for GpFifoDecoder {
    type V = DecoderView;

    closed spec fn view(&self) -> DecoderView {
        DecoderView {
            header: self.raw_entry.0,
            arguments: self.arguments@,
            next_index: self.next_index,
        }
    }
}

impl GpFifoDecoder {
    /// Begins to read the call whose header is `entry`.
    pub fn new(entry: u32) -> (r: Self)
        ensures
            r@.header == entry,
            r@.arguments == initial_arguments(entry),
            r@.next_index == if GpFifoEntry(entry).spec_submission_mode() == INLINE_MODE {
                1u32
            } else {
                0u32
            },
            r@.wf(),
    {
        broadcast use vstd::std_specs::btree::group_btree_axioms;

        let raw_entry = GpFifoEntry(entry);
        let mut arguments: BTreeMap<u32, Option<u32>> = BTreeMap::new();
        let mut next_index: u32 = 0;
        let count = Self::arguments_count(&raw_entry);
        proof {
            lemma_count_bound(entry);
        }
        let mut i: usize = 0;
        while i < count
            invariant
                i <= count <= 0x7ff,
                arguments@ == Map::<u32, Option<u32>>::new(
                    |index: u32| index < i,
                    |index: u32| None::<u32>,
                ),
            decreases count - i,
        {
            arguments.insert(i as u32, None);
            i += 1;
            assert(arguments@ =~= Map::<u32, Option<u32>>::new(
                |index: u32| index < i,
                |index: u32| None::<u32>,
            ));
        }
        if raw_entry.submission_mode() == INLINE_MODE {
            arguments.insert(0, Some(raw_entry.inline_arguments()));
            next_index += 1;
        }
        assert(arguments@ =~= initial_arguments(entry));
        GpFifoDecoder { raw_entry, arguments, next_index }
    }

    /// Takes the next word as the next argument; `None` stands for a word
    /// that was no number. A call that has all its arguments takes no
    /// more: it is left as it was and the call fails.
    pub fn push_argument(&mut self, argument: Option<u32>) -> (r: NvGpuResult<()>)
        ensures
            !old(self)@.takes_argument() ==> r == Err::<(), GpuError>(GpuError::InvalidUsage)
                && final(self)@ == old(self)@,
            old(self)@.takes_argument() ==> r is Ok && final(self)@ == old(self)@.pushed(argument),
            old(self)@.wf() ==> final(self)@.wf(),
            old(self)@.wf() ==> (old(self)@.takes_argument() <==> !old(self)@.is_complete()),
    {
        broadcast use vstd::std_specs::btree::group_btree_axioms;

        proof {
            lemma_count_bound(self.raw_entry.0);
        }
        if self.is_complete() || self.next_index >= 0x7ff {
            return Err(GpuError::InvalidUsage);
        }
        self.arguments.insert(self.next_index, argument);
        self.next_index += 1;
        proof {
            if old(self)@.wf() {
                assert(self@.arguments.dom() =~= old(self)@.arguments.dom());
            }
        }
        Ok(())
    }

    /// Whether every argument was read.
    pub fn is_complete(&self) -> (r: bool)
        ensures
            r == self@.is_complete(),
    {
        self.raw_entry.submission_mode() == INLINE_MODE || self.next_index
            == self.raw_entry.argument_count()
    }

    /// The number of arguments that the call of `entry` takes.
    pub fn arguments_count(entry: &GpFifoEntry) -> (r: usize)
        ensures
            r == spec_arguments_count(entry.0),
    {
        if entry.submission_mode() == INLINE_MODE {
            1
        } else {
            entry.argument_count() as usize
        }
    }

    /// The argument at place `index`, if the call has such a place and a
    /// number was read for it.
    pub fn argument(&self, index: u32) -> (r: Option<u32>)
        ensures
            r == if self@.arguments.contains_key(index) {
                self@.arguments[index]
            } else {
                None
            },
    {
        broadcast use vstd::std_specs::btree::group_btree_axioms;

        match self.arguments.get(&index) {
            Some(argument) => *argument,
            None => None,
        }
    }
}

/// The name of the submission mode of tag `mode`, for the tags that the
/// hardware defines.
pub open spec fn mode_name(mode: u32) -> Option<Seq<char>> {
    if mode == 0 {
        Some("IncreasingOld"@)
    } else if mode == 1 {
        Some("Increasing"@)
    } else if mode == 2 {
        Some("NonIncreasingOld"@)
    } else if mode == 3 {
        Some("NonIncreasing"@)
    } else if mode == 4 {
        Some("Inline"@)
    } else if mode == 5 {
        Some("IncreasingOnce"@)
    } else {
        None
    }
}

/// The parameters of a method of `count` arguments, with commas between
/// them.
pub open spec fn parameter_list(count: nat) -> Seq<char>
    decreases count,
{
    if count == 0 {
        Seq::empty()
    } else if count == 1 {
        "uint32_t arg"@ + decimal(0)
    } else {
        parameter_list((count - 1) as nat) + ", "@ + "uint32_t arg"@ + decimal((count - 1) as nat)
    }
}

/// The register that the argument at place `index` goes to: the next one
/// for each argument in the increasing modes, the next one once in the
/// mode that increases once, and always the same in the other modes.
pub open spec fn register_of(method: u32, mode: u32, index: nat) -> nat {
    if mode == 0 || mode == 1 {
        (method + index) as nat
    } else if mode == 5 && index > 0 {
        (method + 1) as nat
    } else {
        method as nat
    }
}

/// The assignments of the first `count` arguments to their registers, one
/// line each.
pub open spec fn assignments(method: u32, mode: u32, count: nat) -> Seq<char>
    decreases count,
{
    if count == 0 {
        Seq::empty()
    } else {
        assignments(method, mode, (count - 1) as nat) + "    REGISTERS[0x"@ + lower_hex(
            register_of(method, mode, (count - 1) as nat),
        ) + "] = arg"@ + decimal((count - 1) as nat) + ";\n"@
    }
}

/// The method that the header `raw_value` calls, written out as a function
/// that assigns each argument to its register, under a comment with the
/// submission mode, the sub-channel and the offset of the method in bytes.
/// There is no such text for a mode that the hardware does not define.
pub open spec fn method_text(raw_value: u32) -> Option<Seq<char>> {
    let entry = GpFifoEntry(raw_value);
    let count = spec_arguments_count(raw_value);
    match mode_name(entry.spec_submission_mode()) {
        None => None,
        Some(name) => Some(
            "// Submission Mode: "@ + name + ", Sub Channel Id: "@ + decimal(
                entry.spec_sub_channel() as nat,
            ) + ", envytools offset: 0x"@ + lower_hex_4((entry.spec_method() * 4) as nat) + "\n"@
                + "void method_"@ + lower_hex(entry.spec_method() as nat) + "("@ + parameter_list(
                count,
            ) + ")\n"@ + "{\n"@ + assignments(
                entry.spec_method(),
                entry.spec_submission_mode(),
                count,
            ) + "}\n"@,
        ),
    }
}

/// The argument at place `index` as it is written in a call: the number
/// in hexadecimal, or question marks where it is not known.
pub open spec fn argument_text(arguments: Map<u32, Option<u32>>, index: u32) -> Seq<char> {
    if arguments.contains_key(index) && arguments[index] is Some {
        "0x"@ + lower_hex(arguments[index]->0 as nat)
    } else {
        "???"@
    }
}

/// The first `count` arguments as they are written in a call, with commas
/// between them.
pub open spec fn argument_list(arguments: Map<u32, Option<u32>>, count: nat) -> Seq<char>
    decreases count,
{
    if count == 0 {
        Seq::empty()
    } else if count == 1 {
        argument_text(arguments, 0)
    } else {
        argument_list(arguments, (count - 1) as nat) + ", "@ + argument_text(
            arguments,
            (count - 1) as u32,
        )
    }
}

/// The call as it is written: the method by its number, and the arguments
/// in their order.
pub open spec fn call_text(call: DecoderView) -> Seq<char> {
    "method_"@ + lower_hex(GpFifoEntry(call.header).spec_method() as nat) + "("@ + argument_list(
        call.arguments,
        spec_arguments_count(call.header),
    ) + ");\n"@
}

/// The bound of the count field, and with it of the number of arguments.
proof fn lemma_count_bound(header: u32)
    ensures
        GpFifoEntry(header).spec_argument_count() <= 0x7ff,
        GpFifoEntry(header).spec_method() <= 0x1fff,
        GpFifoEntry(header).spec_sub_channel() <= 7,
        GpFifoEntry(header).spec_submission_mode() <= 7,
        spec_arguments_count(header) <= 0x7ff,
{
    crate::bits::lemma_field_bound(header, 26, 16);
    crate::bits::lemma_field_bound(header, 12, 0);
    crate::bits::lemma_field_bound(header, 15, 13);
    crate::bits::lemma_field_bound(header, 31, 29);
    assert(crate::bits::ones_u32(11) == 0x7ff && crate::bits::ones_u32(13) == 0x1fff
        && crate::bits::ones_u32(3) == 7) by (bit_vector);
}

impl GpFifoDecoder {
    /// Writes out the method that the header `raw_value` calls. A header
    /// with a submission mode that the hardware does not define has no
    /// text.
    pub fn to_method(raw_value: u32) -> (r: Option<String>)
        ensures
            match (r, method_text(raw_value)) {
                (Some(text), Some(expected)) => text@ == expected,
                (None, None) => true,
                _ => false,
            },
    {
        let entry = GpFifoEntry(raw_value);
        let count = Self::arguments_count(&entry);
        let mode = entry.submission_mode();
        let method = entry.method();
        proof {
            lemma_count_bound(raw_value);
        }
        let submission_mode_str = match mode {
            0 => "IncreasingOld",
            1 => "Increasing",
            2 => "NonIncreasingOld",
            3 => "NonIncreasing",
            4 => "Inline",
            5 => "IncreasingOnce",
            _ => {
                return None;
            },
        };
        let mut res = String::new();
        res.append("// Submission Mode: ");
        res.append(submission_mode_str);
        res.append(", Sub Channel Id: ");
        push_decimal(&mut res, entry.sub_channel());
        res.append(", envytools offset: 0x");
        push_lower_hex_4(&mut res, method * 4);
        res.append("\n");
        res.append("void method_");
        push_lower_hex(&mut res, method);
        res.append("(");
        let ghost head = res@;

        let mut i: usize = 0;
        while i < count
            invariant
                i <= count <= 0x7ff,
                res@ == head + parameter_list(i as nat),
            decreases count - i,
        {
            if i > 0 {
                res.append(", ");
            }
            res.append("uint32_t arg");
            push_decimal(&mut res, i as u32);
            i += 1;
            assert(res@ =~= head + parameter_list(i as nat));
        }
        res.append(")\n");
        res.append("{\n");
        let ghost body = res@;

        let mut argument_offset: u32 = method;
        let mut i: usize = 0;
        while i < count
            invariant
                i <= count <= 0x7ff,
                method <= 0x1fff,
                argument_offset == register_of(method, mode, i as nat),
                res@ == body + assignments(method, mode, i as nat),
            decreases count - i,
        {
            res.append("    REGISTERS[0x");
            push_lower_hex(&mut res, argument_offset);
            res.append("] = arg");
            push_decimal(&mut res, i as u32);
            res.append(";\n");
            if mode == 0 || mode == 1 || (mode == 5 && i == 0) {
                argument_offset += 1;
            }
            i += 1;
            assert(res@ =~= body + assignments(method, mode, i as nat));
        }
        res.append("}\n");
        assert(res@ =~= method_text(raw_value)->0);
        Some(res)
    }

    /// Writes out the call with the arguments that were read.
    pub fn to_method_call(&self) -> (r: String)
        ensures
            r@ == call_text(self@),
    {
        let count = Self::arguments_count(&self.raw_entry);
        proof {
            lemma_count_bound(self.raw_entry.0);
        }
        let mut res = String::new();
        res.append("method_");
        push_lower_hex(&mut res, self.raw_entry.method());
        res.append("(");
        let ghost head = res@;

        let mut i: usize = 0;
        while i < count
            invariant
                i <= count <= 0x7ff,
                res@ == head + argument_list(self@.arguments, i as nat),
            decreases count - i,
        {
            if i > 0 {
                res.append(", ");
            }
            match self.argument(i as u32) {
                Some(value) => {
                    res.append("0x");
                    push_lower_hex(&mut res, value);
                },
                None => {
                    res.append("???");
                },
            }
            i += 1;
            assert(res@ =~= head + argument_list(self@.arguments, i as nat));
        }
        res.append(");\n");
        assert(res@ =~= call_text(self@));
        res
    }
}

} // verus!
