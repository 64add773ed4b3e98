//! The header word of a method call, as the hardware front-end reads it.
//!
//! Layout: method in bits 12..=0, sub-channel in 15..=13, argument count or
//! inline argument in 26..=16, one bit of unknown purpose at 28, submission
//! mode in 31..=29.

use crate::bits::{
    field_get, field_set, flag_get, flag_set, lemma_bit_is_flag, lemma_bit_range_is_field,
    lemma_field_read_back, lemma_field_write_keeps_others, lemma_set_bit_range_is_field,
    word_bit, word_bit_range, word_set_bit, word_set_bit_range,
};
use vstd::prelude::*;

verus! {

/// One header word.
#[derive(Clone, Copy, Debug)]
pub struct GpFifoEntry(pub u32);

/// The raw offset of a command buffer in a ring entry.
pub type GpFifoRawOffset = u64;

/// The header that holds a method, a sub-channel and a submission mode, and
/// zero in every other bit.
pub open spec fn header_word(method: u32, sub_channel: u32, mode: u32) -> u32 {
    field_set(field_set(field_set(0, 12, 0, method), 15, 13, sub_channel), 31, 29, mode)
}

impl GpFifoEntry {
    /// The method.
    pub open spec fn spec_method(self) -> u32 {
        field_get(self.0, 12, 0)
    }

    /// The sub-channel.
    pub open spec fn spec_sub_channel(self) -> u32 {
        field_get(self.0, 15, 13)
    }

    /// The argument count.
    pub open spec fn spec_argument_count(self) -> u32 {
        field_get(self.0, 26, 16)
    }

    /// The inline argument, which sits where the argument count sits.
    pub open spec fn spec_inline_arguments(self) -> u32 {
        field_get(self.0, 26, 16)
    }

    /// The submission mode.
    pub open spec fn spec_submission_mode(self) -> u32 {
        field_get(self.0, 31, 29)
    }

    #[inline]
    pub fn method(&self) -> (r: u32)
        ensures
            r == self.spec_method(),
    {
        proof {
            lemma_bit_range_is_field(self.0, 12, 0);
        }
        word_bit_range(self.0, 12, 0)
    }

    #[inline]
    pub fn set_method(&mut self, value: u32)
        ensures
            final(self).0 == field_set(old(self).0, 12, 0, value),
    {
        proof {
            lemma_set_bit_range_is_field(self.0, 12, 0, value);
        }
        word_set_bit_range(&mut self.0, 12, 0, value);
    }

    #[inline]
    pub fn sub_channel(&self) -> (r: u32)
        ensures
            r == self.spec_sub_channel(),
    {
        proof {
            lemma_bit_range_is_field(self.0, 15, 13);
        }
        word_bit_range(self.0, 15, 13)
    }

    #[inline]
    pub fn set_sub_channel(&mut self, value: u32)
        ensures
            final(self).0 == field_set(old(self).0, 15, 13, value),
    {
        proof {
            lemma_set_bit_range_is_field(self.0, 15, 13, value);
        }
        word_set_bit_range(&mut self.0, 15, 13, value);
    }

    #[inline]
    pub fn argument_count(&self) -> (r: u32)
        ensures
            r == self.spec_argument_count(),
    {
        proof {
            lemma_bit_range_is_field(self.0, 26, 16);
        }
        word_bit_range(self.0, 26, 16)
    }

    #[inline]
    pub fn set_argument_count(&mut self, value: u32)
        ensures
            final(self).0 == field_set(old(self).0, 26, 16, value),
    {
        proof {
            lemma_set_bit_range_is_field(self.0, 26, 16, value);
        }
        word_set_bit_range(&mut self.0, 26, 16, value);
    }

    #[inline]
    pub fn inline_arguments(&self) -> (r: u32)
        ensures
            r == self.spec_inline_arguments(),
    {
        proof {
            lemma_bit_range_is_field(self.0, 26, 16);
        }
        word_bit_range(self.0, 26, 16)
    }

    #[inline]
    pub fn set_inline_arguments(&mut self, value: u32)
        ensures
            final(self).0 == field_set(old(self).0, 26, 16, value),
    {
        proof {
            lemma_set_bit_range_is_field(self.0, 26, 16, value);
        }
        word_set_bit_range(&mut self.0, 26, 16, value);
    }

    #[inline]
    pub fn unknown_28(&self) -> (r: bool)
        ensures
            r == flag_get(self.0, 28),
    {
        proof {
            lemma_bit_is_flag(self.0, 28, false);
        }
        word_bit(self.0, 28)
    }

    #[inline]
    pub fn set_unknown_28(&mut self, value: bool)
        ensures
            final(self).0 == flag_set(old(self).0, 28, value),
    {
        proof {
            lemma_bit_is_flag(self.0, 28, value);
        }
        word_set_bit(&mut self.0, 28, value);
    }

    #[inline]
    pub fn submission_mode(&self) -> (r: u32)
        ensures
            r == self.spec_submission_mode(),
    {
        proof {
            lemma_bit_range_is_field(self.0, 31, 29);
        }
        word_bit_range(self.0, 31, 29)
    }

    #[inline]
    pub fn set_submission_mode(&mut self, value: u32)
        ensures
            final(self).0 == field_set(old(self).0, 31, 29, value),
    {
        proof {
            lemma_set_bit_range_is_field(self.0, 31, 29, value);
        }
        word_set_bit_range(&mut self.0, 31, 29, value);
    }
}

/// The header is its fields side by side: the method in the low 13 bits,
/// the sub-channel in the next 3, the count or the inline argument in the
/// 11 bits from bit 16 on, the mode in the top 3.
pub proof fn lemma_header_layout(method: u32, sub_channel: u32, mode: u32, count: u32)
    ensures
        header_word(method, sub_channel, mode) == (method & 0x1fff) | ((sub_channel & 0x7) << 13)
            | ((mode & 0x7) << 29),
        field_set(header_word(method, sub_channel, mode), 26, 16, count) == (method & 0x1fff) | ((
        sub_channel & 0x7) << 13) | ((count & 0x7ff) << 16) | ((mode & 0x7) << 29),
{
    assert(header_word(method, sub_channel, mode) == (method & 0x1fff) | ((sub_channel & 0x7u32)
        << 13u32) | ((mode & 0x7u32) << 29u32) && field_set(
        header_word(method, sub_channel, mode),
        26,
        16,
        count,
    ) == (method & 0x1fff) | ((sub_channel & 0x7u32) << 13u32) | ((count & 0x7ffu32) << 16u32) | ((
    mode & 0x7u32) << 29u32)) by (bit_vector);
}

/// Encoding a method, a sub-channel and a mode that fit their fields, and
/// decoding the header again, gives the same three back, whatever is then
/// written to the count field.
pub proof fn lemma_header_round_trip(method: u32, sub_channel: u32, mode: u32, count: u32)
    requires
        method < 0x2000,
        sub_channel < 8,
        mode < 8,
    ensures
        GpFifoEntry(header_word(method, sub_channel, mode)).spec_method() == method,
        GpFifoEntry(header_word(method, sub_channel, mode)).spec_sub_channel() == sub_channel,
        GpFifoEntry(header_word(method, sub_channel, mode)).spec_submission_mode() == mode,
        GpFifoEntry(header_word(method, sub_channel, mode)).spec_argument_count() == 0,
        GpFifoEntry(
            field_set(header_word(method, sub_channel, mode), 26, 16, count),
        ).spec_method() == method,
        GpFifoEntry(
            field_set(header_word(method, sub_channel, mode), 26, 16, count),
        ).spec_sub_channel() == sub_channel,
        GpFifoEntry(
            field_set(header_word(method, sub_channel, mode), 26, 16, count),
        ).spec_submission_mode() == mode,
        count < 0x800 ==> GpFifoEntry(
            field_set(header_word(method, sub_channel, mode), 26, 16, count),
        ).spec_argument_count() == count,
{
    let h1 = field_set(0, 12, 0, method);
    let h2 = field_set(h1, 15, 13, sub_channel);
    let h3 = field_set(h2, 31, 29, mode);
    let h4 = field_set(h3, 26, 16, count);
    assert(0xffff_ffffu32 >> 19u32 == 0x1fff && 0xffff_ffffu32 >> 29u32 == 7 && 0xffff_ffffu32
        >> 21u32 == 0x7ff) by (bit_vector);
    lemma_field_read_back(0, 12, 0, method);
    lemma_field_read_back(h1, 15, 13, sub_channel);
    lemma_field_read_back(h2, 31, 29, mode);
    lemma_field_read_back(h3, 26, 16, count);
    lemma_field_write_keeps_others(h1, 15, 13, sub_channel, 12, 0);
    lemma_field_write_keeps_others(h2, 31, 29, mode, 12, 0);
    lemma_field_write_keeps_others(h2, 31, 29, mode, 15, 13);
    lemma_field_write_keeps_others(h3, 26, 16, count, 12, 0);
    lemma_field_write_keeps_others(h3, 26, 16, count, 15, 13);
    lemma_field_write_keeps_others(h3, 26, 16, count, 31, 29);
    lemma_field_write_keeps_others(0, 12, 0, method, 26, 16);
    lemma_field_write_keeps_others(h1, 15, 13, sub_channel, 26, 16);
    lemma_field_write_keeps_others(h2, 31, 29, mode, 26, 16);
    assert(field_get(0, 26, 16) == 0) by (bit_vector);
}

} // verus!
