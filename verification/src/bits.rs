//! Bit ranges of 32- and 64-bit words.
//!
//! The accessors of the hardware structures are all built on two operations:
//! reading the bits `lsb..=msb` of a word, and replacing them. The operations
//! themselves are those of the `bitfield` crate; this module states what they
//! compute and proves the laws that the rest of the crate relies on.

use vstd::prelude::*;

verus! {

/// A word whose lowest `width` bits are set, for `1 <= width <= 32`.
pub open spec fn ones_u32(width: u32) -> u32 {
    0xffff_ffffu32 >> ((32 - width) as u32)
}

/// A word whose lowest `width` bits are set, for `1 <= width <= 64`.
pub open spec fn ones_u64(width: u32) -> u64 {
    0xffff_ffff_ffff_ffffu64 >> ((64 - width) as u32)
}

/// The field `lsb..=msb` of `word`, as a number.
pub open spec fn field_get(word: u32, msb: u32, lsb: u32) -> u32 {
    (word >> lsb) & ones_u32((msb - lsb + 1) as u32)
}

/// `word` with its field `lsb..=msb` replaced by the low bits of `value`.
pub open spec fn field_set(word: u32, msb: u32, lsb: u32, value: u32) -> u32 {
    let mask: u32 = ones_u32((msb - lsb + 1) as u32) << lsb;
    (word & !mask) | ((value << lsb) & mask)
}

/// The field `lsb..=msb` of a 64-bit `word`, at most 32 bits wide.
pub open spec fn field_get_u64(word: u64, msb: u32, lsb: u32) -> u32 {
    ((word >> lsb) & ones_u64((msb - lsb + 1) as u32)) as u32
}

/// A 64-bit `word` with its field `lsb..=msb` replaced by the low bits of
/// `value`.
pub open spec fn field_set_u64(word: u64, msb: u32, lsb: u32, value: u32) -> u64 {
    let mask: u64 = ones_u64((msb - lsb + 1) as u32) << lsb;
    (word & !mask) | (((value as u64) << lsb) & mask)
}

/// Whether bit `bit` of `word` is set.
pub open spec fn flag_get(word: u32, bit: u32) -> bool {
    (word >> bit) & 1 == 1
}

/// `word` with bit `bit` set to `value`.
pub open spec fn flag_set(word: u32, bit: u32, value: bool) -> u32 {
    if value {
        word | (1u32 << bit)
    } else {
        word & !(1u32 << bit)
    }
}

/// Whether bit `bit` of a 64-bit `word` is set.
pub open spec fn flag_get_u64(word: u64, bit: u32) -> bool {
    (word >> bit) & 1 == 1
}

/// A 64-bit `word` with bit `bit` set to `value`.
pub open spec fn flag_set_u64(word: u64, bit: u32, value: bool) -> u64 {
    if value {
        word | (1u64 << bit)
    } else {
        word & !(1u64 << bit)
    }
}

/// What `bitfield` computes for `BitRange::<u32>::bit_range` on a `u32`:
/// shift the bits above `msb` out to the left, shift the field down to bit
/// 0, then trim the result to the width of the field.
pub open spec fn bit_range_u32(word: u32, msb: u32, lsb: u32) -> u32 {
    let cut: u32 = (word << ((31 - msb) as u32)) >> ((31 - msb + lsb) as u32);
    let trim: u32 = (32 - (msb - lsb + 1)) as u32;
    (cut << trim) >> trim
}

/// What `bitfield` computes for `BitRange::<u32>::set_bit_range` on a `u32`.
pub open spec fn set_bit_range_u32(word: u32, msb: u32, lsb: u32, value: u32) -> u32 {
    let mask: u32 = ((0xffff_ffffu32 << ((31 - msb) as u32)) >> ((31 - msb + lsb) as u32)) << lsb;
    (word & !mask) | ((value << lsb) & mask)
}

/// What `bitfield` computes for `BitRange::<u32>::bit_range` on a `u64`.
pub open spec fn bit_range_u64(word: u64, msb: u32, lsb: u32) -> u32 {
    let cut: u32 = ((word << ((63 - msb) as u32)) >> ((63 - msb + lsb) as u32)) as u32;
    let trim: u32 = (32 - (msb - lsb + 1)) as u32;
    (cut << trim) >> trim
}

/// What `bitfield` computes for `BitRange::<u32>::set_bit_range` on a `u64`.
pub open spec fn set_bit_range_u64(word: u64, msb: u32, lsb: u32, value: u32) -> u64 {
    let mask: u64 = ((0xffff_ffff_ffff_ffffu64 << ((63 - msb) as u32)) >> ((63 - msb + lsb) as u32))
        << lsb;
    (word & !mask) | (((value as u64) << lsb) & mask)
}

/// What `bitfield` computes for `Bit::bit` on a `u32`: the one-bit range,
/// read as a `u8` and compared with zero.
pub open spec fn bit_u32(word: u32, bit: u32) -> bool {
    let cut: u8 = ((word << ((31 - bit) as u32)) >> 31u32) as u8;
    ((cut << 7u32) >> 7u32) != 0
}

/// What `bitfield` computes for `Bit::set_bit` on a `u32`.
pub open spec fn set_bit_u32(word: u32, bit: u32, value: bool) -> u32 {
    let mask: u32 = ((0xffff_ffffu32 << ((31 - bit) as u32)) >> 31u32) << bit;
    let raw: u32 = if value { 1 } else { 0 };
    (word & !mask) | ((raw << bit) & mask)
}

/// What `bitfield` computes for `Bit::bit` on a `u64`.
pub open spec fn bit_u64(word: u64, bit: u32) -> bool {
    let cut: u8 = ((word << ((63 - bit) as u32)) >> 63u32) as u8;
    ((cut << 7u32) >> 7u32) != 0
}

/// What `bitfield` computes for `Bit::set_bit` on a `u64`.
pub open spec fn set_bit_u64(word: u64, bit: u32, value: bool) -> u64 {
    let mask: u64 = ((0xffff_ffff_ffff_ffffu64 << ((63 - bit) as u32)) >> 63u32) << bit;
    let raw: u64 = if value { 1 } else { 0 };
    (word & !mask) | ((raw << bit) & mask)
}

/// Reads the bits `lsb..=msb` of `word` with `bitfield`'s `BitRange::bit_range`
/// for `u32`. Trusted: the result is the crate's shift formula, which is
/// defined for `lsb <= msb < 32`.
#[verifier::external_body]
pub(crate) fn word_bit_range(word: u32, msb: u32, lsb: u32) -> (r: u32)
    requires
        lsb <= msb < 32,
    ensures
        r == bit_range_u32(word, msb, lsb),
{
    bitfield::BitRange::<u32>::bit_range(&word, msb as usize, lsb as usize)
}

/// Replaces the bits `lsb..=msb` of `word` with `bitfield`'s
/// `BitRange::set_bit_range` for `u32`. Trusted: the new word is the crate's
/// mask formula, which keeps the low bits of `value` and drops the rest.
#[verifier::external_body]
pub(crate) fn word_set_bit_range(word: &mut u32, msb: u32, lsb: u32, value: u32)
    requires
        lsb <= msb < 32,
    ensures
        *final(word) == set_bit_range_u32(*old(word), msb, lsb, value),
{
    bitfield::BitRange::<u32>::set_bit_range(word, msb as usize, lsb as usize, value)
}

/// Reads bit `bit` of `word` with `bitfield`'s `Bit::bit`. Trusted: the
/// result is the crate's one-bit range compared with zero.
#[verifier::external_body]
pub(crate) fn word_bit(word: u32, bit: u32) -> (r: bool)
    requires
        bit < 32,
    ensures
        r == bit_u32(word, bit),
{
    bitfield::Bit::bit(&word, bit as usize)
}

/// Writes bit `bit` of `word` with `bitfield`'s `Bit::set_bit`. Trusted: the
/// new word is the crate's one-bit mask formula.
#[verifier::external_body]
pub(crate) fn word_set_bit(word: &mut u32, bit: u32, value: bool)
    requires
        bit < 32,
    ensures
        *final(word) == set_bit_u32(*old(word), bit, value),
{
    bitfield::Bit::set_bit(word, bit as usize, value)
}

/// Reads the bits `lsb..=msb` of a 64-bit `word` as a `u32` with `bitfield`'s
/// `BitRange::bit_range`. Trusted: the result is the crate's shift formula,
/// which is defined for fields of at most 32 bits.
#[verifier::external_body]
pub(crate) fn wide_bit_range(word: u64, msb: u32, lsb: u32) -> (r: u32)
    requires
        lsb <= msb < 64,
        msb - lsb < 32,
    ensures
        r == bit_range_u64(word, msb, lsb),
{
    bitfield::BitRange::<u32>::bit_range(&word, msb as usize, lsb as usize)
}

/// Replaces the bits `lsb..=msb` of a 64-bit `word` with `bitfield`'s
/// `BitRange::set_bit_range`, from a `u32`. Trusted: the new word is the
/// crate's mask formula.
#[verifier::external_body]
pub(crate) fn wide_set_bit_range(word: &mut u64, msb: u32, lsb: u32, value: u32)
    requires
        lsb <= msb < 64,
    ensures
        *final(word) == set_bit_range_u64(*old(word), msb, lsb, value),
{
    bitfield::BitRange::<u32>::set_bit_range(word, msb as usize, lsb as usize, value)
}

/// Reads bit `bit` of a 64-bit `word` with `bitfield`'s `Bit::bit`.
/// Trusted: the result is the crate's one-bit range compared with zero.
#[verifier::external_body]
pub(crate) fn wide_bit(word: u64, bit: u32) -> (r: bool)
    requires
        bit < 64,
    ensures
        r == bit_u64(word, bit),
{
    bitfield::Bit::bit(&word, bit as usize)
}

/// Writes bit `bit` of a 64-bit `word` with `bitfield`'s `Bit::set_bit`.
/// Trusted: the new word is the crate's one-bit mask formula.
#[verifier::external_body]
pub(crate) fn wide_set_bit(word: &mut u64, bit: u32, value: bool)
    requires
        bit < 64,
    ensures
        *final(word) == set_bit_u64(*old(word), bit, value),
{
    bitfield::Bit::set_bit(word, bit as usize, value)
}

/// The crate's read is the field of the word.
pub proof fn lemma_bit_range_is_field(word: u32, msb: u32, lsb: u32)
    requires
        lsb <= msb < 32,
    ensures
        bit_range_u32(word, msb, lsb) == field_get(word, msb, lsb),
{
    assert(bit_range_u32(word, msb, lsb) == field_get(word, msb, lsb)) by (bit_vector)
        requires
            lsb <= msb < 32,
    ;
}

/// The crate's write replaces the field of the word.
pub proof fn lemma_set_bit_range_is_field(word: u32, msb: u32, lsb: u32, value: u32)
    requires
        lsb <= msb < 32,
    ensures
        set_bit_range_u32(word, msb, lsb, value) == field_set(word, msb, lsb, value),
{
    assert(set_bit_range_u32(word, msb, lsb, value) == field_set(word, msb, lsb, value))
        by (bit_vector)
        requires
            lsb <= msb < 32,
    ;
}

/// The crate's 64-bit read is the field of the word.
pub proof fn lemma_bit_range_is_field_u64(word: u64, msb: u32, lsb: u32)
    requires
        lsb <= msb < 64,
        msb - lsb < 32,
    ensures
        bit_range_u64(word, msb, lsb) == field_get_u64(word, msb, lsb),
{
    assert(bit_range_u64(word, msb, lsb) == field_get_u64(word, msb, lsb)) by (bit_vector)
        requires
            lsb <= msb < 64,
            msb - lsb < 32,
    ;
}

/// The crate's 64-bit write replaces the field of the word.
pub proof fn lemma_set_bit_range_is_field_u64(word: u64, msb: u32, lsb: u32, value: u32)
    requires
        lsb <= msb < 64,
    ensures
        set_bit_range_u64(word, msb, lsb, value) == field_set_u64(word, msb, lsb, value),
{
    assert(set_bit_range_u64(word, msb, lsb, value) == field_set_u64(word, msb, lsb, value))
        by (bit_vector)
        requires
            lsb <= msb < 64,
    ;
}

/// The crate's one-bit read and write are the flag of the word.
pub proof fn lemma_bit_is_flag(word: u32, bit: u32, value: bool)
    requires
        bit < 32,
    ensures
        bit_u32(word, bit) == flag_get(word, bit),
        set_bit_u32(word, bit, value) == flag_set(word, bit, value),
{
    assert(bit_u32(word, bit) == flag_get(word, bit)) by (bit_vector)
        requires
            bit < 32,
    ;
    assert(set_bit_u32(word, bit, value) == flag_set(word, bit, value)) by (bit_vector)
        requires
            bit < 32,
    ;
}

/// The crate's one-bit read and write on 64 bits are the flag of the word.
pub proof fn lemma_bit_is_flag_u64(word: u64, bit: u32, value: bool)
    requires
        bit < 64,
    ensures
        bit_u64(word, bit) == flag_get_u64(word, bit),
        set_bit_u64(word, bit, value) == flag_set_u64(word, bit, value),
{
    assert(bit_u64(word, bit) == flag_get_u64(word, bit)) by (bit_vector)
        requires
            bit < 64,
    ;
    assert(set_bit_u64(word, bit, value) == flag_set_u64(word, bit, value)) by (bit_vector)
        requires
            bit < 64,
    ;
}

/// A field that was written reads back as the low bits of what was written.
pub proof fn lemma_field_read_back(word: u32, msb: u32, lsb: u32, value: u32)
    requires
        lsb <= msb < 32,
    ensures
        field_get(field_set(word, msb, lsb, value), msb, lsb) == value & ones_u32(
            (msb - lsb + 1) as u32,
        ),
        value <= ones_u32((msb - lsb + 1) as u32) ==> field_get(
            field_set(word, msb, lsb, value),
            msb,
            lsb,
        ) == value,
{
    assert(field_get(field_set(word, msb, lsb, value), msb, lsb) == value & ones_u32(
        (msb - lsb + 1) as u32,
    )) by (bit_vector)
        requires
            lsb <= msb < 32,
    ;
    assert(value <= ones_u32((msb - lsb + 1) as u32) ==> value & ones_u32((msb - lsb + 1) as u32)
        == value) by (bit_vector)
        requires
            lsb <= msb < 32,
    ;
}

/// Writing one field leaves every field that does not overlap it as it was.
pub proof fn lemma_field_write_keeps_others(
    word: u32,
    msb: u32,
    lsb: u32,
    value: u32,
    other_msb: u32,
    other_lsb: u32,
)
    requires
        lsb <= msb < 32,
        other_lsb <= other_msb < 32,
        other_msb < lsb || msb < other_lsb,
    ensures
        field_get(field_set(word, msb, lsb, value), other_msb, other_lsb) == field_get(
            word,
            other_msb,
            other_lsb,
        ),
{
    assert(field_get(field_set(word, msb, lsb, value), other_msb, other_lsb) == field_get(
        word,
        other_msb,
        other_lsb,
    )) by (bit_vector)
        requires
            lsb <= msb < 32,
            other_lsb <= other_msb < 32,
            other_msb < lsb || msb < other_lsb,
    ;
}

/// A field never holds more than its width allows.
pub proof fn lemma_field_bound(word: u32, msb: u32, lsb: u32)
    requires
        lsb <= msb < 32,
    ensures
        field_get(word, msb, lsb) <= ones_u32((msb - lsb + 1) as u32),
{
    assert(field_get(word, msb, lsb) <= ones_u32((msb - lsb + 1) as u32)) by (bit_vector)
        requires
            lsb <= msb < 32,
    ;
}

} // verus!
