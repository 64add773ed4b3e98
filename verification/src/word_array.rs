//! Bit ranges that run across the words of an array.
//!
//! Bit `n` of an array is bit `n % 32` of its word `n / 32`. A range is
//! read highest bit first and written lowest bit first, one bit at a time,
//! so it may start and end anywhere.

use crate::bits::ones_u32;
use vstd::prelude::*;

verus! {

/// Bit `index` of `words`, as 0 or 1.
pub open spec fn array_bit(words: Seq<u32>, index: int) -> u32 {
    (words[index / 32] >> ((index % 32) as u32)) & 1
}

/// The bits `lsb..=msb` of `words` as a number, bit `lsb` lowest.
pub open spec fn array_bits(words: Seq<u32>, msb: int, lsb: int) -> u32
    decreases msb - lsb + 1,
{
    if msb < lsb {
        0
    } else {
        (array_bits(words, msb, lsb + 1) << 1u32) | array_bit(words, lsb)
    }
}

/// `words` with bit `index` set to `bit`, which is 0 or 1.
pub open spec fn array_with_bit(words: Seq<u32>, index: int, bit: u32) -> Seq<u32> {
    words.update(
        index / 32,
        (words[index / 32] & !(1u32 << ((index % 32) as u32))) | (bit << ((index % 32) as u32)),
    )
}

/// `words` with the bits `lsb..=msb` set to the low bits of `value`, bit
/// `lsb` from bit 0. Past the 32 bits of `value` the range is cleared.
pub open spec fn array_with_bits(words: Seq<u32>, msb: int, lsb: int, value: u32) -> Seq<u32>
    decreases msb - lsb + 1,
{
    if msb < lsb {
        words
    } else {
        array_with_bits(array_with_bit(words, lsb, value & 1), msb, lsb + 1, value >> 1u32)
    }
}

/// Whether bit `index` of `words` is set.
pub open spec fn array_flag(words: Seq<u32>, index: int) -> bool {
    array_bits(words, index, index) != 0
}

/// `words` with bit `index` set or cleared.
pub open spec fn array_with_flag(words: Seq<u32>, index: int, value: bool) -> Seq<u32> {
    array_with_bits(
        words,
        index,
        index,
        if value {
            1
        } else {
            0
        },
    )
}

/// The narrowest fields hold 1, 3, 7 at most, and a field of a byte 255.
pub proof fn lemma_small_ones()
    ensures
        ones_u32(1) == 1,
        ones_u32(2) == 3,
        ones_u32(3) == 7,
        ones_u32(8) == 255,
{
    assert(ones_u32(1) == 1 && ones_u32(2) == 3 && ones_u32(3) == 7 && ones_u32(8) == 255)
        by (bit_vector);
}

/// A range of `width` bits holds a number of `width` bits.
pub proof fn lemma_array_bits_bound(words: Seq<u32>, msb: int, lsb: int)
    requires
        lsb <= msb,
        msb - lsb < 32,
    ensures
        array_bits(words, msb, lsb) <= ones_u32((msb - lsb + 1) as u32),
    decreases msb - lsb,
{
    let bit = array_bit(words, lsb);
    let word = words[lsb / 32];
    let shift = (lsb % 32) as u32;
    assert(((word >> shift) & 1) <= 1) by (bit_vector);
    if msb == lsb {
        assert(array_bits(words, msb, lsb + 1) == 0);
        assert(((0u32 << 1u32) | bit) <= ones_u32(1)) by (bit_vector)
            requires
                bit <= 1,
        ;
    } else {
        lemma_array_bits_bound(words, msb, lsb + 1);
        let upper = array_bits(words, msb, lsb + 1);
        let width = (msb - lsb) as u32;
        assert(((upper << 1u32) | bit) <= ones_u32((width + 1) as u32)) by (bit_vector)
            requires
                bit <= 1,
                1 <= width < 32,
                upper <= ones_u32(width),
        ;
    }
}

/// Reads the bits `lsb..=msb` of `words`.
pub fn bit_range(words: &[u32], msb: usize, lsb: usize) -> (r: u32)
    requires
        lsb <= msb,
        msb - lsb < 32,
        msb < 32 * words@.len(),
    ensures
        r == array_bits(words@, msb as int, lsb as int),
{
    let mut value: u32 = 0;
    let mut count: usize = msb - lsb + 1;
    while count > 0
        invariant
            lsb <= msb,
            count <= msb - lsb + 1,
            msb < 32 * words@.len(),
            value == array_bits(words@, msb as int, lsb + count),
        decreases count,
    {
        count -= 1;
        let i = lsb + count;
        value = (value << 1u32) | ((words[i / 32] >> ((i % 32) as u32)) & 1);
    }
    let trim: u32 = (32 - (msb - lsb + 1)) as u32;
    proof {
        lemma_array_bits_bound(words@, msb as int, lsb as int);
        let width = (msb - lsb + 1) as u32;
        assert((value << trim) >> trim == value) by (bit_vector)
            requires
                1 <= width <= 32,
                trim == 32 - width,
                value <= ones_u32(width),
        ;
    }
    (value << trim) >> trim
}

/// Reads the bits `lsb..=msb` of `words`, a byte at most.
pub fn narrow_bit_range(words: &[u32], msb: usize, lsb: usize) -> (r: u8)
    requires
        lsb <= msb,
        msb - lsb < 8,
        msb < 32 * words@.len(),
    ensures
        r == array_bits(words@, msb as int, lsb as int),
{
    let value = bit_range(words, msb, lsb);
    proof {
        lemma_array_bits_bound(words@, msb as int, lsb as int);
        let width = (msb - lsb + 1) as u32;
        assert(ones_u32(width) <= 255) by (bit_vector)
            requires
                1 <= width <= 8,
        ;
    }
    value as u8
}

/// Writes the low bits of `value` to the bits `lsb..=msb` of `words`.
pub fn set_bit_range(words: &mut [u32], msb: usize, lsb: usize, value: u32)
    requires
        lsb <= msb,
        msb < 32 * old(words)@.len(),
    ensures
        final(words)@ == array_with_bits(old(words)@, msb as int, lsb as int, value),
{
    let mut rest = value;
    let mut i: usize = lsb;
    while i < msb
        invariant
            lsb <= i <= msb,
            words@.len() == old(words)@.len(),
            msb < 32 * words@.len(),
            array_with_bits(words@, msb as int, i as int, rest) == array_with_bits(
                old(words)@,
                msb as int,
                lsb as int,
                value,
            ),
        decreases msb - i,
    {
        let shift: u32 = (i % 32) as u32;
        let word = words[i / 32];
        words[i / 32] = (word & !(1u32 << shift)) | ((rest & 1) << shift);
        rest = rest >> 1u32;
        i += 1;
    }
    let ghost before = words@;
    let shift: u32 = (msb % 32) as u32;
    let word = words[msb / 32];
    words[msb / 32] = (word & !(1u32 << shift)) | ((rest & 1) << shift);
    proof {
        let last = array_with_bit(before, msb as int, rest & 1);
        assert(words@ == last);
        assert(array_with_bits(last, msb as int, msb + 1, rest >> 1u32) == last);
        assert(array_with_bits(before, msb as int, msb as int, rest) == last);
    }
}

/// Writing one bit changes that bit and no other.
pub proof fn lemma_array_with_bit(words: Seq<u32>, index: int, bit: u32, other: int)
    requires
        0 <= index < 32 * words.len(),
        0 <= other < 32 * words.len(),
        bit <= 1,
    ensures
        array_with_bit(words, index, bit).len() == words.len(),
        array_bit(array_with_bit(words, index, bit), other) == if other == index {
            bit
        } else {
            array_bit(words, other)
        },
{
    if index / 32 == other / 32 {
        let word = words[index / 32];
        let p = (index % 32) as u32;
        let q = (other % 32) as u32;
        assert((((word & !(1u32 << p)) | (bit << p)) >> q) & 1 == if p == q {
            bit
        } else {
            (word >> q) & 1
        }) by (bit_vector)
            requires
                p < 32,
                q < 32,
                bit <= 1,
        ;
    }
}

/// Writing a range changes the bits of the range, each to the bit of the
/// value that belongs there, and no other bit.
pub proof fn lemma_array_with_bits(words: Seq<u32>, msb: int, lsb: int, value: u32, other: int)
    requires
        0 <= lsb <= msb < 32 * words.len(),
        0 <= other < 32 * words.len(),
    ensures
        array_with_bits(words, msb, lsb, value).len() == words.len(),
        array_bit(array_with_bits(words, msb, lsb, value), other) == if lsb <= other <= msb {
            if other - lsb < 32 {
                (value >> ((other - lsb) as u32)) & 1
            } else {
                0
            }
        } else {
            array_bit(words, other)
        },
    decreases msb - lsb,
{
    let first = array_with_bit(words, lsb, value & 1);
    let rest = value >> 1u32;
    assert(value & 1 <= 1 && (value >> 0u32) & 1 == value & 1) by (bit_vector);
    lemma_array_with_bit(words, lsb, value & 1, other);
    if lsb == msb {
        assert(array_with_bits(first, msb, lsb + 1, rest) == first);
    } else {
        lemma_array_with_bits(first, msb, lsb + 1, rest, other);
        if lsb + 1 <= other <= msb {
            let k = (other - lsb - 1) as u32;
            if other - lsb < 32 {
                assert((rest >> k) & 1 == (value >> ((k + 1) as u32)) & 1) by (bit_vector)
                    requires
                        rest == value >> 1u32,
                        k < 31,
                ;
            } else if other - lsb == 32 {
                assert((rest >> 31u32) & 1 == 0) by (bit_vector)
                    requires
                        rest == value >> 1u32,
                ;
            }
        }
    }
}

/// A flag is set exactly if its bit is 1, and reads back as it was
/// written.
pub proof fn lemma_array_flag(words: Seq<u32>, index: int, value: bool)
    requires
        0 <= index < 32 * words.len(),
    ensures
        array_flag(words, index) == (array_bit(words, index) == 1),
        array_flag(array_with_flag(words, index, value), index) == value,
{
    let bit = array_bit(words, index);
    let word = words[index / 32];
    let shift = (index % 32) as u32;
    assert(array_bits(words, index, index + 1) == 0);
    assert(((0u32 << 1u32) | ((word >> shift) & 1)) == (word >> shift) & 1 && ((word >> shift) & 1)
        <= 1) by (bit_vector);
    let raw: u32 = if value {
        1
    } else {
        0
    };
    lemma_array_read_back(words, index, index, raw);
    assert(1u32 & ones_u32(1) == 1 && 0u32 & ones_u32(1) == 0) by (bit_vector);
}

/// A range whose bits are those of a value reads as that value, as far as
/// the range is wide.
pub proof fn lemma_array_bits_of_value(words: Seq<u32>, msb: int, lsb: int, value: u32)
    requires
        lsb <= msb,
        msb - lsb < 32,
        forall|k: int|
            lsb <= k <= msb ==> array_bit(words, k) == (value >> ((k - lsb) as u32)) & 1,
    ensures
        array_bits(words, msb, lsb) == value & ones_u32((msb - lsb + 1) as u32),
    decreases msb - lsb,
{
    let low = array_bit(words, lsb);
    assert(low == (value >> 0u32) & 1);
    if lsb == msb {
        assert(array_bits(words, msb, lsb + 1) == 0);
        assert(((0u32 << 1u32) | ((value >> 0u32) & 1)) == value & ones_u32(1)) by (bit_vector);
    } else {
        let rest = value >> 1u32;
        assert forall|k: int| lsb + 1 <= k <= msb implies array_bit(words, k) == (rest >> ((k - (lsb
            + 1)) as u32)) & 1 by {
            let d = (k - lsb - 1) as u32;
            assert((rest >> d) & 1 == (value >> ((d + 1) as u32)) & 1) by (bit_vector)
                requires
                    rest == value >> 1u32,
                    d < 31,
            ;
        }
        lemma_array_bits_of_value(words, msb, lsb + 1, rest);
        let width = (msb - lsb) as u32;
        assert((((rest & ones_u32(width)) << 1u32) | ((value >> 0u32) & 1)) == value & ones_u32(
            (width + 1) as u32,
        )) by (bit_vector)
            requires
                rest == value >> 1u32,
                1 <= width < 32,
        ;
    }
}

/// Two arrays that agree on the bits of a range read the same there.
pub proof fn lemma_array_bits_agree(first: Seq<u32>, second: Seq<u32>, msb: int, lsb: int)
    requires
        forall|k: int| lsb <= k <= msb ==> array_bit(first, k) == array_bit(second, k),
    ensures
        array_bits(first, msb, lsb) == array_bits(second, msb, lsb),
    decreases msb - lsb + 1,
{
    if lsb <= msb {
        lemma_array_bits_agree(first, second, msb, lsb + 1);
    }
}

/// A range that was written reads back as the low bits of what was
/// written.
pub proof fn lemma_array_read_back(words: Seq<u32>, msb: int, lsb: int, value: u32)
    requires
        0 <= lsb <= msb < 32 * words.len(),
        msb - lsb < 32,
    ensures
        array_bits(array_with_bits(words, msb, lsb, value), msb, lsb) == value & ones_u32(
            (msb - lsb + 1) as u32,
        ),
{
    let written = array_with_bits(words, msb, lsb, value);
    assert forall|k: int| lsb <= k <= msb implies array_bit(written, k) == (value >> ((k
        - lsb) as u32)) & 1 by {
        lemma_array_with_bits(words, msb, lsb, value, k);
    }
    lemma_array_bits_of_value(written, msb, lsb, value);
}

/// Writing one range leaves every range that does not overlap it as it
/// was.
pub proof fn lemma_array_write_keeps_others(
    words: Seq<u32>,
    msb: int,
    lsb: int,
    value: u32,
    other_msb: int,
    other_lsb: int,
)
    requires
        0 <= lsb <= msb < 32 * words.len(),
        0 <= other_lsb <= other_msb < 32 * words.len(),
        other_msb < lsb || msb < other_lsb,
    ensures
        array_bits(array_with_bits(words, msb, lsb, value), other_msb, other_lsb) == array_bits(
            words,
            other_msb,
            other_lsb,
        ),
{
    let written = array_with_bits(words, msb, lsb, value);
    assert forall|k: int| other_lsb <= k <= other_msb implies array_bit(written, k) == array_bit(
        words,
        k,
    ) by {
        lemma_array_with_bits(words, msb, lsb, value, k);
    }
    lemma_array_bits_agree(written, words, other_msb, other_lsb);
}

} // verus!
