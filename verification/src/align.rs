//! Alignment of addresses and sizes.

use vstd::arithmetic::power2::pow2;
use vstd::bits::low_bits_mask;
use vstd::prelude::*;

verus! {

/// The alignment of scratch memory.
pub const SCRATCH_MEMORY_ALIGNMENT: usize = 0x20000;

/// The alignment of the program region.
pub const PROGRAM_REGION_ALIGNMENT: usize = 0x1000000;

/// The scratch memory that each multiprocessor gets unless told otherwise.
pub const DEFAULT_SCRATCH_MEMORY_PER_SM: usize = 0x800;

/// `addr` with the bits below `align` cleared.
pub open spec fn spec_align_down(addr: usize, align: usize) -> usize {
    addr & !((align - 1) as usize)
}

/// `addr`, moved up by what `align` lacks of it, with the bits below
/// `align` cleared.
pub open spec fn spec_align_up(addr: usize, align: usize) -> usize {
    spec_align_down((addr + (align - 1)) as usize, align)
}

/// The multiplicative identity of `usize`, from `num_traits`' `One::one`.
/// Trusted: the crate defines it as the literal 1.
#[verifier::external_body]
fn one() -> (r: usize)
    ensures
        r == 1,
{
    num_traits::One::one()
}

/// Align the address to the next alignment.
///
/// The given number should be a power of two to get coherent results: the
/// result is then the least multiple of `align` that is not below `addr`.
pub fn align_up(addr: usize, align: usize) -> (r: usize)
    requires
        align >= 1,
        addr + (align - 1) <= usize::MAX,
    ensures
        r == spec_align_up(addr, align),
{
    align_down(addr + (align - one()), align)
}

/// Align the address to the previous alignment.
///
/// The given number should be a power of two to get coherent results: the
/// result is then the greatest multiple of `align` that is not above
/// `addr`.
pub fn align_down(addr: usize, align: usize) -> (r: usize)
    requires
        align >= 1,
    ensures
        r == spec_align_down(addr, align),
{
    addr & !(align - one())
}

/// What `align_up_checked` gives: the address itself where no bit below
/// `align` is set, else the address moved up to the next multiple of
/// `align`, if that is still an address.
pub open spec fn spec_align_up_checked(addr: usize, align: usize) -> Option<usize> {
    if addr & ((align - 1) as usize) == 0 {
        Some(addr)
    } else if addr + (align - addr % align) <= usize::MAX {
        Some((addr + (align - addr % align)) as usize)
    } else {
        None
    }
}

/// align_up, but checks if addr overflows
pub fn align_up_checked(addr: usize, align: usize) -> (r: Option<usize>)
    requires
        align >= 1,
    ensures
        r == spec_align_up_checked(addr, align),
{
    if addr & (align - 1) == 0 {
        Some(addr)
    } else {
        addr.checked_add(align - (addr % align))
    }
}

/// What the scratch size is computed from.
#[derive(Clone, Copy, Debug)]
pub struct GpuCharacteristics {
    /// The number of warps of a multiprocessor.
    pub sm_arch_warp_count: u32,
    /// The number of graphics processing clusters.
    pub num_gpc: u32,
    /// The number of texture processing clusters of each of them.
    pub num_tpc_per_gpc: u32,
}

/// The scratch memory of all warps together, before alignment.
pub open spec fn scratch_size(gpu_characteristics: GpuCharacteristics, wrap_scratch_size: u32) -> int {
    wrap_scratch_size * gpu_characteristics.sm_arch_warp_count * gpu_characteristics.num_gpc
        * gpu_characteristics.num_tpc_per_gpc
}

/// The scratch memory of all warps together, aligned as scratch memory has
/// to be. Every product on the way has to fit 32 bits.
pub fn compute_total_scratch_size(gpu_characteristics: &GpuCharacteristics, wrap_scratch_size: u32)
    -> (r: u32)
    requires
        wrap_scratch_size * gpu_characteristics.sm_arch_warp_count <= u32::MAX,
        wrap_scratch_size * gpu_characteristics.sm_arch_warp_count * gpu_characteristics.num_gpc
            <= u32::MAX,
        scratch_size(*gpu_characteristics, wrap_scratch_size) + (SCRATCH_MEMORY_ALIGNMENT - 1)
            <= u32::MAX,
    ensures
        r == spec_align_up(
            scratch_size(*gpu_characteristics, wrap_scratch_size) as usize,
            SCRATCH_MEMORY_ALIGNMENT,
        ),
        r % 0x20000 == 0,
        r >= scratch_size(*gpu_characteristics, wrap_scratch_size),
        r - scratch_size(*gpu_characteristics, wrap_scratch_size) < SCRATCH_MEMORY_ALIGNMENT,
{
    let size = wrap_scratch_size * gpu_characteristics.sm_arch_warp_count
        * gpu_characteristics.num_gpc * gpu_characteristics.num_tpc_per_gpc;
    let aligned = align_up(size as usize, SCRATCH_MEMORY_ALIGNMENT);
    proof {
        let size = size as usize;
        assert(aligned % 0x20000 == 0 && aligned >= size && aligned - size < 0x20000 && aligned
            <= 0xffff_ffff) by (bit_vector)
            requires
                size <= 0xffff_ffff - 0x1ffff,
                aligned == ((size + 0x1ffff) as usize) & !0x1ffffusize,
        ;
    }
    aligned as u32
}

/// With a power of two, the bits of an address below the alignment are
/// what division by the alignment leaves.
pub proof fn lemma_low_bits_are_remainder(addr: usize, exponent: nat)
    requires
        exponent < usize::BITS,
    ensures
        pow2(exponent) <= usize::MAX,
        addr & ((pow2(exponent) - 1) as usize) == addr % (pow2(exponent) as usize),
{
    vstd::bits::lemma_usize_pow2_no_overflow(exponent);
    vstd::arithmetic::power2::lemma_pow2_pos(exponent);
    vstd::bits::lemma_u64_low_bits_mask_is_mod(addr as u64, exponent);
    let mask = (pow2(exponent) - 1) as usize;
    assert(mask == low_bits_mask(exponent));
    let wide = addr as u64;
    let wide_mask = mask as u64;
    assert(wide & wide_mask == (addr & mask) as u64) by (bit_vector)
        requires
            wide == addr as u64,
            wide_mask == mask as u64,
    ;
}

/// With a power of two, aligning down gives the greatest multiple of the
/// alignment that is not above the address, and aligning up the least that
/// is not below it.
pub proof fn lemma_align_power_of_two(addr: usize, exponent: nat)
    requires
        exponent < usize::BITS,
    ensures
        ({
            let align = pow2(exponent) as usize;
            &&& align == pow2(exponent)
            &&& spec_align_down(addr, align) == addr - addr % align
            &&& spec_align_down(addr, align) % align == 0
            &&& spec_align_down(addr, align) <= addr < spec_align_down(addr, align) + align
            &&& addr + (align - 1) <= usize::MAX ==> {
                &&& spec_align_up(addr, align) % align == 0
                &&& addr <= spec_align_up(addr, align) < addr + align
            }
        }),
{
    lemma_low_bits_are_remainder(addr, exponent);
    vstd::arithmetic::power2::lemma_pow2_pos(exponent);
    let align = pow2(exponent) as usize;
    let mask = (align - 1) as usize;
    let down = spec_align_down(addr, align);
    assert(addr == (addr & !mask) + (addr & mask)) by (bit_vector);
    assert(down % align == 0) by (nonlinear_arith)
        requires
            align > 0,
            down == addr - addr % align,
    ;
    if addr + (align - 1) <= usize::MAX {
        let moved = (addr + (align - 1)) as usize;
        lemma_low_bits_are_remainder(moved, exponent);
        let up = spec_align_down(moved, align);
        assert(moved == (moved & !mask) + (moved & mask)) by (bit_vector);
        assert(up % align == 0 && addr <= up < addr + align) by (nonlinear_arith)
            requires
                align > 0,
                moved == addr + (align - 1),
                up == moved - moved % align,
        ;
    }
}

/// With a power of two, the checked alignment gives the least multiple of
/// the alignment that is not below the address, and nothing exactly where
/// that multiple is no address any more.
pub proof fn lemma_align_up_checked_power_of_two(addr: usize, exponent: nat)
    requires
        exponent < usize::BITS,
    ensures
        match spec_align_up_checked(addr, pow2(exponent) as usize) {
            Some(aligned) => aligned % (pow2(exponent) as usize) == 0 && addr <= aligned < addr
                + pow2(exponent),
            None => addr % (pow2(exponent) as usize) != 0 && addr - addr % (pow2(
                exponent,
            ) as usize) + pow2(exponent) > usize::MAX,
        },
{
    lemma_low_bits_are_remainder(addr, exponent);
    vstd::arithmetic::power2::lemma_pow2_pos(exponent);
    let align = pow2(exponent) as usize;
    let rest = addr % align;
    if rest != 0 && addr + (align - rest) <= usize::MAX {
        let aligned = (addr + (align - rest)) as usize;
        assert(aligned % align == 0) by (nonlinear_arith)
            requires
                align > 0,
                rest == addr % align,
                aligned == addr + (align - rest),
        ;
    }
}

} // verus!
