//! Alignment arithmetic on raw 64-bit addresses.

use vstd::arithmetic::div_mod::{
    lemma_fundamental_div_mod, lemma_mod_add_multiples_vanish, lemma_mod_multiples_basic,
};
use vstd::arithmetic::power2::{lemma2_to64, lemma_pow2_strictly_increases, lemma_pow2_unfold, pow2};
use vstd::bits::{lemma_u64_low_bits_mask_is_mod, low_bits_mask};
use vstd::prelude::*;

verus! {

/// What a constructor of an aligned value reports when it is refused.
#[derive(Clone, Copy, Debug, PartialEq, Eq, Structural)]
pub enum Error {
    /// The address is not a multiple of the size it has to be aligned to.
    AddressNotAligned,
}

/// `n` has exactly one bit set.
pub open spec fn is_power_of_two(n: u64) -> bool {
    n != 0 && n & ((n - 1) as u64) == 0
}

/// The greatest multiple of `align` that is at most `addr`.
pub open spec fn spec_align_down(addr: u64, align: u64) -> u64
    recommends
        align != 0,
{
    (addr - addr % align) as u64
}

/// The least multiple of `align` that is at least `addr`, or zero where
/// that multiple is two to the 64th and no longer fits.
pub open spec fn spec_align_up(addr: u64, align: u64) -> u64
    recommends
        align != 0,
{
    if addr % align == 0 {
        addr
    } else if addr - addr % align + align > u64::MAX {
        0
    } else {
        (addr - addr % align + align) as u64
    }
}

/// Tells whether `n` is a power of two, as the alignment functions demand.
pub fn power_of_two(n: u64) -> (r: bool)
    ensures
        r == is_power_of_two(n),
{
    n != 0 && n & (n - 1) == 0
}

/// Align address upwards.
///
/// Returns the smallest x with alignment `align` so that x >= addr. The
/// alignment must be a power of 2. Where no such x fits in 64 bits the sum
/// wraps around and the result is zero.
pub fn align_up(addr: u64, align: u64) -> (r: u64)
    requires
        is_power_of_two(align),
    ensures
        r == spec_align_up(addr, align),
        r % align == 0,
        !align_up_overflows(addr, align) ==> addr <= r < addr + align,
        align_up_overflows(addr, align) ==> r == 0,
{
    let align_mask: u64 = align - 1;
    proof {
        lemma_mask(addr, align);
        lemma_align_up_bounds(addr, align);
    }
    if addr & align_mask == 0 {
        addr
    } else {
        (addr | align_mask).wrapping_add(1)
    }
}

/// Align address downwards.
///
/// Returns the greatest x with alignment `align` so that x <= addr. The
/// alignment must be a power of 2.
pub fn align_down(addr: u64, align: u64) -> (r: u64)
    requires
        is_power_of_two(align),
    ensures
        r == spec_align_down(addr, align),
        r % align == 0,
        r <= addr < r + align,
{
    proof {
        lemma_mask(addr, align);
        lemma_align_down_bounds(addr, align);
    }
    addr & !(align - 1)
}

/// Whether aligning `addr` upwards leaves the 64-bit range, so that
/// `align_up` wraps around to zero.
pub open spec fn align_up_overflows(addr: u64, align: u64) -> bool
    recommends
        align != 0,
{
    addr % align != 0 && addr - addr % align + align > u64::MAX
}

/// Two multiples of `align` that are less than `align` apart are equal.
proof fn lemma_multiples_apart(a: int, b: int, align: int)
    requires
        align > 0,
        a % align == 0,
        b % align == 0,
        a <= b < a + align,
    ensures
        a == b,
{
    lemma_fundamental_div_mod(a, align);
    lemma_fundamental_div_mod(b, align);
    let qa = a / align;
    let qb = b / align;
    assert(qa <= qb < qa + 1) by (nonlinear_arith)
        requires
            align > 0,
            align * qa <= align * qb < align * qa + align,
    ;
}

/// Rounding down gives a multiple of `align` that is at most `addr` and
/// less than `align` below it.
pub proof fn lemma_align_down_bounds(addr: u64, align: u64)
    requires
        is_power_of_two(align),
    ensures
        spec_align_down(addr, align) == addr - addr % align,
        spec_align_down(addr, align) <= addr,
        spec_align_down(addr, align) % align == 0,
        addr - spec_align_down(addr, align) < align,
{
    lemma_fundamental_div_mod(addr as int, align as int);
    assert(0 <= align as int * (addr as int / align as int)) by (nonlinear_arith)
        requires
            align > 0,
            addr >= 0,
    ;
    lemma_mod_multiples_basic(addr as int / align as int, align as int);
    assert(align as int * (addr as int / align as int) == (addr as int / align as int)
        * align as int) by (nonlinear_arith);
}

/// No multiple of `align` lies above `align_down(addr, align)` and at most
/// at `addr`: the result is the greatest one.
pub proof fn lemma_align_down_greatest(addr: u64, align: u64, m: u64)
    requires
        is_power_of_two(align),
        m % align == 0,
        m <= addr,
    ensures
        m <= spec_align_down(addr, align),
{
    lemma_align_down_bounds(addr, align);
    let down = spec_align_down(addr, align);
    if m > down {
        lemma_multiples_apart(down as int, m as int, align as int);
    }
}

/// Rounding up gives a multiple of `align`; unless the sum leaves the
/// 64-bit range it is at least `addr` and less than `align` above it.
pub proof fn lemma_align_up_bounds(addr: u64, align: u64)
    requires
        is_power_of_two(align),
    ensures
        spec_align_up(addr, align) % align == 0,
        !align_up_overflows(addr, align) ==> addr <= spec_align_up(addr, align) < addr + align,
        align_up_overflows(addr, align) ==> spec_align_up(addr, align) == 0,
{
    lemma_align_down_bounds(addr, align);
    let down = spec_align_down(addr, align);
    if addr % align == 0 {
    } else if align_up_overflows(addr, align) {
        assert(0int % (align as int) == 0) by (nonlinear_arith)
            requires
                align > 0,
        ;
    } else {
        lemma_mod_add_multiples_vanish(down as int, align as int);
        assert(spec_align_up(addr, align) == align + down);
    }
}

/// Unless the sum leaves the 64-bit range, no multiple of `align` lies
/// below `align_up(addr, align)` and at least at `addr`: the result is the
/// least one. Where it does leave the range, there is no such multiple.
pub proof fn lemma_align_up_least(addr: u64, align: u64, m: u64)
    requires
        is_power_of_two(align),
        m % align == 0,
        addr <= m,
    ensures
        !align_up_overflows(addr, align),
        spec_align_up(addr, align) <= m,
{
    lemma_align_down_bounds(addr, align);
    let down = spec_align_down(addr, align);
    if addr % align != 0 {
        if m < down + align {
            lemma_multiples_apart(down as int, m as int, align as int);
        }
    }
}

/// Alignment is idempotent: what `align_up` returns is aligned, so
/// `align_down` leaves it as it is.
pub proof fn lemma_align_down_of_align_up(addr: u64, align: u64)
    requires
        is_power_of_two(align),
    ensures
        spec_align_down(spec_align_up(addr, align), align) == spec_align_up(addr, align),
{
    lemma_align_up_bounds(addr, align);
}

/// The exponent of a power of two: the `k` below 64 with `n == 2^k`.
pub proof fn lemma_power_of_two_exponent(n: u64) -> (k: nat)
    requires
        is_power_of_two(n),
    ensures
        k < 64,
        n == pow2(k),
    decreases n,
{
    lemma2_to64();
    if n == 1 {
        0
    } else {
        let half: u64 = n / 2;
        assert(n != 0 && n & ((n - 1) as u64) == 0 && n != 1 ==> n % 2 == 0 && n / 2 != 0 && (n
            / 2) & (((n / 2) - 1) as u64) == 0) by (bit_vector);
        let j = lemma_power_of_two_exponent(half);
        lemma_pow2_unfold(j + 1);
        if j + 1 >= 64 {
            lemma_pow2_strictly_increases(63, j + 1);
        }
        j + 1
    }
}

/// How the bit masks of a power of two act on an address.
proof fn lemma_mask(addr: u64, align: u64)
    requires
        is_power_of_two(align),
    ensures
        addr & ((align - 1) as u64) == addr % align,
        addr & !((align - 1) as u64) == addr - addr % align,
        (addr | ((align - 1) as u64)) == addr - addr % align + align - 1,
{
    let k = lemma_power_of_two_exponent(align);
    let mask: u64 = (align - 1) as u64;
    assert(low_bits_mask(k) == mask);
    lemma_u64_low_bits_mask_is_mod(addr, k);
    assert(addr & !mask == addr - (addr & mask)) by (bit_vector);
    assert((addr | mask) == addr - (addr & mask) + mask) by (bit_vector);
}

} // verus!
