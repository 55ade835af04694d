//! Fixed-point interpolation arithmetic shared by all encoders.
//!
//! A table entry packs a 16-bit base (high half) and a 16-bit rise (low
//! half).  Blending it at an 8-bit interpolation factor `t` means computing
//! `(base * 512 + rise * t) >> 16`.  The encoders all reach that value
//! through one primitive: a multiply of packed 16-bit halves with a pairwise
//! add, the shape SIMD instruction sets offer, applied to the entry and to
//! the multiplicand `t | 0x0200_0000` (low half `t`, high half 512).
use vstd::prelude::*;
use vstd::arithmetic::div_mod::lemma_div_is_ordered;
use vstd::arithmetic::mul::lemma_mul_inequality;

verus! {

/// The packed 16-bit halves of `a` and `b`, multiplied low half against low
/// half and high half against high half, the two products summed.
pub open spec fn madd_pairs_spec(a: u32, b: u32) -> int {
    (a & 0xFFFF) * (b & 0xFFFF) + (a >> 16) * (b >> 16)
}

/// A packed entry blended at interpolation factor `t`:
/// `(base * 512 + rise * t) / 2^16`.
pub open spec fn blend_spec(e: u32, t: u32) -> int {
    ((e >> 16) * 512 + (e & 0xFFFF) * t) / 0x10000
}

/// An entry is in bounds when its blend stays an 8-bit value for every
/// interpolation factor, with headroom for the widening multiply.
pub open spec fn entry_in_bounds(e: u32) -> bool {
    (e >> 16) * 512 + (e & 0xFFFF) * 255 < 0x100_0000
}

/// The smallest value an entry blends to, taken at factor 0.
pub open spec fn entry_lo(e: u32) -> int {
    blend_spec(e, 0)
}

/// The largest value an entry blends to, taken at factor 255.
pub open spec fn entry_hi(e: u32) -> int {
    blend_spec(e, 255)
}

/// Multiplies the packed 16-bit halves of `a` and `b` pairwise, widening
/// each product to 32 bits, and adds the two products.  This emulates the
/// multiply-add-pairs instruction (`_mm_madd_epi16` and kin) on targets that
/// lack it, from a widening multiply and a horizontal pairwise add.  The
/// caller keeps the sum below 2^32; the hardware would wrap instead.
pub fn madd_u16_pairs(a: u32, b: u32) -> (r: u32)
    requires
        madd_pairs_spec(a, b) < 0x1_0000_0000,
    ensures
        r == madd_pairs_spec(a, b),
{
    proof {
        assert((a & 0xFFFF) <= 0xFFFF && (b & 0xFFFF) <= 0xFFFF && (a >> 16) <= 0xFFFF && (b
            >> 16) <= 0xFFFF) by (bit_vector);
        lemma_mul_inequality((a & 0xFFFF) as int, 0xFFFF, (b & 0xFFFF) as int);
        lemma_mul_inequality((a >> 16) as int, 0xFFFF, (b >> 16) as int);
        lemma_mul_inequality((b & 0xFFFF) as int, 0xFFFF, 0xFFFF);
        lemma_mul_inequality((b >> 16) as int, 0xFFFF, 0xFFFF);
    }
    let lo: u32 = (a & 0xFFFF) * (b & 0xFFFF);
    let hi: u32 = (a >> 16) * (b >> 16);
    lo + hi
}

/// Blending never falls with the interpolation factor: the rise is unsigned.
pub proof fn lemma_blend_monotone_in_t(e: u32, t1: u32, t2: u32)
    requires
        t1 <= t2,
    ensures
        blend_spec(e, t1) <= blend_spec(e, t2),
{
    lemma_mul_inequality(t1 as int, t2 as int, (e & 0xFFFF) as int);
    lemma_div_is_ordered(
        (e >> 16) * 512 + (e & 0xFFFF) * t1,
        (e >> 16) * 512 + (e & 0xFFFF) * t2,
        0x10000,
    );
}

/// An in-bounds entry blends to a byte at every 8-bit factor.
pub proof fn lemma_blend_bounds(e: u32, t: u32)
    requires
        entry_in_bounds(e),
        t <= 255,
    ensures
        0 <= blend_spec(e, t) <= 255,
{
    lemma_blend_monotone_in_t(e, 0, t);
    lemma_blend_monotone_in_t(e, t, 255);
    lemma_div_is_ordered(0, (e >> 16) * 512 + (e & 0xFFFF) * 0, 0x10000);
    lemma_div_is_ordered((e >> 16) * 512 + (e & 0xFFFF) * 255, 0xFF_FFFF, 0x10000);
}

} // verus!
