//! The guarantees of the encoding, stated and proved over [`srgb8_spec`],
//! the one specification all encoders return.
use vstd::prelude::*;
use crate::encode::clamp_bits_spec;
use crate::encode::f32_bits_le;
use crate::encode::interp_spec;
use crate::encode::is_nan_bits;
use crate::encode::lemma_clamp_in_domain;
use crate::encode::srgb8_spec;
use crate::encode::table_index_spec;
use crate::fixpoint::blend_spec;
use crate::fixpoint::entry_hi;
use crate::fixpoint::entry_lo;
use crate::fixpoint::lemma_blend_bounds;
use crate::fixpoint::lemma_blend_monotone_in_t;
use crate::table::lemma_table_adjacent_monotone;
use crate::table::lemma_table_entries_bounded;
use crate::table::table_entry_spec;
use crate::table::MAXV_BITS;
use crate::table::MINV_BITS;

verus! {

/// Range: every one of the 2^32 input patterns encodes to a byte.
pub proof fn lemma_srgb8_range(b: u32)
    ensures
        0 <= srgb8_spec(b) <= 255,
{
    lemma_clamp_in_domain(b);
    lemma_table_entries_bounded();
    let c = clamp_bits_spec(b);
    lemma_blend_bounds(table_entry_spec(table_index_spec(c)), interp_spec(c));
}

/// Across any span of segments the table rises: the largest blend of an
/// earlier entry stays at or below the smallest blend of a later one.
proof fn lemma_entry_chain(i: u32, j: u32)
    requires
        i < j,
        j < 104,
    ensures
        entry_hi(table_entry_spec(i)) <= entry_lo(table_entry_spec(j)),
    decreases j - i,
{
    lemma_table_adjacent_monotone();
    if j != i + 1 {
        lemma_entry_chain(i, (j - 1) as u32);
        lemma_blend_monotone_in_t(table_entry_spec((j - 1) as u32), 0, 255);
    }
}

/// Monotonicity on non-negative patterns up to that of 1.0, where unsigned
/// bit order is exactly the order of the floats denoted.
proof fn lemma_srgb8_monotone_bits(b1: u32, b2: u32)
    requires
        b1 <= b2,
        b2 <= 0x3F80_0000,
    ensures
        srgb8_spec(b1) <= srgb8_spec(b2),
{
    assert(!is_nan_bits(b1) && !is_nan_bits(b2)) by (bit_vector)
        requires
            b1 <= 0x3F80_0000 && b2 <= 0x3F80_0000,
    ;
    let c1 = clamp_bits_spec(b1);
    let c2 = clamp_bits_spec(b2);
    assert(c1 <= c2);
    lemma_clamp_in_domain(b1);
    lemma_clamp_in_domain(b2);
    lemma_table_entries_bounded();
    let i1 = table_index_spec(c1);
    let i2 = table_index_spec(c2);
    let t1 = interp_spec(c1);
    let t2 = interp_spec(c2);
    assert(c1 >> 20 <= c2 >> 20) by (bit_vector)
        requires
            c1 <= c2,
    ;
    if i1 == i2 {
        assert(interp_spec(c1) <= interp_spec(c2)) by (bit_vector)
            requires
                c1 <= c2 && (c1 >> 20) == (c2 >> 20),
        ;
        lemma_blend_monotone_in_t(table_entry_spec(i1), t1, t2);
    } else {
        lemma_blend_monotone_in_t(table_entry_spec(i1), t1, 255);
        lemma_entry_chain(i1, i2);
        lemma_blend_monotone_in_t(table_entry_spec(i2), 0, t2);
    }
}

/// Monotonicity: of two patterns denoting finite floats in [0.0, 1.0] — the
/// non-negative patterns up to that of 1.0, and the pattern of -0.0 — the
/// one denoting the larger float never encodes below the other.
pub proof fn lemma_srgb8_monotone(b1: u32, b2: u32)
    requires
        f32_bits_le(b1, b2),
        b1 <= 0x3F80_0000 || b1 == 0x8000_0000,
        b2 <= 0x3F80_0000 || b2 == 0x8000_0000,
    ensures
        srgb8_spec(b1) <= srgb8_spec(b2),
{
    if b1 == 0x8000_0000 {
        lemma_srgb8_clamp_low(b1);
        lemma_srgb8_range(b2);
    } else if b2 == 0x8000_0000 {
        // only -0.0 itself denotes a float at most -0.0, besides +0.0
        lemma_srgb8_clamp_low(b1);
        lemma_srgb8_clamp_low(b2);
    } else {
        lemma_srgb8_monotone_bits(b1, b2);
    }
}

/// The blend the encoders reach once a pattern has clamped to `MINV_BITS`:
/// entry 0 at factor 0 gives 0.
proof fn lemma_blend_at_minv()
    ensures
        blend_spec(table_entry_spec(table_index_spec(MINV_BITS)), interp_spec(MINV_BITS)) == 0,
{
    assert(0x3900_0000u32 >> 20 == 912 && (0x3900_0000u32 >> 12) & 0xFF == 0) by (bit_vector);
    assert(0x0073_000Du32 >> 16 == 0x73 && 0x0073_000Du32 & 0xFFFF == 0xD) by (bit_vector);
}

/// The blend the encoders reach once a pattern has clamped to `MAXV_BITS`:
/// the last entry at factor 255 gives 255.
proof fn lemma_blend_at_maxv()
    ensures
        blend_spec(table_entry_spec(table_index_spec(MAXV_BITS)), interp_spec(MAXV_BITS)) == 255,
{
    assert(0x3F7F_FFFFu32 >> 20 == 1015 && (0x3F7F_FFFFu32 >> 12) & 0xFF == 255) by (bit_vector);
    assert(0x7C2E_0723u32 >> 16 == 0x7C2E && 0x7C2E_0723u32 & 0xFFFF == 0x0723) by (bit_vector);
}

/// Boundary values: +0.0 encodes to 0, 1.0 to 255, and every NaN — either
/// sign, any payload — to 0, exactly as +0.0 does.
pub proof fn lemma_srgb8_boundary()
    ensures
        srgb8_spec(0x0000_0000) == 0,
        srgb8_spec(0x3F80_0000) == 255,
        forall|b: u32| is_nan_bits(b) ==> srgb8_spec(b) == 0,
{
    assert(0u32 & 0x7F80_0000 == 0) by (bit_vector);
    assert(0x3F80_0000u32 & 0x7F80_0000 == 0x3F80_0000) by (bit_vector);
    lemma_blend_at_minv();
    lemma_blend_at_maxv();
    assert(clamp_bits_spec(0x0000_0000) == MINV_BITS);
    assert(clamp_bits_spec(0x3F80_0000) == MAXV_BITS);
    assert forall|b: u32| is_nan_bits(b) implies srgb8_spec(b) == 0 by {
        assert(clamp_bits_spec(b) == MINV_BITS);
    }
}

/// Clamping above: every pattern above that of the largest float below 1.0 —
/// 1.0 itself, larger finite values, +infinity — encodes to 255.
pub proof fn lemma_srgb8_clamp_high(b: u32)
    requires
        MAXV_BITS < b <= 0x7F80_0000,
    ensures
        srgb8_spec(b) == 255,
{
    assert(!is_nan_bits(b)) by (bit_vector)
        requires
            b <= 0x7F80_0000,
    ;
    lemma_blend_at_maxv();
    assert(clamp_bits_spec(b) == MAXV_BITS);
}

/// Clamping below: every pattern with the sign bit set — negative values,
/// -0.0, -infinity, negative NaN — and every positive pattern below
/// `MINV_BITS` clamps to `MINV_BITS` and encodes to 0.
pub proof fn lemma_srgb8_clamp_low(b: u32)
    requires
        b >= 0x8000_0000 || b < MINV_BITS,
    ensures
        srgb8_spec(b) == 0,
{
    lemma_blend_at_minv();
    assert(clamp_bits_spec(b) == MINV_BITS);
}

} // verus!
