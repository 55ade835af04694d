//! The scalar encoder, and the specification every encoder meets.
//!
//! The pipeline reads a float's bit pattern as an unsigned 32-bit integer
//! throughout: substitute +0.0 for NaN, clamp to the table domain, derive a
//! table index and an interpolation factor from the bit layout, and blend
//! the selected entry in fixed point.
use vstd::prelude::*;
use crate::fixpoint::blend_spec;
use crate::fixpoint::entry_in_bounds;
use crate::fixpoint::lemma_blend_bounds;
use crate::fixpoint::madd_pairs_spec;
use crate::fixpoint::madd_u16_pairs;
use crate::table::lemma_table_entries_bounded;
use crate::table::table_entry;
use crate::table::table_entry_spec;
use crate::table::INDEX_OFFSET;
use crate::table::MAXV_BITS;
use crate::table::MINV_BITS;
use vstd::arithmetic::mul::lemma_mul_inequality;

verus! {

/// Whether `b` is the bit pattern of a NaN: exponent all ones and a nonzero
/// mantissa, of either sign.
pub open spec fn is_nan_bits(b: u32) -> bool {
    b & 0x7F80_0000 == 0x7F80_0000 && b & 0x007F_FFFF != 0
}

/// Total order of non-NaN f32 bit patterns by the float values they denote;
/// the two zero patterns compare equal both ways.
pub open spec fn f32_bits_le(a: u32, b: u32) -> bool {
    if a < 0x8000_0000 {
        if b < 0x8000_0000 {
            a <= b
        } else {
            a == 0 && b == 0x8000_0000
        }
    } else {
        if b < 0x8000_0000 {
            true
        } else {
            b <= a
        }
    }
}

/// NaN substitution: a NaN pattern becomes +0.0 before anything compares it,
/// since NaN comparisons are unordered; every other pattern passes through.
pub open spec fn zero_nan_spec(b: u32) -> u32 {
    if is_nan_bits(b) {
        0u32
    } else {
        b
    }
}

/// The clamp to the table domain, applied to the NaN-substituted pattern:
/// what a numeric float min/max against the two boundary values leaves.  A
/// pattern with the sign bit set denotes a value below the positive
/// `MINV_BITS`, so it clamps there; on non-negative patterns the unsigned
/// order of the bits is exactly the order of the floats they denote.
pub open spec fn clamp_bits_spec(b: u32) -> u32 {
    let z = zero_nan_spec(b);
    let lo = if z >= 0x8000_0000 || z < MINV_BITS {
        MINV_BITS
    } else {
        z
    };
    if lo > MAXV_BITS {
        MAXV_BITS
    } else {
        lo
    }
}

/// Table index of a clamped pattern: its exponent and top three mantissa
/// bits, shifted down so that `MINV_BITS` selects entry 0.
pub open spec fn table_index_spec(c: u32) -> u32 {
    ((c >> 20) - INDEX_OFFSET) as u32
}

/// Interpolation factor of a clamped pattern: the next eight mantissa bits.
pub open spec fn interp_spec(c: u32) -> u32 {
    (c >> 12) & 0xFF
}

/// The encoded byte for the bit pattern `b` of a 32-bit float: the value
/// every encoder of this crate returns.
pub open spec fn srgb8_spec(b: u32) -> int {
    let c = clamp_bits_spec(b);
    blend_spec(table_entry_spec(table_index_spec(c)), interp_spec(c))
}

/// A clamped pattern stays in the table domain: its index lands in the
/// table and its interpolation factor is eight bits.
pub proof fn lemma_clamp_in_domain(b: u32)
    ensures
        MINV_BITS <= clamp_bits_spec(b) <= MAXV_BITS,
        912 <= (clamp_bits_spec(b) >> 20) < 1016,
        table_index_spec(clamp_bits_spec(b)) < 104,
        interp_spec(clamp_bits_spec(b)) <= 255,
{
    let c = clamp_bits_spec(b);
    assert(MINV_BITS <= c <= MAXV_BITS);
    assert(912 <= (c >> 20) < 1016 && ((c >> 12) & 0xFF) <= 255) by (bit_vector)
        requires
            0x3900_0000 <= c <= 0x3F7F_FFFF,
    ;
}

/// Encodes one linear-light sample, given as the bit pattern of an `f32`.
/// Total over all 2^32 patterns: NaN encodes like +0.0, anything at or above
/// 1.0 like the largest float below 1.0, anything negative or denormally
/// small like 2^-13.
pub fn f32_bits_to_srgb8(bits: u32) -> (r: u8)
    ensures
        r == srgb8_spec(bits),
{
    let z: u32 = if (bits & 0x7F80_0000) == 0x7F80_0000 && (bits & 0x007F_FFFF) != 0 {
        0
    } else {
        bits
    };
    let lo: u32 = if z >= 0x8000_0000 || z < MINV_BITS {
        MINV_BITS
    } else {
        z
    };
    let c: u32 = if lo > MAXV_BITS {
        MAXV_BITS
    } else {
        lo
    };
    proof {
        assert(c == clamp_bits_spec(bits));
        lemma_clamp_in_domain(bits);
        lemma_table_entries_bounded();
    }
    let idx: usize = ((c >> 20) - INDEX_OFFSET) as usize;
    let e: u32 = table_entry(idx);
    let t: u32 = (c >> 12) & 0xFF;
    let m: u32 = t | 0x0200_0000;
    proof {
        assert(m & 0xFFFF == t && m >> 16 == 0x200) by (bit_vector)
            requires
                t <= 255 && m == (t | 0x0200_0000),
        ;
        assert(entry_in_bounds(e));
        lemma_mul_inequality(t as int, 255, (e & 0xFFFF) as int);
        assert((e & 0xFFFF) * t <= (e & 0xFFFF) * 255);
        assert(madd_pairs_spec(e, m) == (e & 0xFFFF) * t + (e >> 16) * 512);
        assert(madd_pairs_spec(e, m) < 0x1_0000_0000);
    }
    let p: u32 = madd_u16_pairs(e, m);
    let r32: u32 = p >> 16;
    proof {
        assert(p >> 16 == p / 0x10000) by (bit_vector);
        lemma_blend_bounds(e, t);
        assert(r32 == blend_spec(e, t));
    }
    r32 as u8
}

} // verus!
