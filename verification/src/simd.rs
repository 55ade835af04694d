//! The four-lane SIMD-shaped encoder.
//!
//! This follows, stage by stage, the data flow a vector unit runs: a lane
//! self-equality compare builds a not-NaN mask that zeroes NaN lanes, a
//! numeric float min/max clamps each lane against the two boundary patterns,
//! the four table reads are serialized scalar loads (vector units without a
//! gather instruction cannot do better — a known performance limit, not a
//! correctness one), and the blend is the widening multiply of packed 16-bit
//! halves with a pairwise add.  Each lane helper carries the contract of the
//! lane operation it stands for, and the whole encoder is proved to return,
//! lane for lane, exactly what the scalar encoder returns.
use vstd::prelude::*;
use crate::encode::clamp_bits_spec;
use crate::encode::f32_bits_le;
use crate::encode::interp_spec;
use crate::encode::is_nan_bits;
use crate::encode::lemma_clamp_in_domain;
use crate::encode::srgb8_spec;
use crate::encode::table_index_spec;
use crate::encode::zero_nan_spec;
use crate::fixpoint::blend_spec;
use crate::fixpoint::entry_in_bounds;
use crate::fixpoint::lemma_blend_bounds;
use crate::fixpoint::madd_pairs_spec;
use crate::fixpoint::madd_u16_pairs;
use crate::table::lemma_table_entries_bounded;
use crate::table::table_entry;
use crate::table::table_entry_spec;
use crate::table::INDEX_OFFSET;
use crate::table::MAXV_BITS;
use crate::table::MINV_BITS;
use vstd::arithmetic::mul::lemma_mul_inequality;

verus! {

/// Mask of the low eight bits, where a lane's interpolation factor sits.
const MANT_MASK: u32 = 0xFF;

/// ORed into each masked lane to put 512 in the high packed half of the
/// multiplicand, scaling the entry's base.
const TOP_SCALE: u32 = 0x0200_0000;

/// The not-NaN lane mask: what a lane's equality compare with itself leaves,
/// NaN being the one value unequal to itself — all ones for a number, all
/// zeros for a NaN.
fn lane_not_nan_mask(a: u32) -> (m: u32)
    ensures
        m == if is_nan_bits(a) {
            0u32
        } else {
            0xFFFF_FFFFu32
        },
{
    if (a & 0x7F80_0000) == 0x7F80_0000 && (a & 0x007F_FFFF) != 0 {
        0
    } else {
        0xFFFF_FFFF
    }
}

/// The numeric float maximum of two NaN-free lanes, on their bit patterns:
/// the result is one of the operands, and neither denotes a larger float.
fn lane_max_nm(a: u32, b: u32) -> (r: u32)
    requires
        !is_nan_bits(a),
        !is_nan_bits(b),
    ensures
        r == a || r == b,
        f32_bits_le(a, r),
        f32_bits_le(b, r),
{
    let a_neg = a >= 0x8000_0000;
    let b_neg = b >= 0x8000_0000;
    if a_neg && b_neg {
        // both negative: the smaller magnitude, hence smaller pattern, is the
        // larger float
        if a <= b {
            a
        } else {
            b
        }
    } else if a_neg {
        b
    } else if b_neg {
        a
    } else {
        if a <= b {
            b
        } else {
            a
        }
    }
}

/// The numeric float minimum of two NaN-free lanes, on their bit patterns.
fn lane_min_nm(a: u32, b: u32) -> (r: u32)
    requires
        !is_nan_bits(a),
        !is_nan_bits(b),
    ensures
        r == a || r == b,
        f32_bits_le(r, a),
        f32_bits_le(r, b),
{
    let a_neg = a >= 0x8000_0000;
    let b_neg = b >= 0x8000_0000;
    if a_neg && b_neg {
        if a <= b {
            b
        } else {
            a
        }
    } else if a_neg {
        a
    } else if b_neg {
        b
    } else {
        if a <= b {
            a
        } else {
            b
        }
    }
}

/// Zeroing a lane under its not-NaN mask is the NaN substitution.
proof fn lemma_mask_zeroes_nan(a: u32, m: u32, z: u32)
    requires
        m == if is_nan_bits(a) {
            0u32
        } else {
            0xFFFF_FFFFu32
        },
        z == a & m,
    ensures
        z == zero_nan_spec(a),
        !is_nan_bits(z),
{
    assert(a & 0u32 == 0 && a & 0xFFFF_FFFFu32 == a) by (bit_vector);
    assert(!is_nan_bits(0u32)) by (bit_vector);
}

/// The two boundary patterns are ordinary numbers.
proof fn lemma_bounds_not_nan()
    ensures
        !is_nan_bits(0x3900_0000u32),
        !is_nan_bits(0x3F7F_FFFFu32),
{
    assert(0x3900_0000u32 & 0x7F80_0000 != 0x7F80_0000 && 0x3F7F_FFFFu32 & 0x7F80_0000
        != 0x7F80_0000) by (bit_vector);
}

/// The min/max pair against the boundary patterns is exactly the clamp of
/// the specification.
proof fn lemma_min_max_is_clamp(a: u32, z: u32, h: u32, c: u32)
    requires
        z == zero_nan_spec(a),
        h == z || h == MINV_BITS,
        f32_bits_le(z, h),
        f32_bits_le(MINV_BITS, h),
        c == h || c == MAXV_BITS,
        f32_bits_le(c, h),
        f32_bits_le(c, MAXV_BITS),
    ensures
        c == clamp_bits_spec(a),
{
}

/// Derives a lane's table index; the clamp keeps it inside the table.
fn lane_index(c: u32) -> (i: usize)
    requires
        MINV_BITS <= c <= MAXV_BITS,
    ensures
        i == table_index_spec(c),
        i < 104,
{
    proof {
        assert(912 <= (c >> 20) < 1016) by (bit_vector)
            requires
                0x3900_0000 <= c <= 0x3F7F_FFFF,
        ;
    }
    ((c >> 20) - INDEX_OFFSET) as usize
}

/// Blends a fetched entry at a clamped lane's interpolation factor: mask the
/// factor into the low packed half, put the base scale in the high half,
/// multiply-add the packed halves and take the high 16 bits of the sum.
fn lane_blend(e: u32, c: u32) -> (r: u8)
    requires
        MINV_BITS <= c <= MAXV_BITS,
        e == table_entry_spec(table_index_spec(c)),
        entry_in_bounds(e),
    ensures
        r == blend_spec(e, interp_spec(c)),
{
    let t: u32 = (c >> 12) & MANT_MASK;
    let m: u32 = t | TOP_SCALE;
    proof {
        assert(t <= 255) by (bit_vector)
            requires
                t == (c >> 12) & 0xFF,
        ;
        assert(m & 0xFFFF == t && m >> 16 == 0x200) by (bit_vector)
            requires
                t <= 255 && m == (t | 0x0200_0000),
        ;
        lemma_mul_inequality(t as int, 255, (e & 0xFFFF) as int);
        assert(madd_pairs_spec(e, m) == (e >> 16) * 512 + (e & 0xFFFF) * t);
        assert(madd_pairs_spec(e, m) < 0x1_0000_0000);
    }
    let p: u32 = madd_u16_pairs(e, m);
    let r32: u32 = p >> 16;
    proof {
        assert(p >> 16 == p / 0x10000) by (bit_vector);
        lemma_blend_bounds(e, t);
    }
    r32 as u8
}

/// Encodes four lanes along the SIMD data flow: NaN masks, numeric clamp,
/// four serialized table reads, packed multiply-add, shift.  Lane for lane
/// the result is the scalar encoding: the two paths agree on every input.
pub fn simd_to_srgb8_bits(input: [u32; 4]) -> (out: [u8; 4])
    ensures
        forall|k: int| 0 <= k < 4 ==> out@[k] == srgb8_spec(input@[k]),
{
    proof {
        lemma_bounds_not_nan();
        lemma_table_entries_bounded();
    }
    // not-NaN masks, and NaN lanes forced to +0.0
    let m0: u32 = lane_not_nan_mask(input[0]);
    let m1: u32 = lane_not_nan_mask(input[1]);
    let m2: u32 = lane_not_nan_mask(input[2]);
    let m3: u32 = lane_not_nan_mask(input[3]);
    let z0: u32 = input[0] & m0;
    let z1: u32 = input[1] & m1;
    let z2: u32 = input[2] & m2;
    let z3: u32 = input[3] & m3;
    proof {
        lemma_mask_zeroes_nan(input@[0], m0, z0);
        lemma_mask_zeroes_nan(input@[1], m1, z1);
        lemma_mask_zeroes_nan(input@[2], m2, z2);
        lemma_mask_zeroes_nan(input@[3], m3, z3);
    }
    // clamp each lane between the boundary patterns
    let h0: u32 = lane_max_nm(z0, MINV_BITS);
    let h1: u32 = lane_max_nm(z1, MINV_BITS);
    let h2: u32 = lane_max_nm(z2, MINV_BITS);
    let h3: u32 = lane_max_nm(z3, MINV_BITS);
    let c0: u32 = lane_min_nm(h0, MAXV_BITS);
    let c1: u32 = lane_min_nm(h1, MAXV_BITS);
    let c2: u32 = lane_min_nm(h2, MAXV_BITS);
    let c3: u32 = lane_min_nm(h3, MAXV_BITS);
    proof {
        lemma_min_max_is_clamp(input@[0], z0, h0, c0);
        lemma_min_max_is_clamp(input@[1], z1, h1, c1);
        lemma_min_max_is_clamp(input@[2], z2, h2, c2);
        lemma_min_max_is_clamp(input@[3], z3, h3, c3);
        lemma_clamp_in_domain(input@[0]);
        lemma_clamp_in_domain(input@[1]);
        lemma_clamp_in_domain(input@[2]);
        lemma_clamp_in_domain(input@[3]);
    }
    // table indices, and the four serialized reads
    let e0: u32 = table_entry(lane_index(c0));
    let e1: u32 = table_entry(lane_index(c1));
    let e2: u32 = table_entry(lane_index(c2));
    let e3: u32 = table_entry(lane_index(c3));
    // packed blend of each lane
    [lane_blend(e0, c0), lane_blend(e1, c1), lane_blend(e2, c2), lane_blend(e3, c3)]
}

} // verus!
