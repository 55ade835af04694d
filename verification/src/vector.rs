//! The lane-generic vector encoder: the scalar algorithm applied to every
//! lane independently, expressed in portable arithmetic only.  It serves as
//! the fallback on targets without a native vector path and as the semantic
//! reference the SIMD-shaped encoder is held to.
use vstd::prelude::*;
use crate::encode::f32_bits_to_srgb8;
use crate::encode::srgb8_spec;

verus! {

/// Encodes every lane of `bits` independently: lane `k` of the result is
/// the scalar encoding of lane `k` of the input, for any lane count.
pub fn f32s_to_srgb8(bits: &[u32]) -> (out: Vec<u8>)
    ensures
        out@.len() == bits@.len(),
        forall|k: int| 0 <= k < bits@.len() ==> out@[k] == srgb8_spec(bits@[k]),
{
    let mut out: Vec<u8> = Vec::new();
    let mut k: usize = 0;
    while k < bits.len()
        invariant
            k <= bits@.len(),
            out@.len() == k,
            forall|j: int| 0 <= j < k ==> out@[j] == srgb8_spec(bits@[j]),
        decreases bits@.len() - k,
    {
        out.push(f32_bits_to_srgb8(bits[k]));
        k += 1;
    }
    out
}

/// Encodes four lanes given as an array, the width the SIMD-shaped encoder
/// works at.
pub fn f32x4_to_srgb8(bits: [u32; 4]) -> (out: [u8; 4])
    ensures
        forall|k: int| 0 <= k < 4 ==> out@[k] == srgb8_spec(bits@[k]),
{
    [
        f32_bits_to_srgb8(bits[0]),
        f32_bits_to_srgb8(bits[1]),
        f32_bits_to_srgb8(bits[2]),
        f32_bits_to_srgb8(bits[3]),
    ]
}

} // verus!
