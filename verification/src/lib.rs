//! Fast sRGB encoding of linear-light samples.
//!
//! A linear-light color channel, given as the bit pattern of a 32-bit IEEE-754
//! float in the normalized range [0.0, 1.0], is turned into the 8-bit
//! sRGB-encoded byte in [0, 255].  Instead of evaluating the transcendental
//! sRGB transfer function, the encoders read a small precomputed table of
//! fixed-point (base, rise) pairs and interpolate linearly, driving both the
//! table index and the interpolation factor directly off the float's bit
//! layout.
//!
//! The crate works on bit patterns throughout: a caller holding an `f32`
//! passes `x.to_bits()`.  Every input pattern is accepted — NaN encodes as
//! +0.0 would, anything at or above 1.0 (+infinity included) encodes to 255,
//! and anything negative or below 2^-13 encodes to 0.
//!
//! Three interchangeable encoders are provided: the scalar routine, a
//! lane-generic routine over slices, and a four-lane routine shaped like a
//! SIMD implementation (lane masks, numeric min/max, a widening multiply with
//! a pairwise add).  Each is proved to return [`encode::srgb8_spec`] of its
//! input, lane for lane, so all three agree on every one of the 2^32
//! possible lane values.  The crate-wide guarantees — range, monotonicity,
//! boundary values, clamping — are stated and proved in [`laws`].

pub mod encode;
pub mod fixpoint;
pub mod laws;
pub mod simd;
pub mod table;
pub mod vector;

pub use encode::f32_bits_to_srgb8;
pub use encode::srgb8_spec;
pub use simd::simd_to_srgb8_bits;
pub use table::srgb8_table;
pub use table::MAXV_BITS;
pub use table::MINV_BITS;
pub use vector::f32s_to_srgb8;
pub use vector::f32x4_to_srgb8;
