//! Behavioral tests of the encoders, run against concrete bit patterns and
//! against the exact sRGB transfer function evaluated in double precision.
use srgb8::f32_bits_to_srgb8;
use srgb8::f32s_to_srgb8;
use srgb8::f32x4_to_srgb8;
use srgb8::simd_to_srgb8_bits;
use srgb8::srgb8_table;
use srgb8::MAXV_BITS;
use srgb8::MINV_BITS;

/// The exact sRGB opto-electronic transfer function, scaled to byte range.
fn oetf_255(x: f64) -> f64 {
    if x <= 0.0031308 {
        255.0 * 12.92 * x
    } else {
        255.0 * (1.055 * x.powf(1.0 / 2.4) - 0.055)
    }
}

fn encode_f32(x: f32) -> u8 {
    f32_bits_to_srgb8(x.to_bits())
}

#[test]
fn zero_encodes_to_zero() {
    assert_eq!(encode_f32(0.0), 0);
}

#[test]
fn one_encodes_to_full() {
    assert_eq!(encode_f32(1.0), 255);
}

#[test]
fn midtone_encodes_near_188() {
    let r = encode_f32(0.5);
    let true_mid = oetf_255(0.5).round() as i32;
    assert_eq!(true_mid, 188);
    assert!((r as i32 - true_mid).abs() <= 1, "0.5 -> {}", r);
}

#[test]
fn nan_encodes_to_zero() {
    // quiet and signaling payloads, both signs: all-ones exponent, nonzero mantissa
    for bits in [
        0x7FC0_0000u32,
        0x7F80_0001,
        0x7FFF_FFFF,
        0xFFC0_0000,
        0xFF80_0001,
        0xFFFF_FFFF,
    ] {
        assert_eq!(f32_bits_to_srgb8(bits), 0, "NaN {:#010X}", bits);
    }
    assert_eq!(encode_f32(f32::NAN), 0);
}

#[test]
fn four_lanes_through_simd_path() {
    let input = [
        0.0f32.to_bits(),
        0.5f32.to_bits(),
        1.0f32.to_bits(),
        f32::NAN.to_bits(),
    ];
    let out = simd_to_srgb8_bits(input);
    assert_eq!(out[0], 0);
    assert!((out[1] as i32 - 188).abs() <= 1);
    assert_eq!(out[2], 255);
    assert_eq!(out[3], 0);
    for k in 0..4 {
        assert_eq!(out[k], f32_bits_to_srgb8(input[k]));
    }
}

#[test]
fn clamping_above_one() {
    assert_eq!(encode_f32(1.0000001), 255);
    assert_eq!(encode_f32(2.0), 255);
    assert_eq!(encode_f32(1.0e30), 255);
    assert_eq!(encode_f32(f32::MAX), 255);
    assert_eq!(encode_f32(f32::INFINITY), 255);
}

#[test]
fn clamping_below_minv() {
    assert_eq!(encode_f32(-0.0), 0);
    assert_eq!(encode_f32(-0.5), 0);
    assert_eq!(encode_f32(-1.0e30), 0);
    assert_eq!(encode_f32(f32::NEG_INFINITY), 0);
    // positive but below 2^-13: denormals included
    assert_eq!(f32_bits_to_srgb8(MINV_BITS - 1), 0);
    assert_eq!(f32_bits_to_srgb8(1), 0);
    assert_eq!(encode_f32(1.0e-20), 0);
    // the clamp targets themselves
    assert_eq!(f32_bits_to_srgb8(MINV_BITS), 0);
    assert_eq!(f32_bits_to_srgb8(MAXV_BITS), 255);
}

/// Bit patterns worth sweeping densely: every boundary of the pipeline.
fn edge_patterns() -> Vec<u32> {
    let mut v = Vec::new();
    for base in [
        0x0000_0000u32,
        MINV_BITS,
        MAXV_BITS,
        0x3F80_0000,
        0x7F80_0000,
        0x8000_0000,
        0xFF80_0000,
    ] {
        for d in -300i64..=300 {
            v.push((base as i64).wrapping_add(d) as u32);
        }
    }
    v
}

#[test]
fn range_over_sweep() {
    // the result type already bounds the byte; check totality: no panic on
    // any class of input, stride-swept across all 2^32 patterns
    let mut bits: u32 = 0;
    loop {
        let _ = f32_bits_to_srgb8(bits);
        match bits.checked_add(9973) {
            Some(n) => bits = n,
            None => break,
        }
    }
    for b in edge_patterns() {
        let _ = f32_bits_to_srgb8(b);
    }
}

#[test]
fn encoders_agree_over_sweep() {
    let mut lanes: Vec<u32> = Vec::new();
    let mut bits: u32 = 0;
    loop {
        lanes.push(bits);
        match bits.checked_add(6151) {
            Some(n) => bits = n,
            None => break,
        }
    }
    lanes.extend(edge_patterns());
    while lanes.len() % 4 != 0 {
        lanes.push(0);
    }
    let scalar: Vec<u8> = lanes.iter().map(|&b| f32_bits_to_srgb8(b)).collect();
    let vector = f32s_to_srgb8(&lanes);
    assert_eq!(scalar, vector);
    for (chunk, expect) in lanes.chunks(4).zip(scalar.chunks(4)) {
        let quad = [chunk[0], chunk[1], chunk[2], chunk[3]];
        assert_eq!(f32x4_to_srgb8(quad), [expect[0], expect[1], expect[2], expect[3]]);
        assert_eq!(simd_to_srgb8_bits(quad), [expect[0], expect[1], expect[2], expect[3]]);
    }
}

#[test]
fn monotone_over_unit_interval() {
    let mut prev: u8 = f32_bits_to_srgb8(0);
    let mut bits: u32 = 0;
    while bits <= 0x3F80_0000 - 997 {
        bits += 997;
        let r = f32_bits_to_srgb8(bits);
        assert!(r >= prev, "drop at {:#010X}: {} -> {}", bits, prev, r);
        prev = r;
    }
    assert!(f32_bits_to_srgb8(0x3F80_0000) >= prev);
}

#[test]
fn accuracy_within_one_step() {
    let check = |bits: u32| {
        let x = f32::from_bits(bits);
        let r = f32_bits_to_srgb8(bits) as i64;
        let true_val = (oetf_255(x as f64) + 0.5).floor() as i64;
        assert!(
            (r - true_val).abs() <= 1,
            "{:e} ({:#010X}): got {}, true {}",
            x,
            bits,
            r,
            true_val
        );
    };
    let mut bits: u32 = 0;
    while bits <= 0x3F80_0000 - 941 {
        bits += 941;
        check(bits);
    }
    check(0);
    check(MINV_BITS);
    check(MAXV_BITS);
    check(0x3F80_0000);
}

#[test]
fn table_matches_generation_scheme() {
    // entry i covers the patterns [MINV_BITS + i * 2^20, MINV_BITS + (i+1) * 2^20);
    // its base is the byte-scaled curve at the left boundary, offset by half a
    // step, in 1/128ths; its rise is the byte delta across the segment in
    // 1/256ths; both rounded to nearest
    let table = srgb8_table();
    assert_eq!(table.len(), 104);
    for (i, &entry) in table.iter().enumerate() {
        let start = f32::from_bits(MINV_BITS + ((i as u32) << 20)) as f64;
        let end = f32::from_bits(MINV_BITS + ((i as u32 + 1) << 20)) as f64;
        let g_start = oetf_255(start);
        let g_end = oetf_255(end);
        let bias = ((g_start + 0.5) * 128.0 + 0.5).floor() as u32;
        let scale = ((g_end - g_start) * 256.0 + 0.5).floor() as u32;
        assert_eq!(entry, (bias << 16) | scale, "entry {}", i);
    }
}
