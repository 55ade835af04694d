//! The precomputed encoding table: 104 packed entries, one per
//! eighth-of-an-octave of the clamped input domain.
//!
//! An input bit pattern, clamped to `[MINV_BITS, MAXV_BITS]`, selects one
//! entry by its exponent and top three mantissa bits.  Each entry packs two
//! 16-bit fixed-point halves: the high half is the segment's base output
//! level in steps of 1/128 of a byte (offset by half a step, so that the
//! final truncating shift rounds to nearest), and the low half is the
//! output rise across the segment in steps of 1/256 of a byte.  The encoders
//! reconstruct the byte as `(base * 512 + rise * t) >> 16` for an 8-bit
//! interpolation factor `t`.
//!
//! The values are fixed by sampling the sRGB opto-electronic transfer
//! function, `255 * (12.92 x)` below the linear cutoff and
//! `255 * (1.055 x^(1/2.4) - 0.055)` above it, at the 105 segment
//! boundaries `2^(e-13) * (1 + k/8)`.
use vstd::prelude::*;
use crate::fixpoint::entry_hi;
use crate::fixpoint::entry_in_bounds;
use crate::fixpoint::entry_lo;

verus! {

/// Bit pattern of the smallest magnitude the table distinguishes (2^-13).
/// Every smaller, negative or NaN input clamps to it, and it encodes to 0.
pub const MINV_BITS: u32 = 0x3900_0000;

/// Bit pattern of the largest float below 1.0.  Every larger input, 1.0 and
/// +infinity included, clamps to it, and it encodes to 255.
pub const MAXV_BITS: u32 = 0x3F7F_FFFF;

/// Number of table entries: 13 octaves (exponents -13 through -1) of 8
/// segments each.
pub const TABLE_LEN: usize = 104;

/// Subtracted from `bits >> 20` so that `MINV_BITS` selects entry 0:
/// (127 - 13) * 8, the biased minimum exponent times segments per octave.
pub const INDEX_OFFSET: u32 = 912;

/// The table itself: entry `i` covers the clamped bit patterns
/// `[MINV_BITS + i * 2^20, MINV_BITS + (i + 1) * 2^20)`.
pub open spec fn table_entry_spec(i: u32) -> u32 {
    if i == 0 {
        0x0073000D
    } else if i == 1 {
        0x007A000D
    } else if i == 2 {
        0x0080000D
    } else if i == 3 {
        0x0087000D
    } else if i == 4 {
        0x008D000D
    } else if i == 5 {
        0x0094000D
    } else if i == 6 {
        0x009A000D
    } else if i == 7 {
        0x00A1000D
    } else if i == 8 {
        0x00A7001A
    } else if i == 9 {
        0x00B4001A
    } else if i == 10 {
        0x00C1001A
    } else if i == 11 {
        0x00CE001A
    } else if i == 12 {
        0x00DA001A
    } else if i == 13 {
        0x00E7001A
    } else if i == 14 {
        0x00F4001A
    } else if i == 15 {
        0x0101001A
    } else if i == 16 {
        0x010E0033
    } else if i == 17 {
        0x01280033
    } else if i == 18 {
        0x01410033
    } else if i == 19 {
        0x015B0033
    } else if i == 20 {
        0x01750033
    } else if i == 21 {
        0x018F0033
    } else if i == 22 {
        0x01A80033
    } else if i == 23 {
        0x01C20033
    } else if i == 24 {
        0x01DC0067
    } else if i == 25 {
        0x020F0067
    } else if i == 26 {
        0x02430067
    } else if i == 27 {
        0x02760067
    } else if i == 28 {
        0x02AA0067
    } else if i == 29 {
        0x02DD0067
    } else if i == 30 {
        0x03110067
    } else if i == 31 {
        0x03440067
    } else if i == 32 {
        0x037800CE
    } else if i == 33 {
        0x03DF00CE
    } else if i == 34 {
        0x044600CE
    } else if i == 35 {
        0x04AD00CE
    } else if i == 36 {
        0x051300CD
    } else if i == 37 {
        0x057A00C5
    } else if i == 38 {
        0x05DC00BC
    } else if i == 39 {
        0x063B00B5
    } else if i == 40 {
        0x06950158
    } else if i == 41 {
        0x07410142
    } else if i == 42 {
        0x07E20130
    } else if i == 43 {
        0x087A0120
    } else if i == 44 {
        0x090A0112
    } else if i == 45 {
        0x09930106
    } else if i == 46 {
        0x0A1600FC
    } else if i == 47 {
        0x0A9400F2
    } else if i == 48 {
        0x0B0D01CB
    } else if i == 49 {
        0x0BF301AE
    } else if i == 50 {
        0x0CC90195
    } else if i == 51 {
        0x0D940181
    } else if i == 52 {
        0x0E55016E
    } else if i == 53 {
        0x0F0C015E
    } else if i == 54 {
        0x0FBB0150
    } else if i == 55 {
        0x10630143
    } else if i == 56 {
        0x11040264
    } else if i == 57 {
        0x1236023E
    } else if i == 58 {
        0x1355021D
    } else if i == 59 {
        0x14640201
    } else if i == 60 {
        0x156501E9
    } else if i == 61 {
        0x165901D3
    } else if i == 62 {
        0x174301C0
    } else if i == 63 {
        0x182301AF
    } else if i == 64 {
        0x18FA0331
    } else if i == 65 {
        0x1A9302FE
    } else if i == 66 {
        0x1C1202D3
    } else if i == 67 {
        0x1D7B02AD
    } else if i == 68 {
        0x1ED2028D
    } else if i == 69 {
        0x20180270
    } else if i == 70 {
        0x21500256
    } else if i == 71 {
        0x227B0240
    } else if i == 72 {
        0x239B0443
    } else if i == 73 {
        0x25BD03FF
    } else if i == 74 {
        0x27BC03C4
    } else if i == 75 {
        0x299E0393
    } else if i == 76 {
        0x2B680367
    } else if i == 77 {
        0x2D1B0341
    } else if i == 78 {
        0x2EBB031F
    } else if i == 79 {
        0x304B0300
    } else if i == 80 {
        0x31CB05B1
    } else if i == 81 {
        0x34A30555
    } else if i == 82 {
        0x374E0507
    } else if i == 83 {
        0x39D104C5
    } else if i == 84 {
        0x3C34048B
    } else if i == 85 {
        0x3E790458
    } else if i == 86 {
        0x40A5042A
    } else if i == 87 {
        0x42BA0402
    } else if i == 88 {
        0x44BB0798
    } else if i == 89 {
        0x4887071E
    } else if i == 90 {
        0x4C1606B6
    } else if i == 91 {
        0x4F71065E
    } else if i == 92 {
        0x52A00610
    } else if i == 93 {
        0x55A805CC
    } else if i == 94 {
        0x588E058F
    } else if i == 95 {
        0x5B560559
    } else if i == 96 {
        0x5E020A23
    } else if i == 97 {
        0x63140980
    } else if i == 98 {
        0x67D408F6
    } else if i == 99 {
        0x6C4F087F
    } else if i == 100 {
        0x708E0818
    } else if i == 101 {
        0x749A07BD
    } else if i == 102 {
        0x7878076C
    } else {
        0x7C2E0723
    }
}

/// Looks one entry up.  The bound on the index is the caller's burden, as
/// the encoders establish it from the clamp; there is no runtime check.
pub fn table_entry(i: usize) -> (e: u32)
    requires
        i < TABLE_LEN,
    ensures
        e == table_entry_spec(i as u32),
{
    match i {
        0 => 0x0073000D,
        1 => 0x007A000D,
        2 => 0x0080000D,
        3 => 0x0087000D,
        4 => 0x008D000D,
        5 => 0x0094000D,
        6 => 0x009A000D,
        7 => 0x00A1000D,
        8 => 0x00A7001A,
        9 => 0x00B4001A,
        10 => 0x00C1001A,
        11 => 0x00CE001A,
        12 => 0x00DA001A,
        13 => 0x00E7001A,
        14 => 0x00F4001A,
        15 => 0x0101001A,
        16 => 0x010E0033,
        17 => 0x01280033,
        18 => 0x01410033,
        19 => 0x015B0033,
        20 => 0x01750033,
        21 => 0x018F0033,
        22 => 0x01A80033,
        23 => 0x01C20033,
        24 => 0x01DC0067,
        25 => 0x020F0067,
        26 => 0x02430067,
        27 => 0x02760067,
        28 => 0x02AA0067,
        29 => 0x02DD0067,
        30 => 0x03110067,
        31 => 0x03440067,
        32 => 0x037800CE,
        33 => 0x03DF00CE,
        34 => 0x044600CE,
        35 => 0x04AD00CE,
        36 => 0x051300CD,
        37 => 0x057A00C5,
        38 => 0x05DC00BC,
        39 => 0x063B00B5,
        40 => 0x06950158,
        41 => 0x07410142,
        42 => 0x07E20130,
        43 => 0x087A0120,
        44 => 0x090A0112,
        45 => 0x09930106,
        46 => 0x0A1600FC,
        47 => 0x0A9400F2,
        48 => 0x0B0D01CB,
        49 => 0x0BF301AE,
        50 => 0x0CC90195,
        51 => 0x0D940181,
        52 => 0x0E55016E,
        53 => 0x0F0C015E,
        54 => 0x0FBB0150,
        55 => 0x10630143,
        56 => 0x11040264,
        57 => 0x1236023E,
        58 => 0x1355021D,
        59 => 0x14640201,
        60 => 0x156501E9,
        61 => 0x165901D3,
        62 => 0x174301C0,
        63 => 0x182301AF,
        64 => 0x18FA0331,
        65 => 0x1A9302FE,
        66 => 0x1C1202D3,
        67 => 0x1D7B02AD,
        68 => 0x1ED2028D,
        69 => 0x20180270,
        70 => 0x21500256,
        71 => 0x227B0240,
        72 => 0x239B0443,
        73 => 0x25BD03FF,
        74 => 0x27BC03C4,
        75 => 0x299E0393,
        76 => 0x2B680367,
        77 => 0x2D1B0341,
        78 => 0x2EBB031F,
        79 => 0x304B0300,
        80 => 0x31CB05B1,
        81 => 0x34A30555,
        82 => 0x374E0507,
        83 => 0x39D104C5,
        84 => 0x3C34048B,
        85 => 0x3E790458,
        86 => 0x40A5042A,
        87 => 0x42BA0402,
        88 => 0x44BB0798,
        89 => 0x4887071E,
        90 => 0x4C1606B6,
        91 => 0x4F71065E,
        92 => 0x52A00610,
        93 => 0x55A805CC,
        94 => 0x588E058F,
        95 => 0x5B560559,
        96 => 0x5E020A23,
        97 => 0x63140980,
        98 => 0x67D408F6,
        99 => 0x6C4F087F,
        100 => 0x708E0818,
        101 => 0x749A07BD,
        102 => 0x7878076C,
        _ => 0x7C2E0723,
    }
}

/// Builds the table as a vector, entry `i` at position `i`.
pub fn srgb8_table() -> (t: Vec<u32>)
    ensures
        t@.len() == TABLE_LEN,
        forall|i: int| 0 <= i < TABLE_LEN ==> t@[i] == table_entry_spec(i as u32),
{
    let mut t: Vec<u32> = Vec::new();
    let mut i: usize = 0;
    while i < TABLE_LEN
        invariant
            i <= TABLE_LEN,
            t@.len() == i,
            forall|j: int| 0 <= j < i ==> t@[j] == table_entry_spec(j as u32),
        decreases TABLE_LEN - i,
    {
        t.push(table_entry(i));
        i += 1;
    }
    t
}

/// Every entry is in bounds, so every blend of one is a byte: checked value
/// by value.
pub proof fn lemma_table_entries_bounded()
    by (bit_vector)
    ensures
        forall|i: u32| i < 104 ==> entry_in_bounds(#[trigger] table_entry_spec(i)),
{
}

/// The largest blend of an entry never exceeds the smallest blend of the
/// next: the table rises monotonically across segment boundaries, checked
/// pair by pair.
pub proof fn lemma_table_adjacent_monotone()
    by (bit_vector)
    ensures
        forall|i: u32, j: u32|
            i < 103 && j == i + 1 ==> entry_hi(#[trigger] table_entry_spec(i)) <= entry_lo(
                #[trigger] table_entry_spec(j),
            ),
{
}

} // verus!
