//! Facts about single bits that several modules need.

use vstd::prelude::*;

verus! {

/// The levels that two bits make.
pub proof fn two_bits_make_a_level()
    ensures
        0u8 | 0u8 == 0,
        1u8 | 0u8 == 1,
        0u8 | 2u8 == 2,
        1u8 | 2u8 == 3,
        3u8 & 3u8 == 3,
        0u8 & 3u8 == 0,
{
    assert(0u8 | 0u8 == 0 && 1u8 | 0u8 == 1 && 0u8 | 2u8 == 2 && 1u8 | 2u8 == 3 && 3u8 & 3u8 == 3
        && 0u8 & 3u8 == 0) by (bit_vector);
}

/// The low bits of a byte are remainders.
pub proof fn low_bits_are_remainders(b: u8)
    ensures
        b & 0x01 == b % 2,
        b & 0x03 == b % 4,
        b & 0x07 == b % 8,
        b & 0x0F == b % 16,
        b & 0x1F == b % 32,
        b & 0x3F == b % 64,
        b & 0x7F == b % 128,
        b >> 1 == b / 2,
        b >> 3 == b / 8,
        b >> 4 == b / 16,
        b >> 6 == b / 64,
        (b >> 4) & 0x03 == b / 16 % 4,
{
    assert(b & 0x01 == b % 2 && b & 0x03 == b % 4 && b & 0x07 == b % 8 && b & 0x0F == b % 16 && b
        & 0x1F == b % 32 && b & 0x3F == b % 64 && b & 0x7F == b % 128 && b >> 1 == b / 2 && b >> 3
        == b / 8 && b >> 4 == b / 16 && b >> 6 == b / 64 && (b >> 4) & 0x03 == b / 16
        % 4) by (bit_vector);
}

/// Whether a bit is set.
pub proof fn single_bits(b: u8)
    ensures
        (b & 0x80 != 0) == (b / 128 % 2 == 1),
        (b & 0x40 != 0) == (b / 64 % 2 == 1),
        (b & 0x20 != 0) == (b / 32 % 2 == 1),
        (b & 0x10 != 0) == (b / 16 % 2 == 1),
        (b & 0x08 != 0) == (b / 8 % 2 == 1),
        (b & 0x04 != 0) == (b / 4 % 2 == 1),
        (b & 0x02 != 0) == (b / 2 % 2 == 1),
        (b & 0x01 != 0) == (b % 2 == 1),
        (b & 0x18 != 0) == (b / 8 % 4 != 0),
{
    assert((b & 0x80 != 0) == (b / 128 % 2 == 1) && (b & 0x40 != 0) == (b / 64 % 2 == 1) && (b
        & 0x20 != 0) == (b / 32 % 2 == 1) && (b & 0x10 != 0) == (b / 16 % 2 == 1) && (b & 0x08 != 0)
        == (b / 8 % 2 == 1) && (b & 0x04 != 0) == (b / 4 % 2 == 1) && (b & 0x02 != 0) == (b / 2 % 2
        == 1) && (b & 0x01 != 0) == (b % 2 == 1) && (b & 0x18 != 0) == (b / 8 % 4 != 0))
        by (bit_vector);
}

/// How a register is asked for, and the bits that control bytes are made of.
pub proof fn register_codes(r: u8)
    ensures
        r < 0x40 ==> r & 0x3F == r && 0x40u8 | r == 0x40 + r && 0x40u8 | (r & 0x3F) == 0x40 + r,
        0x02u8 | 0u8 == 0x02,
        0x02u8 | 1u8 == 0x03,
        0xA2u8 | 0u8 == 0xA2,
        0xA2u8 | 1u8 == 0xA3,
        0x08u8 | 0x04u8 == 0x0C,
        0x04u8 | 0x02u8 | 0x01u8 == 0x07,
        0x20u8 | 0x10u8 | 0x04u8 == 0x34,
        0x80u8 & !0u8 == 0x80,
        0x80u8 | 0x40u8 == 0xC0,
{
    assert((r < 0x40 ==> r & 0x3F == r && 0x40u8 | r == 0x40 + r && 0x40u8 | (r & 0x3F) == 0x40 + r)
        && 0x02u8 | 0u8 == 0x02 && 0x02u8 | 1u8 == 0x03 && 0xA2u8 | 0u8 == 0xA2 && 0xA2u8 | 1u8
        == 0xA3 && 0x08u8 | 0x04u8 == 0x0C && 0x04u8 | 0x02u8 | 0x01u8 == 0x07 && 0x20u8 | 0x10u8
        | 0x04u8 == 0x34 && 0x80u8 & !0u8 == 0x80 && 0x80u8 | 0x40u8 == 0xC0) by (bit_vector);
}

/// The bits that power the display down, and that change its face, in the codes
/// of its updates.
pub proof fn update_codes()
    ensures
        (0x04u8 | 0x02u8 | 0x01u8) & (0x02u8 | 0x01u8) != 0,
        (0x04u8 | 0x02u8 | 0x01u8) & 0x08u8 == 0,
        (0x08u8 | 0x04u8) & (0x02u8 | 0x01u8) == 0,
        (0x08u8 | 0x04u8) & 0x08u8 != 0,
        (0x20u8 | 0x10u8 | 0x04u8) & (0x02u8 | 0x01u8) == 0,
        (0x20u8 | 0x10u8 | 0x04u8) & 0x08u8 == 0,
        0x3Fu8 & (0x02u8 | 0x01u8) != 0,
        0x3Fu8 & 0x08u8 != 0,
{
    assert((0x04u8 | 0x02u8 | 0x01u8) & (0x02u8 | 0x01u8) != 0 && (0x04u8 | 0x02u8 | 0x01u8)
        & 0x08u8 == 0 && (0x08u8 | 0x04u8) & (0x02u8 | 0x01u8) == 0 && (0x08u8 | 0x04u8) & 0x08u8
        != 0 && (0x20u8 | 0x10u8 | 0x04u8) & (0x02u8 | 0x01u8) == 0 && (0x20u8 | 0x10u8 | 0x04u8)
        & 0x08u8 == 0 && 0x3Fu8 & (0x02u8 | 0x01u8) != 0 && 0x3Fu8 & 0x08u8 != 0) by (bit_vector);
}

/// The interrupt flags that are waited for together.
pub proof fn joined_flags(f: u32)
    ensures
        0x0008_0000u32 | 0x1000_0000u32 == 0x1008_0000,
        0x0008_0000u32 | 2u32 == 0x0008_0002,
        0x0008_0000u32 | 1u32 == 0x0008_0001,
        0x1000_0000u32 | 0x2000_0000u32 | 0x0400_0000u32 == 0x3400_0000,
        0x1000_0000u32 | 0x0400_0000u32 == 0x1400_0000,
        f & 0x1008_0000 == 0 <==> (f & 0x0008_0000 == 0 && f & 0x1000_0000 == 0),
        f & 0x3000_0000 == 0 <==> (f & 0x2000_0000 == 0 && f & 0x1000_0000 == 0),
        f & 0x1400_0000 == 0 <==> (f & 0x0400_0000 == 0 && f & 0x1000_0000 == 0),
{
    assert(0x0008_0000u32 | 0x1000_0000u32 == 0x1008_0000 && 0x0008_0000u32 | 2u32 == 0x0008_0002
        && 0x0008_0000u32 | 1u32 == 0x0008_0001 && 0x1000_0000u32 | 0x2000_0000u32 | 0x0400_0000u32
        == 0x3400_0000 && 0x1000_0000u32 | 0x0400_0000u32 == 0x1400_0000 && (f & 0x1008_0000 == 0
        <==> (f & 0x0008_0000 == 0 && f & 0x1000_0000 == 0)) && (f & 0x3000_0000 == 0 <==> (f
        & 0x2000_0000 == 0 && f & 0x1000_0000 == 0)) && (f & 0x1400_0000 == 0 <==> (f & 0x0400_0000
        == 0 && f & 0x1000_0000 == 0))) by (bit_vector);
}

} // verus!
