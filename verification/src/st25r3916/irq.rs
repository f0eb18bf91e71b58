//! Bits of the 32-bit interrupt word: `main<<24 | timer_nfc<<16 | error<<8 | target`.

use vstd::prelude::*;

verus! {

pub const OSC: u32 = 0x8000_0000;
pub const WL: u32 = 0x4000_0000;
pub const RXS: u32 = 0x2000_0000;
pub const RXE: u32 = 0x1000_0000;
pub const TXE: u32 = 0x0800_0000;
pub const COL: u32 = 0x0400_0000;
pub const NRE: u32 = 0x0040_0000;
pub const CRC: u32 = 0x0000_8000;
pub const PAR: u32 = 0x0000_4000;
pub const ERR2: u32 = 0x0000_2000;
pub const ERR1: u32 = 0x0000_1000;
/// Timer/NFC register: external field detected / dropped, bit rate found.
pub const EON: u32 = 0x0010_0000;
pub const EOF: u32 = 0x0008_0000;
pub const NFCT: u32 = 0x0001_0000;
/// Passive target register.
pub const RXE_PTA: u32 = 0x0000_0010;
pub const WU_AX: u32 = 0x0000_0002;
pub const WU_A: u32 = 0x0000_0001;
/// Communication errors only (CRC, parity, framing); the low nibble of
/// the error register holds wake-up flags, which are not errors.
pub const ERROR_MASK: u32 = 0x0000_F000;

} // verus!
