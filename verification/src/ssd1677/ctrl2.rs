//! Bits of Display Update Control 2 (0x22).

use vstd::prelude::*;

verus! {

pub const ENABLE_CLOCK: u8 = 0x80;
pub const ENABLE_ANALOG: u8 = 0x40;
pub const LOAD_TEMP: u8 = 0x20;
pub const LOAD_LUT: u8 = 0x10;
pub const MODE2: u8 = 0x08;
pub const DISPLAY: u8 = 0x04;
pub const DISABLE_ANALOG: u8 = 0x02;
pub const DISABLE_CLOCK: u8 = 0x01;

} // verus!
