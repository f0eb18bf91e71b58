//! Bits of `PWR_CFG`.

use vstd::prelude::*;

verus! {

pub const CHG_EN: u8 = 0x01;
pub const DCDC_EN: u8 = 0x02;
pub const LDO_EN: u8 = 0x04;
pub const BOOST_EN: u8 = 0x08;
pub const LED_EN_LEVEL: u8 = 0x10;

} // verus!
