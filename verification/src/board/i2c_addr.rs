//! I2C addresses on the internal bus (SDA 47 / SCL 48).

use vstd::prelude::*;

verus! {

pub const RTC_RX8130: u8 = 0x32;
pub const TOUCH_FT6336: u8 = 0x38;
pub const IOE1: u8 = 0x4F;
pub const NFC_ST25R3916: u8 = 0x50;
pub const IMU_BMI270: u8 = 0x68;
pub const PM1: u8 = 0x6E;
/// Charger; must not stay on the bus for long (docs).
pub const CHARGER_IP2315: u8 = 0x75;

} // verus!
