//! Command bytes.

use vstd::prelude::*;

verus! {

pub const DRIVER_OUTPUT: u8 = 0x01;
pub const GATE_VOLTAGE: u8 = 0x03;
pub const SOURCE_VOLTAGE: u8 = 0x04;
pub const BOOSTER_SOFT_START: u8 = 0x0C;
pub const DEEP_SLEEP: u8 = 0x10;
pub const DATA_ENTRY: u8 = 0x11;
pub const SW_RESET: u8 = 0x12;
pub const TEMP_SENSOR: u8 = 0x18;
pub const WRITE_TEMP: u8 = 0x1A;
pub const MASTER_ACTIVATION: u8 = 0x20;
pub const UPDATE_CTRL1: u8 = 0x21;
pub const UPDATE_CTRL2: u8 = 0x22;
pub const WRITE_RAM_BW: u8 = 0x24;
pub const WRITE_RAM_RED: u8 = 0x26;
pub const WRITE_VCOM: u8 = 0x2C;
pub const WRITE_LUT: u8 = 0x32;
pub const BORDER_WAVEFORM: u8 = 0x3C;
pub const SET_RAM_X: u8 = 0x44;
pub const SET_RAM_Y: u8 = 0x45;
pub const AUTO_WRITE_RED: u8 = 0x46;
pub const AUTO_WRITE_BW: u8 = 0x47;
pub const SET_RAM_X_CNT: u8 = 0x4E;
pub const SET_RAM_Y_CNT: u8 = 0x4F;

} // verus!
