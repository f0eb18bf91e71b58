//! Direct commands and access prefixes.

use vstd::prelude::*;

verus! {

pub const SET_DEFAULT: u8 = 0xC1;
pub const GO_TO_SENSE: u8 = 0xCD;
pub const GO_TO_SLEEP: u8 = 0xCE;
pub const UNMASK_RECEIVE_DATA: u8 = 0xD1;
pub const STOP_ALL: u8 = 0xC2;
pub const TRANSMIT_WITH_CRC: u8 = 0xC4;
pub const TRANSMIT_WITHOUT_CRC: u8 = 0xC5;
pub const TRANSMIT_REQA: u8 = 0xC6;
pub const TRANSMIT_WUPA: u8 = 0xC7;
pub const INITIAL_RF_COLLISION: u8 = 0xC8;
pub const RESET_RX_GAIN: u8 = 0xD5;
pub const ADJUST_REGULATORS: u8 = 0xD6;
pub const CLEAR_FIFO: u8 = 0xDB;
pub const SPACE_B_ACCESS: u8 = 0xFB;
pub const TEST_ACCESS: u8 = 0xFC;

} // verus!
