//! Registers.

use vstd::prelude::*;

verus! {

/// Gesture ID / touch count block starts here: 0x01 gesture, 0x02 count.
pub const TD_STATUS: u8 = 0x02;
/// P1 XH,XL,YH,YL,WEIGHT,MISC then P2 block (6 bytes each).
pub const P1_XH: u8 = 0x03;
/// Interrupt mode: 0 = polling, 1 = trigger.
pub const G_MODE: u8 = 0xA4;
pub const CHIP_ID: u8 = 0xA3;
pub const FIRMWARE_ID: u8 = 0xA6;
pub const VENDOR_ID: u8 = 0xA8;
/// Monitor-mode idle timeout etc.
pub const CTRL: u8 = 0x86;

} // verus!
