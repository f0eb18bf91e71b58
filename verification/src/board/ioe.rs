//! M5IOE1 pin indices for [`crate::ioe1::Pin`] (0-based; documentation label
//! `PYGn` == index n-1).

use vstd::prelude::*;

verus! {

pub const RTC_INT: u8 = 0;
pub const TF_DET: u8 = 1;
/// 3.3 V rail of the e-paper panel.
pub const EPD_EN: u8 = 2;
/// NFC (ST25R3916) power enable — factory firmware uses `M5IOE1_PIN_4`.
pub const NFC_EN: u8 = 3;
/// SSD1677 RST (active low).
pub const EPD_RST: u8 = 4;
/// FT6336G RST (active low).
pub const TP_RST: u8 = 5;
pub const LED_G: u8 = 7; // PWM ch 1 (index)
pub const LED_B: u8 = 8; // PWM ch 0 (index)
pub const LORA_RST: u8 = 9;
pub const PDM_EN: u8 = 11;
/// FT6336G VDD enable.
pub const TP_EN: u8 = 12;
/// microSD power enable.
pub const TF_EN: u8 = 13;

} // verus!
