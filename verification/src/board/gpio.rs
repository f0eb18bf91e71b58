//! ESP32-S3 GPIO numbers.

use vstd::prelude::*;

verus! {

pub const PM1_BOOT_OUT: u8 = 0;
pub const PM1_IRQ: u8 = 1;
pub const BTN_A: u8 = 2;
pub const BTN_B: u8 = 3;
pub const TP_INT: u8 = 4;
pub const LORA_IRQ: u8 = 5;
pub const NFC_IRQ: u8 = 6;
pub const IOE1_IRQ: u8 = 7;
pub const EPD_MOSI: u8 = 14;
pub const EPD_SCK: u8 = 15;
pub const EPD_CS: u8 = 16;
pub const EPD_DC: u8 = 17;
pub const EPD_BUSY: u8 = 18;
pub const BUZZER: u8 = 42;
pub const I2C_SDA: u8 = 47;
pub const I2C_SCL: u8 = 48;

} // verus!
