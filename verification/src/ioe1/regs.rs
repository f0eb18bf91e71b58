//! Registers.

use vstd::prelude::*;

verus! {

pub const UID_L: u8 = 0x00;
pub const UID_H: u8 = 0x01;
pub const REV: u8 = 0x02;
/// 1 = output
pub const GPIO_MODE_L: u8 = 0x03;
pub const GPIO_MODE_H: u8 = 0x04;
pub const GPIO_OUT_L: u8 = 0x05;
pub const GPIO_OUT_H: u8 = 0x06;
pub const GPIO_IN_L: u8 = 0x07;
pub const GPIO_IN_H: u8 = 0x08;
pub const GPIO_PU_L: u8 = 0x09;
pub const GPIO_PU_H: u8 = 0x0A;
pub const GPIO_PD_L: u8 = 0x0B;
pub const GPIO_PD_H: u8 = 0x0C;
/// 1 = open-drain, 0 = push-pull
pub const GPIO_DRV_L: u8 = 0x13;
pub const GPIO_DRV_H: u8 = 0x14;
pub const ADC_CTRL: u8 = 0x15;
pub const ADC_DATA_L: u8 = 0x16;
/// PWMn duty: L = [7:0], H = [7] EN | [6] POL | [3:0] duty high nibble
pub const PWM1_DUTY_L: u8 = 0x1B;
/// [6] INT pull, [5] WAKE, [4] SPD, [3:0] idle sleep seconds (0 = off)
pub const I2C_CFG: u8 = 0x23;
pub const PWM_FREQ_L: u8 = 0x25;
pub const PWM_FREQ_H: u8 = 0x26;

} // verus!
