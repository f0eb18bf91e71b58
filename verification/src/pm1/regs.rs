//! Registers.

use vstd::prelude::*;

verus! {

pub const DEVICE_ID: u8 = 0x00;
pub const DEVICE_MODEL: u8 = 0x01;
pub const HW_REV: u8 = 0x02;
pub const SW_REV: u8 = 0x03;
pub const PWR_SRC: u8 = 0x04;
pub const WAKE_SRC: u8 = 0x05;
/// [4] LED_EN level, [3] BOOST_EN, [2] LDO_EN(3.3V), [1] DCDC_EN(5V), [0] CHG_EN
pub const PWR_CFG: u8 = 0x06;
pub const HOLD_CFG: u8 = 0x07;
pub const BATT_LVP: u8 = 0x08;
/// [4] SPD (1=400kHz), [3:0] idle sleep timeout in seconds (0 = disabled)
pub const I2C_CFG: u8 = 0x09;
pub const WDT_CNT: u8 = 0x0A;
pub const WDT_KEY: u8 = 0x0B;
/// [7:4] must be 0xA, [1:0] 01=shutdown 10=reboot 11=download
pub const SYS_CMD: u8 = 0x0C;
pub const GPIO_MODE: u8 = 0x10;
pub const GPIO_OUT: u8 = 0x11;
pub const GPIO_IN: u8 = 0x12;
/// [5] LED_EN drive (1=open-drain), [4:0] GPIOn drive (1=open-drain)
pub const GPIO_DRV: u8 = 0x13;
pub const GPIO_PUPD0: u8 = 0x14;
pub const GPIO_PUPD1: u8 = 0x15;
/// 2 bits per GPIO0..3: 00=GPIO 01=IRQ 10=WAKE 11=special (GPIO3: PWM0)
pub const GPIO_FUNC0: u8 = 0x16;
pub const GPIO_FUNC1: u8 = 0x17;
pub const GPIO_WAKE_EN: u8 = 0x18;
pub const GPIO_WAKE_CFG: u8 = 0x19;
pub const VREF_L: u8 = 0x20;
pub const VBAT_L: u8 = 0x22;
pub const VIN_L: u8 = 0x24;
pub const V5VINOUT_L: u8 = 0x26;
/// PWM0 duty low byte; 0x31 = [4] enable, [3:0] duty high nibble (12-bit duty)
pub const PWM0_L: u8 = 0x30;
pub const PWM0_HC: u8 = 0x31;
pub const PWM1_L: u8 = 0x32;
pub const PWM1_HC: u8 = 0x33;
pub const PWM_FREQ_L: u8 = 0x34;
pub const PWM_FREQ_H: u8 = 0x35;
pub const IRQ_STATUS1: u8 = 0x40;
pub const IRQ_STATUS2: u8 = 0x41;
pub const IRQ_STATUS3: u8 = 0x42;
pub const RTC_RAM_START: u8 = 0xA0;

} // verus!
