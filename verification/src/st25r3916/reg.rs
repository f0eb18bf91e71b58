//! Register addresses (space A unless noted).

use vstd::prelude::*;

verus! {

pub const IO_CONF1: u8 = 0x00;
pub const IO_CONF2: u8 = 0x01;
pub const OP_CONTROL: u8 = 0x02;
pub const MODE: u8 = 0x03;
pub const BIT_RATE: u8 = 0x04;
pub const ISO14443A_NFC: u8 = 0x05;
pub const NFCIP1_PASSIVE_TARGET: u8 = 0x08;
pub const AUX: u8 = 0x0A;
pub const RX_CONF1: u8 = 0x0B;
pub const RX_CONF2: u8 = 0x0C;
pub const RX_CONF3: u8 = 0x0D;
pub const RX_CONF4: u8 = 0x0E;
pub const MASK_RX_TIMER: u8 = 0x0F;
pub const NO_RESPONSE_TIMER1: u8 = 0x10;
pub const TIMER_EMV_CONTROL: u8 = 0x12;
pub const IRQ_MASK_MAIN: u8 = 0x16;
pub const IRQ_MAIN: u8 = 0x1A;
pub const IRQ_TIMER_NFC: u8 = 0x1B;
pub const IRQ_ERROR_WUP: u8 = 0x1C;
pub const IRQ_TARGET: u8 = 0x1D;
pub const FIFO_STATUS1: u8 = 0x1E;
pub const FIFO_STATUS2: u8 = 0x1F;
pub const COLLISION_STATUS: u8 = 0x20;
pub const NUM_TX_BYTES1: u8 = 0x22;
pub const ANT_TUNE_A: u8 = 0x26;
pub const ANT_TUNE_B: u8 = 0x27;
pub const TX_DRIVER: u8 = 0x28;
pub const PT_MOD: u8 = 0x29;
pub const FIELD_THRESHOLD_ACT: u8 = 0x2A;
pub const FIELD_THRESHOLD_DEACT: u8 = 0x2B;
pub const AUX_DISPLAY: u8 = 0x31;
pub const IC_IDENTITY: u8 = 0x3F;
pub const PT_DISPLAY: u8 = 0x21;
pub const BITRATE_DETECT: u8 = 0x24;
pub const IRQ_MASK_TARGET: u8 = 0x19;
// space B
pub const B_EMD_SUP_CONF: u8 = 0x05;
pub const B_CORR_CONF1: u8 = 0x0C;
pub const B_CORR_CONF2: u8 = 0x0D;
pub const B_RES_AM_MOD: u8 = 0x2A;
pub const B_OVERSHOOT_CONF1: u8 = 0x30;
pub const B_OVERSHOOT_CONF2: u8 = 0x31;
pub const B_UNDERSHOOT_CONF1: u8 = 0x32;
pub const B_UNDERSHOOT_CONF2: u8 = 0x33;

} // verus!
