//! Verified firmware core of a name plate on the M5Stack PaperMono: e-paper
//! display, NFC tag emulation and reading, BLE updates.
//!
//! Layering:
//! - [`trace`], [`bus`]: what a driver does to its hardware, step by step, and
//!   the ports the board supplies
//! - [`bytes`], [`text`], [`i2c_reg`]: words, strings, register access
//! - [`pm1`]: M5PM1 power-management IC (I2C 0x6E)
//! - [`ioe1`]: M5IOE1 I/O expander (I2C 0x4F), owns EPD reset/power lines
//! - [`ft6336`]: FT6336G touch controller (I2C 0x38)
//! - [`st25r3916`]: ST25R3916 NFC reader (I2C 0x50); [`isodep`] and [`ndef`]
//!   read Type 4 tags with it, [`t2t_emu`] is a Type 2 tag on it
//! - [`ssd1677`]: SSD1677 e-paper controller (800x480 native, 4-gray) and
//!   framebuffer
//! - [`board`]: PaperMono pin map and bring-up sequence
//! - [`config_store`]: records in flash
//! - [`app`]: the application
pub mod app;
pub mod bits;
pub mod board;
pub mod bus;
pub mod bytes;
pub mod config_store;
pub mod ft6336;
pub mod i2c_reg;
pub mod ioe1;
pub mod isodep;
pub mod ndef;
pub mod pm1;
pub mod registers;
pub mod ssd1677;
pub mod st25r3916;
pub mod t2t_emu;
pub mod text;
pub mod trace;
