//! SSD1677 e-paper controller driver for the PaperMono 3.97" 800x480 panel.
//!
//! Transport: 4-wire SPI (SCK/MOSI + D/C + CS), BUSY input (high = busy).
//! The hardware reset line and the panel power rail are *not* owned by this
//! driver (on PaperMono they hang off the M5IOE1 expander); the caller resets
//! the panel and then calls [`Ssd1677::init`].
//!
//! Refresh paths implemented:
//! * [`Ssd1677::refresh_mono_full`]   — built-in OTP mode-1 waveform, 1-bit image
//! * [`Ssd1677::refresh_mono_partial`] — built-in OTP partial waveform (fast, may ghost)
//! * [`Ssd1677::refresh_gray4`]       — custom [`Waveforms`] (quality / text:
//!   mode 1, fast: mode 2) with 4 gray levels
//!
//! The mode-1 / mode-2 RAM "face" bookkeeping follows M5GFX: every mode-2
//! activation swaps which RAM bank the controller treats as "current", which
//! exchanges the two middle grays for a subsequent mode-1 update.  We track
//! the parity and swap the planes accordingly.

use crate::bus::Delay;
use crate::bytes::le16_bytes;
use crate::trace::{Run, Trace};
use vstd::prelude::*;

pub mod area;
pub mod cmd;
pub mod ctrl2;
pub mod framebuffer;
pub mod heard;
pub mod laws;
pub mod model;
pub mod port;

pub use framebuffer::{FrameBuffer, Orientation, HEIGHT, PLANE_BYTES, ROW_BYTES, WIDTH};

use model::{Panel, WaveformModel};
use port::{InPin, OutPin, PanelBus, PanelEvent, SpiPort};

verus! {

broadcast use crate::trace::extends_transitive;

/// Native panel geometry (controller RAM axes): source lines.
pub const RAM_X_PIXELS: u16 = 800;

/// Native panel geometry (controller RAM axes): gate lines.
pub const RAM_Y_LINES: u16 = 480;

/// Waveform, gate voltage, three source voltages and VCOM.
pub const LUT_LEN: usize = 110;

#[derive(Debug, Clone, Copy, PartialEq, Eq)]
pub enum Error<S, P> {
    Spi(S),
    Pin(P),
    /// BUSY stayed high longer than the timeout.
    BusyTimeout,
}

#[derive(Debug, Clone, Copy, PartialEq, Eq, Structural)]
pub enum GrayMode {
    /// Mode 1 with an erase prefix. Best quality, ~4.7 s.
    Quality,
    /// Mode 1, ~0.45 s.
    Text,
    /// Mode 2, ~0.34 s. Leaves the panel powered.
    Fast,
}

/// The custom waveforms of a panel, one per [`GrayMode`].
pub struct Waveforms {
    pub quality: [u8; LUT_LEN],
    pub text: [u8; LUT_LEN],
    pub fast: [u8; LUT_LEN],
}

impl View for Waveforms {
    type V = WaveformModel;

    open spec fn view(&self) -> WaveformModel {
        WaveformModel { quality: self.quality@, text: self.text@, fast: self.fast@ }
    }
}

/// A pin failure as a driver error.
pub fn pin_result<T, S, P>(r: Result<T, P>) -> (res: Result<T, Error<S, P>>)
    ensures
        res == (match r {
            Ok(t) => Ok::<T, Error<S, P>>(t),
            Err(e) => Err(Error::Pin(e)),
        }),
{
    match r {
        Ok(t) => Ok(t),
        Err(e) => Err(Error::Pin(e)),
    }
}

/// A transfer failure as a driver error.
pub fn spi_result<S, P>(r: Result<(), S>) -> (res: Result<(), Error<S, P>>)
    ensures
        res == (match r {
            Ok(_) => Ok::<(), Error<S, P>>(()),
            Err(e) => Err(Error::Spi(e)),
        }),
{
    match r {
        Ok(_) => Ok(()),
        Err(e) => Err(Error::Spi(e)),
    }
}

pub struct Ssd1677<SPI: SpiPort, DC: OutPin, CS: OutPin<Error = DC::Error>, BUSY: InPin<
    Error = DC::Error,
>> {
    pub bus: PanelBus<SPI, DC, CS, BUSY>,
    pub waveforms: Waveforms,
    pub screen_on: bool,
    /// `true` when the controller's RAM face is swapped (odd number of mode-2
    /// activations since the last reset).
    pub face_odd: bool,
    pub face_known: bool,
}

impl<
    SPI: SpiPort,
    DC: OutPin,
    CS: OutPin<Error = DC::Error>,
    BUSY: InPin<Error = DC::Error>,
> Ssd1677<SPI, DC, CS, BUSY> {
    /// Every use of the wires so far.
    pub open spec fn trace(&self) -> Trace<PanelEvent<SPI::Error, DC::Error>> {
        self.bus.trace()
    }

    /// The model state the driver is in.
    pub open spec fn panel(&self) -> Panel {
        Panel {
            at: self.trace().len(),
            screen_on: self.screen_on,
            face_odd: self.face_odd,
            face_known: self.face_known,
        }
    }

    pub fn new(spi: SPI, dc: DC, cs: CS, busy: BUSY, waveforms: Waveforms) -> (epd: Self)
        ensures
            epd.panel() == (Panel { at: 0, screen_on: false, face_odd: false, face_known: false }),
            epd.waveforms == waveforms,
    {
        Ssd1677 {
            bus: PanelBus::new(spi, dc, cs, busy),
            waveforms,
            screen_on: false,
            face_odd: false,
            face_known: false,
        }
    }

    // ------------------------------------------------------------------
    // low level
    // ------------------------------------------------------------------

    fn select(&mut self) -> (res: Result<(), Error<SPI::Error, DC::Error>>)
        ensures
            final(self).waveforms == old(self).waveforms,
            final(self).trace().extends(old(self).trace()),
            forall|l: Trace<PanelEvent<SPI::Error, DC::Error>>|
                l.extends(final(self).trace()) ==> #[trigger]
                old(self).panel().select(l) == Run::Done(final(self).panel(), res),
    {
        pin_result(self.bus.select())
    }

    fn deselect(&mut self) -> (res: Result<(), Error<SPI::Error, DC::Error>>)
        ensures
            final(self).waveforms == old(self).waveforms,
            final(self).trace().extends(old(self).trace()),
            forall|l: Trace<PanelEvent<SPI::Error, DC::Error>>|
                l.extends(final(self).trace()) ==> #[trigger]
                old(self).panel().deselect(l) == Run::Done(final(self).panel(), res),
    {
        pin_result(self.bus.deselect())
    }

    fn start_data(&mut self) -> (res: Result<(), Error<SPI::Error, DC::Error>>)
        ensures
            final(self).waveforms == old(self).waveforms,
            final(self).trace().extends(old(self).trace()),
            forall|l: Trace<PanelEvent<SPI::Error, DC::Error>>|
                l.extends(final(self).trace()) ==> #[trigger]
                old(self).panel().start_data(l) == Run::Done(final(self).panel(), res),
    {
        self.select()?;
        pin_result(self.bus.data_mode())
    }

    fn end(&mut self) -> (res: Result<(), Error<SPI::Error, DC::Error>>)
        ensures
            final(self).waveforms == old(self).waveforms,
            final(self).trace().extends(old(self).trace()),
            forall|l: Trace<PanelEvent<SPI::Error, DC::Error>>|
                l.extends(final(self).trace()) ==> #[trigger]
                old(self).panel().end(l) == Run::Done(final(self).panel(), res),
    {
        spi_result(self.bus.flush())?;
        self.deselect()
    }

    fn send_and_end(&mut self, bytes: &[u8]) -> (res: Result<(), Error<SPI::Error, DC::Error>>)
        ensures
            final(self).waveforms == old(self).waveforms,
            final(self).trace().extends(old(self).trace()),
            forall|l: Trace<PanelEvent<SPI::Error, DC::Error>>|
                l.extends(final(self).trace()) ==> #[trigger]
                old(self).panel().send_and_end(l, bytes@) == Run::Done(final(self).panel(), res),
    {
        let r = spi_result(self.bus.send(bytes));
        self.end()?;
        r
    }

    /// Send a command byte (CS handled here).
    pub fn command(&mut self, c: u8) -> (res: Result<(), Error<SPI::Error, DC::Error>>)
        ensures
            final(self).waveforms == old(self).waveforms,
            final(self).trace().extends(old(self).trace()),
            forall|l: Trace<PanelEvent<SPI::Error, DC::Error>>|
                l.extends(final(self).trace()) ==> #[trigger]
                old(self).panel().command(l, c) == Run::Done(final(self).panel(), res),
    {
        self.select()?;
        pin_result(self.bus.command_mode())?;
        let bytes = [c];
        assert(bytes@ =~= seq![c]);
        self.send_and_end(&bytes)
    }

    /// Send data bytes (CS handled here).
    pub fn data(&mut self, d: &[u8]) -> (res: Result<(), Error<SPI::Error, DC::Error>>)
        ensures
            final(self).waveforms == old(self).waveforms,
            final(self).trace().extends(old(self).trace()),
            forall|l: Trace<PanelEvent<SPI::Error, DC::Error>>|
                l.extends(final(self).trace()) ==> #[trigger]
                old(self).panel().data(l, d@) == Run::Done(final(self).panel(), res),
    {
        if d.len() == 0 {
            return Ok(());
        }
        self.start_data()?;
        self.send_and_end(d)
    }

    pub fn command_data(&mut self, c: u8, d: &[u8]) -> (res: Result<
        (),
        Error<SPI::Error, DC::Error>,
    >)
        ensures
            final(self).waveforms == old(self).waveforms,
            final(self).trace().extends(old(self).trace()),
            forall|l: Trace<PanelEvent<SPI::Error, DC::Error>>|
                l.extends(final(self).trace()) ==> #[trigger]
                old(self).panel().command_data(l, c, d@) == Run::Done(final(self).panel(), res),
    {
        self.command(c)?;
        self.data(d)
    }

    fn command_byte(&mut self, c: u8, d: u8) -> (res: Result<(), Error<SPI::Error, DC::Error>>)
        ensures
            final(self).waveforms == old(self).waveforms,
            final(self).trace().extends(old(self).trace()),
            forall|l: Trace<PanelEvent<SPI::Error, DC::Error>>|
                l.extends(final(self).trace()) ==> #[trigger]
                old(self).panel().command_data(l, c, seq![d]) == Run::Done(
                    final(self).panel(),
                    res,
                ),
    {
        let bytes = [d];
        assert(bytes@ =~= seq![d]);
        self.command_data(c, &bytes)
    }

    fn command_word(&mut self, c: u8, w: u16) -> (res: Result<(), Error<SPI::Error, DC::Error>>)
        ensures
            final(self).waveforms == old(self).waveforms,
            final(self).trace().extends(old(self).trace()),
            forall|l: Trace<PanelEvent<SPI::Error, DC::Error>>|
                l.extends(final(self).trace()) ==> #[trigger]
                old(self).panel().command_data(l, c, crate::bytes::le16(w)) == Run::Done(
                    final(self).panel(),
                    res,
                ),
    {
        self.command_data(c, &le16_bytes(w))
    }

    fn command_words(&mut self, c: u8, a: u16, b: u16) -> (res: Result<
        (),
        Error<SPI::Error, DC::Error>,
    >)
        ensures
            final(self).waveforms == old(self).waveforms,
            final(self).trace().extends(old(self).trace()),
            forall|l: Trace<PanelEvent<SPI::Error, DC::Error>>|
                l.extends(final(self).trace()) ==> #[trigger]
                old(self).panel().command_data(
                    l,
                    c,
                    crate::bytes::le16(a) + crate::bytes::le16(b),
                ) == Run::Done(
                    final(self).panel(),
                    res,
                ),
    {
        let x = le16_bytes(a);
        let y = le16_bytes(b);
        let bytes = [x[0], x[1], y[0], y[1]];
        assert(bytes@ =~= crate::bytes::le16(a) + crate::bytes::le16(b));
        self.command_data(c, &bytes)
    }

    pub fn is_busy(&mut self) -> (res: Result<bool, Error<SPI::Error, DC::Error>>)
        ensures
            final(self).waveforms == old(self).waveforms,
            final(self).trace().extends(old(self).trace()),
            forall|l: Trace<PanelEvent<SPI::Error, DC::Error>>|
                l.extends(final(self).trace()) ==> #[trigger]
                old(self).panel().is_busy(l) == Run::Done(final(self).panel(), res),
    {
        pin_result(self.bus.busy())
    }

    /// Wait for BUSY to drop, polling every millisecond.
    pub fn wait_busy<D: Delay>(&mut self, delay: &mut D, timeout_ms: u32) -> (res: Result<
        (),
        Error<SPI::Error, DC::Error>,
    >)
        ensures
            final(self).waveforms == old(self).waveforms,
            final(self).trace().extends(old(self).trace()),
            forall|l: Trace<PanelEvent<SPI::Error, DC::Error>>|
                l.extends(final(self).trace()) ==> #[trigger]
                old(self).panel().wait_busy(l, timeout_ms) == Run::Done(final(self).panel(), res),
    {
        // BUSY is not guaranteed to rise the instant the command finishes.
        self.bus.pause_ms(delay, 2);
        let mut waited: u32 = 0;
        loop
            invariant
                waited <= timeout_ms,
                self.waveforms == old(self).waveforms,
                self.trace().extends(old(self).trace()),
                forall|l: Trace<PanelEvent<SPI::Error, DC::Error>>|
                    l.extends(self.trace()) ==> #[trigger] old(self).panel().wait_busy(
                        l,
                        timeout_ms,
                    ) == self.panel().poll_busy(l, (timeout_ms - waited) as nat),
            decreases timeout_ms - waited,
        {
            if !self.is_busy()? {
                return Ok(());
            }
            if waited >= timeout_ms {
                return Err(Error::BusyTimeout);
            }
            self.bus.pause_ms(delay, 1);
            waited += 1;
        }
    }

    // ------------------------------------------------------------------
    // init / power
    // ------------------------------------------------------------------

    fn reset<D: Delay>(&mut self, delay: &mut D) -> (res: Result<(), Error<SPI::Error, DC::Error>>)
        ensures
            final(self).waveforms == old(self).waveforms,
            final(self).trace().extends(old(self).trace()),
            forall|l: Trace<PanelEvent<SPI::Error, DC::Error>>|
                l.extends(final(self).trace()) ==> #[trigger]
                old(self).panel().reset(l) == Run::Done(final(self).panel(), res),
    {
        proof {
            reveal(Panel::reset);
        }
        self.wait_busy(delay, 500)?;
        self.command(cmd::SW_RESET)?;
        self.bus.pause_ms(delay, 10);
        self.wait_busy(delay, 500)
    }

    fn configure(&mut self) -> (res: Result<(), Error<SPI::Error, DC::Error>>)
        ensures
            final(self).waveforms == old(self).waveforms,
            final(self).trace().extends(old(self).trace()),
            forall|l: Trace<PanelEvent<SPI::Error, DC::Error>>|
                l.extends(final(self).trace()) ==> #[trigger]
                old(self).panel().configure(l) == Run::Done(final(self).panel(), res),
    {
        proof {
            reveal(Panel::configure);
        }
        // internal temperature sensor
        self.command_byte(cmd::TEMP_SENSOR, 0x80)?;
        let booster = [0xAEu8, 0xC7u8, 0xC3u8, 0xC0u8, 0x40u8];
        assert(booster@ =~= seq![0xAEu8, 0xC7u8, 0xC3u8, 0xC0u8, 0x40u8]);
        self.command_data(cmd::BOOSTER_SOFT_START, &booster)?;
        let gates = le16_bytes(RAM_Y_LINES - 1);
        let output = [gates[0], gates[1], 0x02];
        assert(output@ =~= crate::bytes::le16((RAM_Y_LINES - 1) as u16) + seq![0x02u8]);
        self.command_data(cmd::DRIVER_OUTPUT, &output)?;
        self.command_byte(cmd::BORDER_WAVEFORM, 0x01)?;
        self.command_byte(cmd::UPDATE_CTRL1, 0x00)
    }

    fn clear_ram<D: Delay>(&mut self, delay: &mut D) -> (res: Result<
        (),
        Error<SPI::Error, DC::Error>,
    >)
        ensures
            final(self).waveforms == old(self).waveforms,
            final(self).trace().extends(old(self).trace()),
            forall|l: Trace<PanelEvent<SPI::Error, DC::Error>>|
                l.extends(final(self).trace()) ==> #[trigger]
                old(self).panel().clear_ram(l) == Run::Done(final(self).panel(), res),
    {
        proof {
            reveal(Panel::clear_ram);
        }
        self.command_byte(cmd::AUTO_WRITE_RED, 0xF7)?;
        self.wait_busy(delay, 500)?;
        self.command_byte(cmd::AUTO_WRITE_BW, 0xF7)?;
        self.wait_busy(delay, 500)
    }

    /// Software reset + panel configuration. Call after a hardware reset
    /// (RST low >= 10 ms, then high >= 10 ms) with BUSY low.
    pub fn init<D: Delay>(&mut self, delay: &mut D) -> (res: Result<
        (),
        Error<SPI::Error, DC::Error>,
    >)
        ensures
            final(self).waveforms == old(self).waveforms,
            final(self).trace().extends(old(self).trace()),
            forall|l: Trace<PanelEvent<SPI::Error, DC::Error>>|
                l.extends(final(self).trace()) ==> #[trigger]
                old(self).panel().init(l) == Run::Done(final(self).panel(), res),
    {
        proof {
            reveal(Panel::init);
        }
        self.reset(delay)?;
        self.configure()?;
        // Full window; clear both RAM banks to white without a visible update.
        self.set_full_window()?;
        self.clear_ram(delay)?;
        self.screen_on = false;
        self.face_odd = false;
        self.face_known = true;
        Ok(())
    }

    /// Switch the analog supply/clock on (0xC0) or off (0x03) without
    /// updating the image.
    pub fn set_power<D: Delay>(&mut self, delay: &mut D, on: bool) -> (res: Result<
        (),
        Error<SPI::Error, DC::Error>,
    >)
        ensures
            final(self).waveforms == old(self).waveforms,
            final(self).trace().extends(old(self).trace()),
            forall|l: Trace<PanelEvent<SPI::Error, DC::Error>>|
                l.extends(final(self).trace()) ==> #[trigger]
                old(self).panel().set_power(l, on) == Run::Done(final(self).panel(), res),
    {
        if on == self.screen_on {
            return Ok(());
        }
        self.command_byte(
            cmd::UPDATE_CTRL2,
            if on {
                0xC0
            } else {
                0x03
            },
        )?;
        self.command(cmd::MASTER_ACTIVATION)?;
        self.wait_busy(delay, 2000)?;
        self.screen_on = on;
        Ok(())
    }

    /// Power down and enter deep sleep mode 1 (RAM retained). Leaving deep
    /// sleep requires a hardware reset followed by [`Self::init`].
    pub fn deep_sleep<D: Delay>(&mut self, delay: &mut D) -> (res: Result<
        (),
        Error<SPI::Error, DC::Error>,
    >)
        ensures
            final(self).waveforms == old(self).waveforms,
            final(self).trace().extends(old(self).trace()),
            forall|l: Trace<PanelEvent<SPI::Error, DC::Error>>|
                l.extends(final(self).trace()) ==> #[trigger]
                old(self).panel().deep_sleep(l) == Run::Done(final(self).panel(), res),
    {
        self.set_power(delay, false)?;
        self.command_byte(cmd::DEEP_SLEEP, 0x01)?;
        self.face_known = false;
        Ok(())
    }

    // ------------------------------------------------------------------
    // RAM addressing
    // ------------------------------------------------------------------

    /// Program a RAM window in native coordinates (`x` in source pixels,
    /// multiple of 8; `y` in gate lines) with X++/Y++ data entry.
    pub fn set_window(&mut self, x: u16, y: u16, w: u16, h: u16) -> (res: Result<
        (),
        Error<SPI::Error, DC::Error>,
    >)
        requires
            1 <= x + w <= u16::MAX,
            1 <= y + h <= u16::MAX,
        ensures
            final(self).waveforms == old(self).waveforms,
            final(self).trace().extends(old(self).trace()),
            forall|l: Trace<PanelEvent<SPI::Error, DC::Error>>|
                l.extends(final(self).trace()) ==> #[trigger]
                old(self).panel().window(l, x, y, w, h) == Run::Done(final(self).panel(), res),
    {
        proof {
            reveal(Panel::window);
        }
        self.command_byte(cmd::DATA_ENTRY, 0x03)?;
        self.command_words(cmd::SET_RAM_X, x, x + w - 1)?;
        self.command_words(cmd::SET_RAM_Y, y, y + h - 1)?;
        self.command_word(cmd::SET_RAM_X_CNT, x)?;
        self.command_word(cmd::SET_RAM_Y_CNT, y)
    }

    pub fn set_full_window(&mut self) -> (res: Result<(), Error<SPI::Error, DC::Error>>)
        ensures
            final(self).waveforms == old(self).waveforms,
            final(self).trace().extends(old(self).trace()),
            forall|l: Trace<PanelEvent<SPI::Error, DC::Error>>|
                l.extends(final(self).trace()) ==> #[trigger]
                old(self).panel().full_window(l) == Run::Done(final(self).panel(), res),
    {
        self.set_window(0, 0, RAM_X_PIXELS, RAM_Y_LINES)
    }

    fn send_rows(
        &mut self,
        plane: &[u8; PLANE_BYTES],
        y: u16,
        end: u16,
        first: usize,
        n: usize,
        invert: bool,
    ) -> (res: Result<(), Error<SPI::Error, DC::Error>>)
        requires
            y < end ==> end <= RAM_Y_LINES,
            first + n <= ROW_BYTES,
        ensures
            final(self).waveforms == old(self).waveforms,
            final(self).trace().extends(old(self).trace()),
            forall|l: Trace<PanelEvent<SPI::Error, DC::Error>>|
                l.extends(final(self).trace()) ==> #[trigger]
                old(self).panel().send_rows(
                    l,
                    plane@,
                    y as int,
                    end as int,
                    first as int,
                    n as int,
                    invert,
                ) == Run::Done(
                    final(self).panel(),
                    res,
                ),
    {
        self.start_data()?;
        let ghost started = self.panel();
        let ghost start = self.trace();
        let mut row = y;
        while row < end
            invariant
                y <= row,
                y < end ==> row <= end <= RAM_Y_LINES,
                first + n <= ROW_BYTES,
                self.waveforms == old(self).waveforms,
                start.extends(old(self).trace()),
                self.trace().extends(start),
                forall|l: Trace<PanelEvent<SPI::Error, DC::Error>>|
                    l.extends(start) ==> #[trigger] old(self).panel().start_data(l) == Run::Done(
                        started,
                        Ok::<(), Error<SPI::Error, DC::Error>>(()),
                    ),
                forall|l: Trace<PanelEvent<SPI::Error, DC::Error>>|
                    l.extends(self.trace()) ==> #[trigger] started.rows(
                        l,
                        plane@,
                        y as int,
                        end as int,
                        first as int,
                        n as int,
                        invert,
                    ) == self.panel().rows(
                        l,
                        plane@,
                        row as int,
                        end as int,
                        first as int,
                        n as int,
                        invert,
                    ),
            decreases end - row,
        {
            let at = row as usize * ROW_BYTES + first;
            let part = vstd::slice::slice_subrange(plane.as_slice(), at, at + n);
            if invert {
                let flipped = invert_bytes(part);
                assert(flipped@ =~= crate::ssd1677::model::row_part(
                    plane@,
                    row as int,
                    first as int,
                    n as int,
                    true,
                ));
                spi_result(self.bus.send(flipped.as_slice()))?;
            } else {
                assert(part@ =~= crate::ssd1677::model::row_part(
                    plane@,
                    row as int,
                    first as int,
                    n as int,
                    false,
                ));
                spi_result(self.bus.send(part))?;
            }
            row += 1;
        }
        self.end()
    }

    /// Write a full plane (framebuffer RAM order) to `ram_cmd` (0x24 / 0x26),
    /// optionally bit-inverted.
    pub fn write_plane(&mut self, ram_cmd: u8, plane: &[u8; PLANE_BYTES], invert: bool) -> (res: Result<
        (),
        Error<SPI::Error, DC::Error>,
    >)
        ensures
            final(self).waveforms == old(self).waveforms,
            final(self).trace().extends(old(self).trace()),
            forall|l: Trace<PanelEvent<SPI::Error, DC::Error>>|
                l.extends(final(self).trace()) ==> #[trigger]
                old(self).panel().write_plane(l, ram_cmd, plane@, invert) == Run::Done(
                    final(self).panel(),
                    res,
                ),
    {
        proof {
            reveal(Panel::write_plane);
        }
        self.set_full_window()?;
        self.command(ram_cmd)?;
        if !invert {
            return self.data(plane.as_slice());
        }
        self.send_rows(plane, 0, RAM_Y_LINES, 0, ROW_BYTES, true)
    }

    /// Write a rectangular part of a plane. `x0` is given in native source
    /// pixels and rounded outwards to byte boundaries; `y0..y0+h` are gate rows
    /// (= framebuffer rows).
    pub fn write_plane_rect(
        &mut self,
        ram_cmd: u8,
        plane: &[u8; PLANE_BYTES],
        x0: u16,
        y0: u16,
        w: u16,
        h: u16,
        invert: bool,
    ) -> (res: Result<(), Error<SPI::Error, DC::Error>>)
        requires
            1 <= x0 + w <= u16::MAX,
            1 <= y0 + h <= u16::MAX,
            h > 0 ==> y0 + h <= RAM_Y_LINES,
            crate::ssd1677::framebuffer::first_byte(x0)
                <= crate::ssd1677::framebuffer::last_byte(x0, w),
        ensures
            final(self).waveforms == old(self).waveforms,
            final(self).trace().extends(old(self).trace()),
            forall|l: Trace<PanelEvent<SPI::Error, DC::Error>>|
                l.extends(final(self).trace()) ==> #[trigger]
                old(self).panel().write_plane_rect(
                    l,
                    ram_cmd,
                    plane@,
                    x0,
                    y0,
                    w,
                    h,
                    invert,
                ) == Run::Done(
                    final(self).panel(),
                    res,
                ),
    {
        let first = x0 / 8;
        let end = (x0 + w - 1) / 8;
        let last = if end < ROW_BYTES as u16 {
            end
        } else {
            ROW_BYTES as u16 - 1
        };
        assert(last == crate::ssd1677::framebuffer::last_byte(x0, w));
        self.write_columns(ram_cmd, plane, first, last - first + 1, y0, h, invert)
    }

    fn write_columns(
        &mut self,
        ram_cmd: u8,
        plane: &[u8; PLANE_BYTES],
        first: u16,
        n: u16,
        y0: u16,
        h: u16,
        invert: bool,
    ) -> (res: Result<(), Error<SPI::Error, DC::Error>>)
        requires
            1 <= n,
            first + n <= ROW_BYTES,
            1 <= y0 + h <= u16::MAX,
            h > 0 ==> y0 + h <= RAM_Y_LINES,
        ensures
            final(self).waveforms == old(self).waveforms,
            final(self).trace().extends(old(self).trace()),
            forall|l: Trace<PanelEvent<SPI::Error, DC::Error>>|
                l.extends(final(self).trace()) ==> #[trigger]
                old(self).panel().write_columns(
                    l,
                    ram_cmd,
                    plane@,
                    first,
                    n,
                    y0,
                    h,
                    invert,
                ) == Run::Done(
                    final(self).panel(),
                    res,
                ),
    {
        let (x, width) = (first * 8, n * 8);
        self.set_window(x, y0, width, h)?;
        self.command(ram_cmd)?;
        self.send_rows(plane, y0, y0 + h, first as usize, n as usize, invert)
    }

    // ------------------------------------------------------------------
    // activation
    // ------------------------------------------------------------------

    fn activate<D: Delay>(&mut self, delay: &mut D, ctrl1: u8, c2: u8, timeout_ms: u32) -> (res: Result<
        (),
        Error<SPI::Error, DC::Error>,
    >)
        ensures
            final(self).waveforms == old(self).waveforms,
            final(self).trace().extends(old(self).trace()),
            forall|l: Trace<PanelEvent<SPI::Error, DC::Error>>|
                l.extends(final(self).trace()) ==> #[trigger]
                old(self).panel().activate(l, ctrl1, c2, timeout_ms) == Run::Done(
                    final(self).panel(),
                    res,
                ),
    {
        proof {
            reveal(Panel::activate);
        }
        self.command_byte(cmd::UPDATE_CTRL1, ctrl1)?;
        let all = if self.screen_on {
            c2
        } else {
            c2 | (ctrl2::ENABLE_CLOCK | ctrl2::ENABLE_ANALOG)
        };
        self.command_byte(cmd::UPDATE_CTRL2, all)?;
        self.command(cmd::MASTER_ACTIVATION)?;
        self.wait_busy(delay, timeout_ms)?;
        self.screen_on = all & (ctrl2::DISABLE_ANALOG | ctrl2::DISABLE_CLOCK) == 0;
        if all & ctrl2::MODE2 != 0 {
            if self.face_known {
                self.face_odd = !self.face_odd;
            }
        } else {
            self.face_odd = false;
            self.face_known = true;
        }
        Ok(())
    }

    fn ensure_known_face<D: Delay>(&mut self, delay: &mut D) -> (res: Result<
        (),
        Error<SPI::Error, DC::Error>,
    >)
        ensures
            final(self).waveforms == old(self).waveforms,
            final(self).trace().extends(old(self).trace()),
            forall|l: Trace<PanelEvent<SPI::Error, DC::Error>>|
                l.extends(final(self).trace()) ==> #[trigger]
                old(self).panel().ensure_known_face(l) == Run::Done(final(self).panel(), res),
    {
        if self.face_known {
            return Ok(());
        }
        self.init(delay)
    }

    fn send_lut(&mut self, lut: &[u8; LUT_LEN]) -> (res: Result<(), Error<SPI::Error, DC::Error>>)
        ensures
            final(self).waveforms == old(self).waveforms,
            final(self).trace().extends(old(self).trace()),
            forall|l: Trace<PanelEvent<SPI::Error, DC::Error>>|
                l.extends(final(self).trace()) ==> #[trigger]
                old(self).panel().send_lut(l, lut@) == Run::Done(final(self).panel(), res),
    {
        proof {
            reveal(Panel::send_lut);
        }
        let wave = vstd::slice::slice_subrange(lut.as_slice(), 0, 105);
        assert(wave@ =~= lut@.take(105));
        self.command_data(cmd::WRITE_LUT, wave)?;
        self.command_byte(cmd::GATE_VOLTAGE, lut[105])?;
        let source = [lut[106], lut[107], lut[108]];
        assert(source@ =~= seq![lut@[106], lut@[107], lut@[108]]);
        self.command_data(cmd::SOURCE_VOLTAGE, &source)?;
        self.command_byte(cmd::WRITE_VCOM, lut[109])
    }

    // ------------------------------------------------------------------
    // refresh paths
    // ------------------------------------------------------------------

    /// Full-screen monochrome refresh with the controller's OTP mode-1
    /// waveform. `mono` is 1 = white. Both RAM banks receive the image so it
    /// also becomes the baseline for [`Self::refresh_mono_partial`].
    pub fn refresh_mono_full<D: Delay>(&mut self, delay: &mut D, mono: &[u8; PLANE_BYTES]) -> (res:
        Result<(), Error<SPI::Error, DC::Error>>)
        ensures
            final(self).waveforms == old(self).waveforms,
            final(self).trace().extends(old(self).trace()),
            forall|l: Trace<PanelEvent<SPI::Error, DC::Error>>|
                l.extends(final(self).trace()) ==> #[trigger]
                old(self).panel().refresh_mono_full(l, mono@) == Run::Done(
                    final(self).panel(),
                    res,
                ),
    {
        self.ensure_known_face(delay)?;
        self.write_plane(cmd::WRITE_RAM_RED, mono, false)?;
        self.write_plane(cmd::WRITE_RAM_BW, mono, false)?;
        // load temp + load LUT + display, mode 1, then keep the panel powered.
        self.activate(delay, 0x00, ctrl2::LOAD_TEMP | ctrl2::LOAD_LUT | ctrl2::DISPLAY, 10_000)
    }

    /// Partial monochrome update with the OTP "partial" sequence (0xFF).
    /// Requires a monochrome baseline in RAM (from `refresh_mono_full` or a
    /// previous partial). Only rows `y0..y0+h` / columns `x0..x0+w` (native
    /// coordinates) are transferred; the whole panel is activated.
    pub fn refresh_mono_partial<D: Delay>(
        &mut self,
        delay: &mut D,
        mono: &[u8; PLANE_BYTES],
        x0: u16,
        y0: u16,
        w: u16,
        h: u16,
    ) -> (res: Result<(), Error<SPI::Error, DC::Error>>)
        requires
            1 <= x0 + w <= u16::MAX,
            1 <= y0 + h <= u16::MAX,
            h > 0 ==> y0 + h <= RAM_Y_LINES,
            crate::ssd1677::framebuffer::first_byte(x0)
                <= crate::ssd1677::framebuffer::last_byte(x0, w),
        ensures
            final(self).waveforms == old(self).waveforms,
            final(self).trace().extends(old(self).trace()),
            forall|l: Trace<PanelEvent<SPI::Error, DC::Error>>|
                l.extends(final(self).trace()) ==> #[trigger]
                old(self).panel().refresh_mono_partial(l, mono@, x0, y0, w, h) == Run::Done(
                    final(self).panel(),
                    res,
                ),
    {
        self.ensure_known_face(delay)?;
        // float border during partial
        self.command_byte(cmd::BORDER_WAVEFORM, 0x80)?;
        self.write_plane_rect(cmd::WRITE_RAM_BW, mono, x0, y0, w, h, false)?;
        // 0xFF = OTP partial sequence; clock/analog enable bits are added by
        // activate() when needed.
        self.activate(delay, 0x00, 0x3F, 5_000)?;
        // Keep RED (previous image) in sync so the next partial diff is right.
        self.write_plane_rect(cmd::WRITE_RAM_RED, mono, x0, y0, w, h, false)?;
        self.command_byte(cmd::BORDER_WAVEFORM, 0x01)
    }

    /// Partial monochrome update over a screen that shows `shown`, whatever the
    /// last refresh left in RAM: both banks receive it as the baseline first.
    pub fn refresh_mono_over<D: Delay>(
        &mut self,
        delay: &mut D,
        shown: &[u8; PLANE_BYTES],
        mono: &[u8; PLANE_BYTES],
        x0: u16,
        y0: u16,
        w: u16,
        h: u16,
    ) -> (res: Result<(), Error<SPI::Error, DC::Error>>)
        requires
            1 <= x0 + w <= u16::MAX,
            1 <= y0 + h <= u16::MAX,
            h > 0 ==> y0 + h <= RAM_Y_LINES,
            crate::ssd1677::framebuffer::first_byte(x0)
                <= crate::ssd1677::framebuffer::last_byte(x0, w),
        ensures
            final(self).waveforms == old(self).waveforms,
            final(self).trace().extends(old(self).trace()),
            forall|l: Trace<PanelEvent<SPI::Error, DC::Error>>|
                l.extends(final(self).trace()) ==> #[trigger]
                old(self).panel().refresh_mono_over(l, shown@, mono@, x0, y0, w, h) == Run::Done(
                    final(self).panel(),
                    res,
                ),
    {
        // An unknown face takes an init, which clears the banks.
        self.ensure_known_face(delay)?;
        self.write_plane(cmd::WRITE_RAM_RED, shown, false)?;
        self.write_plane(cmd::WRITE_RAM_BW, shown, false)?;
        self.refresh_mono_partial(delay, mono, x0, y0, w, h)
    }

    fn show<D: Delay>(
        &mut self,
        delay: &mut D,
        bw: &[u8; PLANE_BYTES],
        red: &[u8; PLANE_BYTES],
        lut: &[u8; LUT_LEN],
        c2: u8,
        timeout_ms: u32,
    ) -> (res: Result<(), Error<SPI::Error, DC::Error>>)
        ensures
            final(self).waveforms == old(self).waveforms,
            final(self).trace().extends(old(self).trace()),
            forall|l: Trace<PanelEvent<SPI::Error, DC::Error>>|
                l.extends(final(self).trace()) ==> #[trigger]
                old(self).panel().show(l, bw@, red@, lut@, c2, timeout_ms) == Run::Done(
                    final(self).panel(),
                    res,
                ),
    {
        proof {
            reveal(Panel::show);
        }
        self.write_plane(cmd::WRITE_RAM_BW, bw, true)?;
        self.write_plane(cmd::WRITE_RAM_RED, red, true)?;
        self.send_lut(lut)?;
        self.activate(delay, 0x00, c2, timeout_ms)
    }

    /// Full-screen 4-gray refresh using one of the custom LUTs.
    ///
    /// Planes are the framebuffer's `lsb` / `msb` (level 0 = black .. 3 =
    /// white); they are sent inverted so that the RAM group index equals
    /// `3 - level` (0 = white .. 3 = black) as the LUTs expect.
    pub fn refresh_gray4<D: Delay>(
        &mut self,
        delay: &mut D,
        lsb: &[u8; PLANE_BYTES],
        msb: &[u8; PLANE_BYTES],
        mode: GrayMode,
    ) -> (res: Result<(), Error<SPI::Error, DC::Error>>)
        ensures
            final(self).waveforms == old(self).waveforms,
            final(self).trace().extends(old(self).trace()),
            forall|l: Trace<PanelEvent<SPI::Error, DC::Error>>|
                l.extends(final(self).trace()) ==> #[trigger]
                old(self).panel().refresh_gray4(
                    l,
                    old(self).waveforms@,
                    lsb@,
                    msb@,
                    mode,
                ) == Run::Done(
                    final(self).panel(),
                    res,
                ),
    {
        self.ensure_known_face(delay)?;
        match mode {
            GrayMode::Fast => {
                let lut = self.waveforms.fast;
                self.show(delay, lsb, msb, &lut, ctrl2::MODE2 | ctrl2::DISPLAY, 5_000)
            },
            _ => {
                // Mode 1: the ping-pong face exchanges the two middle codes;
                // swap plane destinations on the odd face.
                let (bw, red) = if self.face_odd {
                    (msb, lsb)
                } else {
                    (lsb, msb)
                };
                let lut = if mode == GrayMode::Quality {
                    self.waveforms.quality
                } else {
                    self.waveforms.text
                };
                // display + disable analog + disable clock (panel ends powered down)
                self.show(
                    delay,
                    bw,
                    red,
                    &lut,
                    ctrl2::DISPLAY | ctrl2::DISABLE_ANALOG | ctrl2::DISABLE_CLOCK,
                    15_000,
                )
            },
        }
    }

    /// Convenience: full 4-gray refresh straight from a framebuffer.
    pub fn display_gray4<D: Delay>(&mut self, delay: &mut D, fb: &FrameBuffer, mode: GrayMode) -> (res:
        Result<(), Error<SPI::Error, DC::Error>>)
        ensures
            final(self).waveforms == old(self).waveforms,
            final(self).trace().extends(old(self).trace()),
            forall|l: Trace<PanelEvent<SPI::Error, DC::Error>>|
                l.extends(final(self).trace()) ==> #[trigger]
                old(self).panel().refresh_gray4(
                    l,
                    old(self).waveforms@,
                    fb.lsb@,
                    fb.msb@,
                    mode,
                ) == Run::Done(
                    final(self).panel(),
                    res,
                ),
    {
        self.refresh_gray4(delay, &fb.lsb, &fb.msb, mode)
    }

    /// Convenience: full monochrome refresh from a framebuffer (levels >= 2 are white).
    pub fn display_mono<D: Delay>(&mut self, delay: &mut D, fb: &FrameBuffer) -> (res: Result<
        (),
        Error<SPI::Error, DC::Error>,
    >)
        ensures
            final(self).waveforms == old(self).waveforms,
            final(self).trace().extends(old(self).trace()),
            forall|l: Trace<PanelEvent<SPI::Error, DC::Error>>|
                l.extends(final(self).trace()) ==> #[trigger]
                old(self).panel().refresh_mono_full(l, fb.msb@) == Run::Done(
                    final(self).panel(),
                    res,
                ),
    {
        self.refresh_mono_full(delay, fb.mono_plane())
    }
}

fn invert_bytes(bytes: &[u8]) -> (v: Vec<u8>)
    ensures
        v@ == crate::ssd1677::model::inverted(bytes@),
{
    let mut v: Vec<u8> = Vec::new();
    let mut i: usize = 0;
    while i < bytes.len()
        invariant
            i <= bytes@.len(),
            v@ =~= crate::ssd1677::model::inverted(bytes@).take(i as int),
        decreases bytes@.len() - i,
    {
        v.push(!bytes[i]);
        i += 1;
    }
    assert(v@ =~= crate::ssd1677::model::inverted(bytes@));
    v
}

} // verus!
