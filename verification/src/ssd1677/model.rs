//! The model of the panel driver, replayed on traces of the wires.

use crate::ssd1677::port::PanelEvent;
use crate::ssd1677::{cmd, ctrl2, Error, GrayMode, RAM_X_PIXELS, RAM_Y_LINES, ROW_BYTES};
use crate::trace::{Run, Trace};
use vstd::prelude::*;

verus! {

/// The driver between two uses of the wires.
pub struct Panel {
    pub at: int,
    pub screen_on: bool,
    /// An odd number of mode-2 activations since the last reset.
    pub face_odd: bool,
    pub face_known: bool,
}

/// The custom waveforms.
pub struct WaveformModel {
    pub quality: Seq<u8>,
    pub text: Seq<u8>,
    pub fast: Seq<u8>,
}

/// Every byte inverted.
pub open spec fn inverted(bytes: Seq<u8>) -> Seq<u8> {
    Seq::new(bytes.len(), |i: int| !bytes[i])
}

/// `n` bytes of row `y` of a plane from byte `first` on.
pub open spec fn row_part(plane: Seq<u8>, y: int, first: int, n: int, invert: bool) -> Seq<u8> {
    let part = plane.subrange(y * ROW_BYTES + first, y * ROW_BYTES + first + n);
    if invert {
        inverted(part)
    } else {
        part
    }
}

impl Panel {
    pub open spec fn step_on(self) -> Panel {
        Panel { at: self.at + 1, ..self }
    }

    pub open spec fn done<T, S, P>(self, t: T) -> Run<Panel, T, Error<S, P>> {
        Run::Done(self, Ok(t))
    }

    /// A pin change with this outcome.
    pub open spec fn pin<T, S, P>(self, outcome: Result<T, P>) -> Run<Panel, T, Error<S, P>> {
        match outcome {
            Ok(t) => Run::Done(self.step_on(), Ok(t)),
            Err(e) => Run::Done(self.step_on(), Err(Error::Pin(e))),
        }
    }

    /// A transfer with this outcome.
    pub open spec fn spi<S, P>(self, outcome: Result<(), S>) -> Run<Panel, (), Error<S, P>> {
        match outcome {
            Ok(_) => Run::Done(self.step_on(), Ok(())),
            Err(e) => Run::Done(self.step_on(), Err(Error::Spi(e))),
        }
    }

    pub open spec fn select<S, P>(self, l: Trace<PanelEvent<S, P>>) -> Run<Panel, (), Error<S, P>> {
        match l.at(self.at) {
            PanelEvent::Select(o) => self.pin(o),
            _ => Run::Off,
        }
    }

    pub open spec fn deselect<S, P>(self, l: Trace<PanelEvent<S, P>>) -> Run<
        Panel,
        (),
        Error<S, P>,
    > {
        match l.at(self.at) {
            PanelEvent::Deselect(o) => self.pin(o),
            _ => Run::Off,
        }
    }

    pub open spec fn command_mode<S, P>(self, l: Trace<PanelEvent<S, P>>) -> Run<
        Panel,
        (),
        Error<S, P>,
    > {
        match l.at(self.at) {
            PanelEvent::CommandMode(o) => self.pin(o),
            _ => Run::Off,
        }
    }

    pub open spec fn data_mode<S, P>(self, l: Trace<PanelEvent<S, P>>) -> Run<
        Panel,
        (),
        Error<S, P>,
    > {
        match l.at(self.at) {
            PanelEvent::DataMode(o) => self.pin(o),
            _ => Run::Off,
        }
    }

    pub open spec fn send<S, P>(self, l: Trace<PanelEvent<S, P>>, sent: Seq<u8>) -> Run<
        Panel,
        (),
        Error<S, P>,
    > {
        match l.at(self.at) {
            PanelEvent::Sent { bytes, outcome } => if bytes == sent {
                self.spi(outcome)
            } else {
                Run::Off
            },
            _ => Run::Off,
        }
    }

    pub open spec fn flush<S, P>(self, l: Trace<PanelEvent<S, P>>) -> Run<Panel, (), Error<S, P>> {
        match l.at(self.at) {
            PanelEvent::Flushed(o) => self.spi(o),
            _ => Run::Off,
        }
    }

    pub open spec fn pause_ms<S, P>(self, l: Trace<PanelEvent<S, P>>, ms: u32) -> Run<
        Panel,
        (),
        Error<S, P>,
    > {
        if l.at(self.at) == PanelEvent::<S, P>::PauseMs(ms) {
            self.step_on().done(())
        } else {
            Run::Off
        }
    }

    pub open spec fn is_busy<S, P>(self, l: Trace<PanelEvent<S, P>>) -> Run<
        Panel,
        bool,
        Error<S, P>,
    > {
        match l.at(self.at) {
            PanelEvent::Busy(o) => self.pin(o),
            _ => Run::Off,
        }
    }

    /// Send bytes, flush and deselect; a failed transfer is reported last.
    pub open spec fn send_and_end<S, P>(self, l: Trace<PanelEvent<S, P>>, sent: Seq<u8>) -> Run<
        Panel,
        (),
        Error<S, P>,
    > {
        match self.send(l, sent) {
            Run::Done(m, r) => m.end(l).chain(|m: Panel, _u: ()| Run::Done(m, r)),
            Run::Off => Run::Off,
        }
    }

    pub open spec fn end<S, P>(self, l: Trace<PanelEvent<S, P>>) -> Run<Panel, (), Error<S, P>> {
        self.flush(l).chain(|m: Panel, _u: ()| m.deselect(l))
    }

    pub open spec fn command<S, P>(self, l: Trace<PanelEvent<S, P>>, c: u8) -> Run<
        Panel,
        (),
        Error<S, P>,
    > {
        self.select(l).chain(
            |m: Panel, _u: ()|
                m.command_mode(l).chain(|m: Panel, _u: ()| m.send_and_end(l, seq![c])),
        )
    }

    /// Nothing is sent for no data.
    pub open spec fn data<S, P>(self, l: Trace<PanelEvent<S, P>>, d: Seq<u8>) -> Run<
        Panel,
        (),
        Error<S, P>,
    > {
        if d.len() == 0 {
            self.done(())
        } else {
            self.start_data(l).chain(|m: Panel, _u: ()| m.send_and_end(l, d))
        }
    }

    pub open spec fn start_data<S, P>(self, l: Trace<PanelEvent<S, P>>) -> Run<
        Panel,
        (),
        Error<S, P>,
    > {
        self.select(l).chain(|m: Panel, _u: ()| m.data_mode(l))
    }

    pub open spec fn command_data<S, P>(self, l: Trace<PanelEvent<S, P>>, c: u8, d: Seq<u8>) -> Run<
        Panel,
        (),
        Error<S, P>,
    > {
        self.command(l, c).chain(|m: Panel, _u: ()| m.data(l, d))
    }

    /// Poll BUSY every millisecond, at most `left` more times.
    pub open spec fn poll_busy<S, P>(self, l: Trace<PanelEvent<S, P>>, left: nat) -> Run<
        Panel,
        (),
        Error<S, P>,
    >
        decreases left,
    {
        match self.is_busy(l) {
            Run::Done(m, Ok(busy)) => if !busy {
                m.done(())
            } else if left == 0 {
                Run::Done(m, Err(Error::BusyTimeout))
            } else {
                match m.pause_ms(l, 1) {
                    Run::Done(m, Ok(_)) => m.poll_busy(l, (left - 1) as nat),
                    Run::Done(m, Err(e)) => Run::Done(m, Err(e)),
                    Run::Off => Run::Off,
                }
            },
            Run::Done(m, Err(e)) => Run::Done(m, Err(e)),
            Run::Off => Run::Off,
        }
    }

    /// BUSY gets 2 ms to rise before it is polled.
    pub open spec fn wait_busy<S, P>(self, l: Trace<PanelEvent<S, P>>, timeout_ms: u32) -> Run<
        Panel,
        (),
        Error<S, P>,
    > {
        self.pause_ms(l, 2).chain(|m: Panel, _u: ()| m.poll_busy(l, timeout_ms as nat))
    }

    // ------------------------------------------------------------------
    // init / power
    // ------------------------------------------------------------------

    #[verifier::opaque]
    pub open spec fn reset<S, P>(self, l: Trace<PanelEvent<S, P>>) -> Run<Panel, (), Error<S, P>> {
        self.wait_busy(l, 500).chain(
            |m: Panel, _u: ()|
                m.command(l, cmd::SW_RESET).chain(
                    |m: Panel, _u: ()|
                        m.pause_ms(l, 10).chain(|m: Panel, _u: ()| m.wait_busy(l, 500)),
                ),
        )
    }

    /// Internal temperature sensor, booster, gate count, border.
    #[verifier::opaque]
    pub open spec fn configure<S, P>(self, l: Trace<PanelEvent<S, P>>) -> Run<
        Panel,
        (),
        Error<S, P>,
    > {
        self.command_data(l, cmd::TEMP_SENSOR, seq![0x80u8]).chain(
            |m: Panel, _u: ()|
                m.command_data(
                    l,
                    cmd::BOOSTER_SOFT_START,
                    seq![0xAEu8, 0xC7u8, 0xC3u8, 0xC0u8, 0x40u8],
                ).chain(
                    |m: Panel, _u: ()|
                        m.command_data(
                            l,
                            cmd::DRIVER_OUTPUT,
                            crate::bytes::le16((RAM_Y_LINES - 1) as u16) + seq![0x02u8],
                        ).chain(
                            |m: Panel, _u: ()|
                                m.command_data(l, cmd::BORDER_WAVEFORM, seq![0x01u8]).chain(
                                    |m: Panel, _u: ()|
                                        m.command_data(l, cmd::UPDATE_CTRL1, seq![0x00u8]),
                                ),
                        ),
                ),
        )
    }

    /// Both RAM banks white, without a visible update.
    #[verifier::opaque]
    pub open spec fn clear_ram<S, P>(self, l: Trace<PanelEvent<S, P>>) -> Run<
        Panel,
        (),
        Error<S, P>,
    > {
        self.command_data(l, cmd::AUTO_WRITE_RED, seq![0xF7u8]).chain(
            |m: Panel, _u: ()|
                m.wait_busy(l, 500).chain(
                    |m: Panel, _u: ()|
                        m.command_data(l, cmd::AUTO_WRITE_BW, seq![0xF7u8]).chain(
                            |m: Panel, _u: ()| m.wait_busy(l, 500),
                        ),
                ),
        )
    }

    #[verifier::opaque]
    pub open spec fn init<S, P>(self, l: Trace<PanelEvent<S, P>>) -> Run<Panel, (), Error<S, P>> {
        self.reset(l).chain(
            |m: Panel, _u: ()|
                m.configure(l).chain(
                    |m: Panel, _u: ()|
                        m.full_window(l).chain(
                            |m: Panel, _u: ()|
                                m.clear_ram(l).chain(
                                    |m: Panel, _u: ()|
                                        Panel {
                                            screen_on: false,
                                            face_odd: false,
                                            face_known: true,
                                            ..m
                                        }.done(()),
                                ),
                        ),
                ),
        )
    }

    /// Nothing is done if the supply is as wanted.
    pub open spec fn set_power<S, P>(self, l: Trace<PanelEvent<S, P>>, on: bool) -> Run<
        Panel,
        (),
        Error<S, P>,
    > {
        if on == self.screen_on {
            self.done(())
        } else {
            self.command_data(
                l,
                cmd::UPDATE_CTRL2,
                seq![
                    if on {
                        0xC0u8
                    } else {
                        0x03u8
                    },
                ],
            ).chain(
                |m: Panel, _u: ()|
                    m.command(l, cmd::MASTER_ACTIVATION).chain(
                        |m: Panel, _u: ()|
                            m.wait_busy(l, 2000).chain(
                                |m: Panel, _u: ()| Panel { screen_on: on, ..m }.done(()),
                            ),
                    ),
            )
        }
    }

    pub open spec fn deep_sleep<S, P>(self, l: Trace<PanelEvent<S, P>>) -> Run<
        Panel,
        (),
        Error<S, P>,
    > {
        self.set_power(l, false).chain(
            |m: Panel, _u: ()|
                m.command_data(l, cmd::DEEP_SLEEP, seq![0x01u8]).chain(
                    |m: Panel, _u: ()| Panel { face_known: false, ..m }.done(()),
                ),
        )
    }

    // ------------------------------------------------------------------
    // RAM
    // ------------------------------------------------------------------

    #[verifier::opaque]
    pub open spec fn window<S, P>(
        self,
        l: Trace<PanelEvent<S, P>>,
        x: u16,
        y: u16,
        w: u16,
        h: u16,
    ) -> Run<Panel, (), Error<S, P>> {
        let xe = (x + w - 1) as u16;
        let ye = (y + h - 1) as u16;
        self.command_data(l, cmd::DATA_ENTRY, seq![0x03u8]).chain(
            |m: Panel, _u: ()|
                m.command_data(
                    l,
                    cmd::SET_RAM_X,
                    crate::bytes::le16(x) + crate::bytes::le16(xe),
                ).chain(
                    |m: Panel, _u: ()|
                        m.command_data(
                            l,
                            cmd::SET_RAM_Y,
                            crate::bytes::le16(y) + crate::bytes::le16(ye),
                        ).chain(
                            |m: Panel, _u: ()|
                                m.command_data(
                                    l,
                                    cmd::SET_RAM_X_CNT,
                                    crate::bytes::le16(x),
                                ).chain(
                                    |m: Panel, _u: ()|
                                        m.command_data(
                                            l,
                                            cmd::SET_RAM_Y_CNT,
                                            crate::bytes::le16(y),
                                        ),
                                ),
                        ),
                ),
        )
    }

    pub open spec fn full_window<S, P>(self, l: Trace<PanelEvent<S, P>>) -> Run<
        Panel,
        (),
        Error<S, P>,
    > {
        self.window(l, 0, 0, RAM_X_PIXELS, RAM_Y_LINES)
    }

    /// Rows `y..end` of a plane, one transfer each; a failure leaves the
    /// panel selected.
    pub open spec fn rows<S, P>(
        self,
        l: Trace<PanelEvent<S, P>>,
        plane: Seq<u8>,
        y: int,
        end: int,
        first: int,
        n: int,
        invert: bool,
    ) -> Run<Panel, (), Error<S, P>>
        decreases end - y,
    {
        if y >= end {
            self.done(())
        } else {
            match self.send(l, row_part(plane, y, first, n, invert)) {
                Run::Done(m, Ok(_)) => m.rows(l, plane, y + 1, end, first, n, invert),
                Run::Done(m, Err(e)) => Run::Done(m, Err(e)),
                Run::Off => Run::Off,
            }
        }
    }

    pub open spec fn send_rows<S, P>(
        self,
        l: Trace<PanelEvent<S, P>>,
        plane: Seq<u8>,
        y: int,
        end: int,
        first: int,
        n: int,
        invert: bool,
    ) -> Run<Panel, (), Error<S, P>> {
        self.start_data(l).chain(
            |m: Panel, _u: ()|
                m.rows(l, plane, y, end, first, n, invert).chain(|m: Panel, _u: ()| m.end(l)),
        )
    }

    #[verifier::opaque]
    pub open spec fn write_plane<S, P>(
        self,
        l: Trace<PanelEvent<S, P>>,
        ram_cmd: u8,
        plane: Seq<u8>,
        invert: bool,
    ) -> Run<Panel, (), Error<S, P>> {
        self.full_window(l).chain(
            |m: Panel, _u: ()|
                m.command(l, ram_cmd).chain(
                    |m: Panel, _u: ()|
                        if invert {
                            m.send_rows(
                                l,
                                plane,
                                0,
                                RAM_Y_LINES as int,
                                0,
                                ROW_BYTES as int,
                                true,
                            )
                        } else {
                            m.data(l, plane)
                        },
                ),
        )
    }

    pub open spec fn write_plane_rect<S, P>(
        self,
        l: Trace<PanelEvent<S, P>>,
        ram_cmd: u8,
        plane: Seq<u8>,
        x0: u16,
        y0: u16,
        w: u16,
        h: u16,
        invert: bool,
    ) -> Run<Panel, (), Error<S, P>> {
        let first = crate::ssd1677::framebuffer::first_byte(x0);
        let n = crate::ssd1677::framebuffer::last_byte(x0, w) - first + 1;
        self.write_columns(l, ram_cmd, plane, first as u16, n as u16, y0, h, invert)
    }

    /// `n` byte columns from `first` on.
    pub open spec fn write_columns<S, P>(
        self,
        l: Trace<PanelEvent<S, P>>,
        ram_cmd: u8,
        plane: Seq<u8>,
        first: u16,
        n: u16,
        y0: u16,
        h: u16,
        invert: bool,
    ) -> Run<Panel, (), Error<S, P>> {
        self.window(l, (first * 8) as u16, y0, (n * 8) as u16, h).chain(
            |m: Panel, _u: ()|
                m.command(l, ram_cmd).chain(
                    |m: Panel, _u: ()|
                        m.send_rows(l, plane, y0 as int, y0 + h, first as int, n as int, invert),
                ),
        )
    }

    // ------------------------------------------------------------------
    // activation
    // ------------------------------------------------------------------

    /// The panel after an activation with this control byte: mode 2 flips a
    /// known face, mode 1 makes it even and known.
    pub open spec fn activated(self, c2: u8) -> Panel {
        let mode2 = c2 & ctrl2::MODE2 != 0;
        Panel {
            screen_on: c2 & (ctrl2::DISABLE_ANALOG | ctrl2::DISABLE_CLOCK) == 0,
            face_odd: mode2 && (if self.face_known {
                !self.face_odd
            } else {
                self.face_odd
            }),
            face_known: self.face_known || !mode2,
            ..self
        }
    }

    /// A panel that is off is switched on with the activation.
    #[verifier::opaque]
    pub open spec fn activate<S, P>(
        self,
        l: Trace<PanelEvent<S, P>>,
        ctrl1: u8,
        c2: u8,
        timeout_ms: u32,
    ) -> Run<Panel, (), Error<S, P>> {
        let all = if self.screen_on {
            c2
        } else {
            c2 | (ctrl2::ENABLE_CLOCK | ctrl2::ENABLE_ANALOG)
        };
        self.command_data(l, cmd::UPDATE_CTRL1, seq![ctrl1]).chain(
            |m: Panel, _u: ()|
                m.command_data(l, cmd::UPDATE_CTRL2, seq![all]).chain(
                    |m: Panel, _u: ()|
                        m.command(l, cmd::MASTER_ACTIVATION).chain(
                            |m: Panel, _u: ()|
                                m.wait_busy(l, timeout_ms).chain(
                                    |m: Panel, _u: ()| m.activated(all).done(()),
                                ),
                        ),
                ),
        )
    }

    pub open spec fn ensure_known_face<S, P>(self, l: Trace<PanelEvent<S, P>>) -> Run<
        Panel,
        (),
        Error<S, P>,
    > {
        if self.face_known {
            self.done(())
        } else {
            self.init(l)
        }
    }

    /// Waveform, gate voltage, source voltages, VCOM.
    #[verifier::opaque]
    pub open spec fn send_lut<S, P>(self, l: Trace<PanelEvent<S, P>>, lut: Seq<u8>) -> Run<
        Panel,
        (),
        Error<S, P>,
    > {
        self.command_data(l, cmd::WRITE_LUT, lut.take(105)).chain(
            |m: Panel, _u: ()|
                m.command_data(l, cmd::GATE_VOLTAGE, seq![lut[105]]).chain(
                    |m: Panel, _u: ()|
                        m.command_data(
                            l,
                            cmd::SOURCE_VOLTAGE,
                            seq![lut[106], lut[107], lut[108]],
                        ).chain(
                            |m: Panel, _u: ()|
                                m.command_data(l, cmd::WRITE_VCOM, seq![lut[109]]),
                        ),
                ),
        )
    }

    // ------------------------------------------------------------------
    // refresh paths
    // ------------------------------------------------------------------

    /// The image goes to both RAM banks.
    pub open spec fn refresh_mono_full<S, P>(self, l: Trace<PanelEvent<S, P>>, mono: Seq<u8>) -> Run<
        Panel,
        (),
        Error<S, P>,
    > {
        self.ensure_known_face(l).chain(
            |m: Panel, _u: ()|
                m.write_plane(l, cmd::WRITE_RAM_RED, mono, false).chain(
                    |m: Panel, _u: ()|
                        m.write_plane(l, cmd::WRITE_RAM_BW, mono, false).chain(
                            |m: Panel, _u: ()|
                                m.activate(
                                    l,
                                    0x00,
                                    ctrl2::LOAD_TEMP | ctrl2::LOAD_LUT | ctrl2::DISPLAY,
                                    10_000,
                                ),
                        ),
                ),
        )
    }

    /// Both banks receive what is shown, then comes the partial update.
    pub open spec fn refresh_mono_over<S, P>(
        self,
        l: Trace<PanelEvent<S, P>>,
        shown: Seq<u8>,
        mono: Seq<u8>,
        x0: u16,
        y0: u16,
        w: u16,
        h: u16,
    ) -> Run<Panel, (), Error<S, P>> {
        self.ensure_known_face(l).chain(
            |m: Panel, _u: ()|
                m.write_plane(l, cmd::WRITE_RAM_RED, shown, false).chain(
                    |m: Panel, _u: ()|
                        m.write_plane(l, cmd::WRITE_RAM_BW, shown, false).chain(
                            |m: Panel, _u: ()| m.refresh_mono_partial(l, mono, x0, y0, w, h),
                        ),
                ),
        )
    }

    /// The region goes to the new bank, is shown, and then goes to the old
    /// bank; the border floats meanwhile.
    pub open spec fn refresh_mono_partial<S, P>(
        self,
        l: Trace<PanelEvent<S, P>>,
        mono: Seq<u8>,
        x0: u16,
        y0: u16,
        w: u16,
        h: u16,
    ) -> Run<Panel, (), Error<S, P>> {
        self.ensure_known_face(l).chain(
            |m: Panel, _u: ()|
                m.command_data(l, cmd::BORDER_WAVEFORM, seq![0x80u8]).chain(
                    |m: Panel, _u: ()|
                        m.write_plane_rect(l, cmd::WRITE_RAM_BW, mono, x0, y0, w, h, false).chain(
                            |m: Panel, _u: ()|
                                m.activate(l, 0x00, 0x3F, 5_000).chain(
                                    |m: Panel, _u: ()|
                                        m.write_plane_rect(
                                            l,
                                            cmd::WRITE_RAM_RED,
                                            mono,
                                            x0,
                                            y0,
                                            w,
                                            h,
                                            false,
                                        ).chain(
                                            |m: Panel, _u: ()|
                                                m.command_data(
                                                    l,
                                                    cmd::BORDER_WAVEFORM,
                                                    seq![0x01u8],
                                                ),
                                        ),
                                ),
                        ),
                ),
        )
    }

    /// Two inverted planes, a waveform, an activation.
    #[verifier::opaque]
    pub open spec fn show<S, P>(
        self,
        l: Trace<PanelEvent<S, P>>,
        bw: Seq<u8>,
        red: Seq<u8>,
        lut: Seq<u8>,
        c2: u8,
        timeout_ms: u32,
    ) -> Run<Panel, (), Error<S, P>> {
        self.write_plane(l, cmd::WRITE_RAM_BW, bw, true).chain(
            |m: Panel, _u: ()|
                m.write_plane(l, cmd::WRITE_RAM_RED, red, true).chain(
                    |m: Panel, _u: ()|
                        m.send_lut(l, lut).chain(
                            |m: Panel, _u: ()| m.activate(l, 0x00, c2, timeout_ms),
                        ),
                ),
        )
    }

    /// Mode 1 exchanges the planes on an odd face and powers down; mode 2
    /// keeps the panel powered.
    pub open spec fn refresh_gray4<S, P>(
        self,
        l: Trace<PanelEvent<S, P>>,
        luts: WaveformModel,
        lsb: Seq<u8>,
        msb: Seq<u8>,
        mode: GrayMode,
    ) -> Run<Panel, (), Error<S, P>> {
        self.ensure_known_face(l).chain(
            |m: Panel, _u: ()|
                match mode {
                    GrayMode::Fast => m.show(
                        l,
                        lsb,
                        msb,
                        luts.fast,
                        ctrl2::MODE2 | ctrl2::DISPLAY,
                        5_000,
                    ),
                    _ => m.show(
                        l,
                        if m.face_odd {
                            msb
                        } else {
                            lsb
                        },
                        if m.face_odd {
                            lsb
                        } else {
                            msb
                        },
                        if mode == GrayMode::Quality {
                            luts.quality
                        } else {
                            luts.text
                        },
                        ctrl2::DISPLAY | ctrl2::DISABLE_ANALOG | ctrl2::DISABLE_CLOCK,
                        15_000,
                    ),
                },
        )
    }
}

} // verus!
