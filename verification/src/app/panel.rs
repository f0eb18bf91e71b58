//! The application's use of the display, the touch panel and the front light.

use crate::app::ui::{PANEL_H, PANEL_W, PANEL_X, PANEL_Y};
use crate::app::{elapsed_ms, App, EPD_IDLE_SLEEP_MS, FASTEST_PER_FULL};
use crate::board::display::{Display, DisplayStep};
use crate::bus::{BusEvent, Delay, I2cPort};
use crate::ft6336::{Ft6336, TouchPoint};
use crate::pm1::Pm1;
use crate::ssd1677::port::{InPin, OutPin, PanelEvent, SpiPort};
use crate::ssd1677::{Error as EpdError, FrameBuffer, GrayMode, Ssd1677};
use crate::trace::{Run, Trace};
use vstd::prelude::*;

verus! {

broadcast use crate::trace::extends_transitive;

/// Front light brightness when it is on.
pub const FRONTLIGHT: u8 = 128;

impl App {
    // ------------------------------------------------------------------
    // touch
    // ------------------------------------------------------------------

    /// Does the touch panel have to be read? INT is low while a finger is
    /// down; reading goes on until the release is seen.
    pub fn wants_touch(&self, int_high: bool) -> (yes: bool)
        ensures
            yes == (self.touch_down || !int_high),
    {
        self.touch_down || !int_high
    }

    /// A finger comes down.
    pub open spec fn tapped(&self, touches: Option<usize>) -> bool {
        touches is Some && touches->Some_0 > 0 && !self.touch_down
    }

    /// The memory after the touch panel reported so many touches, or failed:
    /// a tap toggles the front light and counts as activity.
    pub open spec fn after_touch(self, touches: Option<usize>, now: u64) -> App {
        App {
            touch_down: if touches is Some {
                touches->Some_0 > 0
            } else {
                self.touch_down
            },
            frontlight_on: self.frontlight_on != self.tapped(touches),
            last_activity: if self.tapped(touches) {
                now
            } else {
                self.last_activity
            },
            ..self
        }
    }

    fn note_touch(&mut self, touches: Option<usize>, now: u64)
        ensures
            *final(self) == (*old(self)).after_touch(touches, now),
    {
        if let Some(n) = touches {
            if n > 0 && !self.touch_down {
                self.frontlight_on = !self.frontlight_on;
                self.last_activity = now;
            }
            self.touch_down = n > 0;
        }
    }

    /// A tap toggles the front light and counts as activity. The number of
    /// touches, if the panel could be read.
    pub fn handle_touch<P: I2cPort>(
        &mut self,
        touch: &mut Ft6336<P>,
        pm1: &mut Pm1<P>,
        now: u64,
    ) -> (touches: Option<usize>)
        ensures
            *final(self) == (*old(self)).after_touch(touches, now),
            final(touch).bus.trace().extends(old(touch).bus.trace()),
            forall|l: Trace<BusEvent<P::Error>>|
                l.extends(final(touch).bus.trace()) ==> match #[trigger] crate::i2c_reg::cursor(
                    &old(touch).bus,
                ).read(l, crate::ft6336::ADDR, crate::ft6336::reg::TD_STATUS, 13) {
                    Run::Done(c, r) => {
                        &&& c == crate::i2c_reg::cursor(&final(touch).bus)
                        &&& touches == (match r {
                            Ok(buf) => Some(crate::ft6336::touches(buf) as usize),
                            Err(_) => None,
                        })
                    },
                    Run::Off => false,
                },
            final(pm1).bus.trace().extends(old(pm1).bus.trace()),
            !old(self).tapped(touches) ==> *final(pm1) == *old(pm1),
            old(self).tapped(touches) ==> forall|l: Trace<BusEvent<P::Error>>|
                l.extends(final(pm1).bus.trace()) ==> match #[trigger] crate::i2c_reg::cursor(
                    &old(pm1).bus,
                ).pm1_set_frontlight(l, frontlight_level(final(self).frontlight_on)) {
                    Run::Done(c, _) => c == crate::i2c_reg::cursor(&final(pm1).bus),
                    Run::Off => false,
                },
    {
        let mut points = [TouchPoint { x: 0, y: 0, event: 0, id: 0 }; 2];
        let touches = match touch.read(&mut points) {
            Ok(n) => Some(n),
            Err(_) => None,
        };
        let tapped = match touches {
            Some(n) => n > 0 && !self.touch_down,
            None => false,
        };
        self.note_touch(touches, now);
        if tapped {
            let level = if self.frontlight_on {
                FRONTLIGHT
            } else {
                0
            };
            let _ = pm1.set_frontlight(level);
        }
        touches
    }
}

pub open spec fn frontlight_level(on: bool) -> u8 {
    if on {
        FRONTLIGHT
    } else {
        0
    }
}

// ----------------------------------------------------------------------
// display
// ----------------------------------------------------------------------

/// The regions of the tag panel in native coordinates.
pub open spec fn panel_region() -> (u16, u16, u16, u16) {
    crate::ssd1677::framebuffer::native(PANEL_X, PANEL_Y, PANEL_W, PANEL_H)
}

impl App {
    /// Has the display been idle long enough to be put to sleep?
    pub open spec fn display_idle(&self, now: u64) -> bool {
        !self.epd_sleeping && crate::app::elapsed(self.last_activity, now) > EPD_IDLE_SLEEP_MS
    }

    /// Put an idle display into deep sleep; it counts as asleep whatever it
    /// answers.
    pub fn manage_epd_sleep<
        SPI: SpiPort,
        DC: OutPin,
        CS: OutPin<Error = DC::Error>,
        BUSY: InPin<Error = DC::Error>,
        D: Delay,
    >(&mut self, epd: &mut Ssd1677<SPI, DC, CS, BUSY>, delay: &mut D, now: u64)
        ensures
            *final(self) == (App {
                epd_sleeping: old(self).epd_sleeping || old(self).display_idle(now),
                ..*old(self)
            }),
            !old(self).display_idle(now) ==> *final(epd) == *old(epd),
            final(epd).waveforms == old(epd).waveforms,
            final(epd).trace().extends(old(epd).trace()),
            old(self).display_idle(now) ==> forall|
                l: Trace<PanelEvent<SPI::Error, DC::Error>>,
            |
                l.extends(final(epd).trace()) ==> match #[trigger] old(epd).panel().deep_sleep(l) {
                    Run::Done(m, _) => m == final(epd).panel(),
                    Run::Off => false,
                },
    {
        if !self.epd_sleeping && elapsed_ms(self.last_activity, now) > EPD_IDLE_SLEEP_MS {
            let _ = epd.deep_sleep(delay);
            self.epd_sleeping = true;
        }
    }

    /// Wake a sleeping display: hardware reset, then init, in this order and
    /// whatever they answer.
    pub fn wake_epd<
        P: I2cPort,
        SPI: SpiPort,
        DC: OutPin,
        CS: OutPin<Error = DC::Error>,
        BUSY: InPin<Error = DC::Error>,
        D: Delay,
    >(&mut self, display: &mut Display<P, SPI, DC, CS, BUSY>, delay: &mut D)
        ensures
            *final(self) == (App {
                epd_sleeping: false,
                fast_refreshes: if old(self).epd_sleeping {
                    0
                } else {
                    old(self).fast_refreshes
                },
                ..*old(self)
            }),
            !old(self).epd_sleeping ==> *final(display) == *old(display),
            old(self).epd_sleeping ==> final(display).log@ == old(display).log@.push(
                DisplayStep::Reset,
            ).push(DisplayStep::Init),
            final(display).ioe.bus.trace().extends(old(display).ioe.bus.trace()),
            old(self).epd_sleeping ==> forall|l: Trace<BusEvent<P::Error>>|
                l.extends(final(display).ioe.bus.trace()) ==> match #[trigger]
                crate::i2c_reg::cursor(&old(display).ioe.bus).epd_hard_reset(l) {
                    Run::Done(c, _) => c == crate::i2c_reg::cursor(&final(display).ioe.bus),
                    Run::Off => false,
                },
            final(display).epd.waveforms == old(display).epd.waveforms,
            final(display).epd.trace().extends(old(display).epd.trace()),
            old(self).epd_sleeping ==> forall|l: Trace<PanelEvent<SPI::Error, DC::Error>>|
                l.extends(final(display).epd.trace()) ==> match #[trigger] old(
                    display,
                ).epd.panel().init(l) {
                    Run::Done(m, _) => m == final(display).epd.panel(),
                    Run::Off => false,
                },
    {
        if self.epd_sleeping {
            let _ = display.reset(delay);
            let _ = display.init(delay);
            self.epd_sleeping = false;
            self.fast_refreshes = 0;
        }
    }

    /// Every so many updates one is a full refresh, against ghosting.
    pub open spec fn full_refresh_due(&self) -> bool {
        self.fast_refreshes % FASTEST_PER_FULL == 0
    }

    /// Refresh the tag panel: a differential monochrome update over what is
    /// displayed most of the time, with a periodic absolute Text refresh
    /// against ghosting. What is on the glass is tracked in `displayed`.
    pub fn refresh_panel_region<
        SPI: SpiPort,
        DC: OutPin,
        CS: OutPin<Error = DC::Error>,
        BUSY: InPin<Error = DC::Error>,
        D: Delay,
    >(
        &mut self,
        epd: &mut Ssd1677<SPI, DC, CS, BUSY>,
        delay: &mut D,
        fb: &FrameBuffer,
        displayed: &mut FrameBuffer,
    ) -> (res: Result<(), EpdError<SPI::Error, DC::Error>>)
        ensures
            *final(self) == (App {
                fast_refreshes: ((old(self).fast_refreshes + 1) % 0x1_0000_0000) as u32,
                ..*old(self)
            }),
            final(displayed).orientation == old(displayed).orientation,
            final(epd).waveforms == old(epd).waveforms,
            final(epd).trace().extends(old(epd).trace()),
            old(self).full_refresh_due() ==> forall|l: Trace<PanelEvent<SPI::Error, DC::Error>>|
                l.extends(final(epd).trace()) ==> #[trigger] old(epd).panel().refresh_gray4(
                    l,
                    old(epd).waveforms@,
                    fb.lsb@,
                    fb.msb@,
                    GrayMode::Text,
                ) == Run::Done(final(epd).panel(), res),
            !old(self).full_refresh_due() ==> forall|l: Trace<PanelEvent<SPI::Error, DC::Error>>|
                l.extends(final(epd).trace()) ==> #[trigger] old(epd).panel().refresh_mono_over(
                    l,
                    old(displayed).msb@,
                    fb.msb@,
                    panel_region().0,
                    panel_region().2,
                    panel_region().1,
                    panel_region().3,
                ) == Run::Done(final(epd).panel(), res),
            res is Err ==> final(displayed).lsb@ == old(displayed).lsb@ && final(displayed).msb@
                == old(displayed).msb@,
            res is Ok && old(self).full_refresh_due() ==> final(displayed).lsb@ == fb.lsb@
                && final(displayed).msb@ == fb.msb@,
            res is Ok && !old(self).full_refresh_due() ==> final(displayed).lsb@ == on_glass(
                old(displayed).lsb@,
                fb.msb@,
            )
            && final(displayed).msb@ == on_glass(old(displayed).msb@, fb.msb@),
    {
        let res = if self.fast_refreshes % FASTEST_PER_FULL == 0 {
            show_all(epd, delay, fb, displayed)
        } else {
            show_panel(epd, delay, fb, displayed)
        };
        self.fast_refreshes = self.fast_refreshes.wrapping_add(1);
        res
    }
}

/// A plane after the tag panel was folded in.
pub open spec fn on_glass(plane: Seq<u8>, mono: Seq<u8>) -> Seq<u8> {
    let (x0, w, y0, h) = panel_region();
    crate::ssd1677::framebuffer::patched(
        plane,
        mono,
        crate::ssd1677::framebuffer::first_byte(x0),
        crate::ssd1677::framebuffer::last_byte(x0, w),
        y0 as int,
        crate::ssd1677::framebuffer::last_row(y0, h),
    )
}

/// Show a whole screen with the text waveform; on success it is on the glass.
pub fn show_all<
    SPI: SpiPort,
    DC: OutPin,
    CS: OutPin<Error = DC::Error>,
    BUSY: InPin<Error = DC::Error>,
    D: Delay,
>(
    epd: &mut Ssd1677<SPI, DC, CS, BUSY>,
    delay: &mut D,
    fb: &FrameBuffer,
    displayed: &mut FrameBuffer,
) -> (res: Result<(), EpdError<SPI::Error, DC::Error>>)
    ensures
        final(epd).waveforms == old(epd).waveforms,
        final(epd).trace().extends(old(epd).trace()),
        forall|l: Trace<PanelEvent<SPI::Error, DC::Error>>|
            l.extends(final(epd).trace()) ==> #[trigger] old(epd).panel().refresh_gray4(
                l,
                old(epd).waveforms@,
                fb.lsb@,
                fb.msb@,
                GrayMode::Text,
            ) == Run::Done(final(epd).panel(), res),
        final(displayed).orientation == old(displayed).orientation,
        res is Ok ==> final(displayed).lsb@ == fb.lsb@
                && final(displayed).msb@ == fb.msb@,
        res is Err ==> final(displayed).lsb@ == old(displayed).lsb@
            && final(displayed).msb@ == old(displayed).msb@,
{
    let res = epd.display_gray4(delay, fb, GrayMode::Text);
    if res.is_ok() {
        displayed.copy_from(fb);
    }
    res
}

fn show_panel<
    SPI: SpiPort,
    DC: OutPin,
    CS: OutPin<Error = DC::Error>,
    BUSY: InPin<Error = DC::Error>,
    D: Delay,
>(
    epd: &mut Ssd1677<SPI, DC, CS, BUSY>,
    delay: &mut D,
    fb: &FrameBuffer,
    displayed: &mut FrameBuffer,
) -> (res: Result<(), EpdError<SPI::Error, DC::Error>>)
    ensures
        final(epd).waveforms == old(epd).waveforms,
        final(epd).trace().extends(old(epd).trace()),
        forall|l: Trace<PanelEvent<SPI::Error, DC::Error>>|
            l.extends(final(epd).trace()) ==> #[trigger] old(epd).panel().refresh_mono_over(
                l,
                old(displayed).msb@,
                fb.msb@,
                panel_region().0,
                panel_region().2,
                panel_region().1,
                panel_region().3,
            ) == Run::Done(final(epd).panel(), res),
        final(displayed).orientation == old(displayed).orientation,
        res is Ok ==> final(displayed).lsb@ == on_glass(old(displayed).lsb@, fb.msb@)
            && final(displayed).msb@ == on_glass(old(displayed).msb@, fb.msb@),
        res is Err ==> final(displayed).lsb@ == old(displayed).lsb@
            && final(displayed).msb@ == old(displayed).msb@,
{
    let (x0, w, y0, h) = FrameBuffer::native_region(PANEL_X, PANEL_Y, PANEL_W, PANEL_H);
    proof {
        crate::ssd1677::laws::native_regions_fit(PANEL_X, PANEL_Y, PANEL_W, PANEL_H);
    }
    let res = epd.refresh_mono_over(delay, &displayed.msb, &fb.msb, x0, y0, w, h);
    if res.is_ok() {
        displayed.apply_mono_region(&fb.msb, x0, w, y0, h);
    }
    res
}

// ----------------------------------------------------------------------
// what the decisions come to
// ----------------------------------------------------------------------

/// A finger that comes down toggles the front light, once until it is lifted,
/// and counts as activity; a panel that cannot be read changes nothing.
pub proof fn a_tap_toggles_the_light(app: App, n: usize, m: usize, t0: u64, t1: u64)
    requires
        !app.touch_down,
        n > 0,
        m > 0,
    ensures
        ({
            let down = app.after_touch(Some(n), t0);
            let held = down.after_touch(Some(m), t1);
            let up = held.after_touch(Some(0), t1);
            &&& down.frontlight_on == !app.frontlight_on && down.touch_down && down.last_activity
                == t0
            &&& held.frontlight_on == down.frontlight_on && held.touch_down && held.last_activity
                == t0
            &&& up.frontlight_on == down.frontlight_on && !up.touch_down
        }),
        app.after_touch(Some(0), t0) == app,
        app.after_touch(None, t0) == app,
{
}

/// The front light is at half power or off.
pub proof fn the_light_has_its_power()
    ensures
        frontlight_level(true) == 128,
        frontlight_level(false) == 0,
{
}

/// The display sleeps after a minute without activity, unless it does already.
pub proof fn an_idle_display_sleeps(app: App, now: u64)
    requires
        app.last_activity <= now,
    ensures
        app.display_idle(now) <==> !app.epd_sleeping && now - app.last_activity > 60_000,
{
}

/// Of ten updates of the panel one is a full refresh, the first one among
/// them.
pub proof fn every_tenth_update_is_full(app: App, n: u32)
    requires
        app.fast_refreshes == n,
    ensures
        app.full_refresh_due() <==> n % 10 == 0,
{
}

/// The panel in native terms: its top and height are bit columns, its left
/// side and width are rows.
pub proof fn the_panel_has_its_region()
    ensures
        panel_region() == (200u16, 380u16, 12u16, 456u16),
{
}

/// The panel's rectangle, and nothing else, replaces what the glass shows.
pub proof fn the_glass_gets_the_panel(plane: Seq<u8>, mono: Seq<u8>, row: int, col: int)
    requires
        plane.len() == 48_000,
        mono.len() == 48_000,
        0 <= row < 480,
        0 <= col < 100,
    ensures
        on_glass(plane, mono)[100 * row + col] == if 12 <= row < 468 && 25 <= col <= 72 {
            mono[100 * row + col]
        } else {
            plane[100 * row + col]
        },
{
    the_panel_has_its_region();
    crate::ssd1677::framebuffer::folding_replaces_a_rectangle(
        plane,
        mono,
        200,
        380,
        12,
        456,
        row,
        col,
    );
}

} // verus!
