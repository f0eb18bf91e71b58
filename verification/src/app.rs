//! The application: a name plate that serves its content as an NFC tag, with
//! a reader mode, touch-controlled front light, BLE updates and an idle
//! deep-sleep policy for the e-paper panel.
//!
//! [`App`] holds what the application remembers between two rounds of its main
//! loop. Times are milliseconds since boot; every function that needs the
//! current time takes it as an argument. What a function does with the
//! hardware goes through the drivers it is handed.

use crate::app::image::MonoImage;
use crate::app::plate::{ContentModel, PlateContent};
use crate::st25r3916::NfcaTag;
use crate::t2t_emu::{State, T2tEmulator};
use vstd::prelude::*;

pub mod ble;
pub mod image;
pub mod nfc;
pub mod panel;
pub mod plate;
pub mod scene;
pub mod storage;
pub mod ui;

verus! {

/// EPD is put into deep sleep after this much time without activity.
pub const EPD_IDLE_SLEEP_MS: u64 = 60_000;

/// A full (Text-mode) refresh is forced after this many fastest updates.
pub const FASTEST_PER_FULL: u32 = 10;

/// A tag is considered gone after not answering for this long.
pub const TAG_FORGET_MS: u64 = 1_500;

/// With no tag present the RF field is only pulsed on for each poll
/// (duty cycling); polling then slows down to this period.
pub const IDLE_POLL_MS: u32 = 500;

/// Poll period while a tag is (or was just) present.
pub const ACTIVE_POLL_MS: u32 = 200;

/// After switching the field on, give phones (card emulation needs to boot)
/// this long before the first WUPA. Physical tags would need ~5 ms.
pub const FIELD_SETTLE_MS: u32 = 80;

/// Main-loop sleep while nothing is going on (no reader, no BLE central).
pub const IDLE_TICK_MS: u32 = 5;

/// Even with the IRQ line quiet, poll the NFC chip this often as a safety
/// net (field detection while the emulator is `Off` reads a register).
pub const NFC_SAFETY_POLL_MS: u64 = 250;

/// Heartbeat log period.
pub const HEARTBEAT_MS: u64 = 10_000;

/// Master switch for doze mode. Light sleep does not return reliably on this
/// board, and a hung plate can only be recovered with a power cycle. Off until
/// that is understood.
pub const DOZE_ENABLED: bool = false;

/// Doze (light sleep, BLE off) after this long without any activity
/// (touch, button, NFC field, BLE traffic).
pub const DOZE_AFTER_MS: u64 = 120_000;

/// Never doze this soon after boot (keeps the USB console alive for
/// development; light sleep drops the USB-JTAG link).
pub const DOZE_MIN_UPTIME_MS: u64 = 60_000;

/// Light-sleep chunk while dozing; GPIO wake sources cut it short.
pub const DOZE_SLEEP_MS: u32 = 250;

/// Bench doze test length (light sleeps).
pub const DOZE_TEST_SLEEPS: u32 = 8;

/// Images up to this many bytes stay resident; larger ones (a full screen is
/// 48 KB) are re-read from flash for each redraw so that the heap can hold an
/// incoming BLE image alongside the BLE stack.
pub const IMAGE_KEEP_MAX: usize = 8192;

/// The emulator's chip may be wedged after this long without a field.
pub const FIELD_WATCHDOG_MS: u64 = 120_000;

/// A button has to be held this long.
pub const BUTTON_HOLD_MS: u64 = 1_000;

/// Automatic change between emulation and reader mode (diagnostics).
pub const AUTO_AB_MS: u64 = 10_000;

/// The application's memory.
pub struct App {
    pub last_tag: Option<NfcaTag>,
    pub tag_count: u32,
    pub fast_refreshes: u32,
    pub last_activity: u64,
    pub boot: u64,
    pub polls: u32,
    pub epd_sleeping: bool,
    pub frontlight_on: bool,
    pub touch_down: bool,
    /// `true` = field always on (reference behaviour), `false` = duty-cycled
    /// field when no tag is present.
    pub field_always_on: bool,
    pub btn_a_down: bool,
    pub btn_a_since: u64,
    pub btn_a_armed: bool,
    /// Diagnostic: alternate emulation/reader every 10 s automatically.
    pub auto_ab: bool,
    pub auto_ab_since: u64,
    /// `true`: act as an NFC tag (name-plate mode); `false`: reader mode.
    pub emulate: bool,
    /// What the plate shows and serves.
    pub plate: Plate,
    pub emu_running: bool,
    /// Last time the emulator saw any field activity (for the re-init watchdog).
    pub emu_last_field: u64,
    /// Last time the NFC chip was polled despite a quiet IRQ line.
    pub nfc_last_poll: u64,
    pub hb_last: u64,
    pub hb_idle_us: u32,
    /// Doze mode: BLE off, light sleep between NFC/touch/button checks.
    pub dozing: bool,
    /// Poll the NFC chip on the next tick regardless of the IRQ line
    /// (set after each light sleep, whose wake reason we do not decode).
    pub force_nfc_poll: bool,
    pub light_sleeps: u32,
    /// Bench: doze for a fixed number of light sleeps regardless of the
    /// idle/USB conditions, then wake and report.
    pub doze_test: bool,
}

/// What the plate shows and serves.
pub struct Plate {
    pub emu: T2tEmulator,
    pub content: PlateContent,
    /// A display image that is kept in memory.
    pub image: Option<MonoImage>,
    /// A display image is stored in the flash image slot. Large images are
    /// not kept in memory between redraws.
    pub image_in_flash: bool,
}

/// The work of one round of the main loop.
#[derive(Debug, Clone, Copy, PartialEq, Eq, Structural)]
pub enum Chore {
    /// Serve the emulated tag for a while.
    Emulate,
    /// Light sleep for so many milliseconds.
    LightSleep(u32),
    /// Let the main task sleep for so many milliseconds.
    Sleep(u32),
    /// Sleep so long, then look for a tag.
    PollAfter(u32),
}

/// May the plate doze?
#[derive(Debug, Clone, Copy, PartialEq, Eq, Structural)]
pub enum Doze {
    Yes,
    No,
    /// Unless a USB host is attached.
    UnlessUsbHost,
}

/// Milliseconds from `since` to `now`.
pub open spec fn elapsed(since: u64, now: u64) -> int {
    if now < since {
        0
    } else {
        now - since
    }
}

pub fn elapsed_ms(since: u64, now: u64) -> (ms: u64)
    ensures
        ms == elapsed(since, now),
{
    if now < since {
        0
    } else {
        now - since
    }
}

/// The percentage that `idle_us` is of `elapsed_us`.
pub open spec fn idle_share(idle_us: u32, elapsed_us: u64) -> u32 {
    let share = idle_us * 100 / (if elapsed_us < 1 {
        1int
    } else {
        elapsed_us as int
    });
    (share % 0x1_0000_0000) as u32
}

impl App {
    /// Is a reader engaged with the emulated tag?
    pub open spec fn engaged(&self) -> bool {
        self.emu_running && self.plate.emu.state != State::Off
    }

    /// Does the emulated tag want attention? At start-up, while a reader is
    /// engaged, after a light sleep, when the chip signals something, and for
    /// a slow safety poll.
    pub open spec fn wants_nfc(&self, irq_high: bool, now: u64) -> bool {
        ||| !self.emu_running
        ||| self.engaged()
        ||| self.force_nfc_poll
        ||| irq_high
        ||| elapsed(self.nfc_last_poll, now) > NFC_SAFETY_POLL_MS
    }

    /// Everything quiet for long enough, and not too soon after boot?
    pub open spec fn quiet(&self, now: u64) -> bool {
        &&& self.emulate
        &&& !self.touch_down
        &&& self.plate.emu.state == State::Off
        &&& elapsed(self.boot, now) > DOZE_MIN_UPTIME_MS
        &&& elapsed(self.last_activity, now) > DOZE_AFTER_MS
    }

    pub fn new(now: u64) -> (app: Self)
        ensures
            app.emulate,
            !app.emu_running && !app.epd_sleeping && !app.frontlight_on && !app.touch_down,
            !app.field_always_on && !app.btn_a_down && !app.btn_a_armed && !app.auto_ab,
            !app.dozing && !app.force_nfc_poll && !app.doze_test,
            app.last_tag is None,
            app.tag_count == 0 && app.fast_refreshes == 0 && app.polls == 0 && app.light_sleeps == 0
                && app.hb_idle_us == 0,
            app.last_activity == now && app.boot == now && app.btn_a_since == now
                && app.auto_ab_since == now && app.emu_last_field == now && app.nfc_last_poll == now
                && app.hb_last == now,
            app.plate.image is None && !app.plate.image_in_flash,
            app.plate.content@ == ContentModel::demo(),
            app.plate.emu@ == crate::t2t_emu::model::Tag::fresh(
                seq![0x04u8, 0x50u8, 0x41u8, 0x50u8, 0x45u8, 0x52u8, 0x01u8],
            ),
    {
        let uid = [0x04u8, 0x50u8, 0x41u8, 0x50u8, 0x45u8, 0x52u8, 0x01u8];
        assert(uid@ =~= seq![0x04u8, 0x50u8, 0x41u8, 0x50u8, 0x45u8, 0x52u8, 0x01u8]);
        App {
            last_tag: None,
            tag_count: 0,
            fast_refreshes: 0,
            last_activity: now,
            boot: now,
            polls: 0,
            epd_sleeping: false,
            frontlight_on: false,
            touch_down: false,
            field_always_on: false,
            btn_a_down: false,
            btn_a_since: now,
            btn_a_armed: false,
            auto_ab: false,
            auto_ab_since: now,
            emulate: true,
            plate: Plate {
                emu: T2tEmulator::new(uid),
                content: PlateContent::demo(),
                image: None,
                image_in_flash: false,
            },
            emu_running: false,
            emu_last_field: now,
            nfc_last_poll: now,
            hb_last: now,
            hb_idle_us: 0,
            dozing: false,
            force_nfc_poll: false,
            light_sleeps: 0,
            doze_test: false,
        }
    }

    /// The work of one round: touch, buttons, EPD sleep and heartbeat follow
    /// it. `allow_emulation == false` skips the time-consuming NFC slice.
    pub open spec fn chore(&self, allow_emulation: bool, irq_high: bool, now: u64) -> Chore {
        if self.emulate {
            if !allow_emulation {
                Chore::Sleep(1)
            } else if self.wants_nfc(irq_high, now) {
                Chore::Emulate
            } else if self.dozing {
                Chore::LightSleep(DOZE_SLEEP_MS)
            } else {
                Chore::Sleep(IDLE_TICK_MS)
            }
        } else {
            Chore::PollAfter(
                if self.last_tag is Some {
                    ACTIVE_POLL_MS
                } else {
                    IDLE_POLL_MS
                },
            )
        }
    }

    fn next_chore(&self, allow_emulation: bool, irq_high: bool, now: u64) -> (chore: Chore)
        ensures
            chore == self.chore(allow_emulation, irq_high, now),
    {
        if !self.emulate {
            return Chore::PollAfter(
                if self.last_tag.is_some() {
                    ACTIVE_POLL_MS
                } else {
                    IDLE_POLL_MS
                },
            );
        }
        if !allow_emulation {
            return Chore::Sleep(1);
        }
        let engaged = self.emu_running && self.plate.emu.state() != State::Off;
        if !self.emu_running || engaged || self.force_nfc_poll || irq_high || elapsed_ms(
            self.nfc_last_poll,
            now,
        ) > NFC_SAFETY_POLL_MS {
            Chore::Emulate
        } else if self.dozing {
            Chore::LightSleep(DOZE_SLEEP_MS)
        } else {
            Chore::Sleep(IDLE_TICK_MS)
        }
    }

    /// Decide on the work of one round.
    pub fn tick(&mut self, allow_emulation: bool, irq_high: bool, now: u64) -> (chore: Chore)
        ensures
            chore == old(self).chore(allow_emulation, irq_high, now),
            *final(self) == (App {
                polls: ((old(self).polls + 1) % 0x1_0000_0000) as u32,
                nfc_last_poll: if chore == Chore::Emulate {
                    now
                } else {
                    old(self).nfc_last_poll
                },
                force_nfc_poll: old(self).force_nfc_poll && chore != Chore::Emulate,
                ..*old(self)
            }),
    {
        let chore = self.next_chore(allow_emulation, irq_high, now);
        if chore == Chore::Emulate {
            self.nfc_last_poll = now;
            self.force_nfc_poll = false;
        }
        self.polls = self.polls.wrapping_add(1);
        chore
    }

    /// Alternate between emulation and reader mode, if asked to: did the mode
    /// become reader mode?
    pub fn alternate(&mut self, now: u64) -> (to_reader: bool)
        ensures
            ({
                let due = old(self).auto_ab && elapsed(old(self).auto_ab_since, now) > AUTO_AB_MS;
                &&& to_reader == (due && old(self).emulate)
                &&& *final(self) == if due {
                    App { auto_ab_since: now, emulate: !old(self).emulate, ..*old(self) }
                } else {
                    *old(self)
                }
            }),
    {
        if self.auto_ab && elapsed_ms(self.auto_ab_since, now) > AUTO_AB_MS {
            self.auto_ab_since = now;
            self.emulate = !self.emulate;
            return !self.emulate;
        }
        false
    }

    /// Everything quiet for long enough (and not too soon after boot)?
    pub fn should_doze(&self, now: u64) -> (doze: Doze)
        ensures
            doze == if self.doze_test {
                Doze::Yes
            } else if DOZE_ENABLED && self.quiet(now) {
                Doze::UnlessUsbHost
            } else {
                Doze::No
            },
    {
        if self.doze_test {
            return Doze::Yes;
        }
        if DOZE_ENABLED && self.emulate && !self.touch_down && self.plate.emu.state() == State::Off
            && elapsed_ms(self.boot, now) > DOZE_MIN_UPTIME_MS && elapsed_ms(
            self.last_activity,
            now,
        ) > DOZE_AFTER_MS {
            return Doze::UnlessUsbHost;
        }
        Doze::No
    }

    /// A light sleep is over.
    pub fn slept(&mut self)
        ensures
            *final(self) == (App {
                light_sleeps: ((old(self).light_sleeps + 1) % 0x1_0000_0000) as u32,
                force_nfc_poll: true,
                ..*old(self)
            }),
    {
        self.light_sleeps = self.light_sleeps.wrapping_add(1);
        self.force_nfc_poll = true;
    }

    /// A bench doze test that began at `first` light sleeps is over after its
    /// number of light sleeps; this counts as activity.
    pub fn end_doze_test(&mut self, first: u32, now: u64)
        ensures
            *final(self) == if old(self).doze_test && (old(self).light_sleeps - first)
                % 0x1_0000_0000 >= DOZE_TEST_SLEEPS {
                App { doze_test: false, last_activity: now, ..*old(self) }
            } else {
                *old(self)
            },
    {
        if self.doze_test && self.light_sleeps.wrapping_sub(first) >= DOZE_TEST_SLEEPS {
            self.doze_test = false;
            self.last_activity = now;
        }
    }

    /// Periodic status: the share of time the CPU spent sleeping since the
    /// previous one, once per period. `idle_us` is a running, wrapping total;
    /// `elapsed_us` the time since the previous status.
    pub fn heartbeat(&mut self, now: u64, elapsed_us: u64, idle_us: u32) -> (share: Option<u32>)
        ensures
            elapsed_us / 1000 < HEARTBEAT_MS ==> share is None && *final(self) == *old(self),
            elapsed_us / 1000 >= HEARTBEAT_MS ==> {
                &&& share == Some(
                    idle_share(
                        ((idle_us - old(self).hb_idle_us) % 0x1_0000_0000) as u32,
                        elapsed_us,
                    ),
                )
                &&& *final(self) == (App { hb_last: now, hb_idle_us: idle_us, ..*old(self) })
            },
    {
        if elapsed_us / 1000 < HEARTBEAT_MS {
            return None;
        }
        self.hb_last = now;
        let idle = idle_us.wrapping_sub(self.hb_idle_us);
        self.hb_idle_us = idle_us;
        let share = idle as u64 * 100 / if elapsed_us < 1 {
            1u64
        } else {
            elapsed_us
        };
        Some((share % 0x1_0000_0000) as u32)
    }

    /// The memory after a look at the buttons: any button counts as activity,
    /// and one that is held long enough switches the mode, once per press.
    pub open spec fn buttons(self, a_low: bool, b_low: bool, now: u64) -> App {
        let pressed = a_low && !self.btn_a_down;
        let held = a_low && self.btn_a_down && self.btn_a_armed && elapsed(self.btn_a_since, now)
            > BUTTON_HOLD_MS;
        App {
            last_activity: if a_low || b_low {
                now
            } else {
                self.last_activity
            },
            btn_a_since: if pressed {
                now
            } else {
                self.btn_a_since
            },
            btn_a_armed: pressed || (self.btn_a_armed && !held),
            emulate: self.emulate != held,
            btn_a_down: a_low,
            ..self
        }
    }

    /// Button A (active low) switches between tag emulation and reader mode.
    /// Requires ~1 s hold so it cannot be toggled by accident while handling
    /// the device. Did the mode become reader mode?
    pub fn handle_buttons(&mut self, a_low: bool, b_low: bool, now: u64) -> (to_reader: bool)
        ensures
            *final(self) == (*old(self)).buttons(a_low, b_low, now),
            to_reader == (old(self).emulate && !final(self).emulate),
    {
        let mut to_reader = false;
        if a_low || b_low {
            self.last_activity = now;
        }
        if a_low && !self.btn_a_down {
            self.btn_a_since = now;
            self.btn_a_armed = true;
        }
        if a_low && self.btn_a_down && self.btn_a_armed && elapsed_ms(self.btn_a_since, now)
            > BUTTON_HOLD_MS {
            // once per press
            self.btn_a_armed = false;
            self.emulate = !self.emulate;
            to_reader = !self.emulate;
        }
        self.btn_a_down = a_low;
        to_reader
    }
}

/// A press that lasts at most the hold time does not switch the mode,
/// however often the button is looked at meanwhile.
pub proof fn a_short_press_does_not_switch(app: App, b0: bool, b1: bool, t0: u64, t1: u64)
    requires
        !app.btn_a_down,
        elapsed(t0, t1) <= BUTTON_HOLD_MS,
    ensures
        app.buttons(true, b0, t0).emulate == app.emulate,
        app.buttons(true, b0, t0).buttons(true, b1, t1).emulate == app.emulate,
        app.buttons(true, b0, t0).buttons(true, b1, t1).btn_a_since == t0,
        app.buttons(true, b0, t0).buttons(false, b1, t1).emulate == app.emulate,
{
}

/// A button that stays down switches the mode once.
pub proof fn a_held_button_switches_once(app: App, b0: bool, b1: bool, t0: u64, t1: u64)
    requires
        app.btn_a_down,
        app.buttons(true, b0, t0).emulate != app.emulate,
    ensures
        app.buttons(true, b0, t0).buttons(true, b1, t1).emulate == app.buttons(
            true,
            b0,
            t0,
        ).emulate,
{
}

// ----------------------------------------------------------------------
// what the decisions come to
// ----------------------------------------------------------------------

/// Time passes forwards; a clock that went back counts as no time.
pub proof fn time_is_counted(since: u64, now: u64)
    ensures
        since <= now ==> elapsed(since, now) == now - since,
        now < since ==> elapsed(since, now) == 0,
{
}

/// As a tag, the plate serves the reader whenever there may be one: before it
/// has started, while one is engaged, after a sleep, when the chip calls, and
/// at least every quarter of a second.
pub proof fn readers_are_not_kept_waiting(app: App, irq_high: bool, now: u64)
    requires
        app.emulate,
        !app.emu_running || app.plate.emu.state != State::Off || app.force_nfc_poll || irq_high || (
        app.nfc_last_poll <= now && now - app.nfc_last_poll > 250),
    ensures
        app.chore(true, irq_high, now) == Chore::Emulate,
{
}

/// With no reader about the plate rests: five milliseconds, or a light sleep
/// of a quarter of a second while it dozes. While something else has the
/// floor it only yields.
pub proof fn the_plate_rests_between(app: App, irq_high: bool, now: u64)
    requires
        app.emulate,
    ensures
        app.chore(false, irq_high, now) == Chore::Sleep(1),
        app.emu_running && app.plate.emu.state == State::Off && !app.force_nfc_poll && !irq_high
            && elapsed(app.nfc_last_poll, now) <= 250 ==> app.chore(true, irq_high, now)
            == if app.dozing {
            Chore::LightSleep(250)
        } else {
            Chore::Sleep(5)
        },
{
}

/// As a reader, the plate looks for tags five times a second while one is
/// about, and twice a second otherwise.
pub proof fn tags_are_looked_for(app: App, allow: bool, irq_high: bool, now: u64)
    requires
        !app.emulate,
    ensures
        app.chore(allow, irq_high, now) == Chore::PollAfter(
            if app.last_tag is Some {
                200
            } else {
                500
            },
        ),
{
}

/// The plate is quiet once, as a tag without a reader and without a finger on
/// it, nothing has happened for two minutes and it has been up for one.
pub proof fn the_plate_is_quiet(app: App, now: u64)
    requires
        app.boot <= now,
        app.last_activity <= now,
    ensures
        app.quiet(now) <==> app.emulate && !app.touch_down && app.plate.emu.state == State::Off && now
            - app.boot > 60_000 && now - app.last_activity > 120_000,
{
}

/// A button press of more than a second switches the mode, whatever it was,
/// and counts as activity at every look; a release arms the button again.
pub proof fn a_long_press_switches(app: App, b0: bool, b1: bool, b2: bool, t0: u64, t1: u64, t2: u64)
    requires
        !app.btn_a_down,
        t0 <= t1,
        t1 - t0 > 1000,
    ensures
        ({
            let pressed = app.buttons(true, b0, t0);
            let held = pressed.buttons(true, b1, t1);
            let released = held.buttons(false, b2, t2);
            &&& pressed.last_activity == t0
            &&& held.emulate == !app.emulate
            &&& held.last_activity == t1
            &&& !held.btn_a_armed
            &&& released.emulate == held.emulate
            &&& !released.btn_a_down
            &&& released.last_activity == if b2 {
                t2
            } else {
                t1
            }
        }),
        ({
            let again = app.buttons(false, false, t0);
            &&& again.last_activity == app.last_activity
            &&& again.emulate == app.emulate
            &&& again.buttons(true, b1, t1).btn_a_armed
        }),
{
}

/// The share of idle time is a percentage: full when all time was idle, none
/// when none was, rounded down.
pub proof fn shares_are_percentages(idle_us: u32, elapsed_us: u64)
    requires
        0 < elapsed_us,
        idle_us <= elapsed_us,
    ensures
        idle_share(idle_us, elapsed_us) <= 100,
        idle_share(idle_us, elapsed_us) * elapsed_us <= idle_us * 100,
        idle_us * 100 < (idle_share(idle_us, elapsed_us) + 1) * elapsed_us,
{
    let n = idle_us * 100;
    let d = elapsed_us as int;
    let q = n / d;
    assert(q * d <= n < (q + 1) * d) by (nonlinear_arith)
        requires
            d > 0,
            q == n / d,
    ;
    assert(0 <= q <= 100) by (nonlinear_arith)
        requires
            0 <= n <= 100 * d,
            d > 0,
            q == n / d,
    ;
}

/// The times the decisions go by.
pub proof fn times_are_as_documented()
    ensures
        EPD_IDLE_SLEEP_MS == 60_000,
        FASTEST_PER_FULL == 10,
        TAG_FORGET_MS == 1_500,
        FIELD_SETTLE_MS == 80,
        HEARTBEAT_MS == 10_000,
        DOZE_TEST_SLEEPS == 8,
        IMAGE_KEEP_MAX == 8192,
        FIELD_WATCHDOG_MS == 120_000,
        AUTO_AB_MS == 10_000,
        !DOZE_ENABLED,
{
}

/// The emulated tag is attended to at start-up, while a reader is engaged with
/// it, after a light sleep, when the chip signals, and otherwise once its last
/// turn is more than 250 ms ago.
pub proof fn the_tag_gets_its_turn(app: App, irq_high: bool, now: u64)
    requires
        app.nfc_last_poll <= now,
    ensures
        !app.emu_running || app.force_nfc_poll || irq_high ==> app.wants_nfc(irq_high, now),
        app.emu_running && app.plate.emu.state != State::Off ==> app.engaged() && app.wants_nfc(
            irq_high,
            now,
        ),
        !app.emu_running || app.plate.emu.state == State::Off ==> !app.engaged(),
        app.emu_running && app.plate.emu.state == State::Off && !app.force_nfc_poll && !irq_high
            ==> (app.wants_nfc(irq_high, now) <==> now - app.nfc_last_poll > 250),
{
}

} // verus!
