use std::cell::RefCell;
use std::collections::HashMap;
use std::rc::Rc;

use paper_name_plate::app::image::MonoImage;
use paper_name_plate::app::nfc::{inspect, next_round, Round};
use paper_name_plate::app::scene::Item;
use paper_name_plate::app::{App, Chore, Doze};
use paper_name_plate::board::display::Display;
use paper_name_plate::bus::{Delay, I2cPort};
use paper_name_plate::config_store::{self, Flash, FlashPort};
use paper_name_plate::ft6336::Ft6336;
use paper_name_plate::ioe1::Ioe1;
use paper_name_plate::pm1::Pm1;
use paper_name_plate::ssd1677::port::{InPin, OutPin, SpiPort};
use paper_name_plate::ssd1677::{FrameBuffer, Ssd1677, Waveforms, LUT_LEN};
use paper_name_plate::st25r3916::{irq, Error as NfcError, NfcaTag, St25r3916};
use paper_name_plate::t2t_emu::{Event, State};

/// A simulated chip: registers, FIFO, interrupts, and a script of answers to
/// transmitted frames.
struct Sim {
    regs: [u8; 64],
    regs_b: [u8; 64],
    irq: [u8; 4],
    fifo: Vec<u8>,
    loaded: Vec<u8>,
    pt_memory: Vec<u8>,
    script: Vec<Answer>,
    writes: Vec<Vec<u8>>,
    frames: Vec<Vec<u8>>,
    calls: usize,
    fail_from: usize,
    crystal: bool,
}

#[derive(Clone)]
struct Answer {
    irq: u32,
    fifo: Vec<u8>,
    collision: u8,
}

fn answer(irq: u32, fifo: &[u8]) -> Answer {
    Answer { irq, fifo: fifo.to_vec(), collision: 0 }
}

impl Sim {
    fn new() -> Sim {
        let mut regs = [0u8; 64];
        regs[0x3F] = 0x2A;
        Sim {
            regs,
            regs_b: [0; 64],
            irq: [0; 4],
            fifo: Vec::new(),
            loaded: Vec::new(),
            pt_memory: Vec::new(),
            script: Vec::new(),
            writes: Vec::new(),
            frames: Vec::new(),
            calls: 0,
            fail_from: usize::MAX,
            crystal: true,
        }
    }

    fn raise(&mut self, irq: u32) {
        let b = irq.to_be_bytes();
        for i in 0..4 {
            self.irq[i] |= b[i];
        }
    }

    fn command(&mut self, c: u8) {
        if c == 0xDB {
            self.fifo.clear();
        }
        if (0xC4..=0xC7).contains(&c) {
            let frame = if c >= 0xC6 { vec![c] } else { self.loaded.clone() };
            self.frames.push(frame);
            if !self.script.is_empty() {
                let a = self.script.remove(0);
                self.fifo = a.fifo;
                self.regs[0x20] = a.collision;
                self.raise(a.irq);
            }
        }
    }

    fn write_bytes(&mut self, bytes: &[u8]) {
        self.writes.push(bytes.to_vec());
        let head = bytes[0];
        if head < 0x40 {
            for (i, v) in bytes[1..].iter().enumerate() {
                let r = head as usize + i;
                let before = self.regs[r];
                self.regs[r] = *v;
                if r == 0x02 && self.crystal && before & 0x80 == 0 && v & 0x80 != 0 {
                    self.regs[0x31] |= 0x10;
                    self.raise(0x8000_0000);
                }
            }
        } else if head == 0x80 {
            self.loaded = bytes[1..].to_vec();
        } else if head == 0xA0 {
            self.pt_memory = bytes[1..].to_vec();
        } else if head == 0xFB {
            self.regs_b[bytes[1] as usize] = bytes[2];
        } else if head != 0xFC {
            self.command(head);
        }
    }

    fn read_one(&mut self, r: usize) -> u8 {
        match r {
            0x1A..=0x1D => std::mem::take(&mut self.irq[r - 0x1A]),
            0x1E => self.fifo.len() as u8,
            0x1F => ((self.fifo.len() >> 2) & 0xC0) as u8,
            _ => self.regs[r],
        }
    }
}

impl I2cPort for Sim {
    type Error = u8;

    fn write(&mut self, addr: u8, bytes: &[u8]) -> Result<(), u8> {
        assert_eq!(addr, 0x50);
        self.calls += 1;
        if self.calls > self.fail_from {
            return Err(7);
        }
        self.write_bytes(bytes);
        Ok(())
    }

    fn write_parts(&mut self, addr: u8, head: &[u8], tail: &[u8]) -> Result<(), u8> {
        let mut all = head.to_vec();
        all.extend_from_slice(tail);
        self.write(addr, &all)
    }

    fn write_read(&mut self, addr: u8, bytes: &[u8], len: usize) -> Result<Vec<u8>, u8> {
        assert_eq!(addr, 0x50);
        self.calls += 1;
        if self.calls > self.fail_from {
            return Err(7);
        }
        if bytes[0] == 0x9F {
            return Ok(self.fifo.drain(..len).collect());
        }
        if bytes[0] == 0xFB || bytes[0] == 0xFC {
            return Ok(vec![self.regs_b[(bytes[1] & 0x3F) as usize]; len]);
        }
        let first = (bytes[0] & 0x3F) as usize;
        Ok((0..len).map(|i| self.read_one(first + i)).collect())
    }
}

struct Pauses {
    us: u64,
}

impl Delay for Pauses {
    fn delay_ms(&mut self, ms: u32) {
        self.us += ms as u64 * 1000;
    }

    fn delay_us(&mut self, us: u32) {
        self.us += us as u64;
    }
}


const RXE: u32 = irq::RXE;

#[test]
fn the_first_chore_is_to_start_the_tag() {
    let mut app = App::new(1000);
    assert_eq!(app.tick(true, false, 1000), Chore::Emulate);
    assert_eq!((app.polls, app.nfc_last_poll), (1, 1000));
    assert_eq!(app.tick(false, false, 1000), Chore::Sleep(1));
}

#[test]
fn a_quiet_chip_lets_the_plate_sleep() {
    let mut app = App::new(0);
    app.emu_running = true;
    app.nfc_last_poll = 1000;
    assert_eq!(app.tick(true, false, 1250), Chore::Sleep(5));
    assert_eq!(app.tick(true, false, 1251), Chore::Emulate);
    assert_eq!(app.tick(true, true, 1252), Chore::Emulate);
    app.dozing = true;
    assert_eq!(app.tick(true, false, 1253), Chore::LightSleep(250));
    app.slept();
    assert_eq!((app.light_sleeps, app.force_nfc_poll), (1, true));
    assert_eq!(app.tick(true, false, 1253), Chore::Emulate);
    assert!(!app.force_nfc_poll);
    app.plate.emu.state = State::Idle;
    assert_eq!(app.tick(true, false, 1254), Chore::Emulate);
}

#[test]
fn reader_mode_polls() {
    let mut app = App::new(0);
    app.emulate = false;
    assert_eq!(app.tick(true, false, 0), Chore::PollAfter(500));
    app.last_tag = Some(NfcaTag::default());
    assert_eq!(app.tick(true, false, 0), Chore::PollAfter(200));
}

#[test]
fn a_button_has_to_be_held() {
    let mut app = App::new(0);
    assert!(!app.handle_buttons(true, false, 100));
    assert_eq!(app.last_activity, 100);
    assert!(!app.handle_buttons(true, false, 1100));
    assert!(app.emulate);
    assert!(app.handle_buttons(true, false, 1101));
    assert!(!app.emulate);
    // once per press
    assert!(!app.handle_buttons(true, false, 5000));
    assert!(!app.emulate);
    app.handle_buttons(false, false, 5001);
    app.handle_buttons(true, false, 5002);
    assert!(!app.handle_buttons(true, true, 6003));
    assert!(app.emulate);
    app.handle_buttons(false, true, 7000);
    assert_eq!(app.last_activity, 7000);
}

#[test]
fn modes_alternate_for_diagnostics() {
    let mut app = App::new(0);
    assert!(!app.alternate(20_000));
    app.auto_ab = true;
    assert!(app.alternate(20_000));
    assert!(!app.emulate);
    assert!(!app.alternate(30_000));
    assert!(!app.alternate(30_001));
    assert!(app.emulate);
}

#[test]
fn dozing_is_switched_off() {
    let mut app = App::new(0);
    assert_eq!(app.should_doze(1_000_000), Doze::No);
    app.doze_test = true;
    assert_eq!(app.should_doze(0), Doze::Yes);
    app.light_sleeps = 7;
    app.end_doze_test(0, 5);
    assert!(app.doze_test);
    app.light_sleeps = 8;
    app.end_doze_test(0, 5);
    assert!(!app.doze_test);
    assert_eq!(app.last_activity, 5);
}

#[test]
fn the_heartbeat_reports_the_idle_share() {
    let mut app = App::new(0);
    assert_eq!(app.heartbeat(9_999, 9_999_999, 1), None);
    assert_eq!(app.heartbeat(10_000, 10_000_000, 7_500_000), Some(75));
    assert_eq!((app.hb_last, app.hb_idle_us), (10_000, 7_500_000));
    // the counter wraps
    app.hb_idle_us = u32::MAX - 999_999;
    assert_eq!(app.heartbeat(20_000, 10_000_000, 1_000_000), Some(20));
}

// ----------------------------------------------------------------------
// NFC
// ----------------------------------------------------------------------

#[test]
fn the_emulated_tag_is_started_once() {
    let mut app = App::new(0);
    let mut nfc = St25r3916::new(Sim::new());
    let mut delay = Pauses { us: 0 };
    app.ensure_emulation(&mut nfc, &mut delay).unwrap();
    assert!(app.emu_running);
    let calls = {
        let s = nfc.release();
        let c = s.calls;
        nfc = St25r3916::new(s);
        c
    };
    app.ensure_emulation(&mut nfc, &mut delay).unwrap();
    assert_eq!(nfc.release().calls, calls);
    let mut app = App::new(0);
    let mut broken = Sim::new();
    broken.fail_from = 0;
    let mut nfc = St25r3916::new(broken);
    assert_eq!(
        app.ensure_emulation(&mut nfc, &mut delay),
        Err(NfcError::NotFound { identity: 0 })
    );
    assert!(!app.emu_running);
}

#[test]
fn rounds_keep_track_of_the_field() {
    let mut app = App::new(0);
    let mut nfc = St25r3916::new(Sim::new());
    let mut delay = Pauses { us: 0 };
    app.ensure_emulation(&mut nfc, &mut delay).unwrap();
    let r = app.emulation_round(&mut nfc, &mut delay, 10);
    assert_eq!((r, next_round(&r)), (Ok(Event::Unchanged), Round::Rest));
    assert_eq!(app.emu_last_field, 0);
    let mut s = nfc.release();
    s.raise(irq::EON);
    let mut nfc = St25r3916::new(s);
    let r = app.emulation_round(&mut nfc, &mut delay, 20);
    assert_eq!((r, next_round(&r)), (Ok(Event::FieldOn), Round::Again));
    assert_eq!((app.emu_last_field, app.last_activity), (20, 20));
    app.plate.emu.dirty = true;
    let mut s = nfc.release();
    s.raise(irq::EOF);
    let mut nfc = St25r3916::new(s);
    let r = app.emulation_round(&mut nfc, &mut delay, 30);
    assert_eq!((r, next_round(&r)), (Ok(Event::FieldOff { written: true }), Round::Adopt));
    assert_eq!((app.emu_last_field, app.last_activity), (30, 20));
    let mut s = nfc.release();
    s.fail_from = 0;
    let mut nfc = St25r3916::new(s);
    let r = app.emulation_round(&mut nfc, &mut delay, 40);
    assert_eq!(next_round(&r), Round::Restart);
    assert!(!app.emu_running);
    assert_eq!(next_round(&Ok::<_, u8>(Event::FieldOff { written: false })), Round::Again);
}

#[test]
fn the_watchdog_bites_late() {
    let mut app = App::new(0);
    app.emu_running = true;
    assert!(!app.watchdog(120_000));
    assert!(app.emu_running);
    assert!(app.watchdog(120_001));
    assert!(!app.emu_running);
    assert_eq!(app.emu_last_field, 120_001);
}

#[test]
fn leaving_emulation_makes_a_reader() {
    let mut app = App::new(0);
    let mut nfc = St25r3916::new(Sim::new());
    let mut delay = Pauses { us: 0 };
    app.ensure_emulation(&mut nfc, &mut delay).unwrap();
    app.become_reader(&mut nfc, &mut delay);
    assert!(!app.emu_running);
    let s = nfc.release();
    assert_eq!(s.regs[0x03], 0x09);
    assert_eq!(s.regs[0x02] & 0x48, 0x48);
}

fn a_tag() -> Vec<Answer> {
    vec![
        answer(RXE, &[0x04, 0x00]),
        answer(RXE, &[0xDE, 0xAD, 0xBE, 0xEF, 0x22]),
        answer(RXE, &[0x08, 0xAA, 0xBB]),
    ]
}

#[test]
fn tags_are_found_and_forgotten() {
    let mut app = App::new(0);
    let mut delay = Pauses { us: 0 };
    let mut s = Sim::new();
    s.script = a_tag();
    let mut nfc = St25r3916::new(s);
    let found = app.poll_nfc(&mut nfc, &mut delay, 100);
    let tag = match found {
        Some(Ok(Some(tag))) => tag,
        other => panic!("{other:?}"),
    };
    // the field settles first and stays on
    assert!(delay.us >= 86_000);
    assert_eq!(nfc.read_reg(0x02), Ok(0x48));
    assert!(app.is_new(&tag));
    assert_eq!(app.last_activity, 100);
    app.last_tag = Some(tag);
    assert!(!app.is_new(&tag));

    // the same tag again is put to sleep
    let mut s = nfc.release();
    s.script = a_tag();
    let mut nfc = St25r3916::new(s);
    app.poll_nfc(&mut nfc, &mut delay, 200);
    let s = nfc.release();
    assert_eq!(s.frames.last().unwrap(), &vec![0x50, 0x00]);

    // gone for a while
    let mut nfc = St25r3916::new(s);
    assert_eq!(app.poll_nfc(&mut nfc, &mut delay, 1700), Some(Ok(None)));
    assert!(app.last_tag.is_some());
    app.poll_nfc(&mut nfc, &mut delay, 1701);
    assert!(app.last_tag.is_none());
    // now the field is only on while polling
    app.poll_nfc(&mut nfc, &mut delay, 1702);
    assert_eq!(nfc.read_reg(0x02), Ok(0x00));
}

#[test]
fn random_uids_count_as_the_same_tag() {
    let mut app = App::new(0);
    let mut a = NfcaTag { uid_len: 4, ..Default::default() };
    a.uid[..4].copy_from_slice(&[8, 1, 2, 3]);
    let mut b = a;
    b.uid[3] = 9;
    app.last_tag = Some(a);
    assert!(!app.is_new(&b));
    b.uid[0] = 7;
    assert!(app.is_new(&b));
}

#[test]
fn polling_survives_bus_failures() {
    let mut app = App::new(0);
    let mut delay = Pauses { us: 0 };
    let mut s = Sim::new();
    s.fail_from = 0;
    let mut nfc = St25r3916::new(s);
    assert_eq!(app.poll_nfc(&mut nfc, &mut delay, 0), None);
    app.field_always_on = true;
    assert_eq!(app.poll_nfc(&mut nfc, &mut delay, 0), Some(Err(NfcError::I2c(7))));
    assert!(delay.us >= 20_000);
}

fn texts(items: &[Item]) -> Vec<String> {
    items
        .iter()
        .filter_map(|i| match i {
            Item::Text { text, .. } => Some(text.clone()),
            _ => None,
        })
        .collect()
}

#[test]
fn a_type_2_tag_is_inspected() {
    let mut app = App::new(0);
    let mut delay = Pauses { us: 0 };
    let mut s = Sim::new();
    let blocks: Vec<u8> = (0..18).collect();
    s.script = vec![answer(RXE, &blocks), answer(irq::TXE, &[])];
    let mut nfc = St25r3916::new(s);
    let tag = NfcaTag { uid_len: 7, ..Default::default() };
    assert!(app.is_new(&tag));
    let panel = app.on_new_tag(&mut nfc, &mut delay, &tag);
    assert_eq!(app.tag_count, 1);
    assert_eq!(app.last_tag, Some(tag));
    assert!(!app.is_new(&tag));
    let t = texts(&panel);
    assert_eq!(t[0], "Tag #1");
    assert_eq!(t[5], "0: 00:01:02:03");
    assert_eq!(nfc.release().frames, vec![vec![0x30, 0x00], vec![0x50, 0x00]]);
}

#[test]
fn a_type_4_tag_is_inspected() {
    let mut delay = Pauses { us: 0 };
    let tag = NfcaTag { sak: 0x20, ..Default::default() };
    let block = |b: &[u8]| {
        let mut all = b.to_vec();
        all.extend_from_slice(&[0, 0]);
        answer(RXE, &all)
    };
    let mut s = Sim::new();
    s.script = vec![block(&[0x01]), block(&[0x02, 0x6A, 0x82]), block(&[0xC2])];
    let mut nfc = St25r3916::new(s);
    let mut app = App::new(0);
    let panel = app.on_new_tag(&mut nfc, &mut delay, &tag);
    assert_eq!(texts(&panel)[4], "no NDEF (select-app: SW=6A82)");
    assert_eq!(nfc.release().frames[2], vec![0xC2]);

    let mut s = Sim::new();
    s.script = vec![block(&[0x01]), block(&[0xA2])];
    let mut nfc = St25r3916::new(s);
    let found = inspect(&mut nfc, &mut delay, &tag);
    assert_eq!(found.detail.as_deref(), Some("no NDEF (protocol error)"));

    // no ATS: the tag is halted
    let mut nfc = St25r3916::new(Sim::new());
    let found = inspect(&mut nfc, &mut delay, &tag);
    assert!(found.detail.is_none() && found.t2.is_none());
    assert_eq!(nfc.release().frames.last().unwrap(), &vec![0x50, 0x00]);
}

// ----------------------------------------------------------------------
// display, touch, storage
// ----------------------------------------------------------------------

#[derive(Clone, Default)]
struct Regs(Rc<RefCell<HashMap<(u8, u8), u8>>>, Rc<RefCell<Vec<Vec<u8>>>>);

impl I2cPort for Regs {
    type Error = ();

    fn write(&mut self, addr: u8, bytes: &[u8]) -> Result<(), ()> {
        self.1.borrow_mut().push(bytes.to_vec());
        for (i, b) in bytes[1..].iter().enumerate() {
            self.0.borrow_mut().insert((addr, bytes[0] + i as u8), *b);
        }
        Ok(())
    }

    fn write_parts(&mut self, addr: u8, head: &[u8], tail: &[u8]) -> Result<(), ()> {
        let mut all = head.to_vec();
        all.extend_from_slice(tail);
        self.write(addr, &all)
    }

    fn write_read(&mut self, addr: u8, bytes: &[u8], len: usize) -> Result<Vec<u8>, ()> {
        let r = self.0.borrow();
        Ok((0..len).map(|i| *r.get(&(addr, bytes[0] + i as u8)).unwrap_or(&0)).collect())
    }
}

#[test]
fn taps_toggle_the_front_light() {
    let regs = Regs::default();
    let mut touch = Ft6336::new(regs.clone());
    let mut pm1 = Pm1::new(regs.clone());
    let mut app = App::new(0);
    assert!(!app.wants_touch(true));
    assert!(app.wants_touch(false));
    regs.0.borrow_mut().insert((0x38, 0x02), 1);
    assert_eq!(app.handle_touch(&mut touch, &mut pm1, 50), Some(1));
    assert!(app.frontlight_on && app.touch_down);
    assert_eq!(app.last_activity, 50);
    assert!(app.wants_touch(true));
    app.handle_touch(&mut touch, &mut pm1, 60);
    assert_eq!(*regs.1.borrow(), vec![vec![0x30, 0x00, 0x14]]);
    regs.0.borrow_mut().insert((0x38, 0x02), 0);
    app.handle_touch(&mut touch, &mut pm1, 70);
    assert!(!app.touch_down && app.frontlight_on);
    regs.0.borrow_mut().insert((0x38, 0x02), 2);
    app.handle_touch(&mut touch, &mut pm1, 80);
    assert!(!app.frontlight_on);
    assert_eq!(regs.1.borrow().last().unwrap(), &vec![0x30, 0x00, 0x00]);
}

#[derive(Clone, Default)]
struct Wire(Rc<RefCell<Vec<u8>>>, Rc<RefCell<bool>>);

impl SpiPort for Wire {
    type Error = ();

    fn write(&mut self, bytes: &[u8]) -> Result<(), ()> {
        if !*self.1.borrow() {
            self.0.borrow_mut().extend_from_slice(bytes);
        }
        Ok(())
    }

    fn flush(&mut self) -> Result<(), ()> {
        Ok(())
    }
}

impl OutPin for Wire {
    type Error = ();

    fn set_low(&mut self) -> Result<(), ()> {
        *self.1.borrow_mut() = false;
        Ok(())
    }

    fn set_high(&mut self) -> Result<(), ()> {
        *self.1.borrow_mut() = true;
        Ok(())
    }
}

struct Idle;

impl InPin for Idle {
    type Error = ();

    fn is_high(&mut self) -> Result<bool, ()> {
        Ok(false)
    }
}

struct Free;

impl OutPin for Free {
    type Error = ();

    fn set_low(&mut self) -> Result<(), ()> {
        Ok(())
    }

    fn set_high(&mut self) -> Result<(), ()> {
        Ok(())
    }
}

fn display(wire: &Wire) -> Ssd1677<Wire, Wire, Free, Idle> {
    let luts = Waveforms { quality: [0; LUT_LEN], text: [0; LUT_LEN], fast: [0; LUT_LEN] };
    Ssd1677::new(wire.clone(), wire.clone(), Free, Idle, luts)
}

#[test]
fn the_display_sleeps_and_wakes() {
    let wire = Wire::default();
    let mut epd = display(&wire);
    let mut delay = Pauses { us: 0 };
    let mut app = App::new(0);
    app.manage_epd_sleep(&mut epd, &mut delay, 60_000);
    assert!(!app.epd_sleeping && wire.0.borrow().is_empty());
    app.manage_epd_sleep(&mut epd, &mut delay, 60_001);
    assert!(app.epd_sleeping);
    assert_eq!(*wire.0.borrow(), vec![0x10]);
    app.manage_epd_sleep(&mut epd, &mut delay, 60_002);
    assert_eq!(wire.0.borrow().len(), 1);

    let regs = Regs::default();
    regs.0.borrow_mut().insert((0x4F, 0x05), 0x30);
    let mut both = Display::new(Ioe1::new(Marked(regs.clone(), wire.clone())), epd);
    app.fast_refreshes = 5;
    app.wake_epd(&mut both, &mut delay);
    assert!(!app.epd_sleeping);
    assert_eq!(app.fast_refreshes, 0);
    // both lines low and high again, and only then the panel
    assert_eq!(wire.0.borrow()[1..6], [MARK, MARK, MARK, MARK, 0x12]);
    assert!(!wire.0.borrow()[6..].contains(&MARK));
    let n = wire.0.borrow().len();
    app.wake_epd(&mut both, &mut delay);
    assert_eq!(wire.0.borrow().len(), n);
    assert_eq!(regs.0.borrow()[&(0x4F, 0x05)], 0x30);
}

#[test]
fn a_display_is_reset_and_initialised_apart() {
    let wire = Wire::default();
    let regs = Regs::default();
    let mut delay = Pauses { us: 0 };
    regs.0.borrow_mut().insert((0x4F, 0x05), 0x30);
    let mut both = Display::new(Ioe1::new(regs.clone()), display(&wire));
    both.reset(&mut delay).unwrap();
    assert!(wire.0.borrow().is_empty());
    assert_eq!(delay.us, 20_000);
    assert_eq!(regs.1.borrow().len(), 4);
    both.init(&mut delay).unwrap();
    assert_eq!(wire.0.borrow()[0], 0x12);
    assert!(both.epd.face_known);
    assert_eq!(regs.1.borrow().len(), 4);
}

/// Marks among the commands to the panel where the expander was written to.
struct Marked(Regs, Wire);

const MARK: u8 = 0xEE;

impl I2cPort for Marked {
    type Error = ();

    fn write(&mut self, addr: u8, bytes: &[u8]) -> Result<(), ()> {
        self.1 .0.borrow_mut().push(MARK);
        self.0.write(addr, bytes)
    }

    fn write_parts(&mut self, addr: u8, head: &[u8], tail: &[u8]) -> Result<(), ()> {
        self.1 .0.borrow_mut().push(MARK);
        self.0.write_parts(addr, head, tail)
    }

    fn write_read(&mut self, addr: u8, bytes: &[u8], len: usize) -> Result<Vec<u8>, ()> {
        self.0.write_read(addr, bytes, len)
    }
}

#[test]
fn panel_updates_are_partial_most_of_the_time() {
    let wire = Wire::default();
    let mut epd = display(&wire);
    let mut delay = Pauses { us: 0 };
    let mut app = App::new(0);
    let mut fb = FrameBuffer::new();
    fb.clear(1);
    let mut glass = FrameBuffer::new();
    app.refresh_panel_region(&mut epd, &mut delay, &fb, &mut glass).unwrap();
    assert_eq!(app.fast_refreshes, 1);
    assert_eq!(glass.get_pixel(0, 0), 1);
    assert!(wire.0.borrow().contains(&0x32));
    wire.0.borrow_mut().clear();
    fb.clear(2);
    app.refresh_panel_region(&mut epd, &mut delay, &fb, &mut glass).unwrap();
    assert!(!wire.0.borrow().contains(&0x32));
    // what is shown goes to both banks first, then the region
    let banks: Vec<u8> = wire.0.borrow().iter().copied().filter(|c| [0x24, 0x26, 0x20].contains(c)).collect();
    assert_eq!(banks, [0x26, 0x24, 0x24, 0x20, 0x26]);
    // the panel is monochrome now, the rest is as it was
    assert_eq!(glass.get_pixel(12, 200), 3);
    assert_eq!(glass.get_pixel(467, 579), 3);
    assert_eq!(glass.get_pixel(11, 200), 1);
    assert_eq!(glass.get_pixel(12, 199), 1);
    for _ in 0..8 {
        app.refresh_panel_region(&mut epd, &mut delay, &fb, &mut glass).unwrap();
    }
    wire.0.borrow_mut().clear();
    app.refresh_panel_region(&mut epd, &mut delay, &fb, &mut glass).unwrap();
    assert!(wire.0.borrow().contains(&0x32));
    assert_eq!(app.fast_refreshes, 11);
    app.redrawn(true, 99);
    assert_eq!((app.fast_refreshes, app.last_activity), (1, 99));
}

#[derive(Default)]
struct Memory(HashMap<u32, u8>);

impl FlashPort for &mut Memory {
    type Error = ();

    fn read(&mut self, offset: u32, len: usize) -> Result<Vec<u8>, ()> {
        Ok((0..len as u32).map(|i| *self.0.get(&(offset + i)).unwrap_or(&0xFF)).collect())
    }

    fn write(&mut self, offset: u32, bytes: &[u8]) -> Result<(), ()> {
        for (i, b) in bytes.iter().enumerate() {
            self.0.insert(offset + i as u32, *b);
        }
        Ok(())
    }
}

#[test]
fn what_a_phone_writes_is_served_and_survives() {
    let mut memory = Memory::default();
    let mut app = App::new(0);
    {
        let mut flash = Flash::new(&mut memory);
        let phone = [&[0xD1, 0x01, 0x0B, b'T', 0x02][..], b"enA;B;C;D"].concat();
        assert!(app.plate.emu.set_ndef(&phone[..]));
        app.plate.on_tag_written(&mut flash).unwrap();
        // a broken record changes nothing
        assert_eq!(app.plate.content.name, "Kenta IDA");
        let phone = [&[0xD1, 0x01, 0x0A, b'T', 0x02][..], b"enA;B;C\nD"].concat();
        assert_eq!(phone.len(), 14);
        app.plate.emu.set_ndef(&phone[..]);
        app.plate.on_tag_written(&mut flash).unwrap();
    }
    assert_eq!(app.plate.content.name, "A");
    assert_eq!(app.plate.content.note, "D");
    assert_eq!(app.plate.emu.ndef(), Some(&app.plate.content.to_ndef()[..]));
    let mut later = App::new(0);
    later.plate.restore(&mut Flash::new(&mut memory));
    assert_eq!(later.plate.content, app.plate.content);
    assert!(!later.plate.image_in_flash);
}

#[test]
fn an_erased_tag_keeps_the_content() {
    let mut memory = Memory::default();
    let mut app = App::new(0);
    app.plate.emu.memory[16] = 0xFE;
    app.plate.on_tag_written(&mut Flash::new(&mut memory)).unwrap();
    assert_eq!(app.plate.content.name, "Kenta IDA");
    assert_eq!(app.plate.emu.ndef(), Some(&app.plate.content.to_ndef()[..]));
}

#[test]
fn ble_updates_are_stored() {
    let mut memory = Memory::default();
    let mut app = App::new(0);
    let image = MonoImage { width: 480, height: 800, bits: vec![5; 48_000] };
    {
        let mut flash = Flash::new(&mut memory);
        app.plate.on_ble_content(&mut flash, b"n\nt\no\nx\nhttps://u").unwrap();
        assert_eq!(app.plate.on_ble_image(&mut flash, image.clone()), (Ok(()), Ok(())));
        assert!(app.plate.image_in_flash);
        app.plate.store_small_image(&mut flash);
    }
    assert_eq!(app.plate.content.url, "u");
    assert_eq!(app.plate.image, Some(image.clone()));
    app.plate.trim_image();
    assert_eq!(app.plate.image, None);
    assert!(app.plate.needs_stored_image());
    let mut later = App::new(0);
    later.plate.restore(&mut Flash::new(&mut memory));
    assert_eq!(later.plate.content, app.plate.content);
    assert_eq!(later.plate.image, Some(image));
    assert!(later.plate.image_in_flash);
}

#[test]
fn small_images_stay() {
    let mut memory = Memory::default();
    let mut app = App::new(0);
    let image = MonoImage { width: 8, height: 1, bits: vec![9] };
    app.plate.image = Some(image.clone());
    app.plate.store_small_image(&mut Flash::new(&mut memory));
    assert!(app.plate.image_in_flash);
    app.plate.trim_image();
    assert!(app.plate.image.is_some());
    assert!(!app.plate.needs_stored_image());
    let stored = config_store::load_image(&mut Flash::new(&mut memory)).unwrap();
    assert_eq!(MonoImage::decode_owned(stored), Some(image));
}
