use paper_name_plate::bus::{Delay, I2cPort};
use paper_name_plate::st25r3916::{irq, St25r3916};
use paper_name_plate::t2t_emu::{CmdResult, Event, State, T2tEmulator, MEM_BYTES, PAGES, USER_BYTES};

/// A simulated chip: registers, FIFO, interrupts, and a script of answers to
/// transmitted frames.
struct Sim {
    regs: [u8; 64],
    regs_b: [u8; 64],
    irq: [u8; 4],
    fifo: Vec<u8>,
    loaded: Vec<u8>,
    pt_memory: Vec<u8>,
    script: Vec<Answer>,
    writes: Vec<Vec<u8>>,
    frames: Vec<Vec<u8>>,
    calls: usize,
    fail_from: usize,
    crystal: bool,
}

#[derive(Clone)]
struct Answer {
    irq: u32,
    fifo: Vec<u8>,
    collision: u8,
}

fn answer(irq: u32, fifo: &[u8]) -> Answer {
    Answer { irq, fifo: fifo.to_vec(), collision: 0 }
}

impl Sim {
    fn new() -> Sim {
        let mut regs = [0u8; 64];
        regs[0x3F] = 0x2A;
        Sim {
            regs,
            regs_b: [0; 64],
            irq: [0; 4],
            fifo: Vec::new(),
            loaded: Vec::new(),
            pt_memory: Vec::new(),
            script: Vec::new(),
            writes: Vec::new(),
            frames: Vec::new(),
            calls: 0,
            fail_from: usize::MAX,
            crystal: true,
        }
    }

    fn raise(&mut self, irq: u32) {
        let b = irq.to_be_bytes();
        for i in 0..4 {
            self.irq[i] |= b[i];
        }
    }

    fn command(&mut self, c: u8) {
        if c == 0xDB {
            self.fifo.clear();
        }
        if (0xC4..=0xC7).contains(&c) {
            let frame = if c >= 0xC6 { vec![c] } else { self.loaded.clone() };
            self.frames.push(frame);
            if !self.script.is_empty() {
                let a = self.script.remove(0);
                self.fifo = a.fifo;
                self.regs[0x20] = a.collision;
                self.raise(a.irq);
            }
        }
    }

    fn write_bytes(&mut self, bytes: &[u8]) {
        self.writes.push(bytes.to_vec());
        let head = bytes[0];
        if head < 0x40 {
            for (i, v) in bytes[1..].iter().enumerate() {
                let r = head as usize + i;
                let before = self.regs[r];
                self.regs[r] = *v;
                if r == 0x02 && self.crystal && before & 0x80 == 0 && v & 0x80 != 0 {
                    self.regs[0x31] |= 0x10;
                    self.raise(0x8000_0000);
                }
            }
        } else if head == 0x80 {
            self.loaded = bytes[1..].to_vec();
        } else if head == 0xA0 {
            self.pt_memory = bytes[1..].to_vec();
        } else if head == 0xFB {
            self.regs_b[bytes[1] as usize] = bytes[2];
        } else if head != 0xFC {
            self.command(head);
        }
    }

    fn read_one(&mut self, r: usize) -> u8 {
        match r {
            0x1A..=0x1D => std::mem::take(&mut self.irq[r - 0x1A]),
            0x1E => self.fifo.len() as u8,
            0x1F => ((self.fifo.len() >> 2) & 0xC0) as u8,
            _ => self.regs[r],
        }
    }
}

impl I2cPort for Sim {
    type Error = u8;

    fn write(&mut self, addr: u8, bytes: &[u8]) -> Result<(), u8> {
        assert_eq!(addr, 0x50);
        self.calls += 1;
        if self.calls > self.fail_from {
            return Err(7);
        }
        self.write_bytes(bytes);
        Ok(())
    }

    fn write_parts(&mut self, addr: u8, head: &[u8], tail: &[u8]) -> Result<(), u8> {
        let mut all = head.to_vec();
        all.extend_from_slice(tail);
        self.write(addr, &all)
    }

    fn write_read(&mut self, addr: u8, bytes: &[u8], len: usize) -> Result<Vec<u8>, u8> {
        assert_eq!(addr, 0x50);
        self.calls += 1;
        if self.calls > self.fail_from {
            return Err(7);
        }
        if bytes[0] == 0x9F {
            return Ok(self.fifo.drain(..len).collect());
        }
        if bytes[0] == 0xFB || bytes[0] == 0xFC {
            return Ok(vec![self.regs_b[(bytes[1] & 0x3F) as usize]; len]);
        }
        let first = (bytes[0] & 0x3F) as usize;
        Ok((0..len).map(|i| self.read_one(first + i)).collect())
    }
}

struct Pauses {
    us: u64,
}

impl Delay for Pauses {
    fn delay_ms(&mut self, ms: u32) {
        self.us += ms as u64 * 1000;
    }

    fn delay_us(&mut self, us: u32) {
        self.us += us as u64;
    }
}


const UID: [u8; 7] = [0x04, 0x50, 0x41, 0x50, 0x45, 0x52, 0x01];

fn reply(tag: &mut T2tEmulator, rx: &[u8]) -> (Vec<u8>, u8, CmdResult) {
    let (r, next) = tag.respond(rx);
    let r = r.unwrap();
    (r.data, r.bits, next)
}

#[test]
fn a_new_tag_has_its_layout() {
    let tag = T2tEmulator::new(UID);
    assert_eq!(tag.uid(), UID);
    assert_eq!(tag.state(), State::Off);
    assert_eq!(tag.memory[..4], [0x04, 0x50, 0x41, 0x88 ^ 0x04 ^ 0x50 ^ 0x41]);
    assert_eq!(tag.memory[4..10], [0x50, 0x45, 0x52, 0x01, 0x50 ^ 0x45 ^ 0x52 ^ 0x01, 0x48]);
    assert_eq!(tag.memory[12..20], [0xE1, 0x10, 0x6D, 0x00, 0x03, 0x00, 0xFE, 0x00]);
    assert_eq!(tag.memory[904..908], [0, 0, 0, 0xFF]);
    assert_eq!(tag.memory[908..912], [0, 5, 0, 0]);
    assert_eq!(tag.memory[912..916], [0xFF; 4]);
    assert_eq!(tag.ndef(), Some(&[][..]));
    assert_eq!(PAGES * 4, MEM_BYTES);
}

#[test]
fn stored_messages_are_found() {
    let mut tag = T2tEmulator::new(UID);
    for n in [0usize, 1, 254, 255, 300, 883] {
        let msg: Vec<u8> = (0..n).map(|i| i as u8).collect();
        assert!(tag.set_ndef(&msg), "{n}");
        assert_eq!(tag.ndef(), Some(&msg[..]));
    }
    assert!(!tag.set_ndef(&[7; 884]));
    assert_eq!(tag.ndef().unwrap().len(), 883);
    assert!(tag.set_ndef(&[1, 2]));
    assert_eq!(tag.memory[16..22], [0x03, 0x02, 1, 2, 0xFE, 0]);
    assert_eq!(tag.memory[23..904].iter().filter(|b| **b != 0).count(), 0);
    assert_eq!(tag.uid(), UID);
    assert_eq!(tag.memory[907], 0xFF);
    assert_eq!(USER_BYTES, 888);
}

#[test]
fn other_tlvs_are_skipped() {
    let mut tag = T2tEmulator::new(UID);
    tag.memory[16..26].copy_from_slice(&[0x00, 0x01, 0x02, 0xAA, 0xBB, 0x03, 0x02, 0xD1, 0xD2, 0xFE]);
    assert_eq!(tag.ndef(), Some(&[0xD1, 0xD2][..]));
    tag.memory[16] = 0xFE;
    assert_eq!(tag.ndef(), None);
    // a length beyond the end
    tag.memory[16..20].copy_from_slice(&[0x03, 0xFF, 0x03, 0x75]);
    assert_eq!(tag.ndef(), None);
    tag.memory[16..20].copy_from_slice(&[0x03, 0xFF, 0x03, 0x74]);
    assert_eq!(tag.ndef().unwrap().len(), 884);
}

#[test]
fn reads_wrap_at_the_end() {
    let mut tag = T2tEmulator::new(UID);
    let (data, bits, next) = reply(&mut tag, &[0x30, 229]);
    assert_eq!((bits, next), (0, CmdResult::Stay));
    assert_eq!(data[..8], tag.memory[916..924]);
    assert_eq!(data[8..], tag.memory[..8]);
    assert_eq!(reply(&mut tag, &[0x30, 231]), (vec![0x00], 4, CmdResult::Drop));
}

#[test]
fn fast_reads_give_a_range() {
    let mut tag = T2tEmulator::new(UID);
    let (data, bits, next) = reply(&mut tag, &[0x3A, 0, 3]);
    assert_eq!((&data[..], bits, next), (&tag.memory[..16], 0, CmdResult::Stay));
    assert_eq!(reply(&mut tag, &[0x3A, 0, 127]).0.len(), 512);
    for bad in [[0x3A, 0, 128], [0x3A, 5, 4], [0x3A, 200, 231]] {
        assert_eq!(reply(&mut tag, &bad), (vec![0x00], 4, CmdResult::Drop));
    }
}

#[test]
fn writes_change_pages_and_leave_a_mark() {
    let mut tag = T2tEmulator::new(UID);
    assert_eq!(reply(&mut tag, &[0xA2, 4, 1, 2, 3, 4]), (vec![0x0A], 4, CmdResult::Stay));
    assert_eq!(tag.memory[16..20], [1, 2, 3, 4]);
    assert!(tag.dirty);
    assert_eq!(reply(&mut tag, &[0x30, 4]).0[..4], [1, 2, 3, 4]);
    // lock bytes are acknowledged and left alone, the UID is refused
    let before = tag.memory;
    assert_eq!(reply(&mut tag, &[0xA2, 2, 9, 9, 9, 9]), (vec![0x0A], 4, CmdResult::Stay));
    assert_eq!(reply(&mut tag, &[0xA2, 1, 9, 9, 9, 9]), (vec![0x00], 4, CmdResult::Drop));
    assert_eq!(reply(&mut tag, &[0xA2, 231, 9, 9, 9, 9]), (vec![0x00], 4, CmdResult::Drop));
    assert_eq!(tag.memory, before);
    // pages outside user memory leave their mark too
    tag.dirty = false;
    reply(&mut tag, &[0xA2, 2, 9, 9, 9, 9]);
    assert!(!tag.dirty);
    reply(&mut tag, &[0xA2, 3, 0xE1, 0x10, 0x6D, 0x0F]);
    assert!(tag.dirty);
    tag.dirty = false;
    reply(&mut tag, &[0xA2, 226, 1, 1, 1, 1]);
    assert!(tag.dirty);
    assert_eq!(tag.memory[15], 0x0F);
    assert_eq!(tag.memory[904], 1);
}

#[test]
fn the_other_commands_are_served() {
    let mut tag = T2tEmulator::new(UID);
    assert_eq!(
        reply(&mut tag, &[0x60]),
        (vec![0x00, 0x04, 0x04, 0x02, 0x01, 0x00, 0x13, 0x03], 0, CmdResult::Stay)
    );
    assert_eq!(reply(&mut tag, &[0x3C, 0]), (vec![0; 32], 0, CmdResult::Stay));
    let (none, next) = tag.respond(&[0x50, 0x00]);
    assert!(none.is_none());
    assert_eq!(next, CmdResult::Halt);
    for unknown in [&[0x1B, 1, 2, 3, 4][..], &[0x60, 0], &[0x30], &[0xA2, 4, 1]] {
        assert_eq!(reply(&mut tag, unknown), (vec![0x00], 4, CmdResult::Drop));
    }
}

fn started() -> (T2tEmulator, St25r3916<Sim>, Pauses) {
    let mut tag = T2tEmulator::new(UID);
    let mut nfc = St25r3916::new(Sim::new());
    let mut delay = Pauses { us: 0 };
    tag.start(&mut nfc, &mut delay).unwrap();
    (tag, nfc, delay)
}

fn sim(nfc: St25r3916<Sim>, change: impl FnOnce(&mut Sim)) -> St25r3916<Sim> {
    let pending = nfc.pending_irq;
    let mut s = nfc.release();
    change(&mut s);
    let mut nfc = St25r3916::new(s);
    nfc.pending_irq = pending;
    nfc
}

#[test]
fn starting_loads_the_identity() {
    let (tag, nfc, _) = started();
    assert_eq!(tag.state(), State::Off);
    let s = nfc.release();
    assert_eq!(s.pt_memory[..7], UID);
    assert_eq!(s.pt_memory[7..], [0, 0, 0, 0x44, 0x00, 0x04, 0x00, 0x00]);
    assert_eq!(s.regs[0x03], 0xC8);
    assert_eq!(s.regs[0x08], 0x5C);
}

#[test]
fn a_whole_visit_of_a_reader() {
    let (mut tag, nfc, mut delay) = started();
    let mut nfc = nfc;
    assert_eq!(tag.update(&mut nfc, &mut delay), Ok(Event::Unchanged));

    // the field appears
    let mut nfc = sim(nfc, |s| s.raise(irq::EON));
    assert_eq!(tag.update(&mut nfc, &mut delay), Ok(Event::FieldOn));
    assert_eq!(tag.state(), State::Idle);

    // bit rate found, anticollision under way
    let mut nfc = sim(nfc, |s| {
        s.regs[0x21] = 0x02;
        s.raise(irq::NFCT | irq::RXE_PTA)
    });
    assert_eq!(tag.update(&mut nfc, &mut delay), Ok(Event::Unchanged));
    assert_eq!(tag.state(), State::Ready);

    let mut nfc = sim(nfc, |s| s.raise(irq::WU_A));
    assert_eq!(tag.update(&mut nfc, &mut delay), Ok(Event::Selected));
    assert_eq!(tag.state(), State::Active);

    // a WRITE with its CRC
    let mut nfc = sim(nfc, |s| {
        s.fifo = vec![0xA2, 0x05, 1, 2, 3, 4, 0xCC, 0xCC];
        s.raise(irq::RXE)
    });
    assert_eq!(tag.update(&mut nfc, &mut delay), Ok(Event::Unchanged));
    assert_eq!(tag.memory[20..24], [1, 2, 3, 4]);
    assert_eq!((tag.commands, tag.last_cmd), (1, 0xA2));

    // the field goes
    let mut nfc = sim(nfc, |s| {
        assert_eq!(s.frames.last().unwrap(), &vec![0x0A]);
        s.raise(irq::EOF)
    });
    assert_eq!(tag.update(&mut nfc, &mut delay), Ok(Event::FieldOff { written: true }));
    assert_eq!(tag.state(), State::Off);
    assert!(!tag.dirty);
}

#[test]
fn starting_and_stopping_keep_memory() {
    let mut tag = T2tEmulator::new(UID);
    tag.set_ndef(&[1, 2, 3]);
    let memory = tag.memory;
    let mut nfc = St25r3916::new(Sim::new());
    let mut delay = Pauses { us: 0 };
    tag.start(&mut nfc, &mut delay).unwrap();
    tag.stop(&mut nfc).unwrap();
    assert_eq!(tag.memory, memory);
    assert_eq!(tag.uid(), UID);
}

#[test]
fn a_rewritten_container_is_reported() {
    let (mut tag, nfc, mut delay) = started();
    tag.state = State::Active;
    let mut nfc = sim(nfc, |s| {
        s.fifo = vec![0xA2, 0x03, 0xE1, 0x10, 0x6D, 0x0F, 0xCC, 0xCC];
        s.raise(irq::RXE)
    });
    assert_eq!(tag.update(&mut nfc, &mut delay), Ok(Event::Unchanged));
    assert_eq!(tag.memory[12..16], [0xE1, 0x10, 0x6D, 0x0F]);
    let mut nfc = sim(nfc, |s| s.raise(irq::EOF));
    assert_eq!(tag.update(&mut nfc, &mut delay), Ok(Event::FieldOff { written: true }));
}

#[test]
fn a_full_fifo_is_sent_whole() {
    let (mut tag, nfc, mut delay) = started();
    tag.state = State::Active;
    let mut nfc = sim(nfc, |s| {
        s.fifo = vec![0x3A, 0, 127, 0xCC, 0xCC];
        s.raise(irq::RXE)
    });
    assert_eq!(tag.update(&mut nfc, &mut delay), Ok(Event::Unchanged));
    let s = nfc.release();
    assert_eq!(s.frames.last().unwrap()[..], tag.memory[..512]);
    assert!(s.writes.contains(&vec![0x22, 0x10, 0x00]));
}

#[test]
fn a_halted_tag_wakes_on_wupa() {
    let (mut tag, nfc, mut delay) = started();
    tag.state = State::Active;
    let mut nfc = sim(nfc, |s| {
        s.regs[0x31] |= 0x40;
        s.fifo = vec![0x50, 0x00, 0xCC, 0xCC];
        s.raise(irq::RXE)
    });
    assert_eq!(tag.update(&mut nfc, &mut delay), Ok(Event::Unchanged));
    assert_eq!(tag.state(), State::Halt);
    // REQA leaves it asleep, WUPA wakes it
    let mut nfc = sim(nfc, |s| {
        s.regs[0x21] = 0x09;
        s.raise(irq::NFCT | irq::RXE_PTA)
    });
    tag.update(&mut nfc, &mut delay).unwrap();
    assert_eq!(tag.state(), State::Halt);
    let mut nfc = sim(nfc, |s| {
        s.regs[0x21] = 0x0A;
        s.raise(irq::RXE_PTA)
    });
    tag.update(&mut nfc, &mut delay).unwrap();
    assert_eq!(tag.state(), State::Ready);
    assert!(tag.wakeup);
    let mut nfc = sim(nfc, |s| s.raise(irq::WU_AX));
    assert_eq!(tag.update(&mut nfc, &mut delay), Ok(Event::Selected));
    // an unknown command sends it back to sleep
    let mut nfc = sim(nfc, |s| {
        s.fifo = vec![0x99, 0xCC, 0xCC];
        s.raise(irq::RXE)
    });
    tag.update(&mut nfc, &mut delay).unwrap();
    assert_eq!(tag.state(), State::Halt);
}

#[test]
fn broken_frames_are_dropped() {
    for (fifo, flags) in
        [(vec![1, 2], irq::RXE), (vec![0x30, 0, 1, 2], irq::RXE | irq::CRC), (vec![0; 65], irq::RXE)]
    {
        let (mut tag, nfc, mut delay) = started();
        tag.state = State::Active;
        let mut nfc = sim(nfc, |s| {
            s.fifo = fifo;
            s.raise(flags)
        });
        assert_eq!(tag.update(&mut nfc, &mut delay), Ok(Event::Unchanged));
        assert_eq!(tag.state(), State::Idle);
        assert_eq!(tag.commands, 0);
        assert!(nfc.release().frames.is_empty());
    }
}

#[test]
fn stray_frames_are_discarded() {
    let (mut tag, nfc, mut delay) = started();
    tag.state = State::Idle;
    let mut nfc = sim(nfc, |s| {
        s.fifo = vec![1, 2, 3, 4, 5, 6];
        s.raise(irq::RXE)
    });
    assert_eq!(tag.update(&mut nfc, &mut delay), Ok(Event::Unchanged));
    assert_eq!(tag.state(), State::Idle);
    assert!(nfc.release().fifo.is_empty());
}

/// A chip in a field whose oscillator never starts and whose settings do not
/// stick.
struct Stuck;

impl I2cPort for Stuck {
    type Error = u8;

    fn write(&mut self, _addr: u8, _bytes: &[u8]) -> Result<(), u8> {
        Ok(())
    }

    fn write_parts(&mut self, _addr: u8, _head: &[u8], _tail: &[u8]) -> Result<(), u8> {
        Ok(())
    }

    fn write_read(&mut self, _addr: u8, bytes: &[u8], len: usize) -> Result<Vec<u8>, u8> {
        Ok(vec![if bytes[0] == 0x71 { 0x40 } else { 0 }; len])
    }
}

#[test]
fn a_stuck_oscillator_ends_in_off() {
    let mut tag = T2tEmulator::new(UID);
    let mut nfc = St25r3916::new(Stuck);
    let mut delay = Pauses { us: 0 };
    assert_eq!(tag.update(&mut nfc, &mut delay), Ok(Event::Unchanged));
    assert_eq!(tag.state(), State::Off);
    assert_eq!(delay.us, 33 * 41 * 5000);
}

#[test]
fn an_oscillator_that_starts_late_is_waited_for() {
    let mut tag = T2tEmulator::new(UID);
    let mut s = Sim::new();
    s.crystal = false;
    s.regs[0x31] = 0x50;
    let mut nfc = St25r3916::new(s);
    let mut delay = Pauses { us: 0 };
    assert_eq!(tag.update(&mut nfc, &mut delay), Ok(Event::FieldOn));
    assert_eq!(tag.state(), State::Idle);
    assert_eq!(nfc.read_reg(0x02), Ok(0xC0));
}

#[test]
fn bus_failures_are_reported() {
    let (mut tag, nfc, mut delay) = started();
    let mut nfc = sim(nfc, |s| s.fail_from = 0);
    assert_eq!(tag.update(&mut nfc, &mut delay), Err(7));
    assert_eq!(tag.stop(&mut nfc), Err(7));
    let mut nfc = sim(nfc, |s| s.fail_from = usize::MAX);
    assert_eq!(tag.stop(&mut nfc), Ok(()));
    assert_eq!(tag.state(), State::Off);
}
