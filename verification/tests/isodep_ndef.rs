use paper_name_plate::bus::{Delay, I2cPort};
use paper_name_plate::isodep::{Error as DepError, IsoDep};
use paper_name_plate::ndef::{self, ascii, check, first_record, record_at, summarize, uri_prefix};
use paper_name_plate::st25r3916::{irq, Error as NfcError, St25r3916};

/// A simulated chip: registers, FIFO, interrupts, and a script of answers to
/// transmitted frames.
struct Sim {
    regs: [u8; 64],
    regs_b: [u8; 64],
    irq: [u8; 4],
    fifo: Vec<u8>,
    loaded: Vec<u8>,
    pt_memory: Vec<u8>,
    script: Vec<Answer>,
    writes: Vec<Vec<u8>>,
    frames: Vec<Vec<u8>>,
    calls: usize,
    fail_from: usize,
    crystal: bool,
}

#[derive(Clone)]
struct Answer {
    irq: u32,
    fifo: Vec<u8>,
    collision: u8,
}

fn answer(irq: u32, fifo: &[u8]) -> Answer {
    Answer { irq, fifo: fifo.to_vec(), collision: 0 }
}

impl Sim {
    fn new() -> Sim {
        let mut regs = [0u8; 64];
        regs[0x3F] = 0x2A;
        Sim {
            regs,
            regs_b: [0; 64],
            irq: [0; 4],
            fifo: Vec::new(),
            loaded: Vec::new(),
            pt_memory: Vec::new(),
            script: Vec::new(),
            writes: Vec::new(),
            frames: Vec::new(),
            calls: 0,
            fail_from: usize::MAX,
            crystal: true,
        }
    }

    fn raise(&mut self, irq: u32) {
        let b = irq.to_be_bytes();
        for i in 0..4 {
            self.irq[i] |= b[i];
        }
    }

    fn command(&mut self, c: u8) {
        if c == 0xDB {
            self.fifo.clear();
        }
        if (0xC4..=0xC7).contains(&c) {
            let frame = if c >= 0xC6 { vec![c] } else { self.loaded.clone() };
            self.frames.push(frame);
            if !self.script.is_empty() {
                let a = self.script.remove(0);
                self.fifo = a.fifo;
                self.regs[0x20] = a.collision;
                self.raise(a.irq);
            }
        }
    }

    fn write_bytes(&mut self, bytes: &[u8]) {
        self.writes.push(bytes.to_vec());
        let head = bytes[0];
        if head < 0x40 {
            for (i, v) in bytes[1..].iter().enumerate() {
                let r = head as usize + i;
                let before = self.regs[r];
                self.regs[r] = *v;
                if r == 0x02 && self.crystal && before & 0x80 == 0 && v & 0x80 != 0 {
                    self.regs[0x31] |= 0x10;
                    self.raise(0x8000_0000);
                }
            }
        } else if head == 0x80 {
            self.loaded = bytes[1..].to_vec();
        } else if head == 0xA0 {
            self.pt_memory = bytes[1..].to_vec();
        } else if head == 0xFB {
            self.regs_b[bytes[1] as usize] = bytes[2];
        } else if head != 0xFC {
            self.command(head);
        }
    }

    fn read_one(&mut self, r: usize) -> u8 {
        match r {
            0x1A..=0x1D => std::mem::take(&mut self.irq[r - 0x1A]),
            0x1E => self.fifo.len() as u8,
            0x1F => ((self.fifo.len() >> 2) & 0xC0) as u8,
            _ => self.regs[r],
        }
    }
}

impl I2cPort for Sim {
    type Error = u8;

    fn write(&mut self, addr: u8, bytes: &[u8]) -> Result<(), u8> {
        assert_eq!(addr, 0x50);
        self.calls += 1;
        if self.calls > self.fail_from {
            return Err(7);
        }
        self.write_bytes(bytes);
        Ok(())
    }

    fn write_parts(&mut self, addr: u8, head: &[u8], tail: &[u8]) -> Result<(), u8> {
        let mut all = head.to_vec();
        all.extend_from_slice(tail);
        self.write(addr, &all)
    }

    fn write_read(&mut self, addr: u8, bytes: &[u8], len: usize) -> Result<Vec<u8>, u8> {
        assert_eq!(addr, 0x50);
        self.calls += 1;
        if self.calls > self.fail_from {
            return Err(7);
        }
        if bytes[0] == 0x9F {
            return Ok(self.fifo.drain(..len).collect());
        }
        if bytes[0] == 0xFB || bytes[0] == 0xFC {
            return Ok(vec![self.regs_b[(bytes[1] & 0x3F) as usize]; len]);
        }
        let first = (bytes[0] & 0x3F) as usize;
        Ok((0..len).map(|i| self.read_one(first + i)).collect())
    }
}

struct Pauses {
    us: u64,
}

impl Delay for Pauses {
    fn delay_ms(&mut self, ms: u32) {
        self.us += ms as u64 * 1000;
    }

    fn delay_us(&mut self, us: u32) {
        self.us += us as u64;
    }
}


const RXE: u32 = irq::RXE;

fn link(script: Vec<Answer>) -> (St25r3916<Sim>, Pauses) {
    let mut sim = Sim::new();
    sim.script = script;
    (St25r3916::new(sim), Pauses { us: 0 })
}

/// An answer with two CRC bytes behind it.
fn block(bytes: &[u8]) -> Answer {
    let mut all = bytes.to_vec();
    all.extend_from_slice(&[0xCC, 0xCC]);
    answer(RXE, &all)
}

#[test]
fn the_ats_is_parsed() {
    let (mut nfc, mut delay) = link(vec![block(&[0x05, 0x78, 0x80, 0x70, 0x02])]);
    let dep = IsoDep::activate(&mut nfc, &mut delay).unwrap();
    assert_eq!(dep.ats().raw, [0x05, 0x78, 0x80, 0x70, 0x02]);
    assert_eq!(dep.ats().fsc, 256);
    assert_eq!(dep.ats().fwt_ms, 38);
    assert_eq!(nfc.release().frames[0], vec![0xE0, 0x80]);
}

#[test]
fn a_bare_ats_has_defaults() {
    let (mut nfc, mut delay) = link(vec![block(&[0x01]), block(&[0x02, 0x05]), block(&[0x03, 0x22, 0xFF])]);
    let dep = IsoDep::activate(&mut nfc, &mut delay).unwrap();
    assert_eq!((dep.ats().fwt_ms, dep.ats().fsc), (40, 32));
    let dep = IsoDep::activate(&mut nfc, &mut delay).unwrap();
    assert_eq!((dep.ats().fwt_ms, dep.ats().fsc), (40, 64));
    let dep = IsoDep::activate(&mut nfc, &mut delay).unwrap();
    assert_eq!((dep.ats().fwt_ms, dep.ats().fsc), (3000, 32));
}

#[test]
fn a_malformed_ats_is_refused() {
    let (mut nfc, mut delay) = link(vec![block(&[]), block(&[0x00]), block(&[0x03, 0x00]), answer(0, &[])]);
    for _ in 0..3 {
        assert_eq!(IsoDep::activate(&mut nfc, &mut delay).err(), Some(DepError::Protocol));
    }
    assert_eq!(
        IsoDep::activate(&mut nfc, &mut delay).err(),
        Some(DepError::Nfc(NfcError::Timeout))
    );
    assert_eq!(DepError::from(NfcError::<u8>::Timeout), DepError::Nfc(NfcError::Timeout));
}

fn active(script: Vec<Answer>) -> (IsoDep, St25r3916<Sim>, Pauses) {
    let mut all = vec![block(&[0x02, 0x02])];
    all.extend(script);
    let (mut nfc, mut delay) = link(all);
    let dep = IsoDep::activate(&mut nfc, &mut delay).unwrap();
    (dep, nfc, delay)
}

#[test]
fn blocks_alternate() {
    let (mut dep, mut nfc, mut delay) = active(vec![block(&[0x02, 0x90, 0x00]), block(&[0x03, 0x6A, 0x82])]);
    let mut rsp = vec![1, 2, 3];
    dep.exchange(&mut nfc, &mut delay, &[0x00, 0xA4], &mut rsp).unwrap();
    assert_eq!(rsp, [0x90, 0x00]);
    dep.exchange(&mut nfc, &mut delay, &[0x00, 0xB0], &mut rsp).unwrap();
    assert_eq!(rsp, [0x6A, 0x82]);
    let sim = nfc.release();
    assert_eq!(sim.frames[1..], [vec![0x02, 0x00, 0xA4], vec![0x03, 0x00, 0xB0]]);
}

#[test]
fn chained_answers_are_put_together() {
    let (mut dep, mut nfc, mut delay) =
        active(vec![block(&[0x12, 1, 2]), block(&[0x13, 3]), block(&[0x02, 4, 5])]);
    let mut rsp = Vec::new();
    dep.exchange(&mut nfc, &mut delay, &[0xAA], &mut rsp).unwrap();
    assert_eq!(rsp, [1, 2, 3, 4, 5]);
    assert_eq!(nfc.release().frames[2..], [vec![0xA3], vec![0xA2]]);
}

#[test]
fn more_time_is_granted() {
    let (mut dep, mut nfc, mut delay) = active(vec![block(&[0xF2, 0x43]), block(&[0x02, 0x90, 0x00])]);
    let mut rsp = Vec::new();
    dep.exchange(&mut nfc, &mut delay, &[0xAA], &mut rsp).unwrap();
    assert_eq!(rsp, [0x90, 0x00]);
    assert_eq!(nfc.release().frames[2], vec![0xF2, 0x03]);
}

#[test]
fn endless_requests_for_time_give_up() {
    let (mut dep, mut nfc, mut delay) = active(vec![block(&[0xF2, 0x01]); 40]);
    let mut rsp = Vec::new();
    assert_eq!(dep.exchange(&mut nfc, &mut delay, &[0xAA], &mut rsp), Err(DepError::Retries));
    assert_eq!(nfc.release().frames.len(), 33);
}

#[test]
fn protocol_violations_are_refused() {
    for bad in [&[0x03, 1][..], &[0xA2], &[0xC2], &[]] {
        let (mut dep, mut nfc, mut delay) = active(vec![block(bad)]);
        let mut rsp = Vec::new();
        assert_eq!(dep.exchange(&mut nfc, &mut delay, &[0xAA], &mut rsp), Err(DepError::Protocol));
    }
    // too long for a frame of 32 bytes
    let (mut dep, mut nfc, mut delay) = active(vec![]);
    let mut rsp = vec![9];
    assert_eq!(dep.exchange(&mut nfc, &mut delay, &[0; 30], &mut rsp), Err(DepError::Protocol));
    assert!(rsp.is_empty());
    assert_eq!(nfc.release().frames.len(), 1);
}

#[test]
fn deselecting_wants_its_echo() {
    let (mut dep, mut nfc, mut delay) = active(vec![block(&[0xC2]), block(&[0xC3])]);
    assert_eq!(dep.deselect(&mut nfc, &mut delay), Ok(()));
    assert_eq!(dep.deselect(&mut nfc, &mut delay), Err(DepError::Protocol));
}

/// A Type 4 tag that serves `msg` in chunks of at most `mle`.
fn type4(msg: &[u8], mle: u16) -> Vec<Answer> {
    let mut n = 0u8;
    let mut script = Vec::new();
    let mut next = |data: &[u8]| {
        let mut b = vec![0x02 | n];
        b.extend_from_slice(data);
        b.extend_from_slice(&[0x90, 0x00]);
        script.push(block(&b));
        n ^= 1;
    };
    next(&[]);
    next(&[]);
    let m = mle.to_be_bytes();
    next(&[0x00, 0x0F, 0x20, m[0], m[1], 0x00, 0x7F, 0x04, 0x06, 0xE1, 0x04, 0x08, 0x00, 0x00, 0x00]);
    next(&[]);
    next(&(msg.len() as u16).to_be_bytes());
    let limit = mle.clamp(15, 246) as usize;
    for part in msg.chunks(limit) {
        next(part);
    }
    script
}

#[test]
fn a_type_4_tag_is_read_in_chunks() {
    let msg: Vec<u8> = (0..40).collect();
    let (mut dep, mut nfc, mut delay) = active(type4(&msg, 4));
    assert_eq!(ndef::read_type4(&mut dep, &mut nfc, &mut delay), Ok(msg));
    let sim = nfc.release();
    assert_eq!(
        sim.frames[1],
        [0x02, 0x00, 0xA4, 0x04, 0x00, 0x07, 0xD2, 0x76, 0x00, 0x00, 0x85, 0x01, 0x01, 0x00]
    );
    assert_eq!(sim.frames[4], [0x03, 0x00, 0xA4, 0x00, 0x0C, 0x02, 0xE1, 0x04]);
    assert_eq!(sim.frames[6], [0x03, 0x00, 0xB0, 0x00, 0x02, 0x0F]);
    assert_eq!(sim.frames[7], [0x02, 0x00, 0xB0, 0x00, 0x11, 0x0F]);
    assert_eq!(sim.frames[8], [0x03, 0x00, 0xB0, 0x00, 0x20, 0x0A]);
}

#[test]
fn type_4_failures_are_told_apart() {
    let (mut dep, mut nfc, mut delay) = active(vec![block(&[0x02, 0x6A, 0x82])]);
    assert_eq!(
        ndef::read_type4(&mut dep, &mut nfc, &mut delay),
        Err(ndef::Error::Status { step: "select-app", sw: 0x6A82 })
    );
    let (mut dep, mut nfc, mut delay) = active(vec![block(&[0x02])]);
    assert_eq!(ndef::read_type4(&mut dep, &mut nfc, &mut delay), Err(ndef::Error::Malformed));
    let (mut dep, mut nfc, mut delay) = active(vec![]);
    assert_eq!(
        ndef::read_type4(&mut dep, &mut nfc, &mut delay),
        Err(ndef::Error::Dep(DepError::Nfc(NfcError::Timeout)))
    );
    // no file control TLV
    let mut script = type4(&[1], 15);
    script[2].fifo[8] = 0x05;
    let (mut dep, mut nfc, mut delay) = active(script);
    assert_eq!(ndef::read_type4(&mut dep, &mut nfc, &mut delay), Err(ndef::Error::Malformed));
    assert_eq!(
        ndef::Error::from(DepError::<u8>::Retries),
        ndef::Error::Dep(DepError::Retries)
    );
}

#[test]
fn status_words_are_checked() {
    assert_eq!(check::<u8>("x", &[1, 0x90, 0x00]), Ok(()));
    assert_eq!(check::<u8>("x", &[0x90]), Err(ndef::Error::Malformed));
    assert_eq!(
        check::<u8>("x", &[0x63, 0xC0]),
        Err(ndef::Error::Status { step: "x", sw: 0x63C0 })
    );
}

#[test]
fn records_are_parsed() {
    let msg = [0xD1, 0x01, 0x03, b'U', 0x04, b'a', b'b'];
    assert_eq!(first_record(&msg), Some((1, &b"U"[..], &[0x04, b'a', b'b'][..])));
    assert_eq!(record_at(&msg, 0).unwrap().next, 7);
    assert!(first_record(&[]).is_none());
    assert!(first_record(&msg[..6]).is_none());
    // long form, with an id
    let long = [0xC9, 0x01, 0, 0, 0, 1, 0x02, 9, 9, b'T', 0x00];
    assert_eq!(first_record(&long), Some((1, &b"T"[..], &[0x00][..])));
    let huge = [0xC1, 0x01, 0xFF, 0xFF, 0xFF, 0xFF, b'T', 0x00];
    assert!(first_record(&huge).is_none());
    assert!(record_at(&msg, 7).is_none());
    assert!(record_at(&msg, 99).is_none());
}

#[test]
fn messages_are_summarised() {
    assert_eq!(summarize(&[0xD1, 0x01, 0x03, b'U', 0x04, b'a', b'b']), "URI: https://ab");
    assert_eq!(summarize(&[0xD1, 0x01, 0x00, b'U']), "URI: ");
    assert_eq!(
        summarize(&[0xD1, 0x01, 0x06, b'T', 0x02, b'e', b'n', b'H', 0x07, b'i']),
        "Text: H.i"
    );
    assert_eq!(summarize(&[0xD1, 0x01, 0x01, b'T', 0x02]), "Text: ");
    assert_eq!(summarize(&[0xD2, 0x02, 0x0A, b'a', b'/', 0, 0, 0, 0, 0, 0, 0, 0, 0, 0]), "TNF=2 type=a/ (10B)");
    assert_eq!(summarize(&[]), "(empty/invalid NDEF)");
    assert_eq!(ascii(&[0x1F, 0x20, 0x7E, 0x7F]), ". ~.");
    assert_eq!(uri_prefix(0x06), "mailto:");
    assert_eq!(uri_prefix(0x07), "");
}
