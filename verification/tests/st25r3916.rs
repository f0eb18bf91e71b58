use paper_name_plate::bus::{Delay, I2cPort};
use paper_name_plate::st25r3916::{irq, reg, Error, Level, NfcaTag, St25r3916};

/// A simulated chip: registers, FIFO, interrupts, and a script of answers to
/// transmitted frames.
struct Sim {
    regs: [u8; 64],
    regs_b: [u8; 64],
    irq: [u8; 4],
    fifo: Vec<u8>,
    loaded: Vec<u8>,
    pt_memory: Vec<u8>,
    script: Vec<Answer>,
    writes: Vec<Vec<u8>>,
    frames: Vec<Vec<u8>>,
    calls: usize,
    fail_from: usize,
    crystal: bool,
}

#[derive(Clone)]
struct Answer {
    irq: u32,
    fifo: Vec<u8>,
    collision: u8,
}

fn answer(irq: u32, fifo: &[u8]) -> Answer {
    Answer { irq, fifo: fifo.to_vec(), collision: 0 }
}

impl Sim {
    fn new() -> Sim {
        let mut regs = [0u8; 64];
        regs[0x3F] = 0x2A;
        Sim {
            regs,
            regs_b: [0; 64],
            irq: [0; 4],
            fifo: Vec::new(),
            loaded: Vec::new(),
            pt_memory: Vec::new(),
            script: Vec::new(),
            writes: Vec::new(),
            frames: Vec::new(),
            calls: 0,
            fail_from: usize::MAX,
            crystal: true,
        }
    }

    fn raise(&mut self, irq: u32) {
        let b = irq.to_be_bytes();
        for i in 0..4 {
            self.irq[i] |= b[i];
        }
    }

    fn command(&mut self, c: u8) {
        if c == 0xDB {
            self.fifo.clear();
        }
        if (0xC4..=0xC7).contains(&c) {
            let frame = if c >= 0xC6 { vec![c] } else { self.loaded.clone() };
            self.frames.push(frame);
            if !self.script.is_empty() {
                let a = self.script.remove(0);
                self.fifo = a.fifo;
                self.regs[0x20] = a.collision;
                self.raise(a.irq);
            }
        }
    }

    fn write_bytes(&mut self, bytes: &[u8]) {
        self.writes.push(bytes.to_vec());
        let head = bytes[0];
        if head < 0x40 {
            for (i, v) in bytes[1..].iter().enumerate() {
                let r = head as usize + i;
                let before = self.regs[r];
                self.regs[r] = *v;
                if r == 0x02 && self.crystal && before & 0x80 == 0 && v & 0x80 != 0 {
                    self.regs[0x31] |= 0x10;
                    self.raise(0x8000_0000);
                }
            }
        } else if head == 0x80 {
            self.loaded = bytes[1..].to_vec();
        } else if head == 0xA0 {
            self.pt_memory = bytes[1..].to_vec();
        } else if head == 0xFB {
            self.regs_b[bytes[1] as usize] = bytes[2];
        } else if head != 0xFC {
            self.command(head);
        }
    }

    fn read_one(&mut self, r: usize) -> u8 {
        match r {
            0x1A..=0x1D => std::mem::take(&mut self.irq[r - 0x1A]),
            0x1E => self.fifo.len() as u8,
            0x1F => ((self.fifo.len() >> 2) & 0xC0) as u8,
            _ => self.regs[r],
        }
    }
}

impl I2cPort for Sim {
    type Error = u8;

    fn write(&mut self, addr: u8, bytes: &[u8]) -> Result<(), u8> {
        assert_eq!(addr, 0x50);
        self.calls += 1;
        if self.calls > self.fail_from {
            return Err(7);
        }
        self.write_bytes(bytes);
        Ok(())
    }

    fn write_parts(&mut self, addr: u8, head: &[u8], tail: &[u8]) -> Result<(), u8> {
        let mut all = head.to_vec();
        all.extend_from_slice(tail);
        self.write(addr, &all)
    }

    fn write_read(&mut self, addr: u8, bytes: &[u8], len: usize) -> Result<Vec<u8>, u8> {
        assert_eq!(addr, 0x50);
        self.calls += 1;
        if self.calls > self.fail_from {
            return Err(7);
        }
        if bytes[0] == 0x9F {
            return Ok(self.fifo.drain(..len).collect());
        }
        if bytes[0] == 0xFB || bytes[0] == 0xFC {
            return Ok(vec![self.regs_b[(bytes[1] & 0x3F) as usize]; len]);
        }
        let first = (bytes[0] & 0x3F) as usize;
        Ok((0..len).map(|i| self.read_one(first + i)).collect())
    }
}

struct Pauses {
    us: u64,
}

impl Delay for Pauses {
    fn delay_ms(&mut self, ms: u32) {
        self.us += ms as u64 * 1000;
    }

    fn delay_us(&mut self, us: u32) {
        self.us += us as u64;
    }
}


fn driver(sim: Sim) -> (St25r3916<Sim>, Pauses) {
    (St25r3916::new(sim), Pauses { us: 0 })
}

const RXE: u32 = irq::RXE;

#[test]
fn registers_are_framed() {
    let mut sim = Sim::new();
    sim.regs[0x05] = 0x12;
    let (mut nfc, _) = driver(sim);
    assert_eq!(nfc.read_reg(0x05), Ok(0x12));
    assert_eq!(nfc.read_reg(0x45), Ok(0x12));
    nfc.write_reg(0x45, 0x34).unwrap();
    let mut two = [0u8; 2];
    nfc.read_regs(0x05, &mut two).unwrap();
    assert_eq!(two, [0x34, 0x00]);
    nfc.write_reg_b(0x2A, 0x80).unwrap();
    assert_eq!(nfc.read_reg_b(0x2A), Ok(0x80));
    assert_eq!(nfc.read_test_reg(0x6A), Ok(0x80));
    let sim = nfc.release();
    assert_eq!(sim.writes, vec![vec![0x05, 0x34], vec![0xFB, 0x2A, 0x80]]);
}

#[test]
fn modify_writes_only_changes() {
    let mut sim = Sim::new();
    sim.regs[0x02] = 0xC8;
    let (mut nfc, _) = driver(sim);
    nfc.modify_reg(0x02, 0x08, 0x03).unwrap();
    nfc.modify_reg(0x02, 0x08, 0x03).unwrap();
    let sim = nfc.release();
    assert_eq!(sim.writes, vec![vec![0x02, 0xC3]]);
}

#[test]
fn fifo_status_counts_bytes_and_bits() {
    struct Fixed;
    impl I2cPort for Fixed {
        type Error = ();
        fn write(&mut self, _a: u8, _b: &[u8]) -> Result<(), ()> {
            Ok(())
        }
        fn write_parts(&mut self, _a: u8, _h: &[u8], _t: &[u8]) -> Result<(), ()> {
            Ok(())
        }
        fn write_read(&mut self, _a: u8, _b: &[u8], _n: usize) -> Result<Vec<u8>, ()> {
            Ok(vec![0x05, 0x86])
        }
    }
    let mut nfc = St25r3916::new(Fixed);
    assert_eq!(nfc.fifo_status(), Ok((0x205, 3)));
}

#[test]
fn short_replies_read_as_zero() {
    struct Short;
    impl I2cPort for Short {
        type Error = ();
        fn write(&mut self, _a: u8, _b: &[u8]) -> Result<(), ()> {
            Ok(())
        }
        fn write_parts(&mut self, _a: u8, _h: &[u8], _t: &[u8]) -> Result<(), ()> {
            Ok(())
        }
        fn write_read(&mut self, _a: u8, _b: &[u8], _n: usize) -> Result<Vec<u8>, ()> {
            Ok(Vec::new())
        }
    }
    let mut nfc = St25r3916::new(Short);
    assert_eq!(nfc.read_reg(1), Ok(0));
}

#[test]
fn failed_reads_leave_the_buffer() {
    let mut sim = Sim::new();
    sim.fail_from = 0;
    let (mut nfc, _) = driver(sim);
    let mut buf = [1, 2, 3];
    assert_eq!(nfc.read_regs(0, &mut buf), Err(7));
    assert_eq!(buf, [1, 2, 3]);
    assert_eq!(nfc.read_fifo(&mut []), Ok(()));
}

#[test]
fn interrupts_are_kept_until_taken() {
    let mut sim = Sim::new();
    sim.raise(0x1234_5678);
    let (mut nfc, _) = driver(sim);
    assert_eq!(nfc.peek_irq(), Ok(0x1234_5678));
    assert_eq!(nfc.peek_irq(), Ok(0x1234_5678));
    assert_eq!(nfc.take_irq(0x00FF_0000), Ok(0x0034_0000));
    assert_eq!(nfc.peek_irq(), Ok(0x1200_5678));
    nfc.clear_irq().unwrap();
    assert_eq!(nfc.peek_irq(), Ok(0));
}

#[test]
fn waiting_times_out_with_the_no_response_flag() {
    let (mut nfc, mut delay) = driver(Sim::new());
    assert_eq!(nfc.wait_irq(&mut delay, RXE, 2), Ok(irq::NRE));
    assert_eq!(delay.us, 8 * 250);
}

#[test]
fn init_brings_the_chip_up() {
    let (mut nfc, mut delay) = driver(Sim::new());
    assert_eq!(nfc.init(&mut delay), Ok(()));
    let sim = nfc.release();
    assert_eq!(sim.regs[0x02], 0x80);
    assert_eq!(sim.regs[reg::TX_DRIVER as usize], 0xD0);
    assert_eq!(sim.regs[reg::IO_CONF1 as usize], 0x17);
    assert_eq!(sim.regs[reg::IO_CONF2 as usize], 0xA4);
    assert_eq!(sim.regs_b[reg::B_EMD_SUP_CONF as usize], 0x40);
    assert_eq!(sim.writes[0], vec![0xC2]);
    assert_eq!(*sim.writes.last().unwrap(), vec![0xD6]);
}

#[test]
fn another_chip_is_not_found() {
    let mut sim = Sim::new();
    sim.regs[0x3F] = 0x31;
    let (mut nfc, mut delay) = driver(sim);
    assert_eq!(nfc.init(&mut delay), Err(Error::NotFound { identity: 0x31 }));
    assert_eq!(delay.us, 5 * 20_000);
}

#[test]
fn a_dead_crystal_is_reported() {
    let mut sim = Sim::new();
    sim.crystal = false;
    let (mut nfc, mut delay) = driver(sim);
    assert_eq!(nfc.init(&mut delay), Err(Error::Oscillator));
}

#[test]
fn bus_failures_come_through() {
    let mut sim = Sim::new();
    sim.fail_from = 3;
    let (mut nfc, mut delay) = driver(sim);
    assert_eq!(nfc.init(&mut delay), Err(Error::I2c(7)));
    assert_eq!(nfc.nfca_poll(&mut delay), Err(Error::I2c(7)));
    assert_eq!(Error::from(7u8), Error::I2c(7u8));
}

#[test]
fn the_field_is_switched_on_once() {
    let (mut nfc, mut delay) = driver(Sim::new());
    nfc.field_on(&mut delay).unwrap();
    assert_eq!(delay.us, 6000);
    nfc.field_on(&mut delay).unwrap();
    assert_eq!(delay.us, 6000);
    assert_eq!(nfc.is_field_on(), Ok(false));
    assert_eq!(nfc.read_reg(0x02), Ok(0x48));
    nfc.power_down().unwrap();
    assert_eq!(nfc.read_reg(0x02), Ok(0x00));
}

#[test]
fn collision_avoidance_is_waited_for() {
    let (mut nfc, mut delay) = driver(Sim::new());
    assert_eq!(nfc.field_on_ca(&mut delay), Ok(irq::NRE));
    assert_eq!(delay.us, 80 * 250 + 6000);
    assert_eq!(nfc.read_reg(0x02), Ok(0x49));
    assert!(nfc.release().writes.contains(&vec![0xC8]));
}

#[test]
fn the_amplitude_is_measured() {
    let mut sim = Sim::new();
    sim.regs[0x25] = 0x77;
    let (mut nfc, mut delay) = driver(sim);
    assert_eq!(nfc.measure_amplitude(&mut delay), Ok(0x77));
    assert_eq!(delay.us, 2000);
    assert_eq!(nfc.identity(), Ok(0x2A));
    nfc.write_irq_mask(0x1234_5678).unwrap();
    assert_eq!(
        nfc.release().writes,
        vec![vec![0xD3], vec![0x16, 0x12, 0x34, 0x56, 0x78]]
    );
}

#[test]
fn configuration_ends_with_the_field() {
    let (mut nfc, mut delay) = driver(Sim::new());
    nfc.configure_nfca(&mut delay).unwrap();
    let mut all = [0u8; 64];
    nfc.dump_regs(&mut all).unwrap();
    assert_eq!(all[reg::MODE as usize], 0x09);
    assert_eq!(all[reg::RX_CONF2 as usize], 0x2D);
    assert_eq!(all[reg::OP_CONTROL as usize], 0x48);
    assert_eq!(nfc.status(), Ok((0x48, 0x00, 0x00)));
}

#[test]
fn the_response_timer_is_programmed() {
    let (mut nfc, _) = driver(Sim::new());
    nfc.set_fwt_ms(4).unwrap();
    nfc.set_fwt_ms(0).unwrap();
    nfc.set_fwt_ms(400).unwrap();
    let sim = nfc.release();
    // 4 ms at 64 / 13.56 MHz: 847.5 ticks, rounded up
    assert_eq!(sim.writes[0], vec![0x10, 0x03, 0x50]);
    assert_eq!(sim.writes[1], vec![0x10, 0x00, 0x01]);
    assert_eq!(sim.writes[2], vec![0x10, 0xFF, 0xFF]);
}

#[test]
fn coarse_timer_steps_are_used() {
    let mut sim = Sim::new();
    sim.regs[0x12] = 0x01;
    let (mut nfc, _) = driver(sim);
    nfc.set_fwt_ms(400).unwrap();
    assert_eq!(nfc.release().writes[0], vec![0x10, 0x05, 0x2D]);
}

#[test]
fn lengths_are_programmed_in_bytes_and_bits() {
    let (mut nfc, _) = driver(Sim::new());
    nfc.set_num_tx(0x1A5, 3).unwrap();
    nfc.target_transmit(&[0x0A], 4).unwrap();
    nfc.target_transmit(&[1, 2, 3], 0).unwrap();
    let sim = nfc.release();
    assert_eq!(sim.writes[0], vec![0x22, 0x0D, 0x2B]);
    assert_eq!(
        sim.writes[1..5],
        [vec![0xDB], vec![0x80, 0x0A], vec![0x22, 0x00, 0x04], vec![0xC5]]
    );
    assert_eq!(
        sim.writes[5..9],
        [vec![0xDB], vec![0x80, 1, 2, 3], vec![0x22, 0x00, 0x18], vec![0xC4]]
    );
}

#[test]
fn nobody_answers_a_poll() {
    let (mut nfc, mut delay) = driver(Sim::new());
    assert_eq!(nfc.nfca_poll(&mut delay), Ok(None));
    assert_eq!(nfc.last_request_irq, irq::NRE);
    assert_eq!(nfc.release().frames, vec![vec![0xC7]]);
}

#[test]
fn a_four_byte_tag_is_selected() {
    let mut sim = Sim::new();
    sim.script = vec![
        answer(RXE, &[0x04, 0x00]),
        answer(RXE, &[0xDE, 0xAD, 0xBE, 0xEF, 0x22]),
        answer(RXE, &[0x08, 0xAA, 0xBB]),
    ];
    let (mut nfc, mut delay) = driver(sim);
    let tag = nfc.nfca_poll(&mut delay).unwrap().unwrap();
    assert_eq!(tag.atqa, 0x0004);
    assert_eq!(tag.uid(), &[0xDE, 0xAD, 0xBE, 0xEF]);
    assert_eq!(tag.sak, 0x08);
    assert!(!tag.is_iso14443_4());
    assert!(!tag.has_random_uid());
    let sim = nfc.release();
    assert_eq!(sim.frames[1], vec![0x93, 0x20]);
    assert_eq!(sim.frames[2], vec![0x93, 0x70, 0xDE, 0xAD, 0xBE, 0xEF, 0x22]);
}

#[test]
fn a_seven_byte_tag_takes_two_levels() {
    let mut sim = Sim::new();
    sim.script = vec![
        answer(RXE, &[0x44, 0x00]),
        answer(RXE, &[0x88, 0x04, 0x50, 0x41, 0x9D]),
        answer(RXE, &[0x04, 0, 0]),
        answer(RXE, &[0x50, 0x45, 0x52, 0x01, 0x46]),
        answer(RXE, &[0x20, 0, 0]),
    ];
    let (mut nfc, mut delay) = driver(sim);
    let tag = nfc.nfca_poll(&mut delay).unwrap().unwrap();
    assert_eq!(tag.uid(), &[0x04, 0x50, 0x41, 0x50, 0x45, 0x52, 0x01]);
    assert!(tag.is_iso14443_4());
    assert_eq!(nfc.release().frames[3], vec![0x95, 0x20]);
}

#[test]
fn a_uid_that_never_ends_is_refused() {
    let mut sim = Sim::new();
    sim.script = vec![answer(RXE, &[0x44, 0x00])];
    for _ in 0..3 {
        sim.script.push(answer(RXE, &[0x88, 1, 2, 3, 0x88]));
        sim.script.push(answer(RXE, &[0x04, 0, 0]));
    }
    let (mut nfc, mut delay) = driver(sim);
    assert_eq!(nfc.nfca_poll(&mut delay), Err(Error::Protocol));
}

#[test]
fn a_collision_is_resolved() {
    let mut sim = Sim::new();
    // two tags differ in bit 2 of the first UID byte: 2 bytes and 2 bits of
    // the frame are good
    sim.script = vec![
        Answer { irq: irq::COL, fifo: vec![0x01], collision: (2 << 4) | (2 << 1) },
        answer(RXE, &[0x18, 0x22, 0x33, 0x44, 0x55]),
    ];
    let (mut nfc, mut delay) = driver(sim);
    let r = nfc.nfca_anticollision_level(&mut delay, 0x93).unwrap();
    assert_eq!(r, [0x1D, 0x22, 0x33, 0x44, 0x55]);
    let sim = nfc.release();
    assert_eq!(sim.frames[0], vec![0x93, 0x20]);
    assert_eq!(sim.frames[1], vec![0x93, 0x23, 0x05]);
}

#[test]
fn endless_collisions_give_up() {
    let mut sim = Sim::new();
    for _ in 0..40 {
        sim.script.push(Answer { irq: irq::COL, fifo: vec![0x01], collision: 0x20 });
    }
    let (mut nfc, mut delay) = driver(sim);
    assert_eq!(nfc.nfca_anticollision_level(&mut delay, 0x93), Err(Error::Collision));
    assert_eq!(nfc.release().frames.len(), 32);
}

#[test]
fn a_collision_outside_the_frame_is_refused() {
    let mut sim = Sim::new();
    sim.script = vec![Answer { irq: irq::COL, fifo: vec![0x01], collision: 0xF0 }];
    let (mut nfc, mut delay) = driver(sim);
    assert_eq!(nfc.nfca_anticollision_level(&mut delay, 0x93), Err(Error::Protocol));
    let mut level = Level::new(0x93);
    assert!(!level.absorb(true, 0x6E, &[0x01]));
    let mut level = Level::new(0x93);
    assert!(level.absorb(true, 0x5E, &[0x01]));
    assert_eq!((level.bytes, level.bits), (6, 0));
}

#[test]
fn an_empty_answer_is_refused() {
    let mut sim = Sim::new();
    sim.script = vec![answer(RXE, &[])];
    let (mut nfc, mut delay) = driver(sim);
    assert_eq!(nfc.nfca_anticollision_level(&mut delay, 0x93), Err(Error::Protocol));
    assert_eq!(nfc.nfca_anticollision_level(&mut delay, 0x93), Err(Error::Timeout));
}

#[test]
fn frames_are_exchanged() {
    let mut sim = Sim::new();
    sim.script = vec![
        answer(RXE, &[1, 2, 3, 4, 5]),
        answer(RXE | irq::CRC, &[9, 9]),
        answer(irq::PAR, &[]),
        answer(0, &[]),
    ];
    let (mut nfc, mut delay) = driver(sim);
    let mut rx = [0u8; 4];
    assert_eq!(nfc.transceive(&mut delay, &[0x30, 0x00], &mut rx, 10), Ok(4));
    assert_eq!(rx, [1, 2, 3, 4]);
    assert_eq!(
        nfc.transceive(&mut delay, &[0x30], &mut rx, 10),
        Err(Error::RxError(RXE | irq::CRC))
    );
    assert_eq!(rx, [9, 9, 3, 4]);
    assert_eq!(
        nfc.transceive(&mut delay, &[0x30], &mut rx, 10),
        Err(Error::RxError(irq::PAR | irq::NRE))
    );
    assert_eq!(nfc.transceive(&mut delay, &[0x30], &mut rx, 10), Err(Error::Timeout));
    assert_eq!(rx, [9, 9, 3, 4]);
}

#[test]
fn type_2_blocks_are_read() {
    let mut sim = Sim::new();
    let blocks: Vec<u8> = (0..18).collect();
    sim.script = vec![answer(RXE, &blocks), answer(RXE, &[0; 15])];
    let (mut nfc, mut delay) = driver(sim);
    let d = nfc.t2t_read(&mut delay, 4).unwrap();
    assert_eq!(d[..], blocks[..16]);
    assert_eq!(nfc.t2t_read(&mut delay, 4), Err(Error::Protocol));
    assert_eq!(nfc.release().frames[0], vec![0x30, 0x04]);
}

#[test]
fn halting_does_not_wait_for_an_answer() {
    let mut sim = Sim::new();
    sim.script = vec![answer(irq::TXE, &[])];
    let (mut nfc, mut delay) = driver(sim);
    assert_eq!(nfc.nfca_halt(&mut delay), Ok(()));
    assert_eq!(delay.us, 0);
    assert_eq!(nfc.release().frames, vec![vec![0x50, 0x00]]);
}

#[test]
fn random_uids_are_recognised() {
    let mut tag = NfcaTag { uid_len: 4, ..Default::default() };
    tag.uid[0] = 0x08;
    assert!(tag.has_random_uid());
    tag.uid_len = 7;
    assert!(!tag.has_random_uid());
}
