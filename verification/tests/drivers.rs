use std::cell::RefCell;
use std::collections::HashMap;
use std::rc::Rc;

use paper_name_plate::board::{
    epd_hard_reset, epd_power_on, fast_devices, ioe, next_stage, nfc_power, recover_i2c_speed,
    start_expander, start_nfc, start_power, start_touch, touch_reset, PowerReport, Stage,
};
use paper_name_plate::bus::{Delay, I2cBus, I2cPort};
use paper_name_plate::ft6336::{Ft6336, TouchPoint};
use paper_name_plate::i2c_reg;
use paper_name_plate::ioe1::{self, Ioe1, Pin, PwmChannel};
use paper_name_plate::pm1::{self, Pm1};
use paper_name_plate::st25r3916::{Error as NfcError, St25r3916};

/// Devices with registers on one bus.
#[derive(Default)]
struct World {
    regs: HashMap<(u8, u8), u8>,
    writes: Vec<(u8, Vec<u8>)>,
    reads: usize,
    /// Reads that fail before the bus works.
    fail_reads: usize,
    missing: Vec<u8>,
    paused_ms: u64,
}

#[derive(Clone, Default)]
struct Bus(Rc<RefCell<World>>);

impl Bus {
    fn set(&self, addr: u8, reg: u8, bytes: &[u8]) {
        for (i, b) in bytes.iter().enumerate() {
            self.0.borrow_mut().regs.insert((addr, reg + i as u8), *b);
        }
    }

    fn get(&self, addr: u8, reg: u8) -> u8 {
        *self.0.borrow().regs.get(&(addr, reg)).unwrap_or(&0)
    }

    fn writes(&self) -> Vec<(u8, Vec<u8>)> {
        std::mem::take(&mut self.0.borrow_mut().writes)
    }
}

impl I2cPort for Bus {
    type Error = &'static str;

    fn write(&mut self, addr: u8, bytes: &[u8]) -> Result<(), &'static str> {
        let mut w = self.0.borrow_mut();
        if w.missing.contains(&addr) {
            return Err("nack");
        }
        w.writes.push((addr, bytes.to_vec()));
        for (i, b) in bytes[1..].iter().enumerate() {
            w.regs.insert((addr, bytes[0].wrapping_add(i as u8)), *b);
        }
        Ok(())
    }

    fn write_parts(&mut self, addr: u8, head: &[u8], tail: &[u8]) -> Result<(), &'static str> {
        let mut all = head.to_vec();
        all.extend_from_slice(tail);
        self.write(addr, &all)
    }

    fn write_read(&mut self, addr: u8, bytes: &[u8], len: usize) -> Result<Vec<u8>, &'static str> {
        let mut w = self.0.borrow_mut();
        w.reads += 1;
        if w.missing.contains(&addr) || w.reads <= w.fail_reads {
            return Err("nack");
        }
        Ok((0..len).map(|i| *w.regs.get(&(addr, bytes[0].wrapping_add(i as u8))).unwrap_or(&0)).collect())
    }
}

impl Delay for Bus {
    fn delay_ms(&mut self, ms: u32) {
        self.0.borrow_mut().paused_ms += ms as u64;
    }

    fn delay_us(&mut self, _us: u32) {}
}

#[test]
fn registers_are_updated_in_part() {
    let bus = Bus::default();
    bus.set(0x10, 5, &[0xF0, 0x34, 0x12]);
    let mut i2c = I2cBus::new(bus.clone());
    assert_eq!(i2c_reg::read_u8(&mut i2c, 0x10, 5), Ok(0xF0));
    assert_eq!(i2c_reg::read_u16_le(&mut i2c, 0x10, 6), Ok(0x1234));
    i2c_reg::update_u8(&mut i2c, 0x10, 5, 0x3C, 0x18).unwrap();
    assert_eq!(bus.get(0x10, 5), 0xD8);
    i2c_reg::update_u8(&mut i2c, 0x10, 5, 0x3C, 0x18).unwrap();
    i2c_reg::set_bits(&mut i2c, 0x10, 5, 0x01).unwrap();
    i2c_reg::clear_bits(&mut i2c, 0x10, 5, 0x80).unwrap();
    assert_eq!(bus.get(0x10, 5), 0x59);
    i2c_reg::write(&mut i2c, 0x10, 9, &[1, 2]).unwrap();
    assert_eq!(
        bus.writes(),
        vec![
            (0x10, vec![5, 0xD8]),
            (0x10, vec![5, 0xD9]),
            (0x10, vec![5, 0x59]),
            (0x10, vec![9, 1, 2])
        ]
    );
    let mut buf = [0u8; 2];
    i2c_reg::read(&mut i2c, 0x10, 9, &mut buf).unwrap();
    assert_eq!(buf, [1, 2]);
}

#[test]
fn the_expander_is_found_after_retries() {
    let bus = Bus::default();
    bus.set(ioe1::ADDR, 0, &[0x34, 0x12]);
    bus.0.borrow_mut().fail_reads = 3;
    let mut ioe = Ioe1::new(bus.clone());
    assert_eq!(ioe.init(&mut bus.clone()), Ok(0x1234));
    assert_eq!(bus.0.borrow().paused_ms, 3 * 10 + 5);
    assert_eq!(bus.writes(), vec![(ioe1::ADDR, vec![0x23, 0x00])]);
    bus.0.borrow_mut().missing.push(ioe1::ADDR);
    assert_eq!(ioe.init(&mut bus.clone()), Err(ioe1::Error::NotFound));
    assert_eq!(ioe1::Error::from("nack"), ioe1::Error::I2c("nack"));
}

#[test]
fn pins_live_in_two_banks() {
    let bus = Bus::default();
    bus.set(ioe1::ADDR, 0x13, &[0xFF, 0xFF]);
    let mut ioe = Ioe1::new(bus.clone());
    ioe.set_output(Pin(2)).unwrap();
    ioe.set_output(Pin(13)).unwrap();
    ioe.write(Pin(13), true).unwrap();
    assert_eq!(
        bus.writes(),
        vec![
            (ioe1::ADDR, vec![0x13, 0xFB]),
            (ioe1::ADDR, vec![0x03, 0x04]),
            (ioe1::ADDR, vec![0x14, 0xDF]),
            (ioe1::ADDR, vec![0x04, 0x20]),
            (ioe1::ADDR, vec![0x06, 0x20]),
        ]
    );
    ioe.set_input(Pin(2), true).unwrap();
    assert_eq!((bus.get(ioe1::ADDR, 0x03), bus.get(ioe1::ADDR, 0x09)), (0x00, 0x04));
    bus.set(ioe1::ADDR, 0x07, &[0x80, 0x01]);
    assert_eq!(ioe.read(Pin(7)), Ok(true));
    assert_eq!(ioe.read(Pin(8)), Ok(true));
    assert_eq!(ioe.read(Pin(9)), Ok(false));
    ioe.write_mask(true, 0x30, 0x10).unwrap();
    assert_eq!(bus.get(ioe1::ADDR, 0x06), 0x10);
    ioe.write_mask(false, 0x0F, 0x05).unwrap();
    assert_eq!(bus.get(ioe1::ADDR, 0x05), 0x05);
    assert_eq!(ioe.rev(), Ok(0));
}

#[test]
fn pwm_channels_are_programmed() {
    let bus = Bus::default();
    let mut ioe = Ioe1::new(bus.clone());
    ioe.set_pwm_frequency(5000).unwrap();
    ioe.set_pwm_duty(PwmChannel(1), 0x0ABC, true).unwrap();
    ioe.set_pwm_duty(PwmChannel(3), 0xFABC, false).unwrap();
    assert_eq!(
        bus.writes(),
        vec![
            (ioe1::ADDR, vec![0x25, 0x88, 0x13]),
            (ioe1::ADDR, vec![0x1D, 0xBC, 0x8A]),
            (ioe1::ADDR, vec![0x21, 0xBC, 0x0A])
        ]
    );
}

#[test]
fn the_pmic_is_woken_and_configured() {
    let bus = Bus::default();
    bus.set(pm1::ADDR, 0, &[0x50, 0x20]);
    bus.0.borrow_mut().fail_reads = 3;
    let mut pm = Pm1::new(bus.clone());
    pm.init(&mut bus.clone()).unwrap();
    // probe, wake, probe, then the first good answer
    assert_eq!(bus.0.borrow().reads, 6);
    assert_eq!(bus.0.borrow().paused_ms, 2 * 10 + 2 * 5);
    assert_eq!(
        bus.writes(),
        vec![
            (pm1::ADDR, vec![0x09, 0x00]),
            (pm1::ADDR, vec![0x09, 0x00]),
            (pm1::ADDR, vec![0x0A, 0x00]),
            (pm1::ADDR, vec![0x06, 0x17])
        ]
    );
    bus.set(pm1::ADDR, 0, &[0x51]);
    assert_eq!(pm.init(&mut bus.clone()), Err(pm1::Error::NotFound));
    assert_eq!(pm1::Error::from("nack"), pm1::Error::I2c("nack"));
}

#[test]
fn voltages_are_read() {
    let bus = Bus::default();
    bus.set(pm1::ADDR, 0x22, &[0x10, 0xFF]);
    bus.set(pm1::ADDR, 0x24, &[0x88, 0xF3]);
    bus.set(pm1::ADDR, 0x04, &[0xFA]);
    let mut pm = Pm1::new(bus.clone());
    assert_eq!(pm.battery_mv(), Ok(0xF10));
    assert_eq!(pm.vin_mv(), Ok(0x388));
    assert_eq!(pm.power_source(), Ok(2));
    bus.set(pm1::ADDR, 0x22, &[0x20, 0x00]);
    let before = bus.0.borrow().reads;
    assert_eq!(pm.battery_mv(), Ok(0x20));
    assert_eq!(bus.0.borrow().reads - before, 5);
}

#[test]
fn the_front_light_follows_a_square() {
    let bus = Bus::default();
    bus.set(pm1::ADDR, 0x13, &[0xFF]);
    let mut pm = Pm1::new(bus.clone());
    pm.init_frontlight(5000).unwrap();
    pm.set_frontlight(128).unwrap();
    pm.set_frontlight(255).unwrap();
    pm.set_frontlight(1).unwrap();
    assert_eq!(
        bus.writes(),
        vec![
            (pm1::ADDR, vec![0x13, 0xF7]),
            (pm1::ADDR, vec![0x16, 0xC0]),
            (pm1::ADDR, vec![0x34, 0x88, 0x13]),
            (pm1::ADDR, vec![0x30, 0x00, 0x00]),
            (pm1::ADDR, vec![0x30, 0x00, 0x14]),
            (pm1::ADDR, vec![0x30, 0xE0, 0x1F]),
            (pm1::ADDR, vec![0x30, 0x00, 0x10]),
        ]
    );
    pm.set_led_en(true).unwrap();
    pm.set_led_en(false).unwrap();
    pm.shutdown().unwrap();
    assert_eq!(
        bus.writes(),
        vec![(pm1::ADDR, vec![0x06, 0x10]), (pm1::ADDR, vec![0x06, 0x00]), (pm1::ADDR, vec![0x0C, 0xA1])]
    );
}

#[test]
fn touches_are_decoded() {
    let bus = Bus::default();
    bus.set(0x38, 0x02, &[0x02, 0x81, 0x23, 0x12, 0x45, 0, 0, 0x43, 0x1F, 0x02, 0x58, 0, 0]);
    let mut ft = Ft6336::new(bus.clone());
    let mut points = [TouchPoint::default(); 2];
    assert_eq!(ft.read(&mut points), Ok(2));
    assert_eq!(points[0], TouchPoint { x: 0x123, y: 0x245, event: 2, id: 1 });
    assert_eq!(points[1], TouchPoint { x: 0x31F, y: 0x258, event: 1, id: 0 });
    bus.set(0x38, 0x02, &[0x01, 0x00, 0x07, 0x00, 0x08]);
    assert_eq!(ft.read(&mut points), Ok(1));
    assert_eq!((points[0].x, points[0].y), (7, 8));
    assert_eq!(points[1].x, 0x31F);
    bus.set(0x38, 0x02, &[0x03]);
    assert_eq!(ft.read(&mut points), Ok(0));
    assert_eq!(points[0].x, 7);
}

#[test]
fn the_touch_controller_is_waited_for() {
    let bus = Bus::default();
    let mut ft = Ft6336::new(bus.clone());
    assert_eq!(ft.init(&mut bus.clone()), Ok(0));
    assert_eq!(bus.0.borrow().paused_ms, 500);
    bus.set(0x38, 0xA3, &[0x64]);
    bus.set(0x38, 0xA8, &[0x11]);
    assert_eq!(start_touch(&mut ft, &mut bus.clone()), Ok((0x64, 0x11)));
    assert_eq!(bus.writes(), vec![(0x38, vec![0xA4, 0x00]); 2]);
    bus.0.borrow_mut().missing.push(0x38);
    assert_eq!(start_touch(&mut ft, &mut bus.clone()), Err("nack"));
}

#[test]
fn panel_and_touch_are_powered_and_reset() {
    let bus = Bus::default();
    let mut x = Ioe1::new(bus.clone());
    epd_power_on(&mut x, &mut bus.clone()).unwrap();
    assert_eq!(bus.get(ioe1::ADDR, 0x03), 0x34);
    assert_eq!(bus.get(ioe1::ADDR, 0x04), 0x30);
    assert_eq!(bus.get(ioe1::ADDR, 0x05), 0x34);
    assert_eq!(bus.get(ioe1::ADDR, 0x06), 0x10);
    assert_eq!(bus.0.borrow().paused_ms, 2 + 10 + 10);
    bus.writes();
    epd_hard_reset(&mut x, &mut bus.clone()).unwrap();
    assert_eq!(
        bus.writes(),
        vec![
            (ioe1::ADDR, vec![0x05, 0x24]),
            (ioe1::ADDR, vec![0x05, 0x04]),
            (ioe1::ADDR, vec![0x05, 0x14]),
            (ioe1::ADDR, vec![0x05, 0x34])
        ]
    );
    nfc_power(&mut x, true).unwrap();
    assert_eq!(bus.get(ioe1::ADDR, 0x05) & (1 << ioe::NFC_EN), 1 << ioe::NFC_EN);
    touch_reset(&mut x, &mut bus.clone()).unwrap();
    assert_eq!(bus.0.borrow().paused_ms, 22 + 20 + 310);
}

#[test]
fn bring_up_reports_what_answers() {
    let bus = Bus::default();
    bus.set(pm1::ADDR, 0, &[0x50, 0x20, 3, 4, 1]);
    bus.set(pm1::ADDR, 0x22, &[0x00, 0x0F, 0x00, 0x05]);
    let mut pm = Pm1::new(bus.clone());
    assert_eq!(
        start_power(&mut pm, &mut bus.clone()),
        Ok(PowerReport { hw: 3, sw: 4, source: 1, vbat: 0xF00, vin: 0x500 })
    );
    bus.set(ioe1::ADDR, 0, &[0x34, 0x12, 0x07]);
    let mut x = Ioe1::new(bus.clone());
    let report = start_expander(&mut x, &mut bus.clone());
    assert_eq!((report.found, report.rev), (Ok(0x1234), 7));
    assert_eq!((report.epd_power, report.nfc_power), (Ok(()), Ok(())));
    let mut plain = I2cBus::new(bus.clone());
    assert_eq!(fast_devices(&mut plain, &mut bus.clone()), (Ok(()), Ok(())));
    assert_eq!(bus.get(pm1::ADDR, 0x09), 0x10);
    assert_eq!(bus.get(ioe1::ADDR, 0x23), 0x10);
    assert_eq!(recover_i2c_speed(&mut plain, &mut bus.clone()), (Ok(()), Ok(())));
    assert_eq!(bus.get(pm1::ADDR, 0x09), 0x00);
    assert_eq!(bus.get(ioe1::ADDR, 0x23), 0x00);
    let mut nfc = St25r3916::new(bus.clone());
    assert_eq!(
        start_nfc(&mut nfc, &mut bus.clone()),
        Err(NfcError::NotFound { identity: 0 })
    );
}

#[test]
fn missing_parts_do_not_stop_the_bring_up() {
    let bus = Bus::default();
    bus.0.borrow_mut().missing = vec![pm1::ADDR, ioe1::ADDR, 0x50];
    let mut pm = Pm1::new(bus.clone());
    assert_eq!(start_power(&mut pm, &mut bus.clone()), Err(pm1::Error::NotFound));
    let mut x = Ioe1::new(bus.clone());
    let report = start_expander(&mut x, &mut bus.clone());
    assert_eq!((report.found, report.rev), (Err(ioe1::Error::NotFound), 0));
    assert_eq!((report.epd_power, report.nfc_power), (Err("nack"), Err("nack")));
    let mut plain = I2cBus::new(bus.clone());
    assert_eq!(fast_devices(&mut plain, &mut bus.clone()), (Err("nack"), Err("nack")));
}

#[test]
fn stages_follow_each_other() {
    let run = |fail: &[Stage]| {
        let mut stage = Stage::ProbePower;
        let mut seen = Vec::new();
        while stage != Stage::Complete {
            seen.push(stage);
            stage = next_stage(stage, !fail.contains(&stage));
        }
        seen
    };
    let plain = run(&[]);
    assert_eq!(plain.len(), 8);
    assert_eq!(plain[0], Stage::ProbePower);
    assert_eq!(plain[1], Stage::StartPower);
    assert_eq!(plain[7], Stage::FastBus);
    let hard = run(&[
        Stage::ProbePower,
        Stage::StartPower,
        Stage::StartExpander,
        Stage::StartPanel,
        Stage::StartTouch,
        Stage::StartNfc,
        Stage::FastDevices,
    ]);
    assert_eq!(hard.len(), 8);
    assert_eq!(hard[1], Stage::RecoverSpeed);
    assert_eq!(*hard.last().unwrap(), Stage::FastDevices);
    assert_eq!(next_stage(Stage::Complete, true), Stage::Complete);
}
