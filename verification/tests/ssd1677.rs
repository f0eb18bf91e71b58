use std::cell::RefCell;
use std::rc::Rc;

use paper_name_plate::bus::Delay;
use paper_name_plate::ssd1677::area::{clipped, Area};
use paper_name_plate::ssd1677::port::{InPin, OutPin, SpiPort};
use paper_name_plate::ssd1677::{
    Error, FrameBuffer, GrayMode, Orientation, Ssd1677, Waveforms, HEIGHT, LUT_LEN, PLANE_BYTES,
    ROW_BYTES, WIDTH,
};

/// Everything the wires saw: commands with the data that followed them.
#[derive(Default)]
struct Wires {
    selected: bool,
    data_mode: bool,
    commands: Vec<(u8, Vec<u8>)>,
    flushes: usize,
    busy_polls: usize,
    busy_for: usize,
    spi_fails: bool,
    pin_fails: bool,
    paused_ms: u64,
}

type Shared = Rc<RefCell<Wires>>;

struct Spi(Shared);
struct Dc(Shared);
struct Cs(Shared);
struct Busy(Shared);
struct Pause(Shared);

impl SpiPort for Spi {
    type Error = char;

    fn write(&mut self, bytes: &[u8]) -> Result<(), char> {
        let mut w = self.0.borrow_mut();
        assert!(w.selected);
        if w.spi_fails {
            return Err('s');
        }
        if w.data_mode {
            w.commands.last_mut().unwrap().1.extend_from_slice(bytes);
        } else {
            assert_eq!(bytes.len(), 1);
            w.commands.push((bytes[0], Vec::new()));
            w.busy_polls = 0;
        }
        Ok(())
    }

    fn flush(&mut self) -> Result<(), char> {
        self.0.borrow_mut().flushes += 1;
        Ok(())
    }
}

impl OutPin for Dc {
    type Error = u8;

    fn set_low(&mut self) -> Result<(), u8> {
        self.0.borrow_mut().data_mode = false;
        Ok(())
    }

    fn set_high(&mut self) -> Result<(), u8> {
        self.0.borrow_mut().data_mode = true;
        Ok(())
    }
}

impl OutPin for Cs {
    type Error = u8;

    fn set_low(&mut self) -> Result<(), u8> {
        let mut w = self.0.borrow_mut();
        if w.pin_fails {
            return Err(9);
        }
        w.selected = true;
        Ok(())
    }

    fn set_high(&mut self) -> Result<(), u8> {
        self.0.borrow_mut().selected = false;
        Ok(())
    }
}

impl InPin for Busy {
    type Error = u8;

    fn is_high(&mut self) -> Result<bool, u8> {
        let mut w = self.0.borrow_mut();
        w.busy_polls += 1;
        Ok(w.busy_polls <= w.busy_for)
    }
}

impl Delay for Pause {
    fn delay_ms(&mut self, ms: u32) {
        self.0.borrow_mut().paused_ms += ms as u64;
    }

    fn delay_us(&mut self, _us: u32) {}
}

fn waveforms() -> Waveforms {
    let mut quality = [1u8; LUT_LEN];
    quality[105..].copy_from_slice(&[0x17, 0x41, 0xA8, 0x32, 0x30]);
    Waveforms { quality, text: [2; LUT_LEN], fast: [3; LUT_LEN] }
}

fn panel() -> (Ssd1677<Spi, Dc, Cs, Busy>, Pause, Shared) {
    let w: Shared = Rc::new(RefCell::new(Wires::default()));
    let epd = Ssd1677::new(Spi(w.clone()), Dc(w.clone()), Cs(w.clone()), Busy(w.clone()), waveforms());
    (epd, Pause(w.clone()), w)
}

fn sent(w: &Shared) -> Vec<(u8, Vec<u8>)> {
    std::mem::take(&mut w.borrow_mut().commands)
}

#[test]
fn init_configures_the_panel() {
    let (mut epd, mut delay, w) = panel();
    epd.init(&mut delay).unwrap();
    assert_eq!(
        sent(&w),
        vec![
            (0x12, vec![]),
            (0x18, vec![0x80]),
            (0x0C, vec![0xAE, 0xC7, 0xC3, 0xC0, 0x40]),
            (0x01, vec![0xDF, 0x01, 0x02]),
            (0x3C, vec![0x01]),
            (0x21, vec![0x00]),
            (0x11, vec![0x03]),
            (0x44, vec![0x00, 0x00, 0x1F, 0x03]),
            (0x45, vec![0x00, 0x00, 0xDF, 0x01]),
            (0x4E, vec![0x00, 0x00]),
            (0x4F, vec![0x00, 0x00]),
            (0x46, vec![0xF7]),
            (0x47, vec![0xF7]),
        ]
    );
    assert!(epd.face_known && !epd.face_odd && !epd.screen_on);
    assert!(!w.borrow().selected);
}

#[test]
fn a_panel_that_stays_busy_times_out() {
    let (mut epd, mut delay, w) = panel();
    w.borrow_mut().busy_for = usize::MAX;
    assert_eq!(epd.wait_busy(&mut delay, 5), Err(Error::BusyTimeout));
    assert_eq!(w.borrow().paused_ms, 2 + 5);
    w.borrow_mut().busy_for = 3;
    w.borrow_mut().busy_polls = 0;
    assert_eq!(epd.wait_busy(&mut delay, 5), Ok(()));
    assert_eq!(epd.is_busy(), Ok(false));
}

#[test]
fn failures_of_the_wires_are_told_apart() {
    let (mut epd, _, w) = panel();
    w.borrow_mut().spi_fails = true;
    assert_eq!(epd.command(0x12), Err(Error::Spi('s')));
    // the panel is deselected nevertheless
    assert!(!w.borrow().selected);
    assert_eq!(w.borrow().flushes, 1);
    w.borrow_mut().pin_fails = true;
    assert_eq!(epd.data(&[1]), Err(Error::Pin(9)));
    assert_eq!(epd.data(&[]), Ok(()));
}

#[test]
fn windows_are_programmed() {
    let (mut epd, _, w) = panel();
    epd.set_window(8, 3, 16, 300).unwrap();
    assert_eq!(
        sent(&w)[1..],
        [
            (0x44, vec![8, 0, 23, 0]),
            (0x45, vec![3, 0, 0x2E, 0x01]),
            (0x4E, vec![8, 0]),
            (0x4F, vec![3, 0])
        ]
    );
}

#[test]
fn power_is_switched_only_when_needed() {
    let (mut epd, mut delay, w) = panel();
    epd.set_power(&mut delay, false).unwrap();
    assert!(sent(&w).is_empty());
    epd.set_power(&mut delay, true).unwrap();
    assert_eq!(sent(&w), vec![(0x22, vec![0xC0]), (0x20, vec![])]);
    epd.deep_sleep(&mut delay).unwrap();
    assert_eq!(sent(&w), vec![(0x22, vec![0x03]), (0x20, vec![]), (0x10, vec![0x01])]);
    assert!(!epd.face_known && !epd.screen_on);
}

#[test]
fn a_mono_refresh_fills_both_banks() {
    let (mut epd, mut delay, w) = panel();
    let mut fb = FrameBuffer::new();
    fb.set_pixel(0, 0, 1);
    epd.display_mono(&mut delay, &fb).unwrap();
    let all = sent(&w);
    // an unknown face is initialised first
    assert_eq!(all[0].0, 0x12);
    let red = all.iter().find(|c| c.0 == 0x26).unwrap();
    let bw = all.iter().find(|c| c.0 == 0x24).unwrap();
    assert_eq!(red.1, bw.1);
    assert_eq!(red.1.len(), PLANE_BYTES);
    assert_eq!(red.1[0], 0x7F);
    assert_eq!(all[all.len() - 3..], [(0x21, vec![0]), (0x22, vec![0xF4]), (0x20, vec![])]);
    assert!(epd.screen_on && !epd.face_odd);
}

#[test]
fn gray_planes_are_sent_inverted() {
    let (mut epd, mut delay, w) = panel();
    let mut fb = FrameBuffer::new();
    fb.set_pixel(1, 8, 1);
    epd.display_gray4(&mut delay, &fb, GrayMode::Quality).unwrap();
    let all = sent(&w);
    let bw = &all.iter().find(|c| c.0 == 0x24).unwrap().1;
    let red = &all.iter().find(|c| c.0 == 0x26).unwrap().1;
    assert_eq!(bw.iter().filter(|b| **b != 0).count(), 0);
    assert_eq!(red[ROW_BYTES + 1], 0x80);
    assert_eq!(red.iter().filter(|b| **b != 0).count(), 1);
    let lut = all.iter().position(|c| c.0 == 0x32).unwrap();
    assert_eq!(all[lut].1, vec![1u8; 105]);
    assert_eq!(
        all[lut + 1..],
        [
            (0x03, vec![0x17]),
            (0x04, vec![0x41, 0xA8, 0x32]),
            (0x2C, vec![0x30]),
            (0x21, vec![0]),
            (0x22, vec![0xC7]),
            (0x20, vec![])
        ]
    );
    assert!(!epd.screen_on && !epd.face_odd);
}

#[test]
fn an_odd_face_exchanges_the_planes() {
    let (mut epd, mut delay, w) = panel();
    let mut fb = FrameBuffer::new();
    fb.set_pixel(0, 0, 2);
    epd.display_gray4(&mut delay, &fb, GrayMode::Fast).unwrap();
    assert!(epd.face_odd && epd.screen_on);
    let all = sent(&w);
    assert_eq!(all.iter().find(|c| c.0 == 0x24).unwrap().1[0], 0x80);
    assert_eq!(all[all.len() - 2], (0x22, vec![0xCC]));
    epd.display_gray4(&mut delay, &fb, GrayMode::Text).unwrap();
    let all = sent(&w);
    assert_eq!(all.iter().find(|c| c.0 == 0x24).unwrap().1[0], 0x00);
    assert_eq!(all.iter().find(|c| c.0 == 0x26).unwrap().1[0], 0x80);
    assert_eq!(all[all.len() - 2], (0x22, vec![0x07]));
    assert!(!epd.face_odd);
}

#[test]
fn partial_updates_send_the_region_twice() {
    let (mut epd, mut delay, w) = panel();
    epd.init(&mut delay).unwrap();
    sent(&w);
    let fb = FrameBuffer::new();
    epd.refresh_mono_partial(&mut delay, &fb.msb, 10, 5, 20, 3).unwrap();
    let all = sent(&w);
    assert_eq!(all[0], (0x3C, vec![0x80]));
    assert_eq!(all[2], (0x44, vec![8, 0, 31, 0]));
    assert_eq!(all[3], (0x45, vec![5, 0, 7, 0]));
    assert_eq!(all[6], (0x24, vec![0xFF; 9]));
    assert_eq!(all[8], (0x22, vec![0xFF]));
    assert!(all.contains(&(0x26, vec![0xFF; 9])));
    assert_eq!(all[all.len() - 1], (0x3C, vec![0x01]));
    assert!(epd.face_odd && !epd.screen_on);
}

#[test]
fn an_update_over_a_picture_sends_it_first() {
    let (mut epd, mut delay, w) = panel();
    epd.init(&mut delay).unwrap();
    sent(&w);
    let mut shown = FrameBuffer::new();
    shown.clear_black();
    let fb = FrameBuffer::new();
    epd.refresh_mono_over(&mut delay, &shown.msb, &fb.msb, 10, 5, 20, 3).unwrap();
    let all = sent(&w);
    assert_eq!(all[5], (0x26, vec![0; 48_000]));
    assert_eq!(all[11], (0x24, vec![0; 48_000]));
    assert_eq!(all[12], (0x3C, vec![0x80]));
    assert_eq!(all[18], (0x24, vec![0xFF; 9]));
    assert!(!all.iter().any(|c| c.0 == 0x12));
    // an unknown face is initialised before the picture is sent
    epd.deep_sleep(&mut delay).unwrap();
    sent(&w);
    epd.refresh_mono_over(&mut delay, &shown.msb, &fb.msb, 10, 5, 20, 3).unwrap();
    let all = sent(&w);
    let reset = all.iter().rposition(|c| c.0 == 0x12).unwrap();
    let picture = all.iter().position(|c| c.0 == 0x26).unwrap();
    assert!(reset < picture);
}

#[test]
fn rectangles_are_sent_inverted_on_request() {
    let (mut epd, _, w) = panel();
    let fb = FrameBuffer::new();
    epd.write_plane_rect(0x24, &fb.msb, 0, 0, 8, 2, true).unwrap();
    assert_eq!(sent(&w).last().unwrap(), &(0x24, vec![0, 0]));
}

// ----------------------------------------------------------------------
// framebuffer
// ----------------------------------------------------------------------

#[test]
fn pixels_have_their_place() {
    let mut fb = FrameBuffer::default();
    assert_eq!(fb.size(), (WIDTH, HEIGHT));
    fb.set_pixel(3, 17, 1);
    assert_eq!(fb.lsb[3 * ROW_BYTES + 2], 0xFF);
    assert_eq!(fb.msb[3 * ROW_BYTES + 2], 0xBF);
    for level in 0..4 {
        fb.set_pixel(479, 799, level);
        assert_eq!(fb.get_pixel(479, 799), level);
        assert_eq!(fb.get_pixel(478, 799), 3);
        assert_eq!(fb.get_pixel(479, 798), 3);
    }
    fb.set_pixel(5, 5, 0xFE);
    assert_eq!(fb.get_pixel(5, 5), 2);
}

#[test]
fn pixels_outside_are_ignored() {
    let mut fb = FrameBuffer::new();
    for (x, y) in [(-1, 0), (0, -1), (480, 0), (0, 800), (i32::MIN, i32::MAX)] {
        fb.set_pixel(x, y, 0);
    }
    assert!(fb.lsb.iter().chain(fb.msb.iter()).all(|b| *b == 0xFF));
}

#[test]
fn orientation_flips_the_axes() {
    let mut fb = FrameBuffer::new();
    fb.orientation = Orientation { flip_x: true, flip_y: true };
    fb.set_pixel(0, 0, 0);
    assert_eq!(fb.msb[479 * ROW_BYTES + 99], 0xFE);
    assert_eq!(fb.get_pixel(0, 0), 0);
}

#[test]
fn the_whole_screen_is_cleared() {
    let mut fb = FrameBuffer::new();
    fb.clear_black();
    assert_eq!((fb.get_pixel(0, 0), fb.get_pixel(479, 799)), (0, 0));
    fb.clear(2);
    assert_eq!(fb.get_pixel(100, 100), 2);
    assert!(fb.mono_plane().iter().all(|b| *b == 0xFF));
    fb.clear_white();
    assert_eq!(fb.get_pixel(100, 100), 3);
}

#[test]
fn rectangles_are_filled() {
    let mut fb = FrameBuffer::new();
    fb.fill_solid(Area { x: -5, y: 795, w: 7, h: 20 }, 0);
    assert_eq!(fb.get_pixel(0, 795), 0);
    assert_eq!(fb.get_pixel(1, 799), 0);
    assert_eq!(fb.get_pixel(2, 799), 3);
    assert_eq!(fb.get_pixel(0, 794), 3);
    fb.fill_solid(Area { x: 500, y: 0, w: 10, h: 10 }, 0);
    fb.fill_solid(Area { x: 10, y: 10, w: 0, h: 10 }, 0);
    let black: u32 = fb.msb.iter().map(|b| b.count_zeros()).sum();
    assert_eq!(black, 10);
}

#[test]
fn rectangles_are_clipped() {
    assert_eq!(clipped(Area { x: -5, y: 3, w: 20, h: 4 }, 10, 5), (0, 10, 3, 5));
    assert_eq!(clipped(Area { x: 2, y: 1, w: 3, h: 2 }, 10, 5), (2, 5, 1, 3));
    let (x0, x1, y0, y1) = clipped(Area { x: 20, y: 1, w: 3, h: 2 }, 10, 5);
    assert!(x0 == x1 || y0 == y1);
}

#[test]
fn half_size_pixels_become_blocks() {
    let mut fb = FrameBuffer::new();
    fb.set_block(10, 20, 0);
    fb.set_block(-1, 0, 0);
    for (x, y, level) in [(20, 40, 0), (21, 40, 0), (20, 41, 0), (21, 41, 0), (22, 40, 3), (19, 41, 3)] {
        assert_eq!(fb.get_pixel(x, y), level);
    }
    let black: u32 = fb.msb.iter().map(|b| b.count_zeros()).sum();
    assert_eq!(black, 4);
}

#[test]
fn mono_regions_are_folded_in() {
    let mut glass = FrameBuffer::new();
    glass.clear(1);
    let mono = FrameBuffer::new();
    let (x0, w, y0, h) = FrameBuffer::native_region(2, 10, 3, 5);
    assert_eq!((x0, w, y0, h), (10, 5, 2, 3));
    glass.apply_mono_region(&mono.msb, x0, w, y0, h);
    // whole bytes: rows 8..16
    assert_eq!(glass.get_pixel(2, 8), 3);
    assert_eq!(glass.get_pixel(4, 15), 3);
    assert_eq!(glass.get_pixel(4, 16), 1);
    assert_eq!(glass.get_pixel(5, 10), 1);
    assert_eq!(glass.get_pixel(1, 10), 1);
    let mut copy = FrameBuffer::new();
    copy.copy_from(&glass);
    assert_eq!(copy.get_pixel(5, 10), 1);
    assert_eq!(copy.get_pixel(4, 15), 3);
}

#[test]
fn regions_are_cut_to_the_screen() {
    assert_eq!(FrameBuffer::native_region(470, 790, 100, 100), (790, 10, 470, 10));
    assert_eq!(FrameBuffer::native_region(1000, 1000, 1, 1), (799, 1, 479, 1));
    assert_eq!(FrameBuffer::native_region(0, 0, 480, 800), (0, 800, 0, 480));
}
