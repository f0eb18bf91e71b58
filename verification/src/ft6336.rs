//! FT6336G capacitive touch controller driver (I2C 0x38).
//!
//! On the PaperMono the panel is 480x800 (portrait); the controller reports
//! coordinates in that frame directly. INT is on GPIO4 (low while touched,
//! pulses in interrupt-trigger mode); RST and VDD enable sit behind the
//! M5IOE1 (`board::epd_power_on` releases them together with the EPD).

use crate::bus::{BusEvent, Delay, I2cBus, I2cPort};
use crate::bytes::join16;
use crate::i2c_reg::Cursor;
use crate::trace::{Run, Trace};
use vstd::prelude::*;

pub mod reg;

verus! {

broadcast use crate::trace::extends_transitive;

pub const ADDR: u8 = 0x38;

#[derive(Debug, Clone, Copy, PartialEq, Eq, Default)]
pub struct TouchPoint {
    pub x: u16,
    pub y: u16,
    /// 0 = press down, 1 = lift up, 2 = contact (moving/holding).
    pub event: u8,
    pub id: u8,
}

/// The point in the six bytes from `o` on.
pub open spec fn point(buf: Seq<u8>, o: int) -> TouchPoint {
    TouchPoint {
        x: crate::bytes::word(buf[o] & 0x0F, buf[o + 1]),
        y: crate::bytes::word(buf[o + 2] & 0x0F, buf[o + 3]),
        event: buf[o] >> 6,
        id: buf[o + 2] >> 4,
    }
}

/// The number of touches in a status block; more than two count as none.
pub open spec fn touches(buf: Seq<u8>) -> int {
    let n = (buf[0] & 0x0F) as int;
    if n > 2 {
        0
    } else {
        n
    }
}

/// The points after reading a status block.
pub open spec fn updated(old_points: Seq<TouchPoint>, buf: Seq<u8>) -> Seq<TouchPoint> {
    Seq::new(
        2,
        |i: int|
            if i < touches(buf) {
                point(buf, 1 + i * 6)
            } else {
                old_points[i]
            },
    )
}

impl Cursor {
    /// Wait for a non-zero chip ID, at most `left` more reads 50 ms apart;
    /// the last one read.
    pub open spec fn ft6336_id<E>(self, l: Trace<BusEvent<E>>, id: u8, left: nat) -> Run<
        Cursor,
        u8,
        E,
    >
        decreases left,
    {
        if left == 0 {
            self.done(id)
        } else {
            match self.read_u8(l, ADDR, reg::CHIP_ID) {
                Run::Done(c, Ok(id)) => if id != 0 {
                    c.done(id)
                } else {
                    match c.pause_ms::<E>(l, 50) {
                        Run::Done(c, Ok(_)) => c.ft6336_id(l, id, (left - 1) as nat),
                        Run::Done(c, Err(e)) => Run::Done(c, Err(e)),
                        Run::Off => Run::Off,
                    }
                },
                Run::Done(c, Err(e)) => Run::Done(c, Err(e)),
                Run::Off => Run::Off,
            }
        }
    }

    pub open spec fn ft6336_init<E>(self, l: Trace<BusEvent<E>>) -> Run<Cursor, u8, E> {
        self.ft6336_id(l, 0, 10).chain(
            |c: Cursor, id: u8|
                c.write_u8(l, ADDR, reg::G_MODE, 0x00).chain(|c: Cursor, _u: ()| c.done(id)),
        )
    }
}

pub struct Ft6336<P: I2cPort> {
    pub bus: I2cBus<P>,
}

impl<P: I2cPort> Ft6336<P> {
    pub fn new(i2c: P) -> (ft: Self)
        ensures
            ft.bus.trace() == Trace::<BusEvent<P::Error>>::empty(),
            ft.bus.port() == i2c,
    {
        Ft6336 { bus: I2cBus::new(i2c) }
    }

    pub fn release(self) -> (i2c: P)
        ensures
            i2c == self.bus.port(),
    {
        self.bus.release()
    }

    /// Read an arbitrary register (diagnostics).
    pub fn read_reg(&mut self, r: u8) -> (res: Result<u8, P::Error>)
        ensures
            final(self).bus.trace().extends(old(self).bus.trace()),
            forall|l: Trace<BusEvent<P::Error>>| l.extends(final(self).bus.trace()) ==> #[trigger]
                crate::i2c_reg::cursor(&old(self).bus).read_u8(l, ADDR, r) == Run::Done(
                    crate::i2c_reg::cursor(&final(self).bus),
                    res,
                ),
    {
        crate::i2c_reg::read_u8(&mut self.bus, ADDR, r)
    }

    pub fn chip_id(&mut self) -> (res: Result<u8, P::Error>)
        ensures
            final(self).bus.trace().extends(old(self).bus.trace()),
            forall|l: Trace<BusEvent<P::Error>>| l.extends(final(self).bus.trace()) ==> #[trigger]
                crate::i2c_reg::cursor(&old(self).bus).read_u8(l, ADDR, reg::CHIP_ID) == Run::Done(
                    crate::i2c_reg::cursor(&final(self).bus),
                    res,
                ),
    {
        self.read_reg(reg::CHIP_ID)
    }

    pub fn vendor_id(&mut self) -> (res: Result<u8, P::Error>)
        ensures
            final(self).bus.trace().extends(old(self).bus.trace()),
            forall|l: Trace<BusEvent<P::Error>>| l.extends(final(self).bus.trace()) ==> #[trigger]
                crate::i2c_reg::cursor(&old(self).bus).read_u8(
                    l,
                    ADDR,
                    reg::VENDOR_ID,
                ) == Run::Done(
                    crate::i2c_reg::cursor(&final(self).bus),
                    res,
                ),
    {
        self.read_reg(reg::VENDOR_ID)
    }

    /// Probe the chip and put it into polling (G_MODE = 0) mode.
    ///
    /// The FT6336 firmware needs a few hundred ms after reset before its ID
    /// registers read back non-zero, so retry with the supplied delay.
    pub fn init<D: Delay>(&mut self, delay: &mut D) -> (res: Result<u8, P::Error>)
        ensures
            final(self).bus.trace().extends(old(self).bus.trace()),
            forall|l: Trace<BusEvent<P::Error>>| l.extends(final(self).bus.trace()) ==> #[trigger]
                crate::i2c_reg::cursor(&old(self).bus).ft6336_init(l) == Run::Done(
                    crate::i2c_reg::cursor(&final(self).bus),
                    res,
                ),
    {
        let id = self.wait_id(delay)?;
        crate::i2c_reg::write_u8(&mut self.bus, ADDR, reg::G_MODE, 0x00)?;
        Ok(id)
    }

    fn wait_id<D: Delay>(&mut self, delay: &mut D) -> (res: Result<u8, P::Error>)
        ensures
            final(self).bus.trace().extends(old(self).bus.trace()),
            forall|l: Trace<BusEvent<P::Error>>| l.extends(final(self).bus.trace()) ==> #[trigger]
                crate::i2c_reg::cursor(&old(self).bus).ft6336_id(l, 0, 10) == Run::Done(
                    crate::i2c_reg::cursor(&final(self).bus),
                    res,
                ),
    {
        let mut id: u8 = 0;
        let mut tries: u8 = 0;
        while tries < 10
            invariant
                tries <= 10,
                self.bus.trace().extends(old(self).bus.trace()),
                forall|l: Trace<BusEvent<P::Error>>|
                    l.extends(self.bus.trace()) ==> #[trigger] crate::i2c_reg::cursor(
                        &old(self).bus,
                    ).ft6336_id(l, 0, 10) == crate::i2c_reg::cursor(&self.bus).ft6336_id(
                        l,
                        id,
                        (10 - tries) as nat,
                    ),
            decreases 10 - tries,
        {
            id = self.chip_id()?;
            if id != 0 {
                return Ok(id);
            }
            crate::i2c_reg::pause_ms(&mut self.bus, delay, 50)?;
            tries += 1;
        }
        Ok(id)
    }

    /// Read up to two touch points; returns the number of active touches.
    pub fn read(&mut self, points: &mut [TouchPoint; 2]) -> (res: Result<usize, P::Error>)
        ensures
            final(self).bus.trace().extends(old(self).bus.trace()),
            forall|l: Trace<BusEvent<P::Error>>|
                l.extends(final(self).bus.trace()) ==> match #[trigger] crate::i2c_reg::cursor(
                    &old(self).bus,
                ).read(l, ADDR, reg::TD_STATUS, 13) {
                    Run::Done(c, Ok(buf)) => c == crate::i2c_reg::cursor(&final(self).bus) && res
                        == Ok::<usize, P::Error>(touches(buf) as usize) && final(points)@
                        == updated(old(points)@, buf),
                    Run::Done(c, Err(e)) => c == crate::i2c_reg::cursor(&final(self).bus) && res
                        == Err::<usize, P::Error>(e) && final(points)@ == old(points)@,
                    Run::Off => false,
                },
    {
        let mut buf = [0u8; 13];
        crate::i2c_reg::read(&mut self.bus, ADDR, reg::TD_STATUS, &mut buf)?;
        let n = (buf[0] & 0x0F) as usize;
        if n == 0 || n > 2 {
            assert(points@ =~= updated(old(points)@, buf@));
            return Ok(0);
        }
        points[0] = decode(&buf, 1);
        if n == 2 {
            points[1] = decode(&buf, 7);
        }
        assert(points@ =~= updated(old(points)@, buf@));
        Ok(n)
    }
}

fn decode(buf: &[u8; 13], o: usize) -> (p: TouchPoint)
    requires
        o + 4 <= 13,
    ensures
        p == point(buf@, o as int),
{
    TouchPoint {
        x: join16(buf[o] & 0x0F, buf[o + 1]),
        y: join16(buf[o + 2] & 0x0F, buf[o + 3]),
        event: buf[o] >> 6,
        id: buf[o + 2] >> 4,
    }
}

/// Up to two touches count, and each is read from its six bytes: event, twelve
/// bits of x, id, twelve bits of y. Points without a touch stay.
pub proof fn touches_are_read(old_points: Seq<TouchPoint>, buf: Seq<u8>, i: int)
    requires
        buf.len() == 13,
        old_points.len() == 2,
        0 <= i < 2,
    ensures
        touches(buf) == if buf[0] % 16 <= 2 {
            (buf[0] % 16) as int
        } else {
            0
        },
        ({
            let p = updated(old_points, buf)[i];
            let o = 1 + 6 * i;
            &&& i < touches(buf) ==> {
                &&& p.event == buf[o] / 64
                &&& p.x == 256 * (buf[o] % 16) + buf[o + 1]
                &&& p.id == buf[o + 2] / 16
                &&& p.y == 256 * (buf[o + 2] % 16) + buf[o + 3]
            }
            &&& i >= touches(buf) ==> p == old_points[i]
        }),
{
    let o = 1 + 6 * i;
    crate::bits::low_bits_are_remainders(buf[0]);
    crate::bits::low_bits_are_remainders(buf[o]);
    crate::bits::low_bits_are_remainders(buf[o + 2]);
    crate::bytes::words_are_sums(0, 0, buf[o] & 0x0F, buf[o + 1]);
    crate::bytes::words_are_sums(0, 0, buf[o + 2] & 0x0F, buf[o + 3]);
}

/// A touch controller is given up to ten times 50 ms to show its identity, and
/// is then put into polling mode; the identity seen last is reported.
pub proof fn the_controller_is_waited_for<E>(c: Cursor, l: Trace<BusEvent<E>>, id: u8, left: nat)
    ensures
        c.ft6336_id(l, id, 0) == Run::<Cursor, u8, E>::Done(c, Ok(id)),
        left > 0 ==> (c.read_u8(l, 0x38, 0xA3) matches Run::Done(d, Ok(v)) ==> {
            &&& v != 0 ==> c.ft6336_id(l, id, left) == Run::<Cursor, u8, E>::Done(d, Ok(v))
            &&& v == 0 && l.at(d.at) == BusEvent::<E>::PauseMs(50) ==> c.ft6336_id(l, id, left)
                == (Cursor { at: d.at + 1 }).ft6336_id(l, 0, (left - 1) as nat)
        }),
        c.ft6336_id(l, 0, 10) matches Run::Done(d, Ok(v)) ==> (c.ft6336_init(l) matches Run::Done(
            f,
            Ok(w),
        ) ==> w == v && l.at(d.at) == (BusEvent::<E>::Write {
            addr: 0x38,
            sent: seq![0xA4u8, 0x00u8],
            outcome: Ok(()),
        })),
{
    assert(seq![0xA4u8] + seq![0x00u8] =~= seq![0xA4u8, 0x00u8]);
}

} // verus!
