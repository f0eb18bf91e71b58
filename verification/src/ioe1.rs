//! M5IOE1 — M5Stack 14-pin I2C I/O expander driver (subset).
//!
//! Register map follows `m5stack/M5IOE1` (`src/M5IOE1.h`).
//!
//! Pin numbering: this driver uses **0-based indices 0..=13** (`Pin(0)` is the
//! chip's "IO1"/"P1"; M5Stack documentation labels them `PYG1..PYG14` and the
//! datasheet `P1..P14`).  Bits: pins 0..=7 live in the `_L` registers
//! (bit = index), pins 8..=13 in the `_H` registers (bit = index - 8).

use crate::bus::{BusEvent, Delay, I2cBus, I2cPort};
use crate::bytes::le16_bytes;
use crate::i2c_reg::Cursor;
use crate::trace::{Run, Trace};
use vstd::prelude::*;

pub mod regs;

verus! {

broadcast use crate::trace::extends_transitive;

/// Address used when the IOE1 is a slave on an M5Stack main board (PaperMono).
pub const ADDR: u8 = 0x4F;

/// 0-based pin index (0 ..= 13).
#[derive(Debug, Clone, Copy, PartialEq, Eq)]
pub struct Pin(pub u8);

impl Pin {
    /// The expander has this pin.
    pub open spec fn valid(self) -> bool {
        self.0 < 14
    }

    /// The pin's bit in its bank.
    pub open spec fn mask(self) -> u8 {
        1u8 << (self.0 % 8)
    }

    /// The register of the pin's bank.
    pub open spec fn of(self, low: u8, high: u8) -> u8 {
        if self.0 < 8 {
            low
        } else {
            high
        }
    }

    fn split(self) -> (r: (bool, u8))
        requires
            self.valid(),
        ensures
            r.0 == (self.0 >= 8),
            r.1 == self.mask(),
    {
        (self.0 >= 8, 1u8 << (self.0 % 8))
    }
}

/// PWM channel index 0..=3 (PWM1..PWM4 in the datasheet).
#[derive(Debug, Clone, Copy, PartialEq, Eq)]
pub struct PwmChannel(pub u8);

#[derive(Debug, Clone, Copy, PartialEq, Eq)]
pub enum Error<E> {
    I2c(E),
    NotFound,
}

impl<E> From<E> for Error<E> {
    fn from(e: E) -> (r: Self) {
        Error::I2c(e)
    }
}

impl<E> vstd::std_specs::convert::FromSpecImpl<E> for Error<E> {
    open spec fn obeys_from_spec() -> bool {
        true
    }

    open spec fn from_spec(e: E) -> Self {
        Error::I2c(e)
    }
}

fn i2c_result<T, E>(r: Result<T, E>) -> (res: Result<T, Error<E>>)
    ensures
        res == (match r {
            Ok(t) => Ok::<T, Error<E>>(t),
            Err(e) => Err(Error::I2c(e)),
        }),
{
    match r {
        Ok(t) => Ok(t),
        Err(e) => Err(Error::I2c(e)),
    }
}

/// The two duty bytes of a PWM channel: low byte, then enable bit and high
/// nibble.
pub open spec fn duty_bytes(duty12: u16, enable: bool) -> Seq<u8> {
    seq![
        crate::bytes::low_byte(duty12),
        (crate::bytes::high_byte(duty12) & 0x0F) | (if enable {
            0x80u8
        } else {
            0u8
        }),
    ]
}

impl Cursor {
    /// Read the UID, at most `left` more times 10 ms apart.
    pub open spec fn ioe1_uid<E>(self, l: Trace<BusEvent<E>>, left: nat) -> Run<
        Cursor,
        Option<u16>,
        E,
    >
        decreases left,
    {
        if left == 0 {
            self.done(None)
        } else {
            match self.read_u16_le(l, ADDR, regs::UID_L) {
                Run::Done(c, Ok(uid)) => c.done(Some(uid)),
                Run::Done(c, Err(_)) => match c.pause_ms::<E>(l, 10) {
                    Run::Done(c, _) => c.ioe1_uid(l, (left - 1) as nat),
                    Run::Off => Run::Off,
                },
                Run::Off => Run::Off,
            }
        }
    }

    /// Configure the I2C block, which then needs 5 ms.
    pub open spec fn ioe1_i2c_cfg<E>(self, l: Trace<BusEvent<E>>, cfg: u8) -> Run<Cursor, (), E> {
        self.write_u8(l, ADDR, regs::I2C_CFG, cfg).chain(|c: Cursor, _u: ()| c.pause_ms(l, 5))
    }

    pub open spec fn ioe1_init<E>(self, l: Trace<BusEvent<E>>) -> Run<Cursor, u16, Error<E>> {
        match self.ioe1_uid(l, 20) {
            Run::Done(c, Ok(Some(uid))) => match c.ioe1_i2c_cfg(l, 0x00) {
                Run::Done(c, Ok(_)) => Run::Done(c, Ok(uid)),
                Run::Done(c, Err(e)) => Run::Done(c, Err(Error::I2c(e))),
                Run::Off => Run::Off,
            },
            Run::Done(c, Ok(None)) => Run::Done(c, Err(Error::NotFound)),
            Run::Done(c, Err(e)) => Run::Done(c, Err(Error::I2c(e))),
            Run::Off => Run::Off,
        }
    }

    /// Bits of the pin in the register of its bank.
    pub open spec fn ioe1_bit<E>(
        self,
        l: Trace<BusEvent<E>>,
        low: u8,
        high: u8,
        pin: Pin,
        on: bool,
    ) -> Run<Cursor, (), E> {
        self.update_u8(
            l,
            ADDR,
            pin.of(low, high),
            pin.mask(),
            if on {
                pin.mask()
            } else {
                0
            },
        )
    }

    pub open spec fn ioe1_set_output<E>(self, l: Trace<BusEvent<E>>, pin: Pin) -> Run<
        Cursor,
        (),
        E,
    > {
        self.ioe1_bit(l, regs::GPIO_DRV_L, regs::GPIO_DRV_H, pin, false).chain(
            |c: Cursor, _u: ()|
                c.ioe1_bit(l, regs::GPIO_MODE_L, regs::GPIO_MODE_H, pin, true),
        )
    }

    pub open spec fn ioe1_set_input<E>(self, l: Trace<BusEvent<E>>, pin: Pin, pull_up: bool) -> Run<
        Cursor,
        (),
        E,
    > {
        self.ioe1_bit(l, regs::GPIO_MODE_L, regs::GPIO_MODE_H, pin, false).chain(
            |c: Cursor, _u: ()|
                c.ioe1_bit(l, regs::GPIO_PU_L, regs::GPIO_PU_H, pin, pull_up),
        )
    }

    pub open spec fn ioe1_write<E>(self, l: Trace<BusEvent<E>>, pin: Pin, high: bool) -> Run<
        Cursor,
        (),
        E,
    > {
        self.ioe1_bit(l, regs::GPIO_OUT_L, regs::GPIO_OUT_H, pin, high)
    }

    pub open spec fn ioe1_write_mask<E>(
        self,
        l: Trace<BusEvent<E>>,
        high_bank: bool,
        mask: u8,
        value: u8,
    ) -> Run<Cursor, (), E> {
        self.update_u8(
            l,
            ADDR,
            if high_bank {
                regs::GPIO_OUT_H
            } else {
                regs::GPIO_OUT_L
            },
            mask,
            value,
        )
    }

    pub open spec fn ioe1_read<E>(self, l: Trace<BusEvent<E>>, pin: Pin) -> Run<Cursor, bool, E> {
        self.read_u8(l, ADDR, pin.of(regs::GPIO_IN_L, regs::GPIO_IN_H)).chain(
            |c: Cursor, v: u8| c.done(v & pin.mask() != 0),
        )
    }
}

pub struct Ioe1<P: I2cPort> {
    pub bus: I2cBus<P>,
}

/// Configure the I2C block of the chip on this bus.
pub(crate) fn i2c_cfg<P: I2cPort, D: Delay>(bus: &mut I2cBus<P>, delay: &mut D, cfg: u8) -> (res:
    Result<(), P::Error>)
    ensures
        final(bus).trace().extends(old(bus).trace()),
        forall|l: Trace<BusEvent<P::Error>>| l.extends(final(bus).trace()) ==> #[trigger]
            crate::i2c_reg::cursor(old(bus)).ioe1_i2c_cfg(l, cfg) == Run::Done(
                crate::i2c_reg::cursor(final(bus)),
                res,
            ),
{
    crate::i2c_reg::write_u8(bus, ADDR, regs::I2C_CFG, cfg)?;
    // The expander re-initialises its I2C block after an I2C_CFG write and
    // NACKs the next transaction if it comes too early.
    crate::i2c_reg::pause_ms(bus, delay, 5)
}

impl<P: I2cPort> Ioe1<P> {
    pub fn new(i2c: P) -> (ioe: Self)
        ensures
            ioe.bus.trace() == Trace::<BusEvent<P::Error>>::empty(),
            ioe.bus.port() == i2c,
    {
        Ioe1 { bus: I2cBus::new(i2c) }
    }

    pub fn release(self) -> (i2c: P)
        ensures
            i2c == self.bus.port(),
    {
        self.bus.release()
    }

    fn find<D: Delay>(&mut self, delay: &mut D) -> (uid: Option<u16>)
        ensures
            final(self).bus.trace().extends(old(self).bus.trace()),
            forall|l: Trace<BusEvent<P::Error>>| l.extends(final(self).bus.trace()) ==> #[trigger]
                crate::i2c_reg::cursor(&old(self).bus).ioe1_uid(l, 20) == Run::Done(
                    crate::i2c_reg::cursor(&final(self).bus),
                    Ok::<Option<u16>, P::Error>(uid),
                ),
    {
        let mut tries: u8 = 0;
        while tries < 20
            invariant
                tries <= 20,
                self.bus.trace().extends(old(self).bus.trace()),
                forall|l: Trace<BusEvent<P::Error>>|
                    l.extends(self.bus.trace()) ==> #[trigger] crate::i2c_reg::cursor(
                        &old(self).bus,
                    ).ioe1_uid(l, 20) == crate::i2c_reg::cursor(&self.bus).ioe1_uid(
                        l,
                        (20 - tries) as nat,
                    ),
            decreases 20 - tries,
        {
            match crate::i2c_reg::read_u16_le(&mut self.bus, ADDR, regs::UID_L) {
                Ok(v) => {
                    return Some(v);
                },
                Err(_) => {
                    self.bus.pause_ms(delay, 10);
                },
            }
            tries += 1;
        }
        None
    }

    fn i2c_cfg<D: Delay>(&mut self, delay: &mut D, cfg: u8) -> (res: Result<(), P::Error>)
        ensures
            final(self).bus.trace().extends(old(self).bus.trace()),
            forall|l: Trace<BusEvent<P::Error>>| l.extends(final(self).bus.trace()) ==> #[trigger]
                crate::i2c_reg::cursor(&old(self).bus).ioe1_i2c_cfg(l, cfg) == Run::Done(
                    crate::i2c_reg::cursor(&final(self).bus),
                    res,
                ),
    {
        i2c_cfg(&mut self.bus, delay, cfg)
    }

    /// Probe the device (UID read, with wake retries) and disable the I2C
    /// idle-sleep so later accesses never race a sleeping expander.
    pub fn init<D: Delay>(&mut self, delay: &mut D) -> (res: Result<u16, Error<P::Error>>)
        ensures
            final(self).bus.trace().extends(old(self).bus.trace()),
            forall|l: Trace<BusEvent<P::Error>>| l.extends(final(self).bus.trace()) ==> #[trigger]
                crate::i2c_reg::cursor(&old(self).bus).ioe1_init(l) == Run::Done(
                    crate::i2c_reg::cursor(&final(self).bus),
                    res,
                ),
    {
        match self.find(delay) {
            None => Err(Error::NotFound),
            Some(uid) => {
                i2c_result(self.i2c_cfg(delay, 0x00))?;
                Ok(uid)
            },
        }
    }

    /// Switch the IOE1's I2C interface to 400 kHz (keeps idle-sleep disabled).
    /// Change the bus frequency only after this returns.
    pub fn set_i2c_400k<D: Delay>(&mut self, delay: &mut D) -> (res: Result<(), P::Error>)
        ensures
            final(self).bus.trace().extends(old(self).bus.trace()),
            forall|l: Trace<BusEvent<P::Error>>| l.extends(final(self).bus.trace()) ==> #[trigger]
                crate::i2c_reg::cursor(&old(self).bus).ioe1_i2c_cfg(l, 0x10) == Run::Done(
                    crate::i2c_reg::cursor(&final(self).bus),
                    res,
                ),
    {
        self.i2c_cfg(delay, 0x10)
    }

    pub fn rev(&mut self) -> (res: Result<u8, P::Error>)
        ensures
            final(self).bus.trace().extends(old(self).bus.trace()),
            forall|l: Trace<BusEvent<P::Error>>| l.extends(final(self).bus.trace()) ==> #[trigger]
                crate::i2c_reg::cursor(&old(self).bus).read_u8(l, ADDR, regs::REV) == Run::Done(
                    crate::i2c_reg::cursor(&final(self).bus),
                    res,
                ),
    {
        crate::i2c_reg::read_u8(&mut self.bus, ADDR, regs::REV)
    }

    fn set_bit(&mut self, low: u8, high: u8, pin: Pin, on: bool) -> (res: Result<(), P::Error>)
        requires
            pin.valid(),
        ensures
            final(self).bus.trace().extends(old(self).bus.trace()),
            forall|l: Trace<BusEvent<P::Error>>| l.extends(final(self).bus.trace()) ==> #[trigger]
                crate::i2c_reg::cursor(&old(self).bus).ioe1_bit(l, low, high, pin, on) == Run::Done(
                    crate::i2c_reg::cursor(&final(self).bus),
                    res,
                ),
    {
        let (hi, m) = pin.split();
        let r = if hi {
            high
        } else {
            low
        };
        crate::i2c_reg::update_u8(
            &mut self.bus,
            ADDR,
            r,
            m,
            if on {
                m
            } else {
                0
            },
        )
    }

    /// Configure `pin` as push-pull output (does not change the level).
    pub fn set_output(&mut self, pin: Pin) -> (res: Result<(), P::Error>)
        requires
            pin.valid(),
        ensures
            final(self).bus.trace().extends(old(self).bus.trace()),
            forall|l: Trace<BusEvent<P::Error>>| l.extends(final(self).bus.trace()) ==> #[trigger]
                crate::i2c_reg::cursor(&old(self).bus).ioe1_set_output(l, pin) == Run::Done(
                    crate::i2c_reg::cursor(&final(self).bus),
                    res,
                ),
    {
        self.set_bit(regs::GPIO_DRV_L, regs::GPIO_DRV_H, pin, false)?;
        self.set_bit(regs::GPIO_MODE_L, regs::GPIO_MODE_H, pin, true)
    }

    /// Configure `pin` as input (optionally with pull-up).
    pub fn set_input(&mut self, pin: Pin, pull_up: bool) -> (res: Result<(), P::Error>)
        requires
            pin.valid(),
        ensures
            final(self).bus.trace().extends(old(self).bus.trace()),
            forall|l: Trace<BusEvent<P::Error>>| l.extends(final(self).bus.trace()) ==> #[trigger]
                crate::i2c_reg::cursor(&old(self).bus).ioe1_set_input(l, pin, pull_up) == Run::Done(
                    crate::i2c_reg::cursor(&final(self).bus),
                    res,
                ),
    {
        self.set_bit(regs::GPIO_MODE_L, regs::GPIO_MODE_H, pin, false)?;
        self.set_bit(regs::GPIO_PU_L, regs::GPIO_PU_H, pin, pull_up)
    }

    pub fn write(&mut self, pin: Pin, high: bool) -> (res: Result<(), P::Error>)
        requires
            pin.valid(),
        ensures
            final(self).bus.trace().extends(old(self).bus.trace()),
            forall|l: Trace<BusEvent<P::Error>>| l.extends(final(self).bus.trace()) ==> #[trigger]
                crate::i2c_reg::cursor(&old(self).bus).ioe1_write(l, pin, high) == Run::Done(
                    crate::i2c_reg::cursor(&final(self).bus),
                    res,
                ),
    {
        self.set_bit(regs::GPIO_OUT_L, regs::GPIO_OUT_H, pin, high)
    }

    /// Set several pins in the same bank at once. `mask`/`value` are raw
    /// register bit masks for the `_L` (`high_bank == false`) or `_H` bank.
    pub fn write_mask(&mut self, high_bank: bool, mask: u8, value: u8) -> (res: Result<
        (),
        P::Error,
    >)
        ensures
            final(self).bus.trace().extends(old(self).bus.trace()),
            forall|l: Trace<BusEvent<P::Error>>| l.extends(final(self).bus.trace()) ==> #[trigger]
                crate::i2c_reg::cursor(&old(self).bus).ioe1_write_mask(
                    l,
                    high_bank,
                    mask,
                    value,
                ) == Run::Done(
                    crate::i2c_reg::cursor(&final(self).bus),
                    res,
                ),
    {
        let r = if high_bank {
            regs::GPIO_OUT_H
        } else {
            regs::GPIO_OUT_L
        };
        crate::i2c_reg::update_u8(&mut self.bus, ADDR, r, mask, value)
    }

    pub fn read(&mut self, pin: Pin) -> (res: Result<bool, P::Error>)
        requires
            pin.valid(),
        ensures
            final(self).bus.trace().extends(old(self).bus.trace()),
            forall|l: Trace<BusEvent<P::Error>>| l.extends(final(self).bus.trace()) ==> #[trigger]
                crate::i2c_reg::cursor(&old(self).bus).ioe1_read(l, pin) == Run::Done(
                    crate::i2c_reg::cursor(&final(self).bus),
                    res,
                ),
    {
        let (hi, m) = pin.split();
        let r = if hi {
            regs::GPIO_IN_H
        } else {
            regs::GPIO_IN_L
        };
        let v = crate::i2c_reg::read_u8(&mut self.bus, ADDR, r)?;
        Ok(v & m != 0)
    }

    /// PWM base frequency in Hz shared by all four channels.
    pub fn set_pwm_frequency(&mut self, hz: u16) -> (res: Result<(), P::Error>)
        ensures
            final(self).bus.trace().extends(old(self).bus.trace()),
            forall|l: Trace<BusEvent<P::Error>>| l.extends(final(self).bus.trace()) ==> #[trigger]
                crate::i2c_reg::cursor(&old(self).bus).write(
                    l,
                    ADDR,
                    regs::PWM_FREQ_L,
                    crate::bytes::le16(hz),
                ) == Run::Done(
                    crate::i2c_reg::cursor(&final(self).bus),
                    res,
                ),
    {
        crate::i2c_reg::write(&mut self.bus, ADDR, regs::PWM_FREQ_L, &le16_bytes(hz))
    }

    /// 12-bit duty for channel `ch` (0..=3). `enable == false` stops the PWM.
    pub fn set_pwm_duty(&mut self, ch: PwmChannel, duty12: u16, enable: bool) -> (res: Result<
        (),
        P::Error,
    >)
        requires
            regs::PWM1_DUTY_L + ch.0 * 2 <= u8::MAX,
        ensures
            final(self).bus.trace().extends(old(self).bus.trace()),
            forall|l: Trace<BusEvent<P::Error>>| l.extends(final(self).bus.trace()) ==> #[trigger]
                crate::i2c_reg::cursor(&old(self).bus).write(
                    l,
                    ADDR,
                    (regs::PWM1_DUTY_L + ch.0 * 2) as u8,
                    duty_bytes(duty12, enable),
                ) == Run::Done(
                    crate::i2c_reg::cursor(&final(self).bus),
                    res,
                ),
    {
        let base = regs::PWM1_DUTY_L + ch.0 * 2;
        let lo = (duty12 % 256) as u8;
        let hi = ((duty12 / 256) as u8 & 0x0F) | if enable {
            0x80u8
        } else {
            0u8
        };
        let data = [lo, hi];
        assert(data@ =~= duty_bytes(duty12, enable));
        crate::i2c_reg::write(&mut self.bus, ADDR, base, &data)
    }
}

/// No two pins share a bit: their registers or their masks differ.
pub proof fn pins_are_apart(p: Pin, q: Pin, low: u8, high: u8)
    requires
        p.valid(),
        q.valid(),
        p != q,
        low != high,
    ensures
        p.of(low, high) != q.of(low, high) || p.mask() & q.mask() == 0,
        p.mask() != 0,
{
    let a = p.0 % 8;
    let b = q.0 % 8;
    assert((a < 8 && b < 8 && a != b ==> (1u8 << a) & (1u8 << b) == 0) && (a < 8 ==> 1u8 << a != 0))
        by (bit_vector);
}

/// A duty of twelve bits, low byte first, with the enable bit on top.
pub proof fn duties_have_their_bytes(duty12: u16, enable: bool)
    ensures
        ({
            let b = duty_bytes(duty12, enable);
            &&& b.len() == 2
            &&& b[0] + 256 * (b[1] % 16) == duty12 % 0x1000
            &&& b[1] / 16 == if enable {
                8int
            } else {
                0
            }
        }),
{
    let high = crate::bytes::high_byte(duty12);
    assert(((high & 0x0F) | 0x80) % 16 == high % 16 && ((high & 0x0F) | 0x80) / 16 == 8 && ((high
        & 0x0F) | 0u8) == high % 16) by (bit_vector);
}

/// Eight pins to a bank, one bit each from the lowest up.
pub proof fn pins_have_their_bits(pin: Pin, low: u8, high: u8)
    requires
        pin.valid(),
    ensures
        pin.0 < 8 ==> pin.mask() == 1u8 << pin.0 && pin.of(low, high) == low,
        pin.0 >= 8 ==> pin.mask() == 1u8 << (pin.0 - 8) && pin.of(low, high) == high,
{
}

/// The expander is asked for its identity, low byte first, up to twenty times
/// 10 ms apart; one that answers has its bus sleep switched off and gets 5 ms.
pub proof fn the_expander_is_looked_for<E>(c: Cursor, l: Trace<BusEvent<E>>, left: nat)
    ensures
        c.ioe1_uid(l, 0) == Run::<Cursor, Option<u16>, E>::Done(c, Ok(None)),
        left > 0 ==> (c.read(l, 0x4F, 0x00, 2) matches Run::Done(d, Ok(b)) ==> c.ioe1_uid(l, left)
            == Run::<Cursor, Option<u16>, E>::Done(d, Ok(Some((b[0] + 256 * b[1]) as u16)))),
        left > 0 ==> (c.read(l, 0x4F, 0x00, 2) matches Run::Done(d, Err(_)) ==> (l.at(d.at)
            == BusEvent::<E>::PauseMs(10) ==> c.ioe1_uid(l, left) == (Cursor {
            at: d.at + 1,
        }).ioe1_uid(l, (left - 1) as nat))),
        c.ioe1_uid(l, 20) matches Run::Done(d, Ok(None)) ==> c.ioe1_init(l) == Run::<
            Cursor,
            u16,
            Error<E>,
        >::Done(d, Err(Error::NotFound)),
        c.ioe1_uid(l, 20) matches Run::Done(d, Ok(Some(uid))) ==> (c.ioe1_init(l) matches Run::Done(
            f,
            Ok(u),
        ) ==> u == uid && f.at == d.at + 2 && l.at(d.at) == (BusEvent::<E>::Write {
            addr: 0x4F,
            sent: seq![0x23u8, 0x00u8],
            outcome: Ok(()),
        }) && l.at(d.at + 1) == BusEvent::<E>::PauseMs(5)),
{
    assert(seq![0x23u8] + seq![0x00u8] =~= seq![0x23u8, 0x00u8]);
    match c.read(l, 0x4F, 0x00, 2) {
        Run::Done(_, Ok(b)) => crate::bytes::words_are_sums(0, 0, b[1], b[0]),
        _ => {},
    }
}

} // verus!
