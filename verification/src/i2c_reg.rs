//! Register access helpers shared by the I2C peripheral drivers.

use crate::bus::{BusEvent, I2cBus, I2cPort};
use crate::bytes::{join16, splice};
use crate::trace::{Run, Trace};
use vstd::prelude::*;

verus! {

broadcast use crate::trace::extends_transitive;

/// A position in a bus trace, with the register accesses that may stand there.
pub struct Cursor {
    pub at: int,
}

impl Cursor {
    pub open spec fn done<T, E>(self, t: T) -> Run<Cursor, T, E> {
        Run::Done(self, Ok(t))
    }

    /// `n` bytes starting at register `reg`.
    pub open spec fn read<E>(self, l: Trace<BusEvent<E>>, addr: u8, reg: u8, n: nat) -> Run<
        Cursor,
        Seq<u8>,
        E,
    > {
        match crate::bus::replied(l, self.at, addr, seq![reg], n) {
            Some(reply) => Run::Done(Cursor { at: self.at + 1 }, reply),
            None => Run::Off,
        }
    }

    pub open spec fn read_u8<E>(self, l: Trace<BusEvent<E>>, addr: u8, reg: u8) -> Run<
        Cursor,
        u8,
        E,
    > {
        self.read(l, addr, reg, 1).chain(|c: Cursor, b: Seq<u8>| c.done(b[0]))
    }

    pub open spec fn read_u16_le<E>(self, l: Trace<BusEvent<E>>, addr: u8, reg: u8) -> Run<
        Cursor,
        u16,
        E,
    > {
        self.read(l, addr, reg, 2).chain(
            |c: Cursor, b: Seq<u8>| c.done(crate::bytes::word(b[1], b[0])),
        )
    }

    pub open spec fn write<E>(self, l: Trace<BusEvent<E>>, addr: u8, reg: u8, data: Seq<u8>) -> Run<
        Cursor,
        (),
        E,
    > {
        match crate::bus::wrote(l, self.at, addr, seq![reg] + data) {
            Some(outcome) => Run::Done(Cursor { at: self.at + 1 }, outcome),
            None => Run::Off,
        }
    }

    pub open spec fn write_u8<E>(self, l: Trace<BusEvent<E>>, addr: u8, reg: u8, value: u8) -> Run<
        Cursor,
        (),
        E,
    > {
        self.write(l, addr, reg, seq![value])
    }

    /// Bits in `mask` are replaced by those of `value`; nothing is written if
    /// nothing changes.
    pub open spec fn update_u8<E>(
        self,
        l: Trace<BusEvent<E>>,
        addr: u8,
        reg: u8,
        mask: u8,
        value: u8,
    ) -> Run<Cursor, (), E> {
        self.read_u8(l, addr, reg).chain(
            |c: Cursor, cur: u8|
                {
                    let new = (cur & !mask) | (value & mask);
                    if new != cur {
                        c.write_u8(l, addr, reg, new)
                    } else {
                        c.done(())
                    }
                },
        )
    }

    pub open spec fn pause_ms<E>(self, l: Trace<BusEvent<E>>, ms: u32) -> Run<Cursor, (), E> {
        if l.at(self.at) == BusEvent::<E>::PauseMs(ms) {
            Run::Done(Cursor { at: self.at + 1 }, Ok(()))
        } else {
            Run::Off
        }
    }
}

/// Where a bus is in its trace.
pub open spec fn cursor<P: I2cPort>(bus: &I2cBus<P>) -> Cursor {
    Cursor { at: bus.trace().len() }
}

/// Read `buf.len()` bytes starting at register `reg`.
pub fn read<P: I2cPort>(i2c: &mut I2cBus<P>, addr: u8, reg: u8, buf: &mut [u8]) -> (res: Result<
    (),
    P::Error,
>)
    ensures
        final(i2c).trace().extends(old(i2c).trace()),
        forall|l: Trace<BusEvent<P::Error>>| l.extends(final(i2c).trace()) ==> #[trigger]
            crate::i2c_reg::cursor(old(i2c)).read(l, addr, reg, old(buf)@.len()) == Run::Done(
                crate::i2c_reg::cursor(final(i2c)),
                crate::st25r3916::filled(res, final(buf)@),
            ),
        final(buf)@.len() == old(buf)@.len(),
        res is Err ==> final(buf)@ == old(buf)@,
{
    let sent = [reg];
    assert(sent@ =~= seq![reg]);
    let b = i2c.write_read(addr, &sent, buf.len())?;
    splice(buf, 0, b.as_slice());
    assert(buf@ =~= b@);
    Ok(())
}

/// Read a single 8-bit register.
pub fn read_u8<P: I2cPort>(i2c: &mut I2cBus<P>, addr: u8, reg: u8) -> (res: Result<u8, P::Error>)
    ensures
        final(i2c).trace().extends(old(i2c).trace()),
        forall|l: Trace<BusEvent<P::Error>>| l.extends(final(i2c).trace()) ==> #[trigger]
            crate::i2c_reg::cursor(old(i2c)).read_u8(l, addr, reg) == Run::Done(
                crate::i2c_reg::cursor(final(i2c)),
                res,
            ),
{
    let mut b = [0u8; 1];
    read(i2c, addr, reg, &mut b)?;
    Ok(b[0])
}

/// Read a little-endian 16-bit value from `reg`, `reg+1`.
pub fn read_u16_le<P: I2cPort>(i2c: &mut I2cBus<P>, addr: u8, reg: u8) -> (res: Result<
    u16,
    P::Error,
>)
    ensures
        final(i2c).trace().extends(old(i2c).trace()),
        forall|l: Trace<BusEvent<P::Error>>| l.extends(final(i2c).trace()) ==> #[trigger]
            crate::i2c_reg::cursor(old(i2c)).read_u16_le(l, addr, reg) == Run::Done(
                crate::i2c_reg::cursor(final(i2c)),
                res,
            ),
{
    let mut b = [0u8; 2];
    read(i2c, addr, reg, &mut b)?;
    Ok(join16(b[1], b[0]))
}

/// Write `data` starting at register `reg` (auto-increment on the device side).
///
/// Uses a two-part transaction so no intermediate buffer is required; both
/// parts go out as one bus transfer.
pub fn write<P: I2cPort>(i2c: &mut I2cBus<P>, addr: u8, reg: u8, data: &[u8]) -> (res: Result<
    (),
    P::Error,
>)
    ensures
        final(i2c).trace().extends(old(i2c).trace()),
        forall|l: Trace<BusEvent<P::Error>>| l.extends(final(i2c).trace()) ==> #[trigger]
            crate::i2c_reg::cursor(old(i2c)).write(l, addr, reg, data@) == Run::Done(
                crate::i2c_reg::cursor(final(i2c)),
                res,
            ),
{
    let head = [reg];
    assert(head@ =~= seq![reg]);
    i2c.write_parts(addr, &head, data)
}

/// Write a single 8-bit register.
pub fn write_u8<P: I2cPort>(i2c: &mut I2cBus<P>, addr: u8, reg: u8, value: u8) -> (res: Result<
    (),
    P::Error,
>)
    ensures
        final(i2c).trace().extends(old(i2c).trace()),
        forall|l: Trace<BusEvent<P::Error>>| l.extends(final(i2c).trace()) ==> #[trigger]
            crate::i2c_reg::cursor(old(i2c)).write_u8(l, addr, reg, value) == Run::Done(
                crate::i2c_reg::cursor(final(i2c)),
                res,
            ),
{
    let sent = [reg, value];
    assert(sent@ =~= seq![reg] + seq![value]);
    i2c.write(addr, &sent)
}

/// Read-modify-write: `reg = (reg & !mask) | (value & mask)`.
pub fn update_u8<P: I2cPort>(
    i2c: &mut I2cBus<P>,
    addr: u8,
    reg: u8,
    mask: u8,
    value: u8,
) -> (res: Result<(), P::Error>)
    ensures
        final(i2c).trace().extends(old(i2c).trace()),
        forall|l: Trace<BusEvent<P::Error>>| l.extends(final(i2c).trace()) ==> #[trigger]
            crate::i2c_reg::cursor(old(i2c)).update_u8(l, addr, reg, mask, value) == Run::Done(
                crate::i2c_reg::cursor(final(i2c)),
                res,
            ),
{
    let cur = read_u8(i2c, addr, reg)?;
    let new = (cur & !mask) | (value & mask);
    if new != cur {
        write_u8(i2c, addr, reg, new)?;
    }
    Ok(())
}

/// Set the bits in `mask`.
pub fn set_bits<P: I2cPort>(i2c: &mut I2cBus<P>, addr: u8, reg: u8, mask: u8) -> (res: Result<
    (),
    P::Error,
>)
    ensures
        final(i2c).trace().extends(old(i2c).trace()),
        forall|l: Trace<BusEvent<P::Error>>| l.extends(final(i2c).trace()) ==> #[trigger]
            crate::i2c_reg::cursor(old(i2c)).update_u8(l, addr, reg, mask, mask) == Run::Done(
                crate::i2c_reg::cursor(final(i2c)),
                res,
            ),
{
    update_u8(i2c, addr, reg, mask, mask)
}

/// Clear the bits in `mask`.
pub fn clear_bits<P: I2cPort>(i2c: &mut I2cBus<P>, addr: u8, reg: u8, mask: u8) -> (res: Result<
    (),
    P::Error,
>)
    ensures
        final(i2c).trace().extends(old(i2c).trace()),
        forall|l: Trace<BusEvent<P::Error>>| l.extends(final(i2c).trace()) ==> #[trigger]
            crate::i2c_reg::cursor(old(i2c)).update_u8(l, addr, reg, mask, 0) == Run::Done(
                crate::i2c_reg::cursor(final(i2c)),
                res,
            ),
{
    update_u8(i2c, addr, reg, mask, 0)
}

/// Pause between two accesses; never fails.
pub fn pause_ms<P: I2cPort, D: crate::bus::Delay>(i2c: &mut I2cBus<P>, delay: &mut D, ms: u32) -> (res:
    Result<(), P::Error>)
    ensures
        final(i2c).trace().extends(old(i2c).trace()),
        forall|l: Trace<BusEvent<P::Error>>| l.extends(final(i2c).trace()) ==> #[trigger]
            crate::i2c_reg::cursor(old(i2c)).pause_ms(l, ms) == Run::Done(
                crate::i2c_reg::cursor(final(i2c)),
                res,
            ),
        res is Ok,
{
    i2c.pause_ms(delay, ms);
    Ok(())
}

/// An update sets the bits in `mask` as asked for and keeps the others; the
/// same update again finds nothing to change.
pub proof fn updates_keep_other_bits(cur: u8, mask: u8, value: u8)
    ensures
        ({
            let new = (cur & !mask) | (value & mask);
            &&& new & mask == value & mask
            &&& new & !mask == cur & !mask
            &&& (new & !mask) | (value & mask) == new
        }),
{
    assert({
        let new = (cur & !mask) | (value & mask);
        &&& new & mask == value & mask
        &&& new & !mask == cur & !mask
        &&& (new & !mask) | (value & mask) == new
    }) by (bit_vector);
}

} // verus!
