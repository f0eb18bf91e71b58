//! The I2C bus and the pauses between transfers.
//!
//! [`I2cPort`] and [`Delay`] are what the board supplies. Neither has a
//! contract: nothing is assumed of what an implementation does or answers.
//! [`I2cBus`] wraps a port and writes each call into a ghost trace.

use crate::trace::Trace;
use vstd::prelude::*;

verus! {

broadcast use crate::trace::extends_transitive;

/// An I2C master, as the board provides it.
pub trait I2cPort {
    type Error;

    /// One write transfer of `bytes` to the device at `addr`.
    fn write(&mut self, addr: u8, bytes: &[u8]) -> Result<(), Self::Error>;

    /// One write transfer of `head` directly followed by `tail`.
    fn write_parts(&mut self, addr: u8, head: &[u8], tail: &[u8]) -> Result<(), Self::Error>;

    /// Write `bytes`, then read `len` bytes after a repeated start.
    fn write_read(&mut self, addr: u8, bytes: &[u8], len: usize) -> Result<Vec<u8>, Self::Error>;
}

/// A source of pauses.
pub trait Delay {
    fn delay_ms(&mut self, ms: u32);

    fn delay_us(&mut self, us: u32);
}

/// One call of a port.
pub enum BusEvent<E> {
    /// `sent` was written to `addr`.
    Write { addr: u8, sent: Seq<u8>, outcome: Result<(), E> },
    /// `sent` was written to `addr` and `asked` bytes were read back.
    Read { addr: u8, sent: Seq<u8>, asked: nat, reply: Result<Seq<u8>, E> },
    PauseMs(u32),
    PauseUs(u32),
}

/// The bytes of a reply.
pub open spec fn reply_bytes<E>(r: Result<Vec<u8>, E>) -> Result<Seq<u8>, E> {
    match r {
        Ok(v) => Ok(v@),
        Err(e) => Err(e),
    }
}

/// Entry `i` of a bus trace is a write of `sent` to `addr`; its outcome.
pub open spec fn wrote<E>(l: Trace<BusEvent<E>>, i: int, addr: u8, sent: Seq<u8>) -> Option<
    Result<(), E>,
> {
    match l.at(i) {
        BusEvent::Write { addr: a, sent: s, outcome } => if a == addr && s == sent {
            Some(outcome)
        } else {
            None
        },
        _ => None,
    }
}

/// Entry `i` of a bus trace is a read of `asked` bytes from `addr` after
/// writing `sent`; the reply.
pub open spec fn replied<E>(
    l: Trace<BusEvent<E>>,
    i: int,
    addr: u8,
    sent: Seq<u8>,
    asked: nat,
) -> Option<Result<Seq<u8>, E>> {
    match l.at(i) {
        BusEvent::Read { addr: a, sent: s, asked: n, reply } => if a == addr && s == sent && n
            == asked {
            Some(reply)
        } else {
            None
        },
        _ => None,
    }
}

/// A port together with the trace of its use.
pub struct I2cBus<P: I2cPort> {
    port: P,
    trace: Ghost<Trace<BusEvent<P::Error>>>,
}

impl<P: I2cPort> I2cBus<P> {
    /// Every call made so far.
    pub closed spec fn trace(&self) -> Trace<BusEvent<P::Error>> {
        self.trace@
    }

    /// The port inside.
    pub closed spec fn port(&self) -> P {
        self.port
    }

    pub fn new(port: P) -> (bus: Self)
        ensures
            bus.trace() == Trace::<BusEvent<P::Error>>::empty(),
            bus.port() == port,
    {
        I2cBus { port, trace: Ghost(Trace::empty()) }
    }

    /// Give the port back.
    pub fn release(self) -> (port: P)
        ensures
            port == self.port(),
    {
        self.port
    }

    /// [`I2cPort::write`], traced.
    pub fn write(&mut self, addr: u8, bytes: &[u8]) -> (res: Result<(), P::Error>)
        ensures
            final(self).trace() == old(self).trace().push(
                BusEvent::Write { addr, sent: bytes@, outcome: res },
            ),
            final(self).trace().extends(old(self).trace()),
            forall|l: Trace<BusEvent<P::Error>>| #[trigger]
                l.extends(final(self).trace()) ==> l.at(old(self).trace().len()) == (
                BusEvent::Write { addr, sent: bytes@, outcome: res }),
    {
        let res = self.port.write(addr, bytes);
        let ghost event = BusEvent::Write { addr, sent: bytes@, outcome: res };
        let ghost before = self.trace@;
        self.trace = Ghost(before.push(event));
        assert(self.trace@.at(before.len()) == event);
        res
    }

    /// [`I2cPort::write_parts`], traced: on the wire it is one write.
    pub fn write_parts(&mut self, addr: u8, head: &[u8], tail: &[u8]) -> (res: Result<
        (),
        P::Error,
    >)
        ensures
            final(self).trace() == old(self).trace().push(
                BusEvent::Write { addr, sent: head@ + tail@, outcome: res },
            ),
            final(self).trace().extends(old(self).trace()),
            forall|l: Trace<BusEvent<P::Error>>| #[trigger]
                l.extends(final(self).trace()) ==> l.at(old(self).trace().len()) == (
                BusEvent::Write { addr, sent: head@ + tail@, outcome: res }),
    {
        let res = self.port.write_parts(addr, head, tail);
        let ghost event = BusEvent::Write { addr, sent: head@ + tail@, outcome: res };
        let ghost before = self.trace@;
        self.trace = Ghost(before.push(event));
        assert(self.trace@.at(before.len()) == event);
        res
    }

    /// [`I2cPort::write_read`], traced. A reply always has `len` bytes: what
    /// the port leaves out reads as zero, what it adds is dropped.
    pub fn write_read(&mut self, addr: u8, bytes: &[u8], len: usize) -> (res: Result<
        Vec<u8>,
        P::Error,
    >)
        ensures
            res matches Ok(v) ==> v@.len() == len,
            final(self).trace() == old(self).trace().push(
                BusEvent::Read {
                    addr,
                    sent: bytes@,
                    asked: len as nat,
                    reply: reply_bytes(res),
                },
            ),
            final(self).trace().extends(old(self).trace()),
            forall|l: Trace<BusEvent<P::Error>>| #[trigger]
                l.extends(final(self).trace()) ==> l.at(old(self).trace().len()) == (
                BusEvent::Read {
                    addr,
                    sent: bytes@,
                    asked: len as nat,
                    reply: reply_bytes(res),
                }),
    {
        let res = match self.port.write_read(addr, bytes, len) {
            Ok(mut reply) => {
                reply.resize(len, 0);
                Ok(reply)
            },
            Err(e) => Err(e),
        };
        let ghost event = BusEvent::Read {
            addr,
            sent: bytes@,
            asked: len as nat,
            reply: reply_bytes(res),
        };
        let ghost before = self.trace@;
        self.trace = Ghost(before.push(event));
        assert(self.trace@.at(before.len()) == event);
        res
    }

    /// Pause for `ms` milliseconds, traced.
    pub fn pause_ms<D: Delay>(&mut self, delay: &mut D, ms: u32)
        ensures
            final(self).trace() == old(self).trace().push(BusEvent::PauseMs(ms)),
            final(self).trace().extends(old(self).trace()),
            forall|l: Trace<BusEvent<P::Error>>| #[trigger]
                l.extends(final(self).trace()) ==> l.at(old(self).trace().len())
                    == BusEvent::<P::Error>::PauseMs(ms),
    {
        delay.delay_ms(ms);
        let ghost before = self.trace@;
        self.trace = Ghost(before.push(BusEvent::PauseMs(ms)));
        assert(self.trace@.at(before.len()) == BusEvent::<P::Error>::PauseMs(ms));
    }

    /// Pause for `us` microseconds, traced.
    pub fn pause_us<D: Delay>(&mut self, delay: &mut D, us: u32)
        ensures
            final(self).trace() == old(self).trace().push(BusEvent::PauseUs(us)),
            final(self).trace().extends(old(self).trace()),
            forall|l: Trace<BusEvent<P::Error>>| #[trigger]
                l.extends(final(self).trace()) ==> l.at(old(self).trace().len())
                    == BusEvent::<P::Error>::PauseUs(us),
    {
        delay.delay_us(us);
        let ghost before = self.trace@;
        self.trace = Ghost(before.push(BusEvent::PauseUs(us)));
        assert(self.trace@.at(before.len()) == BusEvent::<P::Error>::PauseUs(us));
    }
}

} // verus!
