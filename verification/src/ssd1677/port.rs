//! The wires to the panel: SPI, data/command, chip select and BUSY.
//!
//! The traits are what the board supplies, without any contract. [`PanelBus`]
//! writes each call into a ghost trace.

use crate::bus::Delay;
use crate::trace::Trace;
use vstd::prelude::*;

verus! {

broadcast use crate::trace::extends_transitive;

/// The SPI bus of the panel.
pub trait SpiPort {
    type Error;

    fn write(&mut self, bytes: &[u8]) -> Result<(), Self::Error>;

    /// Wait until everything is on the wire.
    fn flush(&mut self) -> Result<(), Self::Error>;
}

/// An output pin.
pub trait OutPin {
    type Error;

    fn set_low(&mut self) -> Result<(), Self::Error>;

    fn set_high(&mut self) -> Result<(), Self::Error>;
}

/// An input pin.
pub trait InPin {
    type Error;

    fn is_high(&mut self) -> Result<bool, Self::Error>;
}

/// One use of the wires.
pub enum PanelEvent<S, P> {
    Select(Result<(), P>),
    Deselect(Result<(), P>),
    CommandMode(Result<(), P>),
    DataMode(Result<(), P>),
    Sent { bytes: Seq<u8>, outcome: Result<(), S> },
    Flushed(Result<(), S>),
    Busy(Result<bool, P>),
    PauseMs(u32),
}

/// The wires together with the trace of their use.
pub struct PanelBus<SPI: SpiPort, DC: OutPin, CS: OutPin<Error = DC::Error>, BUSY: InPin<
    Error = DC::Error,
>> {
    spi: SPI,
    dc: DC,
    cs: CS,
    busy: BUSY,
    trace: Ghost<Trace<PanelEvent<SPI::Error, DC::Error>>>,
}

impl<
    SPI: SpiPort,
    DC: OutPin,
    CS: OutPin<Error = DC::Error>,
    BUSY: InPin<Error = DC::Error>,
> PanelBus<SPI, DC, CS, BUSY> {
    /// Every use so far.
    pub closed spec fn trace(&self) -> Trace<PanelEvent<SPI::Error, DC::Error>> {
        self.trace@
    }

    pub fn new(spi: SPI, dc: DC, cs: CS, busy: BUSY) -> (bus: Self)
        ensures
            bus.trace() == Trace::<PanelEvent<SPI::Error, DC::Error>>::empty(),
    {
        PanelBus { spi, dc, cs, busy, trace: Ghost(Trace::empty()) }
    }

    /// Chip select low.
    pub fn select(&mut self) -> (res: Result<(), DC::Error>)
        ensures
            final(self).trace() == old(self).trace().push(
                PanelEvent::<SPI::Error, DC::Error>::Select(res),
            ),
            final(self).trace().extends(old(self).trace()),
            forall|l: Trace<PanelEvent<SPI::Error, DC::Error>>| #[trigger]
                l.extends(final(self).trace()) ==> l.at(old(self).trace().len()) == (
                PanelEvent::<SPI::Error, DC::Error>::Select(res)),
    {
        let res = self.cs.set_low();
        let ghost event = PanelEvent::<SPI::Error, DC::Error>::Select(res);
        let ghost before = self.trace@;
        self.trace = Ghost(before.push(event));
        assert(self.trace@.at(before.len()) == event);
        res
    }

    /// Chip select high.
    pub fn deselect(&mut self) -> (res: Result<(), DC::Error>)
        ensures
            final(self).trace() == old(self).trace().push(
                PanelEvent::<SPI::Error, DC::Error>::Deselect(res),
            ),
            final(self).trace().extends(old(self).trace()),
            forall|l: Trace<PanelEvent<SPI::Error, DC::Error>>| #[trigger]
                l.extends(final(self).trace()) ==> l.at(old(self).trace().len()) == (
                PanelEvent::<SPI::Error, DC::Error>::Deselect(res)),
    {
        let res = self.cs.set_high();
        let ghost event = PanelEvent::<SPI::Error, DC::Error>::Deselect(res);
        let ghost before = self.trace@;
        self.trace = Ghost(before.push(event));
        assert(self.trace@.at(before.len()) == event);
        res
    }

    /// What follows is a command.
    pub fn command_mode(&mut self) -> (res: Result<(), DC::Error>)
        ensures
            final(self).trace() == old(self).trace().push(
                PanelEvent::<SPI::Error, DC::Error>::CommandMode(res),
            ),
            final(self).trace().extends(old(self).trace()),
            forall|l: Trace<PanelEvent<SPI::Error, DC::Error>>| #[trigger]
                l.extends(final(self).trace()) ==> l.at(old(self).trace().len()) == (
                PanelEvent::<SPI::Error, DC::Error>::CommandMode(res)),
    {
        let res = self.dc.set_low();
        let ghost event = PanelEvent::<SPI::Error, DC::Error>::CommandMode(res);
        let ghost before = self.trace@;
        self.trace = Ghost(before.push(event));
        assert(self.trace@.at(before.len()) == event);
        res
    }

    /// What follows is data.
    pub fn data_mode(&mut self) -> (res: Result<(), DC::Error>)
        ensures
            final(self).trace() == old(self).trace().push(
                PanelEvent::<SPI::Error, DC::Error>::DataMode(res),
            ),
            final(self).trace().extends(old(self).trace()),
            forall|l: Trace<PanelEvent<SPI::Error, DC::Error>>| #[trigger]
                l.extends(final(self).trace()) ==> l.at(old(self).trace().len()) == (
                PanelEvent::<SPI::Error, DC::Error>::DataMode(res)),
    {
        let res = self.dc.set_high();
        let ghost event = PanelEvent::<SPI::Error, DC::Error>::DataMode(res);
        let ghost before = self.trace@;
        self.trace = Ghost(before.push(event));
        assert(self.trace@.at(before.len()) == event);
        res
    }

    /// Send bytes.
    pub fn send(&mut self, bytes: &[u8]) -> (res: Result<(), SPI::Error>)
        ensures
            final(self).trace() == old(self).trace().push(
                PanelEvent::<SPI::Error, DC::Error>::Sent { bytes: bytes@, outcome: res },
            ),
            final(self).trace().extends(old(self).trace()),
            forall|l: Trace<PanelEvent<SPI::Error, DC::Error>>| #[trigger]
                l.extends(final(self).trace()) ==> l.at(old(self).trace().len()) == (
                PanelEvent::<SPI::Error, DC::Error>::Sent { bytes: bytes@, outcome: res }),
    {
        let res = self.spi.write(bytes);
        let ghost event = PanelEvent::<SPI::Error, DC::Error>::Sent { bytes: bytes@, outcome: res };
        let ghost before = self.trace@;
        self.trace = Ghost(before.push(event));
        assert(self.trace@.at(before.len()) == event);
        res
    }

    /// Wait until everything is on the wire.
    pub fn flush(&mut self) -> (res: Result<(), SPI::Error>)
        ensures
            final(self).trace() == old(self).trace().push(
                PanelEvent::<SPI::Error, DC::Error>::Flushed(res),
            ),
            final(self).trace().extends(old(self).trace()),
            forall|l: Trace<PanelEvent<SPI::Error, DC::Error>>| #[trigger]
                l.extends(final(self).trace()) ==> l.at(old(self).trace().len()) == (
                PanelEvent::<SPI::Error, DC::Error>::Flushed(res)),
    {
        let res = self.spi.flush();
        let ghost event = PanelEvent::<SPI::Error, DC::Error>::Flushed(res);
        let ghost before = self.trace@;
        self.trace = Ghost(before.push(event));
        assert(self.trace@.at(before.len()) == event);
        res
    }

    /// Read the BUSY line.
    pub fn busy(&mut self) -> (res: Result<bool, DC::Error>)
        ensures
            final(self).trace() == old(self).trace().push(
                PanelEvent::<SPI::Error, DC::Error>::Busy(res),
            ),
            final(self).trace().extends(old(self).trace()),
            forall|l: Trace<PanelEvent<SPI::Error, DC::Error>>| #[trigger]
                l.extends(final(self).trace()) ==> l.at(old(self).trace().len()) == (
                PanelEvent::<SPI::Error, DC::Error>::Busy(res)),
    {
        let res = self.busy.is_high();
        let ghost event = PanelEvent::<SPI::Error, DC::Error>::Busy(res);
        let ghost before = self.trace@;
        self.trace = Ghost(before.push(event));
        assert(self.trace@.at(before.len()) == event);
        res
    }

    /// Pause.
    pub fn pause_ms<D: Delay>(&mut self, delay: &mut D, ms: u32)
        ensures
            final(self).trace() == old(self).trace().push(
                PanelEvent::<SPI::Error, DC::Error>::PauseMs(ms),
            ),
            final(self).trace().extends(old(self).trace()),
            forall|l: Trace<PanelEvent<SPI::Error, DC::Error>>| #[trigger]
                l.extends(final(self).trace()) ==> l.at(old(self).trace().len()) == (
                PanelEvent::<SPI::Error, DC::Error>::PauseMs(ms)),
    {
        delay.delay_ms(ms);
        let ghost event = PanelEvent::<SPI::Error, DC::Error>::PauseMs(ms);
        let ghost before = self.trace@;
        self.trace = Ghost(before.push(event));
        assert(self.trace@.at(before.len()) == event);
    }
}

} // verus!
