//! The panel together with the expander that holds its reset line.
//!
//! Each device has a trace of its own. What is done to both has an order that
//! neither trace shows: the [`Log`] keeps it.

use crate::bus::{BusEvent, Delay, I2cPort};
use crate::ioe1::Ioe1;
use crate::ssd1677::port::{InPin, OutPin, PanelEvent, SpiPort};
use crate::ssd1677::{Error, Ssd1677};
use crate::trace::{Run, Trace};
use vstd::prelude::*;

verus! {

/// A step that one of the two devices takes.
pub enum DisplayStep {
    /// The expander pulses the reset lines.
    Reset,
    /// The panel is initialised.
    Init,
}

/// The steps so far, oldest first. Only the functions of [`Display`] add to
/// it, each as it takes its step.
pub struct Log {
    steps: Ghost<Seq<DisplayStep>>,
}

impl View for Log {
    type V = Seq<DisplayStep>;

    closed spec fn view(&self) -> Seq<DisplayStep> {
        self.steps@
    }
}

impl Log {
    fn new() -> (log: Log)
        ensures
            log@ == Seq::<DisplayStep>::empty(),
    {
        Log { steps: Ghost(Seq::empty()) }
    }

    fn note(&mut self, step: Ghost<DisplayStep>)
        ensures
            final(self)@ == old(self)@.push(step@),
    {
        let ghost before = self.steps@;
        self.steps = Ghost(before.push(step@));
    }
}

pub struct Display<
    P: I2cPort,
    SPI: SpiPort,
    DC: OutPin,
    CS: OutPin<Error = DC::Error>,
    BUSY: InPin<Error = DC::Error>,
> {
    pub ioe: Ioe1<P>,
    pub epd: Ssd1677<SPI, DC, CS, BUSY>,
    pub log: Log,
}

impl<
    P: I2cPort,
    SPI: SpiPort,
    DC: OutPin,
    CS: OutPin<Error = DC::Error>,
    BUSY: InPin<Error = DC::Error>,
> Display<P, SPI, DC, CS, BUSY> {
    pub fn new(ioe: Ioe1<P>, epd: Ssd1677<SPI, DC, CS, BUSY>) -> (display: Self)
        ensures
            display.ioe == ioe,
            display.epd == epd,
            display.log@ == Seq::<DisplayStep>::empty(),
    {
        Display { ioe, epd, log: Log::new() }
    }

    /// Hardware reset, see [`crate::board::epd_hard_reset`].
    pub fn reset<D: Delay>(&mut self, delay: &mut D) -> (res: Result<(), P::Error>)
        ensures
            final(self).log@ == old(self).log@.push(DisplayStep::Reset),
            final(self).epd == old(self).epd,
            final(self).ioe.bus.trace().extends(old(self).ioe.bus.trace()),
            forall|l: Trace<BusEvent<P::Error>>|
                l.extends(final(self).ioe.bus.trace()) ==> #[trigger] crate::i2c_reg::cursor(
                    &old(self).ioe.bus,
                ).epd_hard_reset(l) == Run::Done(
                    crate::i2c_reg::cursor(&final(self).ioe.bus),
                    res,
                ),
    {
        self.log.note(Ghost(DisplayStep::Reset));
        crate::board::epd_hard_reset(&mut self.ioe, delay)
    }

    /// Software reset and configuration, see [`Ssd1677::init`].
    pub fn init<D: Delay>(&mut self, delay: &mut D) -> (res: Result<
        (),
        Error<SPI::Error, DC::Error>,
    >)
        ensures
            final(self).log@ == old(self).log@.push(DisplayStep::Init),
            final(self).ioe == old(self).ioe,
            final(self).epd.waveforms == old(self).epd.waveforms,
            final(self).epd.trace().extends(old(self).epd.trace()),
            forall|l: Trace<PanelEvent<SPI::Error, DC::Error>>|
                l.extends(final(self).epd.trace()) ==> #[trigger] old(self).epd.panel().init(l)
                    == Run::Done(final(self).epd.panel(), res),
    {
        self.log.note(Ghost(DisplayStep::Init));
        self.epd.init(delay)
    }
}

} // verus!
