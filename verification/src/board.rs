//! PaperMono board definition: pin map, power and reset lines, and the
//! bring-up sequence.
//!
//! Order matters: PM1 (rails, I2C sleep off) -> IOE1 -> EPD/TP power + reset ->
//! SPI/EPD -> touch -> NFC -> fast bus. [`next_stage`] says what comes next;
//! failures of parts are reported, never fatal.

use crate::bus::{BusEvent, Delay, I2cBus, I2cPort};
use crate::ft6336::Ft6336;
use crate::i2c_reg::Cursor;
use crate::ioe1::{Ioe1, Pin};
use crate::pm1::Pm1;
use crate::st25r3916::model::Chip;
use crate::st25r3916::St25r3916;
use crate::trace::{Run, Trace};
use vstd::prelude::*;

pub mod display;
pub mod gpio;
pub mod i2c_addr;
pub mod ioe;

verus! {

broadcast use crate::trace::extends_transitive;

// ----------------------------------------------------------------------
// the order of things
// ----------------------------------------------------------------------

/// A stage of the bring-up.
#[derive(Debug, Clone, Copy, PartialEq, Eq, Structural)]
pub enum Stage {
    /// Does the PM1 answer at 100 kHz?
    ProbePower,
    /// PM1/IOE1 left in 400 kHz mode: put them back.
    RecoverSpeed,
    StartPower,
    /// IO expander, and through it EPD/TP/NFC power and reset.
    StartExpander,
    StartPanel,
    StartTouch,
    StartNfc,
    /// PM1/IOE1 to 400 kHz.
    FastDevices,
    /// The bus itself to 400 kHz.
    FastBus,
    Complete,
}

/// The stage that follows; only two outcomes matter: a PM1 that does not
/// answer has its bus speed recovered first, and the bus is sped up only if
/// both devices were.
pub open spec fn stage_after(stage: Stage, ok: bool) -> Stage {
    match stage {
        Stage::ProbePower => if ok {
            Stage::StartPower
        } else {
            Stage::RecoverSpeed
        },
        Stage::RecoverSpeed => Stage::StartPower,
        Stage::StartPower => Stage::StartExpander,
        Stage::StartExpander => Stage::StartPanel,
        Stage::StartPanel => Stage::StartTouch,
        Stage::StartTouch => Stage::StartNfc,
        Stage::StartNfc => Stage::FastDevices,
        Stage::FastDevices => if ok {
            Stage::FastBus
        } else {
            Stage::Complete
        },
        Stage::FastBus => Stage::Complete,
        Stage::Complete => Stage::Complete,
    }
}

pub fn next_stage(stage: Stage, ok: bool) -> (next: Stage)
    ensures
        next == stage_after(stage, ok),
{
    match stage {
        Stage::ProbePower => if ok {
            Stage::StartPower
        } else {
            Stage::RecoverSpeed
        },
        Stage::RecoverSpeed => Stage::StartPower,
        Stage::StartPower => Stage::StartExpander,
        Stage::StartExpander => Stage::StartPanel,
        Stage::StartPanel => Stage::StartTouch,
        Stage::StartTouch => Stage::StartNfc,
        Stage::StartNfc => Stage::FastDevices,
        Stage::FastDevices => if ok {
            Stage::FastBus
        } else {
            Stage::Complete
        },
        Stage::FastBus => Stage::Complete,
        Stage::Complete => Stage::Complete,
    }
}

/// The stages from `stage` on, for given outcomes.
pub open spec fn stages(stage: Stage, outcome: spec_fn(Stage) -> bool, fuel: nat) -> Seq<Stage>
    decreases fuel,
{
    if fuel == 0 || stage == Stage::Complete {
        Seq::empty()
    } else {
        seq![stage] + stages(stage_after(stage, outcome(stage)), outcome, (fuel - 1) as nat)
    }
}

/// Whatever fails, the board comes up in the one order and to the end.
pub proof fn bring_up_keeps_its_order(outcome: spec_fn(Stage) -> bool)
    ensures
        stages(Stage::ProbePower, outcome, 10) == (if outcome(Stage::ProbePower) {
            seq![Stage::ProbePower]
        } else {
            seq![Stage::ProbePower, Stage::RecoverSpeed]
        }) + seq![
            Stage::StartPower,
            Stage::StartExpander,
            Stage::StartPanel,
            Stage::StartTouch,
            Stage::StartNfc,
            Stage::FastDevices,
        ] + (if outcome(Stage::FastDevices) {
            seq![Stage::FastBus]
        } else {
            Seq::empty()
        }),
{
    reveal_with_fuel(stages, 11);
    assert(stages(Stage::ProbePower, outcome, 10) =~= (if outcome(Stage::ProbePower) {
        seq![Stage::ProbePower]
    } else {
        seq![Stage::ProbePower, Stage::RecoverSpeed]
    }) + seq![
        Stage::StartPower,
        Stage::StartExpander,
        Stage::StartPanel,
        Stage::StartTouch,
        Stage::StartNfc,
        Stage::FastDevices,
    ] + (if outcome(Stage::FastDevices) {
        seq![Stage::FastBus]
    } else {
        Seq::empty()
    }));
}

// ----------------------------------------------------------------------
// models of the stages
// ----------------------------------------------------------------------

/// The value, or a default if there is none.
pub open spec fn value_or<T, E>(r: Result<T, E>, default: T) -> T {
    match r {
        Ok(t) => t,
        Err(_) => default,
    }
}

/// What the PM1 tells about itself.
#[derive(Debug, Clone, Copy, PartialEq, Eq)]
pub struct PowerReport {
    pub hw: u8,
    pub sw: u8,
    pub source: u8,
    pub vbat: u16,
    pub vin: u16,
}

/// How the expander and the lines behind it came up.
pub struct ExpanderReport<E> {
    pub found: Result<u16, crate::ioe1::Error<E>>,
    pub rev: u8,
    pub epd_power: Result<(), E>,
    pub nfc_power: Result<(), E>,
}

/// What the NFC chip tells about itself.
#[derive(Debug, Clone, Copy, PartialEq, Eq)]
pub struct NfcReport {
    pub identity: u8,
    pub op_control: u8,
    pub aux: u8,
    pub regulator: u8,
}

impl Cursor {
    pub open spec fn epd_hard_reset<E>(self, l: Trace<BusEvent<E>>) -> Run<Cursor, (), E> {
        self.reset_lines(l, false).chain(
            |c: Cursor, _u: ()|
                c.pause_ms(l, 10).chain(
                    |c: Cursor, _u: ()|
                        c.reset_lines(l, true).chain(|c: Cursor, _u: ()| c.pause_ms(l, 10)),
                ),
        )
    }

    /// EPD and touch reset lines.
    pub open spec fn reset_lines<E>(self, l: Trace<BusEvent<E>>, high: bool) -> Run<Cursor, (), E> {
        self.ioe1_write(l, Pin(ioe::EPD_RST), high).chain(
            |c: Cursor, _u: ()| c.ioe1_write(l, Pin(ioe::TP_RST), high),
        )
    }

    pub open spec fn outputs<E>(self, l: Trace<BusEvent<E>>) -> Run<Cursor, (), E> {
        self.ioe1_set_output(l, Pin(ioe::EPD_EN)).chain(
            |c: Cursor, _u: ()|
                c.ioe1_set_output(l, Pin(ioe::EPD_RST)).chain(
                    |c: Cursor, _u: ()|
                        c.ioe1_set_output(l, Pin(ioe::TP_RST)).chain(
                            |c: Cursor, _u: ()|
                                c.ioe1_set_output(l, Pin(ioe::TP_EN)).chain(
                                    |c: Cursor, _u: ()|
                                        c.ioe1_set_output(l, Pin(ioe::TF_EN)),
                                ),
                        ),
                ),
        )
    }

    /// EPD and touch rails on, card rail off.
    pub open spec fn rails<E>(self, l: Trace<BusEvent<E>>) -> Run<Cursor, (), E> {
        self.ioe1_write(l, Pin(ioe::EPD_EN), true).chain(
            |c: Cursor, _u: ()|
                c.ioe1_write(l, Pin(ioe::TP_EN), true).chain(
                    |c: Cursor, _u: ()| c.ioe1_write(l, Pin(ioe::TF_EN), false),
                ),
        )
    }

    pub open spec fn epd_power_on<E>(self, l: Trace<BusEvent<E>>) -> Run<Cursor, (), E> {
        self.outputs(l).chain(
            |c: Cursor, _u: ()|
                c.rails(l).chain(
                    |c: Cursor, _u: ()|
                        c.pause_ms(l, 2).chain(|c: Cursor, _u: ()| c.epd_hard_reset(l)),
                ),
        )
    }

    pub open spec fn nfc_power<E>(self, l: Trace<BusEvent<E>>, on: bool) -> Run<Cursor, (), E> {
        self.ioe1_set_output(l, Pin(ioe::NFC_EN)).chain(
            |c: Cursor, _u: ()| c.ioe1_write(l, Pin(ioe::NFC_EN), on),
        )
    }

    pub open spec fn touch_reset<E>(self, l: Trace<BusEvent<E>>) -> Run<Cursor, (), E> {
        self.ioe1_set_output(l, Pin(ioe::TP_RST)).chain(
            |c: Cursor, _u: ()|
                c.ioe1_write(l, Pin(ioe::TP_RST), false).chain(
                    |c: Cursor, _u: ()|
                        c.pause_ms(l, 10).chain(
                            |c: Cursor, _u: ()|
                                c.ioe1_write(l, Pin(ioe::TP_RST), true).chain(
                                    |c: Cursor, _u: ()| c.pause_ms(l, 300),
                                ),
                        ),
                ),
        )
    }

    /// Speed bits of PM1 and IOE1 cleared, whatever they answer.
    pub open spec fn clear_speed_bits<E>(self, l: Trace<BusEvent<E>>) -> Run<
        Cursor,
        (Result<(), E>, Result<(), E>),
        E,
    > {
        self.write_u8::<E>(l, crate::pm1::ADDR, crate::pm1::regs::I2C_CFG, 0x00).always(
            |c: Cursor, r1: Result<(), E>|
                c.write_u8::<E>(l, crate::ioe1::ADDR, crate::ioe1::regs::I2C_CFG, 0x00).always(
                    |c: Cursor, r2: Result<(), E>|
                        c.pause_ms::<E>(l, 10).chain(|c: Cursor, _u: ()| c.done((r1, r2))),
                ),
        )
    }

    /// Speed bits of PM1 and IOE1 set, whatever they answer.
    pub open spec fn fast_devices<E>(self, l: Trace<BusEvent<E>>) -> Run<
        Cursor,
        (Result<(), E>, Result<(), E>),
        E,
    > {
        self.pm1_i2c_cfg::<E>(l, 0x10).always(
            |c: Cursor, a: Result<(), E>|
                c.ioe1_i2c_cfg::<E>(l, 0x10).always(
                    |c: Cursor, b: Result<(), E>| c.done((a, b)),
                ),
        )
    }

    pub open spec fn power_details<E>(self, l: Trace<BusEvent<E>>) -> Run<
        Cursor,
        PowerReport,
        E,
    > {
        self.read_u8::<E>(l, crate::pm1::ADDR, crate::pm1::regs::HW_REV).always(
            |c: Cursor, hw: Result<u8, E>|
                c.read_u8::<E>(l, crate::pm1::ADDR, crate::pm1::regs::SW_REV).always(
                    |c: Cursor, sw: Result<u8, E>|
                        c.pm1_power_source::<E>(l).always(
                            |c: Cursor, source: Result<u8, E>|
                                c.voltages(
                                    l,
                                    value_or(hw, 0),
                                    value_or(sw, 0),
                                    value_or(source, 0xFF),
                                ),
                        ),
                ),
        )
    }

    pub open spec fn voltages<E>(self, l: Trace<BusEvent<E>>, hw: u8, sw: u8, source: u8) -> Run<
        Cursor,
        PowerReport,
        E,
    > {
        self.pm1_battery::<E>(l, 0, 5).always(
            |c: Cursor, vbat: Result<u16, E>|
                c.pm1_voltage::<E>(l, crate::pm1::regs::VIN_L).always(
                    |c: Cursor, vin: Result<u16, E>|
                        c.done(
                            PowerReport {
                                hw,
                                sw,
                                source,
                                vbat: value_or(vbat, 0),
                                vin: value_or(vin, 0),
                            },
                        ),
                ),
        )
    }

    pub open spec fn start_power<E>(self, l: Trace<BusEvent<E>>) -> Run<
        Cursor,
        PowerReport,
        crate::pm1::Error<E>,
    > {
        match self.pm1_init(l) {
            Run::Done(c, Ok(_)) => match c.power_details(l) {
                Run::Done(c, Ok(report)) => Run::Done(c, Ok(report)),
                Run::Done(c, Err(e)) => Run::Done(c, Err(crate::pm1::Error::I2c(e))),
                Run::Off => Run::Off,
            },
            Run::Done(c, Err(e)) => Run::Done(c, Err(e)),
            Run::Off => Run::Off,
        }
    }

    /// The revision is read only from an expander that was found; the lines
    /// are tried in any case.
    pub open spec fn start_expander<E>(self, l: Trace<BusEvent<E>>) -> Run<
        Cursor,
        ExpanderReport<E>,
        E,
    > {
        self.ioe1_init::<E>(l).always(
            |c: Cursor, found: Result<u16, crate::ioe1::Error<E>>|
                if found is Ok {
                    c.read_u8::<E>(l, crate::ioe1::ADDR, crate::ioe1::regs::REV).always(
                        |c: Cursor, rev: Result<u8, E>| c.lines(l, found, value_or(rev, 0)),
                    )
                } else {
                    c.lines(l, found, 0)
                },
        )
    }

    pub open spec fn lines<E>(
        self,
        l: Trace<BusEvent<E>>,
        found: Result<u16, crate::ioe1::Error<E>>,
        rev: u8,
    ) -> Run<Cursor, ExpanderReport<E>, E> {
        self.epd_power_on::<E>(l).always(
            |c: Cursor, epd_power: Result<(), E>|
                c.nfc_power::<E>(l, true).always(
                    |c: Cursor, nfc_power: Result<(), E>|
                        c.done(ExpanderReport { found, rev, epd_power, nfc_power }),
                ),
        )
    }

    /// Chip and vendor of a touch controller that answers.
    pub open spec fn start_touch<E>(self, l: Trace<BusEvent<E>>) -> Run<Cursor, (u8, u8), E> {
        self.ft6336_init(l).chain(
            |c: Cursor, id: u8|
                c.read_u8::<E>(l, crate::ft6336::ADDR, crate::ft6336::reg::VENDOR_ID).always(
                    |c: Cursor, vendor: Result<u8, E>| c.done((id, value_or(vendor, 0))),
                ),
        )
    }
}

impl Chip {
    /// Power settles, then the chip is initialised and configured as a reader.
    pub open spec fn start_nfc<E>(self, l: Trace<BusEvent<E>>) -> Run<
        Chip,
        NfcReport,
        crate::st25r3916::Error<E>,
    > {
        self.pause_ms(l, 50).i2c().chain(
            |c: Chip, _u: ()|
                c.init(l).chain(
                    |c: Chip, _u: ()|
                        c.configure_nfca(l).chain(|c: Chip, _u: ()| c.nfc_details(l)),
                ),
        )
    }

    pub open spec fn nfc_details<E>(self, l: Trace<BusEvent<E>>) -> Run<
        Chip,
        NfcReport,
        crate::st25r3916::Error<E>,
    > {
        self.status::<E>(l).always(
            |c: Chip, status: Result<(u8, u8, u8), E>|
                c.read_reg::<E>(l, crate::st25r3916::reg::IC_IDENTITY).always(
                    |c: Chip, identity: Result<u8, E>|
                        {
                            let s = value_or(status, (0u8, 0u8, 0u8));
                            c.done(
                                NfcReport {
                                    identity: value_or(identity, 0),
                                    op_control: s.0,
                                    aux: s.1,
                                    regulator: s.2,
                                },
                            )
                        },
                ),
        )
    }
}

fn unwrap_or<T, E>(r: Result<T, E>, default: T) -> (t: T)
    ensures
        t == value_or(r, default),
{
    match r {
        Ok(t) => t,
        Err(_) => default,
    }
}

// ----------------------------------------------------------------------
// lines behind the expander
// ----------------------------------------------------------------------

fn reset_lines<P: I2cPort>(ioe: &mut Ioe1<P>, high: bool) -> (res: Result<(), P::Error>)
    ensures
        final(ioe).bus.trace().extends(old(ioe).bus.trace()),
        forall|l: Trace<BusEvent<P::Error>>| l.extends(final(ioe).bus.trace()) ==> #[trigger]
            crate::i2c_reg::cursor(&old(ioe).bus).reset_lines(l, high) == Run::Done(
                crate::i2c_reg::cursor(&final(ioe).bus),
                res,
            ),
{
    ioe.write(Pin(ioe::EPD_RST), high)?;
    ioe.write(Pin(ioe::TP_RST), high)
}

fn outputs<P: I2cPort>(ioe: &mut Ioe1<P>) -> (res: Result<(), P::Error>)
    ensures
        final(ioe).bus.trace().extends(old(ioe).bus.trace()),
        forall|l: Trace<BusEvent<P::Error>>| l.extends(final(ioe).bus.trace()) ==> #[trigger]
            crate::i2c_reg::cursor(&old(ioe).bus).outputs(l) == Run::Done(
                crate::i2c_reg::cursor(&final(ioe).bus),
                res,
            ),
{
    ioe.set_output(Pin(ioe::EPD_EN))?;
    ioe.set_output(Pin(ioe::EPD_RST))?;
    ioe.set_output(Pin(ioe::TP_RST))?;
    ioe.set_output(Pin(ioe::TP_EN))?;
    ioe.set_output(Pin(ioe::TF_EN))
}

fn rails<P: I2cPort>(ioe: &mut Ioe1<P>) -> (res: Result<(), P::Error>)
    ensures
        final(ioe).bus.trace().extends(old(ioe).bus.trace()),
        forall|l: Trace<BusEvent<P::Error>>| l.extends(final(ioe).bus.trace()) ==> #[trigger]
            crate::i2c_reg::cursor(&old(ioe).bus).rails(l) == Run::Done(
                crate::i2c_reg::cursor(&final(ioe).bus),
                res,
            ),
{
    ioe.write(Pin(ioe::EPD_EN), true)?;
    ioe.write(Pin(ioe::TP_EN), true)?;
    ioe.write(Pin(ioe::TF_EN), false)
}

/// Bring up the e-paper and touch power/reset lines through the IOE1 and
/// perform the hardware reset sequence:
/// EPD_EN/TP_EN high (TF_EN stays low: the SD slot is unused and its rail
/// only costs current), 2 ms for the rails, then [`epd_hard_reset`].
///
/// The reset pulse is 10 ms low and 10 ms high. M5GFX gets by with 8 ms and
/// 2 ms; [`crate::ssd1677::Ssd1677::init`] asks for at least 10 ms each, which
/// both lines get here so that a panel reset this way can be initialised.
pub fn epd_power_on<P: I2cPort, D: Delay>(ioe: &mut Ioe1<P>, delay: &mut D) -> (res: Result<
    (),
    P::Error,
>)
    ensures
        final(ioe).bus.trace().extends(old(ioe).bus.trace()),
        forall|l: Trace<BusEvent<P::Error>>| l.extends(final(ioe).bus.trace()) ==> #[trigger]
            crate::i2c_reg::cursor(&old(ioe).bus).epd_power_on(l) == Run::Done(
                crate::i2c_reg::cursor(&final(ioe).bus),
                res,
            ),
{
    outputs(ioe)?;
    rails(ioe)?;
    crate::i2c_reg::pause_ms(&mut ioe.bus, delay, 2)?;
    epd_hard_reset(ioe, delay)
}

/// Power the ST25R3916 (Pro model only) via IOE1 NFC_EN.
pub fn nfc_power<P: I2cPort>(ioe: &mut Ioe1<P>, on: bool) -> (res: Result<(), P::Error>)
    ensures
        final(ioe).bus.trace().extends(old(ioe).bus.trace()),
        forall|l: Trace<BusEvent<P::Error>>| l.extends(final(ioe).bus.trace()) ==> #[trigger]
            crate::i2c_reg::cursor(&old(ioe).bus).nfc_power(l, on) == Run::Done(
                crate::i2c_reg::cursor(&final(ioe).bus),
                res,
            ),
{
    ioe.set_output(Pin(ioe::NFC_EN))?;
    ioe.write(Pin(ioe::NFC_EN), on)
}

/// Reset only the touch controller with FT6336-appropriate timing.
/// Call with TP_EN already high; the controller needs ~300 ms afterwards
/// before its registers are valid.
pub fn touch_reset<P: I2cPort, D: Delay>(ioe: &mut Ioe1<P>, delay: &mut D) -> (res: Result<
    (),
    P::Error,
>)
    ensures
        final(ioe).bus.trace().extends(old(ioe).bus.trace()),
        forall|l: Trace<BusEvent<P::Error>>| l.extends(final(ioe).bus.trace()) ==> #[trigger]
            crate::i2c_reg::cursor(&old(ioe).bus).touch_reset(l) == Run::Done(
                crate::i2c_reg::cursor(&final(ioe).bus),
                res,
            ),
{
    ioe.set_output(Pin(ioe::TP_RST))?;
    ioe.write(Pin(ioe::TP_RST), false)?;
    crate::i2c_reg::pause_ms(&mut ioe.bus, delay, 10)?;
    ioe.write(Pin(ioe::TP_RST), true)?;
    crate::i2c_reg::pause_ms(&mut ioe.bus, delay, 300)
}

/// Pulse EPD_RST (and TP_RST) low for 10 ms and wait 10 ms; required to leave
/// SSD1677 deep sleep.
pub fn epd_hard_reset<P: I2cPort, D: Delay>(ioe: &mut Ioe1<P>, delay: &mut D) -> (res: Result<
    (),
    P::Error,
>)
    ensures
        final(ioe).bus.trace().extends(old(ioe).bus.trace()),
        forall|l: Trace<BusEvent<P::Error>>| l.extends(final(ioe).bus.trace()) ==> #[trigger]
            crate::i2c_reg::cursor(&old(ioe).bus).epd_hard_reset(l) == Run::Done(
                crate::i2c_reg::cursor(&final(ioe).bus),
                res,
            ),
{
    reset_lines(ioe, false)?;
    crate::i2c_reg::pause_ms(&mut ioe.bus, delay, 10)?;
    reset_lines(ioe, true)?;
    crate::i2c_reg::pause_ms(&mut ioe.bus, delay, 10)
}

// ----------------------------------------------------------------------
// stages
// ----------------------------------------------------------------------

/// PM1/IOE1 left in 400 kHz mode: talk to them at 400 kHz just long enough to
/// clear their SPD bit. The caller switches the bus before and after.
pub fn recover_i2c_speed<P: I2cPort, D: Delay>(bus: &mut I2cBus<P>, delay: &mut D) -> (res: (
    Result<(), P::Error>,
    Result<(), P::Error>,
))
    ensures
        final(bus).trace().extends(old(bus).trace()),
        forall|l: Trace<BusEvent<P::Error>>| l.extends(final(bus).trace()) ==> #[trigger]
            crate::i2c_reg::cursor(old(bus)).clear_speed_bits(l) == Run::Done(
                crate::i2c_reg::cursor(final(bus)),
                Ok::<_, P::Error>(res),
            ),
{
    let r1 = crate::i2c_reg::write_u8(bus, crate::pm1::ADDR, crate::pm1::regs::I2C_CFG, 0x00);
    let r2 = crate::i2c_reg::write_u8(bus, crate::ioe1::ADDR, crate::ioe1::regs::I2C_CFG, 0x00);
    bus.pause_ms(delay, 10);
    (r1, r2)
}

fn voltages<P: I2cPort>(pm1: &mut Pm1<P>, hw: u8, sw: u8, source: u8) -> (report: PowerReport)
    ensures
        final(pm1).bus.trace().extends(old(pm1).bus.trace()),
        forall|l: Trace<BusEvent<P::Error>>| l.extends(final(pm1).bus.trace()) ==> #[trigger]
            crate::i2c_reg::cursor(&old(pm1).bus).voltages(l, hw, sw, source) == Run::Done(
                crate::i2c_reg::cursor(&final(pm1).bus),
                Ok::<_, P::Error>(report),
            ),
{
    let vbat = unwrap_or(pm1.battery_mv(), 0);
    let vin = unwrap_or(pm1.vin_mv(), 0);
    PowerReport { hw, sw, source, vbat, vin }
}

/// Start the PMIC and ask it about itself; what it does not answer reads as
/// zero (power source: 0xFF).
pub fn start_power<P: I2cPort, D: Delay>(pm1: &mut Pm1<P>, delay: &mut D) -> (res: Result<
    PowerReport,
    crate::pm1::Error<P::Error>,
>)
    ensures
        final(pm1).bus.trace().extends(old(pm1).bus.trace()),
        forall|l: Trace<BusEvent<P::Error>>| l.extends(final(pm1).bus.trace()) ==> #[trigger]
            crate::i2c_reg::cursor(&old(pm1).bus).start_power(l) == Run::Done(
                crate::i2c_reg::cursor(&final(pm1).bus),
                res,
            ),
{
    pm1.init(delay)?;
    let hw = unwrap_or(pm1.hw_rev(), 0);
    let sw = unwrap_or(pm1.sw_rev(), 0);
    let source = unwrap_or(pm1.power_source(), 0xFF);
    Ok(voltages(pm1, hw, sw, source))
}

fn lines<P: I2cPort, D: Delay>(
    ioe: &mut Ioe1<P>,
    delay: &mut D,
    found: Result<u16, crate::ioe1::Error<P::Error>>,
    rev: u8,
) -> (report: ExpanderReport<P::Error>)
    ensures
        final(ioe).bus.trace().extends(old(ioe).bus.trace()),
        forall|l: Trace<BusEvent<P::Error>>| l.extends(final(ioe).bus.trace()) ==> #[trigger]
            crate::i2c_reg::cursor(&old(ioe).bus).lines(l, found, rev) == Run::Done(
                crate::i2c_reg::cursor(&final(ioe).bus),
                Ok::<_, P::Error>(report),
            ),
{
    let epd_power = epd_power_on(ioe, delay);
    let nfc_power = nfc_power(ioe, true);
    ExpanderReport { found, rev, epd_power, nfc_power }
}

/// Start the IO expander, then EPD/TP/NFC power and reset.
pub fn start_expander<P: I2cPort, D: Delay>(ioe: &mut Ioe1<P>, delay: &mut D) -> (report:
    ExpanderReport<P::Error>)
    ensures
        final(ioe).bus.trace().extends(old(ioe).bus.trace()),
        forall|l: Trace<BusEvent<P::Error>>| l.extends(final(ioe).bus.trace()) ==> #[trigger]
            crate::i2c_reg::cursor(&old(ioe).bus).start_expander(l) == Run::Done(
                crate::i2c_reg::cursor(&final(ioe).bus),
                Ok::<_, P::Error>(report),
            ),
{
    let found = ioe.init(delay);
    let rev = match &found {
        Ok(_) => unwrap_or(ioe.rev(), 0),
        Err(_) => 0,
    };
    lines(ioe, delay, found, rev)
}

/// Probe the touch controller after [`touch_reset`]: chip and vendor ID.
pub fn start_touch<P: I2cPort, D: Delay>(touch: &mut Ft6336<P>, delay: &mut D) -> (res: Result<
    (u8, u8),
    P::Error,
>)
    ensures
        final(touch).bus.trace().extends(old(touch).bus.trace()),
        forall|l: Trace<BusEvent<P::Error>>| l.extends(final(touch).bus.trace()) ==> #[trigger]
            crate::i2c_reg::cursor(&old(touch).bus).start_touch(l) == Run::Done(
                crate::i2c_reg::cursor(&final(touch).bus),
                res,
            ),
{
    let id = touch.init(delay)?;
    let vendor = unwrap_or(touch.vendor_id(), 0);
    Ok((id, vendor))
}

fn nfc_details<P: I2cPort>(nfc: &mut St25r3916<P>) -> (res: Result<
    NfcReport,
    crate::st25r3916::Error<P::Error>,
>)
    ensures
        final(nfc).trace().extends(old(nfc).trace()),
        forall|l: Trace<BusEvent<P::Error>>| l.extends(final(nfc).trace()) ==> #[trigger]
            old(nfc).chip().nfc_details(l) == Run::Done(final(nfc).chip(), res),
{
    let (op_control, aux, regulator) = unwrap_or(nfc.status(), (0u8, 0u8, 0u8));
    let identity = unwrap_or(nfc.identity(), 0);
    Ok(NfcReport { identity, op_control, aux, regulator })
}

/// Start the NFC chip as a reader (Pro model only: an error also means that
/// there is none).
pub fn start_nfc<P: I2cPort, D: Delay>(nfc: &mut St25r3916<P>, delay: &mut D) -> (res: Result<
    NfcReport,
    crate::st25r3916::Error<P::Error>,
>)
    ensures
        final(nfc).trace().extends(old(nfc).trace()),
        forall|l: Trace<BusEvent<P::Error>>| l.extends(final(nfc).trace()) ==> #[trigger]
            old(nfc).chip().start_nfc(l) == Run::Done(final(nfc).chip(), res),
{
    crate::st25r3916::bus_result(nfc.pause_ms(delay, 50))?;
    nfc.init(delay)?;
    nfc.configure_nfca(delay)?;
    nfc_details(nfc)
}

/// Switch first PM1, then IOE1 to its 400 kHz mode; both have to agree before
/// the bus may follow. NFC tag emulation needs the bandwidth.
pub fn fast_devices<P: I2cPort, D: Delay>(bus: &mut I2cBus<P>, delay: &mut D) -> (res: (
    Result<(), P::Error>,
    Result<(), P::Error>,
))
    ensures
        final(bus).trace().extends(old(bus).trace()),
        forall|l: Trace<BusEvent<P::Error>>| l.extends(final(bus).trace()) ==> #[trigger]
            crate::i2c_reg::cursor(old(bus)).fast_devices(l) == Run::Done(
                crate::i2c_reg::cursor(final(bus)),
                Ok::<_, P::Error>(res),
            ),
{
    let a = crate::pm1::i2c_cfg(bus, delay, 0x10);
    let b = crate::ioe1::i2c_cfg(bus, delay, 0x10);
    (a, b)
}

/// The report on the power chip holds what each reading gave: revisions and
/// voltages of zero, and a source of 0xFF, stand for what could not be read.
pub proof fn the_power_is_reported<E>(c: Cursor, l: Trace<BusEvent<E>>)
    ensures
        c.pm1_init(l) matches Run::Done(d, Err(e)) ==> c.start_power(l) == Run::<
            Cursor,
            PowerReport,
            crate::pm1::Error<E>,
        >::Done(d, Err(e)),
        c.pm1_init(l) matches Run::Done(c0, Ok(_)) ==> (c0.read_u8::<E>(l, 0x6E, 0x02)
            matches Run::Done(c1, hw) ==> (c1.read_u8::<E>(l, 0x6E, 0x03) matches Run::Done(c2, sw)
            ==> (c2.pm1_power_source::<E>(l) matches Run::Done(c3, source) ==> (c3.pm1_battery::<E>(
            l,
            0,
            5,
        ) matches Run::Done(c4, vbat) ==> (c4.pm1_voltage::<E>(l, 0x24) matches Run::Done(c5, vin)
            ==> (c.start_power(l) matches Run::Done(d, Ok(report)) && d == c5 && report.hw == (
        if hw is Ok {
            hw->Ok_0
        } else {
            0
        }) && report.sw == (if sw is Ok {
            sw->Ok_0
        } else {
            0
        }) && report.source == (if source is Ok {
            source->Ok_0
        } else {
            0xFF
        }) && report.vbat == (if vbat is Ok {
            vbat->Ok_0
        } else {
            0
        }) && report.vin == (if vin is Ok {
            vin->Ok_0
        } else {
            0
        }))))))),
{
}

/// The report on the expander holds its identity or why there is none, its
/// revision (zero if unknown), and how powering display and reader went; both
/// are tried in any case.
pub proof fn the_expander_is_reported<E>(c: Cursor, l: Trace<BusEvent<E>>)
    ensures
        c.ioe1_init::<E>(l) matches Run::Done(d, found) ==> {
            &&& found is Ok ==> (d.read_u8::<E>(l, 0x4F, 0x02) matches Run::Done(f, rev)
                ==> (f.epd_power_on::<E>(l) matches Run::Done(g, epd) ==> (g.nfc_power::<E>(l, true)
                matches Run::Done(h, nfc) ==> c.start_expander(l) == Run::<
                Cursor,
                ExpanderReport<E>,
                E,
            >::Done(
                h,
                Ok(
                    ExpanderReport {
                        found,
                        rev: if rev is Ok {
                            rev->Ok_0
                        } else {
                            0
                        },
                        epd_power: epd,
                        nfc_power: nfc,
                    },
                ),
            ))))
            &&& found is Err ==> (d.epd_power_on::<E>(l) matches Run::Done(g, epd)
                ==> (g.nfc_power::<E>(l, true) matches Run::Done(h, nfc) ==> c.start_expander(l)
                == Run::<Cursor, ExpanderReport<E>, E>::Done(
                h,
                Ok(ExpanderReport { found, rev: 0, epd_power: epd, nfc_power: nfc }),
            )))
        },
{
}

/// The report on the touch controller: chip and vendor, the vendor zero if it
/// could not be read.
pub proof fn the_touch_is_reported<E>(c: Cursor, l: Trace<BusEvent<E>>)
    ensures
        c.ft6336_init(l) matches Run::Done(d, Ok(id)) ==> (d.read_u8::<E>(l, 0x38, 0xA8)
            matches Run::Done(f, vendor) ==> c.start_touch(l) == Run::<Cursor, (u8, u8), E>::Done(
            f,
            Ok(
                (
                    id,
                    if vendor is Ok {
                        vendor->Ok_0
                    } else {
                        0
                    },
                ),
            ),
        )),
        c.ft6336_init(l) matches Run::Done(d, Err(e)) ==> c.start_touch(l) == Run::<
            Cursor,
            (u8, u8),
            E,
        >::Done(d, Err(e)),
{
}

/// The reader chip gets 50 ms, is brought up and set up as a reader; then its
/// operation control, auxiliary display, regulator (in the second register
/// space) and identity registers are reported as they are read, zero where they cannot be.
pub proof fn the_reader_is_reported<E>(c: Chip, l: Trace<BusEvent<E>>)
    ensures
        l.at(c.at) == BusEvent::<E>::PauseMs(50) ==> {
            let c0 = Chip { at: c.at + 1, ..c };
            &&& c0.init(l) matches Run::Done(d, Err(e)) ==> c.start_nfc(l) == Run::<
                Chip,
                NfcReport,
                crate::st25r3916::Error<E>,
            >::Done(d, Err(e))
            &&& c0.init(l) matches Run::Done(c1, Ok(_)) ==> (c1.configure_nfca(l) matches Run::Done(
                c2,
                Ok(_),
            ) ==> (c2.read_reg::<E>(l, 0x02) matches Run::Done(c3, Ok(op)) ==> (c3.read_reg::<E>(
                l,
                0x31,
            ) matches Run::Done(c4, Ok(aux)) ==> (c4.read_prefixed::<E>(l, 0xFB, 0x2C) matches Run::Done(
                c5,
                Ok(regulator),
            ) ==> (c5.read_reg::<E>(l, 0x3F) matches Run::Done(c6, identity) ==> c.start_nfc(l)
                == Run::<Chip, NfcReport, crate::st25r3916::Error<E>>::Done(
                c6,
                Ok(
                    NfcReport {
                        identity: if identity is Ok {
                            identity->Ok_0
                        } else {
                            0
                        },
                        op_control: op,
                        aux,
                        regulator,
                    },
                ),
            ))))))
        },
{
}

} // verus!
