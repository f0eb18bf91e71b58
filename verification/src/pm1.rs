//! M5PM1 — M5Stack power-management IC driver (subset needed by PaperMono).
//!
//! Register map follows `m5stack/M5PM1` (`src/M5PM1.h`).
//!
//! Important quirks:
//! * The PM1 has an **I2C idle-sleep** (`I2C_CFG[3:0]`, seconds).  While asleep
//!   the first transaction is NACKed and only serves as a wake-up edge on SDA.
//!   [`Pm1::init`] therefore probes with retries and then disables the sleep.
//! * `PWR_CFG` and `HOLD_CFG` auto-clear on reset / download-mode events.

use crate::bus::{BusEvent, Delay, I2cBus, I2cPort};
use crate::bytes::le16_bytes;
use crate::i2c_reg::Cursor;
use crate::trace::{Run, Trace};
use vstd::prelude::*;

pub mod pwr_cfg;
pub mod regs;

verus! {

broadcast use crate::trace::extends_transitive;

pub const ADDR: u8 = 0x6E;

/// Expected value of registers 0x00..=0x01 (DEVICE_ID, DEVICE_MODEL), little endian.
pub const DEVICE_ID: u16 = 0x2050;

#[derive(Debug, Clone, Copy, PartialEq, Eq)]
pub enum Error<E> {
    I2c(E),
    /// Device did not answer with the expected ID after several wake attempts.
    NotFound,
}

/// The duty of a brightness.
pub open spec fn frontlight_duty(brightness: u8) -> int {
    brightness * brightness / 16
}

/// The two duty bytes for a brightness: off, or enabled with a 12-bit duty
/// that grows with the square of the brightness.
pub open spec fn frontlight_bytes(brightness: u8) -> Seq<u8> {
    if brightness == 0 {
        seq![0u8, 0u8]
    } else {
        let duty = frontlight_duty(brightness);
        seq![(duty % 256) as u8, ((duty / 256) as u8 & 0x0F) | 0x10]
    }
}

impl Cursor {
    /// Look for the device, at most `left` more times. A wrong ID counts as a
    /// miss after 5 ms; a failed read wakes the device and takes 10 ms.
    pub open spec fn pm1_find<E>(self, l: Trace<BusEvent<E>>, left: nat) -> Run<Cursor, bool, E>
        decreases left,
    {
        if left == 0 {
            self.done(false)
        } else {
            match self.read_u16_le(l, ADDR, regs::DEVICE_ID) {
                Run::Done(c, Ok(id)) => if id == DEVICE_ID {
                    c.done(true)
                } else {
                    match c.pause_ms::<E>(l, 5) {
                        Run::Done(c, _) => c.pm1_find(l, (left - 1) as nat),
                        Run::Off => Run::Off,
                    }
                },
                Run::Done(c, Err(_)) => match c.pm1_wake::<E>(l) {
                    Run::Done(c, _) => match c.pause_ms::<E>(l, 10) {
                        Run::Done(c, _) => c.pm1_find(l, (left - 1) as nat),
                        Run::Off => Run::Off,
                    },
                    Run::Off => Run::Off,
                },
                Run::Off => Run::Off,
            }
        }
    }

    /// A read whose outcome does not matter.
    pub open spec fn pm1_wake<E>(self, l: Trace<BusEvent<E>>) -> Run<Cursor, (), E> {
        match self.read(l, ADDR, regs::HW_REV, 1) {
            Run::Done(c, _) => c.done(()),
            Run::Off => Run::Off,
        }
    }

    pub open spec fn pm1_i2c_cfg<E>(self, l: Trace<BusEvent<E>>, cfg: u8) -> Run<Cursor, (), E> {
        self.write_u8(l, ADDR, regs::I2C_CFG, cfg).chain(|c: Cursor, _u: ()| c.pause_ms(l, 5))
    }

    /// I2C idle sleep off (written twice: the first write may land while the
    /// device is half asleep), watchdog off, power rails on.
    pub open spec fn pm1_configure<E>(self, l: Trace<BusEvent<E>>) -> Run<Cursor, (), E> {
        let rails = pwr_cfg::CHG_EN | pwr_cfg::DCDC_EN | pwr_cfg::LDO_EN | pwr_cfg::LED_EN_LEVEL;
        self.pm1_i2c_cfg(l, 0x00).chain(
            |c: Cursor, _u: ()|
                c.pm1_i2c_cfg(l, 0x00).chain(
                    |c: Cursor, _u: ()|
                        c.write_u8(l, ADDR, regs::WDT_CNT, 0x00).chain(
                            |c: Cursor, _u: ()|
                                c.update_u8(l, ADDR, regs::PWR_CFG, rails, rails),
                        ),
                ),
        )
    }

    pub open spec fn pm1_init<E>(self, l: Trace<BusEvent<E>>) -> Run<Cursor, (), Error<E>> {
        match self.pm1_find::<E>(l, 20) {
            Run::Done(c, Ok(found)) => if !found {
                Run::Done(c, Err(Error::NotFound))
            } else {
                match c.pm1_configure(l) {
                    Run::Done(c, Ok(_)) => Run::Done(c, Ok(())),
                    Run::Done(c, Err(e)) => Run::Done(c, Err(Error::I2c(e))),
                    Run::Off => Run::Off,
                }
            },
            Run::Done(c, Err(e)) => Run::Done(c, Err(Error::I2c(e))),
            Run::Off => Run::Off,
        }
    }

    pub open spec fn pm1_power_source<E>(self, l: Trace<BusEvent<E>>) -> Run<Cursor, u8, E> {
        self.read_u8(l, ADDR, regs::PWR_SRC).chain(|c: Cursor, v: u8| c.done(v & 0x07))
    }

    /// A voltage of 12 bits.
    pub open spec fn pm1_voltage<E>(self, l: Trace<BusEvent<E>>, reg: u8) -> Run<Cursor, u16, E> {
        self.read_u16_le(l, ADDR, reg).chain(|c: Cursor, v: u16| c.done(v & 0x0FFF))
    }

    /// The battery voltage, read at most `left` more times until it is
    /// plausible; the last one read.
    pub open spec fn pm1_battery<E>(self, l: Trace<BusEvent<E>>, v: u16, left: nat) -> Run<
        Cursor,
        u16,
        E,
    >
        decreases left,
    {
        if left == 0 {
            self.done(v)
        } else {
            match self.pm1_voltage(l, regs::VBAT_L) {
                Run::Done(c, Ok(v)) => if v >= 1000 {
                    c.done(v)
                } else {
                    c.pm1_battery(l, v, (left - 1) as nat)
                },
                Run::Done(c, Err(e)) => Run::Done(c, Err(e)),
                Run::Off => Run::Off,
            }
        }
    }

    pub open spec fn pm1_set_frontlight<E>(self, l: Trace<BusEvent<E>>, brightness: u8) -> Run<
        Cursor,
        (),
        E,
    > {
        self.write(l, ADDR, regs::PWM0_L, frontlight_bytes(brightness))
    }

    pub open spec fn pm1_set_led_en<E>(self, l: Trace<BusEvent<E>>, on: bool) -> Run<
        Cursor,
        (),
        E,
    > {
        self.update_u8(
            l,
            ADDR,
            regs::PWR_CFG,
            pwr_cfg::LED_EN_LEVEL,
            if on {
                pwr_cfg::LED_EN_LEVEL
            } else {
                0
            },
        )
    }

    /// GPIO3 push-pull, GPIO3 as PWM0, frequency, light off.
    pub open spec fn pm1_init_frontlight<E>(self, l: Trace<BusEvent<E>>, freq_hz: u16) -> Run<
        Cursor,
        (),
        E,
    > {
        self.update_u8(l, ADDR, regs::GPIO_DRV, 0x08, 0).chain(
            |c: Cursor, _u: ()|
                c.update_u8(l, ADDR, regs::GPIO_FUNC0, 0xC0, 0xC0).chain(
                    |c: Cursor, _u: ()|
                        c.write(l, ADDR, regs::PWM_FREQ_L, crate::bytes::le16(freq_hz)).chain(
                            |c: Cursor, _u: ()| c.pm1_set_frontlight(l, 0),
                        ),
                ),
        )
    }
}

impl<E> From<E> for Error<E> {
    fn from(e: E) -> (r: Self) {
        Error::I2c(e)
    }
}

impl<E> vstd::std_specs::convert::FromSpecImpl<E> for Error<E> {
    open spec fn obeys_from_spec() -> bool {
        true
    }

    open spec fn from_spec(e: E) -> Self {
        Error::I2c(e)
    }
}

fn i2c_result<T, E>(r: Result<T, E>) -> (res: Result<T, Error<E>>)
    ensures
        res == (match r {
            Ok(t) => Ok::<T, Error<E>>(t),
            Err(e) => Err(Error::I2c(e)),
        }),
{
    match r {
        Ok(t) => Ok(t),
        Err(e) => Err(Error::I2c(e)),
    }
}

pub struct Pm1<P: I2cPort> {
    pub bus: I2cBus<P>,
}

/// Configure the I2C block of the chip on this bus.
pub(crate) fn i2c_cfg<P: I2cPort, D: Delay>(bus: &mut I2cBus<P>, delay: &mut D, cfg: u8) -> (res:
    Result<(), P::Error>)
    ensures
        final(bus).trace().extends(old(bus).trace()),
        forall|l: Trace<BusEvent<P::Error>>| l.extends(final(bus).trace()) ==> #[trigger]
            crate::i2c_reg::cursor(old(bus)).pm1_i2c_cfg(l, cfg) == Run::Done(
                crate::i2c_reg::cursor(final(bus)),
                res,
            ),
{
    crate::i2c_reg::write_u8(bus, ADDR, regs::I2C_CFG, cfg)?;
    crate::i2c_reg::pause_ms(bus, delay, 5)
}

impl<P: I2cPort> Pm1<P> {
    pub fn new(i2c: P) -> (pm1: Self)
        ensures
            pm1.bus.trace() == Trace::<BusEvent<P::Error>>::empty(),
            pm1.bus.port() == i2c,
    {
        Pm1 { bus: I2cBus::new(i2c) }
    }

    pub fn release(self) -> (i2c: P)
        ensures
            i2c == self.bus.port(),
    {
        self.bus.release()
    }

    /// Generate a START on the bus to pull the PM1 out of I2C idle-sleep.
    /// Errors (NACK) are expected and ignored.
    pub fn wake(&mut self)
        ensures
            final(self).bus.trace().extends(old(self).bus.trace()),
            forall|l: Trace<BusEvent<P::Error>>| l.extends(final(self).bus.trace()) ==> #[trigger]
                crate::i2c_reg::cursor(&old(self).bus).pm1_wake(l) == Run::Done(
                    crate::i2c_reg::cursor(&final(self).bus),
                    Ok::<(), P::Error>(()),
                ),
    {
        let mut dummy = [0u8; 1];
        let _ = crate::i2c_reg::read(&mut self.bus, ADDR, regs::HW_REV, &mut dummy);
    }

    fn find<D: Delay>(&mut self, delay: &mut D) -> (found: bool)
        ensures
            final(self).bus.trace().extends(old(self).bus.trace()),
            forall|l: Trace<BusEvent<P::Error>>| l.extends(final(self).bus.trace()) ==> #[trigger]
                crate::i2c_reg::cursor(&old(self).bus).pm1_find(l, 20) == Run::Done(
                    crate::i2c_reg::cursor(&final(self).bus),
                    Ok::<bool, P::Error>(found),
                ),
    {
        let mut tries: u8 = 0;
        while tries < 20
            invariant
                tries <= 20,
                self.bus.trace().extends(old(self).bus.trace()),
                forall|l: Trace<BusEvent<P::Error>>|
                    l.extends(self.bus.trace()) ==> #[trigger] crate::i2c_reg::cursor(
                        &old(self).bus,
                    ).pm1_find(l, 20) == crate::i2c_reg::cursor(&self.bus).pm1_find(
                        l,
                        (20 - tries) as nat,
                    ),
            decreases 20 - tries,
        {
            match crate::i2c_reg::read_u16_le(&mut self.bus, ADDR, regs::DEVICE_ID) {
                Ok(id) => {
                    if id == DEVICE_ID {
                        return true;
                    }
                    // Wrong ID: some firmware revisions answer garbage right
                    // after wake.
                    self.bus.pause_ms(delay, 5);
                },
                Err(_) => {
                    self.wake();
                    self.bus.pause_ms(delay, 10);
                },
            }
            tries += 1;
        }
        false
    }

    fn i2c_cfg<D: Delay>(&mut self, delay: &mut D, cfg: u8) -> (res: Result<(), P::Error>)
        ensures
            final(self).bus.trace().extends(old(self).bus.trace()),
            forall|l: Trace<BusEvent<P::Error>>| l.extends(final(self).bus.trace()) ==> #[trigger]
                crate::i2c_reg::cursor(&old(self).bus).pm1_i2c_cfg(l, cfg) == Run::Done(
                    crate::i2c_reg::cursor(&final(self).bus),
                    res,
                ),
    {
        i2c_cfg(&mut self.bus, delay, cfg)
    }

    fn configure<D: Delay>(&mut self, delay: &mut D) -> (res: Result<(), P::Error>)
        ensures
            final(self).bus.trace().extends(old(self).bus.trace()),
            forall|l: Trace<BusEvent<P::Error>>| l.extends(final(self).bus.trace()) ==> #[trigger]
                crate::i2c_reg::cursor(&old(self).bus).pm1_configure(l) == Run::Done(
                    crate::i2c_reg::cursor(&final(self).bus),
                    res,
                ),
    {
        self.i2c_cfg(delay, 0x00)?;
        self.i2c_cfg(delay, 0x00)?;
        crate::i2c_reg::write_u8(&mut self.bus, ADDR, regs::WDT_CNT, 0x00)?;
        crate::i2c_reg::set_bits(
            &mut self.bus,
            ADDR,
            regs::PWR_CFG,
            pwr_cfg::CHG_EN | pwr_cfg::DCDC_EN | pwr_cfg::LDO_EN | pwr_cfg::LED_EN_LEVEL,
        )
    }

    /// Probe the chip (with wake-up retries), then apply the PaperMono
    /// baseline configuration used by M5GFX / the factory firmware:
    /// * I2C idle-sleep disabled
    /// * watchdog disabled
    /// * LED_EN level / LDO 3.3V / DCDC 5V / charging enabled
    pub fn init<D: Delay>(&mut self, delay: &mut D) -> (res: Result<(), Error<P::Error>>)
        ensures
            final(self).bus.trace().extends(old(self).bus.trace()),
            forall|l: Trace<BusEvent<P::Error>>| l.extends(final(self).bus.trace()) ==> #[trigger]
                crate::i2c_reg::cursor(&old(self).bus).pm1_init(l) == Run::Done(
                    crate::i2c_reg::cursor(&final(self).bus),
                    res,
                ),
    {
        if !self.find(delay) {
            return Err(Error::NotFound);
        }
        i2c_result(self.configure(delay))
    }

    /// Switch the PM1's I2C interface to 400 kHz (keeps idle-sleep disabled).
    /// Change the bus frequency only after this returns.
    pub fn set_i2c_400k<D: Delay>(&mut self, delay: &mut D) -> (res: Result<(), P::Error>)
        ensures
            final(self).bus.trace().extends(old(self).bus.trace()),
            forall|l: Trace<BusEvent<P::Error>>| l.extends(final(self).bus.trace()) ==> #[trigger]
                crate::i2c_reg::cursor(&old(self).bus).pm1_i2c_cfg(l, 0x10) == Run::Done(
                    crate::i2c_reg::cursor(&final(self).bus),
                    res,
                ),
    {
        self.i2c_cfg(delay, 0x10)
    }

    pub fn hw_rev(&mut self) -> (res: Result<u8, P::Error>)
        ensures
            final(self).bus.trace().extends(old(self).bus.trace()),
            forall|l: Trace<BusEvent<P::Error>>| l.extends(final(self).bus.trace()) ==> #[trigger]
                crate::i2c_reg::cursor(&old(self).bus).read_u8(l, ADDR, regs::HW_REV) == Run::Done(
                    crate::i2c_reg::cursor(&final(self).bus),
                    res,
                ),
    {
        crate::i2c_reg::read_u8(&mut self.bus, ADDR, regs::HW_REV)
    }

    pub fn sw_rev(&mut self) -> (res: Result<u8, P::Error>)
        ensures
            final(self).bus.trace().extends(old(self).bus.trace()),
            forall|l: Trace<BusEvent<P::Error>>| l.extends(final(self).bus.trace()) ==> #[trigger]
                crate::i2c_reg::cursor(&old(self).bus).read_u8(l, ADDR, regs::SW_REV) == Run::Done(
                    crate::i2c_reg::cursor(&final(self).bus),
                    res,
                ),
    {
        crate::i2c_reg::read_u8(&mut self.bus, ADDR, regs::SW_REV)
    }

    /// Current power source: 0 = 5VIN (USB), 1 = 5VINOUT, 2 = battery.
    pub fn power_source(&mut self) -> (res: Result<u8, P::Error>)
        ensures
            final(self).bus.trace().extends(old(self).bus.trace()),
            forall|l: Trace<BusEvent<P::Error>>| l.extends(final(self).bus.trace()) ==> #[trigger]
                crate::i2c_reg::cursor(&old(self).bus).pm1_power_source(l) == Run::Done(
                    crate::i2c_reg::cursor(&final(self).bus),
                    res,
                ),
    {
        let v = crate::i2c_reg::read_u8(&mut self.bus, ADDR, regs::PWR_SRC)?;
        Ok(v & 0x07)
    }

    fn voltage(&mut self, reg: u8) -> (res: Result<u16, P::Error>)
        ensures
            final(self).bus.trace().extends(old(self).bus.trace()),
            forall|l: Trace<BusEvent<P::Error>>| l.extends(final(self).bus.trace()) ==> #[trigger]
                crate::i2c_reg::cursor(&old(self).bus).pm1_voltage(l, reg) == Run::Done(
                    crate::i2c_reg::cursor(&final(self).bus),
                    res,
                ),
    {
        let v = crate::i2c_reg::read_u16_le(&mut self.bus, ADDR, reg)?;
        Ok(v & 0x0FFF)
    }

    /// Battery voltage in millivolts (12-bit value).
    ///
    /// Right after PM1 wake-up the ADC sometimes returns a bogus low value
    /// (tens of mV observed); retry a few times until it looks plausible.
    pub fn battery_mv(&mut self) -> (res: Result<u16, P::Error>)
        ensures
            final(self).bus.trace().extends(old(self).bus.trace()),
            forall|l: Trace<BusEvent<P::Error>>| l.extends(final(self).bus.trace()) ==> #[trigger]
                crate::i2c_reg::cursor(&old(self).bus).pm1_battery(l, 0, 5) == Run::Done(
                    crate::i2c_reg::cursor(&final(self).bus),
                    res,
                ),
    {
        let mut v: u16 = 0;
        let mut tries: u8 = 0;
        while tries < 5
            invariant
                tries <= 5,
                self.bus.trace().extends(old(self).bus.trace()),
                forall|l: Trace<BusEvent<P::Error>>|
                    l.extends(self.bus.trace()) ==> #[trigger] crate::i2c_reg::cursor(
                        &old(self).bus,
                    ).pm1_battery(l, 0, 5) == crate::i2c_reg::cursor(&self.bus).pm1_battery(
                        l,
                        v,
                        (5 - tries) as nat,
                    ),
            decreases 5 - tries,
        {
            v = self.voltage(regs::VBAT_L)?;
            if v >= 1000 {
                return Ok(v);
            }
            tries += 1;
        }
        Ok(v)
    }

    /// VIN (USB) voltage in millivolts.
    pub fn vin_mv(&mut self) -> (res: Result<u16, P::Error>)
        ensures
            final(self).bus.trace().extends(old(self).bus.trace()),
            forall|l: Trace<BusEvent<P::Error>>| l.extends(final(self).bus.trace()) ==> #[trigger]
                crate::i2c_reg::cursor(&old(self).bus).pm1_voltage(l, regs::VIN_L) == Run::Done(
                    crate::i2c_reg::cursor(&final(self).bus),
                    res,
                ),
    {
        self.voltage(regs::VIN_L)
    }

    /// Configure GPIO3 as PWM0 output for the e-paper front light and set the
    /// PWM frequency (Hz). Call once before [`Self::set_frontlight`].
    pub fn init_frontlight(&mut self, freq_hz: u16) -> (res: Result<(), P::Error>)
        ensures
            final(self).bus.trace().extends(old(self).bus.trace()),
            forall|l: Trace<BusEvent<P::Error>>| l.extends(final(self).bus.trace()) ==> #[trigger]
                crate::i2c_reg::cursor(&old(self).bus).pm1_init_frontlight(l, freq_hz) == Run::Done(
                    crate::i2c_reg::cursor(&final(self).bus),
                    res,
                ),
    {
        crate::i2c_reg::clear_bits(&mut self.bus, ADDR, regs::GPIO_DRV, 0x08)?;
        crate::i2c_reg::set_bits(&mut self.bus, ADDR, regs::GPIO_FUNC0, 0xC0)?;
        crate::i2c_reg::write(&mut self.bus, ADDR, regs::PWM_FREQ_L, &le16_bytes(freq_hz))?;
        self.set_frontlight(0)
    }

    /// Front light brightness 0..=255 (gamma ~2 like M5GFX; 0 = off).
    pub fn set_frontlight(&mut self, brightness: u8) -> (res: Result<(), P::Error>)
        ensures
            final(self).bus.trace().extends(old(self).bus.trace()),
            forall|l: Trace<BusEvent<P::Error>>| l.extends(final(self).bus.trace()) ==> #[trigger]
                crate::i2c_reg::cursor(&old(self).bus).pm1_set_frontlight(
                    l,
                    brightness,
                ) == Run::Done(
                    crate::i2c_reg::cursor(&final(self).bus),
                    res,
                ),
    {
        if brightness == 0 {
            let off = [0u8, 0u8];
            assert(off@ =~= seq![0u8, 0u8]);
            return crate::i2c_reg::write(&mut self.bus, ADDR, regs::PWM0_L, &off);
        }
        let b = brightness as u32;
        assert(b * b <= 65025) by (nonlinear_arith)
            requires
                b <= 255,
        ;
        // 12-bit duty
        let duty = b * b / 16;
        // bit4 = enable
        let data = [(duty % 256) as u8, ((duty / 256) as u8 & 0x0F) | 0x10];
        assert(data@ =~= frontlight_bytes(brightness));
        crate::i2c_reg::write(&mut self.bus, ADDR, regs::PWM0_L, &data)
    }

    /// Drive the LED_EN pin (red LED on PaperMono) high/low via PWR_CFG[4].
    pub fn set_led_en(&mut self, on: bool) -> (res: Result<(), P::Error>)
        ensures
            final(self).bus.trace().extends(old(self).bus.trace()),
            forall|l: Trace<BusEvent<P::Error>>| l.extends(final(self).bus.trace()) ==> #[trigger]
                crate::i2c_reg::cursor(&old(self).bus).pm1_set_led_en(l, on) == Run::Done(
                    crate::i2c_reg::cursor(&final(self).bus),
                    res,
                ),
    {
        crate::i2c_reg::update_u8(
            &mut self.bus,
            ADDR,
            regs::PWR_CFG,
            pwr_cfg::LED_EN_LEVEL,
            if on {
                pwr_cfg::LED_EN_LEVEL
            } else {
                0
            },
        )
    }

    /// Power the whole device off (only meaningful on battery; on USB the
    /// PM1 stays powered and may reboot immediately).
    pub fn shutdown(&mut self) -> (res: Result<(), P::Error>)
        ensures
            final(self).bus.trace().extends(old(self).bus.trace()),
            forall|l: Trace<BusEvent<P::Error>>| l.extends(final(self).bus.trace()) ==> #[trigger]
                crate::i2c_reg::cursor(&old(self).bus).write_u8(
                    l,
                    ADDR,
                    regs::SYS_CMD,
                    0xA1,
                ) == Run::Done(
                    crate::i2c_reg::cursor(&final(self).bus),
                    res,
                ),
    {
        crate::i2c_reg::write_u8(&mut self.bus, ADDR, regs::SYS_CMD, 0xA1)
    }
}

/// The duty fits twelve bits, and more brightness is never less light.
pub proof fn brighter_is_never_darker(a: u8, b: u8)
    requires
        a <= b,
    ensures
        0 <= frontlight_duty(a) <= frontlight_duty(b) <= 0xFFF,
{
    assert(0 <= a * a <= b * b <= 255 * 255) by (nonlinear_arith)
        requires
            0 <= a <= b <= 255,
    ;
}

/// The light is off, or on with a sixteenth of the square of its brightness in
/// twelve bits, low byte first, and the enable bit above them.
pub proof fn light_goes_with_the_square(brightness: u8)
    ensures
        ({
            let b = frontlight_bytes(brightness);
            &&& b.len() == 2
            &&& brightness == 0 ==> b[0] == 0 && b[1] == 0
            &&& brightness > 0 ==> b[0] + 256 * (b[1] - 16) == brightness * brightness / 16
        }),
{
    brighter_is_never_darker(brightness, 255);
    let high = (frontlight_duty(brightness) / 256) as u8;
    assert(high < 16 ==> (high & 0x0F) | 0x10 == high + 16) by (bit_vector);
}

/// What the chip says of itself: its power source in three bits, voltages in
/// twelve, low byte first.
pub proof fn readings_are_taken<E>(c: Cursor, l: Trace<BusEvent<E>>, reg: u8)
    ensures
        c.pm1_power_source(l) matches Run::Done(d, Ok(s)) ==> (l.at(c.at) matches BusEvent::Read {
            addr,
            sent,
            asked,
            reply,
        } && addr == 0x6E && sent == seq![0x04u8] && asked == 1 && (reply matches Ok(b) && s == b[0]
            % 8)),
        c.pm1_voltage(l, reg) matches Run::Done(d, Ok(mv)) ==> (l.at(c.at) matches BusEvent::Read {
            addr,
            sent,
            asked,
            reply,
        } && addr == 0x6E && sent == seq![reg] && asked == 2 && (reply matches Ok(b) && mv == b[0]
            + 256 * (b[1] % 16))),
{
    match c.read_u8(l, 0x6E, 0x04) {
        Run::Done(_, Ok(v)) => crate::bits::low_bits_are_remainders(v),
        _ => {},
    }
    match c.read(l, 0x6E, reg, 2) {
        Run::Done(_, Ok(b)) => {
            crate::bytes::words_are_sums(0, 0, b[1], b[0]);
            let w = crate::bytes::word(b[1], b[0]);
            assert(w & 0x0FFF == w % 0x1000) by (bit_vector);
        },
        _ => {},
    }
}

/// The battery is read up to five times until it shows at least a volt; the
/// last reading counts.
pub proof fn the_battery_is_read_again<E>(c: Cursor, l: Trace<BusEvent<E>>, v: u16, left: nat)
    ensures
        c.pm1_battery(l, v, 0) == Run::<Cursor, u16, E>::Done(c, Ok(v)),
        left > 0 ==> {
            &&& c.pm1_voltage(l, 0x22) matches Run::Done(d, Ok(mv)) ==> c.pm1_battery(l, v, left)
                == if mv >= 1000 {
                Run::<Cursor, u16, E>::Done(d, Ok(mv))
            } else {
                d.pm1_battery(l, mv, (left - 1) as nat)
            }
            &&& c.pm1_voltage(l, 0x22) matches Run::Done(d, Err(e)) ==> c.pm1_battery(l, v, left)
                == Run::<Cursor, u16, E>::Done(d, Err(e))
        },
{
}

/// The chip is found by its identity, 0x50 0x20: a wrong one is looked at again
/// after 5 ms, and a chip that does not answer is woken with a read and given
/// 10 ms, up to twenty times; only then it is configured.
pub proof fn the_chip_is_looked_for<E>(c: Cursor, l: Trace<BusEvent<E>>, left: nat)
    ensures
        c.pm1_find(l, 0) == Run::<Cursor, bool, E>::Done(c, Ok(false)),
        left > 0 ==> (c.read(l, 0x6E, 0x00, 2) matches Run::Done(d, Ok(b)) ==> {
            let right = b[0] == 0x50 && b[1] == 0x20;
            &&& right ==> c.pm1_find(l, left) == Run::<Cursor, bool, E>::Done(d, Ok(true))
            &&& !right && l.at(d.at) == BusEvent::<E>::PauseMs(5) ==> c.pm1_find(l, left)
                == (Cursor { at: d.at + 1 }).pm1_find(l, (left - 1) as nat)
        }),
        left > 0 ==> (c.read(l, 0x6E, 0x00, 2) matches Run::Done(d, Err(_)) ==> (d.read::<E>(
            l,
            0x6E,
            0x02,
            1,
        ) matches Run::Done(f, _) ==> (l.at(f.at) == BusEvent::<E>::PauseMs(10) ==> c.pm1_find(l, left)
            == (Cursor { at: f.at + 1 }).pm1_find(l, (left - 1) as nat)))),
        c.pm1_find::<E>(l, 20) matches Run::Done(d, Ok(false)) ==> c.pm1_init(l) == Run::<
            Cursor,
            (),
            Error<E>,
        >::Done(d, Err(Error::NotFound)),
        c.pm1_find::<E>(l, 20) matches Run::Done(d, Ok(true)) ==> {
            &&& d.pm1_configure(l) matches Run::Done(f, Ok(_)) ==> c.pm1_init(l) == Run::<
                Cursor,
                (),
                Error<E>,
            >::Done(f, Ok(()))
            &&& d.pm1_configure(l) matches Run::Done(f, Err(e)) ==> c.pm1_init(l) == Run::<
                Cursor,
                (),
                Error<E>,
            >::Done(f, Err(Error::I2c(e)))
        },
{
    match c.read(l, 0x6E, 0x00, 2) {
        Run::Done(_, Ok(b)) => crate::bytes::words_are_sums(0, 0, b[1], b[0]),
        _ => {},
    }
}

} // verus!
