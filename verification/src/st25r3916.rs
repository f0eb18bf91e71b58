//! ST25R3916 NFC reader driver (I2C, polling) — ISO14443A (NFC-A) UID reading.
//!
//! * chip bring-up (oscillator, regulators, analog settings) for a 3.3 V I2C
//!   setup, following the sequence used by M5Unit-NFC / ST RFAL
//! * field on/off
//! * REQA / WUPA, cascade anticollision (levels 1..3) and SELECT → UID + SAK
//! * generic `transceive` for higher layers (Type 2 READ etc.)
//!
//! Interrupts are polled through the interrupt registers; the IRQ pin is not
//! required.
//!
//! ## I2C framing
//! First byte after the address selects the operation:
//! `00aa_aaaa` write register, `01aa_aaaa` read register, `0x80` load FIFO,
//! `0x9F` read FIFO, `11cc_cccc` direct command. Space-B registers are
//! addressed by prefixing `0xFB`; test registers by `0xFC`.
//!
//! What each function does on the bus, and what it returns for each answer,
//! is stated by replaying the functions of [`model::Chip`], see
//! [`crate::trace`].

use crate::bus::{BusEvent, Delay, I2cBus, I2cPort};
use crate::bytes::{be16_bytes, be32_bytes, join16, join32, splice};
use crate::trace::{Run, Trace};
use vstd::prelude::*;

pub mod air;
pub mod cmd;
pub mod control;
pub mod held;
pub mod irq;
pub mod laws;
pub mod model;
pub mod reg;

use model::{Chip, LevelModel, TagModel};

verus! {

broadcast use crate::trace::extends_transitive;

pub const ADDR: u8 = 0x50;

pub const IC_TYPE_ST25R3916: u8 = 0x05;

pub const FIFO_DEPTH: usize = 512;

/// OP_CONTROL: oscillator and regulators on.
pub const EN: u8 = 0x80;

/// OP_CONTROL: receiver on.
pub const RX_EN: u8 = 0x40;

/// OP_CONTROL: transmitter on.
pub const TX_EN: u8 = 0x08;

/// OP_CONTROL: wake-up mode.
pub const WU: u8 = 0x04;

#[derive(Debug, Clone, Copy, PartialEq, Eq)]
pub enum Error<E> {
    I2c(E),
    /// IC identity register did not report an ST25R3916.
    NotFound { identity: u8 },
    /// Oscillator did not report stable.
    Oscillator,
    /// No response within the timeout.
    Timeout,
    /// Receive error flagged by the chip (CRC / parity / framing).
    RxError(u32),
    /// Unexpected frame length/content.
    Protocol,
    /// Anticollision did not converge.
    Collision,
}

impl<E> From<E> for Error<E> {
    fn from(e: E) -> (r: Self) {
        Error::I2c(e)
    }
}

impl<E> vstd::std_specs::convert::FromSpecImpl<E> for Error<E> {
    open spec fn obeys_from_spec() -> bool {
        true
    }

    open spec fn from_spec(e: E) -> Self {
        Error::I2c(e)
    }
}

/// A bus failure as a driver error.
pub fn bus_result<T, E>(r: Result<T, E>) -> (res: Result<T, Error<E>>)
    ensures
        res == (match r {
            Ok(t) => Ok::<T, Error<E>>(t),
            Err(e) => Err(Error::I2c(e)),
        }),
{
    match r {
        Ok(t) => Ok(t),
        Err(e) => Err(Error::I2c(e)),
    }
}

/// The bytes in a buffer after an access that fills it.
pub open spec fn filled<E>(res: Result<(), E>, buf: Seq<u8>) -> Result<Seq<u8>, E> {
    match res {
        Ok(_) => Ok(buf),
        Err(e) => Err(e),
    }
}

/// Result of a successful NFC-A activation.
#[derive(Debug, Clone, Copy, PartialEq, Eq, Default)]
pub struct NfcaTag {
    pub atqa: u16,
    pub uid: [u8; 10],
    pub uid_len: u8,
    pub sak: u8,
}

impl View for NfcaTag {
    type V = TagModel;

    open spec fn view(&self) -> TagModel {
        TagModel { atqa: self.atqa, uid: self.uid@, uid_len: self.uid_len as int, sak: self.sak }
    }
}

impl NfcaTag {
    /// The UID fits the tag.
    pub open spec fn wf(&self) -> bool {
        self.uid_len <= 10
    }

    pub fn uid(&self) -> (uid: &[u8])
        requires
            self.wf(),
        ensures
            uid@ == self.uid@.take(self.uid_len as int),
    {
        vstd::slice::slice_subrange(self.uid.as_slice(), 0, self.uid_len as usize)
    }

    /// SAK bit 6 set → ISO14443-4 compliant (e.g. DESFire, smartphones).
    pub fn is_iso14443_4(&self) -> (yes: bool)
        ensures
            yes == (self.sak & 0x20 != 0),
    {
        self.sak & 0x20 != 0
    }

    /// Random (per-activation) UID, as used by smartphones: 4-byte UID
    /// starting with 0x08. Such UIDs change on every activation, so identity
    /// comparisons across polls are meaningless.
    pub fn has_random_uid(&self) -> (yes: bool)
        ensures
            yes == (self.uid_len == 4 && self.uid@[0] == 0x08),
    {
        self.uid_len == 4 && self.uid[0] == 0x08
    }
}

/// One step of a register script.
#[derive(Clone, Copy)]
pub enum Step {
    Command(u8),
    Write(u8, u8),
    /// Two registers in a row.
    WritePair(u8, u8, u8),
    /// Read, clear bits, set bits, write back if that changes anything.
    Modify { reg: u8, clear: u8, set: u8 },
    /// Space B.
    WriteB(u8, u8),
    /// Test space.
    WriteTest(u8, u8),
    IrqMask(u32),
    ClearIrq,
    PauseMs(u32),
}

/// Does the identity register report an ST25R3916, of any revision but zero?
pub open spec fn is_st25r3916(identity: u8) -> bool {
    (identity >> 3) & 0x1F == IC_TYPE_ST25R3916 && identity & 0x07 != 0
}

/// FIFO status registers as bytes and extra bits.
pub open spec fn fifo_count(s1: u8, s2: u8) -> (u16, u8) {
    (s1 as u16 | (((s2 & 0xC0) as u16) << 2), (s2 >> 1) & 0x07)
}

/// Ticks of the no-response timer for `ms` milliseconds: one tick is 64
/// (coarse: 4096) periods of 13.56 MHz, rounded up, within what fits.
pub open spec fn fwt_ticks(ms: u32, coarse: bool) -> u16 {
    let per = if coarse {
        4_096_000int
    } else {
        64_000int
    };
    let ticks = (ms * 13_560_000 + per - 1) / per;
    if ticks < 1 {
        1
    } else if ticks > 0xFFFF {
        0xFFFF
    } else {
        ticks as u16
    }
}

/// No answer: an error if the chip flagged one, else a timeout.
pub open spec fn silence<E>(flags: u32) -> Error<E> {
    if flags & irq::ERROR_MASK != 0 {
        Error::RxError(flags)
    } else {
        Error::Timeout
    }
}

/// The SEL byte of a cascade level.
pub open spec fn sel_code(lv: int) -> u8 {
    (0x91 + lv * 2) as u8
}

pub open spec fn init_steps() -> Seq<Step> {
    seq![
        // Defensive stop of anything left running.
        Step::Command(cmd::STOP_ALL),
        Step::Modify { reg: reg::OP_CONTROL, clear: TX_EN | RX_EN, set: 0 },
        Step::PauseMs(2),
        Step::Command(cmd::SET_DEFAULT),
        // Overheat-protection workaround.
        Step::WriteTest(0x04, 0x10),
        // I2C thd for 400 kHz; io_drv_lvl; 3.3 V supply.
        Step::WritePair(reg::IO_CONF1, 0x10, 0x84),
        // AM modulation index code 13.
        Step::Write(reg::TX_DRIVER, 0xD0),
        // MCU_CLK disabled.
        Step::Modify { reg: reg::IO_CONF1, clear: 0x07, set: 0x07 },
        // AAT DAC enable dance.
        Step::WriteB(reg::B_RES_AM_MOD, 0x80),
        Step::Modify { reg: reg::IO_CONF2, clear: 0, set: 0x20 },
        Step::WriteB(reg::B_RES_AM_MOD, 0x00),
        // External field detector thresholds.
        Step::Write(reg::FIELD_THRESHOLD_ACT, 0x13),
        Step::Write(reg::FIELD_THRESHOLD_DEACT, 0x02),
        // FDT correction.
        Step::Modify { reg: reg::NFCIP1_PASSIVE_TARGET, clear: 0xF0, set: 0x50 },
        Step::Write(reg::PT_MOD, 0x5F),
        Step::WriteB(reg::B_EMD_SUP_CONF, 0x40),
        Step::Write(reg::ANT_TUNE_A, 0x82),
        Step::Write(reg::ANT_TUNE_B, 0x82),
        // External field detector off: pure reader, field controlled by tx_en.
        Step::Modify { reg: reg::OP_CONTROL, clear: 0x03, set: 0 },
        Step::Command(cmd::CLEAR_FIFO),
        // Everything masked except the error group.
        Step::IrqMask(0xFFFF_00FF),
        Step::ClearIrq,
    ]
}

/// With the interrupt of the oscillator unmasked, start it.
pub open spec fn osc_start_steps() -> Seq<Step> {
    seq![
        Step::Modify { reg: reg::IRQ_MASK_MAIN, clear: 0x80, set: 0 },
        Step::ClearIrq,
        Step::Modify { reg: reg::OP_CONTROL, clear: 0, set: EN },
    ]
}

pub open spec fn ready_steps() -> Seq<Step> {
    seq![Step::IrqMask(0), Step::Command(cmd::ADJUST_REGULATORS), Step::PauseMs(5)]
}

/// Everything of the NFC-A configuration but the field.
pub open spec fn nfca_steps() -> Seq<Step> {
    seq![
        Step::Command(cmd::STOP_ALL),
        Step::Modify { reg: reg::OP_CONTROL, clear: WU, set: 0 },
        // initiator, ISO14443A, nfc_ar auto
        Step::Write(reg::MODE, 0x09),
        // 106/106
        Step::Write(reg::BIT_RATE, 0x00),
        Step::Write(reg::ISO14443A_NFC, 0x00),
        // correlator on
        Step::Modify { reg: reg::AUX, clear: 0x04, set: 0 },
        Step::WriteB(reg::B_OVERSHOOT_CONF1, 0x40),
        Step::WriteB(reg::B_OVERSHOOT_CONF2, 0x03),
        Step::WriteB(reg::B_UNDERSHOOT_CONF1, 0x40),
        Step::WriteB(reg::B_UNDERSHOOT_CONF2, 0x03),
        Step::WriteB(reg::B_CORR_CONF1, 0x47),
        Step::WriteB(reg::B_CORR_CONF2, 0x00),
        // z_600k
        Step::Write(reg::RX_CONF1, 0x08),
        // sqm_dyn, agc_en, agc_m, agc6_3
        Step::Write(reg::RX_CONF2, 0x2D),
        Step::Write(reg::RX_CONF3, 0xD8),
        Step::Write(reg::RX_CONF4, 0x22),
        Step::Command(cmd::RESET_RX_GAIN),
        Step::IrqMask(0),
    ]
}

/// External field detector off, transmitter and receiver on, and the guard
/// time before the first REQA.
pub open spec fn field_on_steps() -> Seq<Step> {
    seq![
        Step::Modify { reg: reg::OP_CONTROL, clear: 0x03, set: 0 },
        Step::Modify { reg: reg::OP_CONTROL, clear: 0, set: TX_EN | RX_EN },
        Step::PauseMs(6),
    ]
}

pub open spec fn field_ca_steps() -> Seq<Step> {
    seq![
        Step::Modify { reg: reg::OP_CONTROL, clear: TX_EN | RX_EN, set: 0 },
        // manual collision avoidance
        Step::Modify { reg: reg::OP_CONTROL, clear: 0x03, set: 0x01 },
        // field-on guard timer
        Step::WriteB(0x15, 0x00),
        Step::ClearIrq,
        Step::Command(cmd::INITIAL_RF_COLLISION),
    ]
}

pub open spec fn field_ca_end_steps() -> Seq<Step> {
    seq![
        Step::Modify { reg: reg::OP_CONTROL, clear: 0, set: TX_EN | RX_EN },
        Step::PauseMs(6),
    ]
}

/// The driver: the bus and the interrupt flags remembered between calls.
pub struct St25r3916<P: I2cPort> {
    pub bus: I2cBus<P>,
    /// Interrupt flags read from the chip but not yet consumed.
    pub pending_irq: u32,
    /// Flags observed by the last `nfca_request` (diagnostics).
    pub last_request_irq: u32,
}

impl<P: I2cPort> St25r3916<P> {
    /// Every bus access so far.
    pub open spec fn trace(&self) -> Trace<BusEvent<P::Error>> {
        self.bus.trace()
    }

    /// The model state the driver is in.
    pub open spec fn chip(&self) -> Chip {
        Chip {
            at: self.trace().len(),
            pending: self.pending_irq,
            last_request: self.last_request_irq,
        }
    }

    pub fn new(i2c: P) -> (nfc: Self)
        ensures
            nfc.chip() == (Chip { at: 0, pending: 0, last_request: 0 }),
            nfc.trace() == Trace::<BusEvent<P::Error>>::empty(),
            nfc.bus.port() == i2c,
    {
        St25r3916 { bus: I2cBus::new(i2c), pending_irq: 0, last_request_irq: 0 }
    }

    pub fn release(self) -> (i2c: P)
        ensures
            i2c == self.bus.port(),
    {
        self.bus.release()
    }

    // ------------------------------------------------------------------
    // raw access
    // ------------------------------------------------------------------

    pub fn read_reg(&mut self, r: u8) -> (res: Result<u8, P::Error>)
        ensures
            final(self).trace().extends(old(self).trace()),
            forall|l: Trace<BusEvent<P::Error>>| l.extends(final(self).trace()) ==> #[trigger]
                old(self).chip().read_reg(l, r) == Run::Done(final(self).chip(), res),
    {
        let sent = [0x40 | (r & 0x3F)];
        assert(sent@ =~= seq![0x40 | (r & 0x3F)]);
        let b = self.bus.write_read(ADDR, &sent, 1)?;
        Ok(b[0])
    }

    pub fn read_regs(&mut self, r: u8, buf: &mut [u8]) -> (res: Result<(), P::Error>)
        ensures
            final(self).trace().extends(old(self).trace()),
            forall|l: Trace<BusEvent<P::Error>>| l.extends(final(self).trace()) ==> #[trigger]
                old(self).chip().read_regs(l, r, old(buf)@.len()) == Run::Done(
                    final(self).chip(),
                    filled(res, final(buf)@),
                ),
            final(buf)@.len() == old(buf)@.len(),
            res is Err ==> final(buf)@ == old(buf)@,
    {
        let sent = [0x40 | (r & 0x3F)];
        assert(sent@ =~= seq![0x40 | (r & 0x3F)]);
        let b = self.bus.write_read(ADDR, &sent, buf.len())?;
        splice(buf, 0, b.as_slice());
        assert(buf@ =~= b@);
        Ok(())
    }

    pub fn write_reg(&mut self, r: u8, v: u8) -> (res: Result<(), P::Error>)
        ensures
            final(self).trace().extends(old(self).trace()),
            forall|l: Trace<BusEvent<P::Error>>| l.extends(final(self).trace()) ==> #[trigger]
                old(self).chip().write_reg(l, r, v) == Run::Done(final(self).chip(), res),
    {
        let sent = [r & 0x3F, v];
        assert(sent@ =~= seq![r & 0x3F, v]);
        self.bus.write(ADDR, &sent)
    }

    pub fn write_regs(&mut self, r: u8, data: &[u8]) -> (res: Result<(), P::Error>)
        ensures
            final(self).trace().extends(old(self).trace()),
            forall|l: Trace<BusEvent<P::Error>>| l.extends(final(self).trace()) ==> #[trigger]
                old(self).chip().write_regs(l, r, data@) == Run::Done(final(self).chip(), res),
    {
        let head = [r & 0x3F];
        assert(head@ =~= seq![r & 0x3F]);
        self.bus.write_parts(ADDR, &head, data)
    }

    pub fn modify_reg(&mut self, r: u8, clear: u8, set: u8) -> (res: Result<(), P::Error>)
        ensures
            final(self).trace().extends(old(self).trace()),
            forall|l: Trace<BusEvent<P::Error>>| l.extends(final(self).trace()) ==> #[trigger]
                old(self).chip().modify_reg(l, r, clear, set) == Run::Done(final(self).chip(), res),
    {
        let v = self.read_reg(r)?;
        let n = (v & !clear) | set;
        if n != v {
            self.write_reg(r, n)?;
        }
        Ok(())
    }

    fn read_prefixed(&mut self, prefix: u8, r: u8) -> (res: Result<u8, P::Error>)
        ensures
            final(self).trace().extends(old(self).trace()),
            forall|l: Trace<BusEvent<P::Error>>| l.extends(final(self).trace()) ==> #[trigger]
                old(self).chip().read_prefixed(l, prefix, r) == Run::Done(final(self).chip(), res),
    {
        let sent = [prefix, 0x40 | (r & 0x3F)];
        assert(sent@ =~= seq![prefix, 0x40 | (r & 0x3F)]);
        let b = self.bus.write_read(ADDR, &sent, 1)?;
        Ok(b[0])
    }

    pub fn read_reg_b(&mut self, r: u8) -> (res: Result<u8, P::Error>)
        ensures
            final(self).trace().extends(old(self).trace()),
            forall|l: Trace<BusEvent<P::Error>>| l.extends(final(self).trace()) ==> #[trigger]
                old(self).chip().read_prefixed(l, cmd::SPACE_B_ACCESS, r) == Run::Done(
                    final(self).chip(),
                    res,
                ),
    {
        self.read_prefixed(cmd::SPACE_B_ACCESS, r)
    }

    pub fn write_reg_b(&mut self, r: u8, v: u8) -> (res: Result<(), P::Error>)
        ensures
            final(self).trace().extends(old(self).trace()),
            forall|l: Trace<BusEvent<P::Error>>| l.extends(final(self).trace()) ==> #[trigger]
                old(self).chip().write_reg_b(l, r, v) == Run::Done(final(self).chip(), res),
    {
        let sent = [cmd::SPACE_B_ACCESS, r & 0x3F, v];
        assert(sent@ =~= seq![cmd::SPACE_B_ACCESS, r & 0x3F, v]);
        self.bus.write(ADDR, &sent)
    }

    pub fn command(&mut self, c: u8) -> (res: Result<(), P::Error>)
        ensures
            final(self).trace().extends(old(self).trace()),
            forall|l: Trace<BusEvent<P::Error>>| l.extends(final(self).trace()) ==> #[trigger]
                old(self).chip().command(l, c) == Run::Done(final(self).chip(), res),
    {
        let sent = [c];
        assert(sent@ =~= seq![c]);
        self.bus.write(ADDR, &sent)
    }

    pub fn load_fifo(&mut self, data: &[u8]) -> (res: Result<(), P::Error>)
        ensures
            final(self).trace().extends(old(self).trace()),
            forall|l: Trace<BusEvent<P::Error>>| l.extends(final(self).trace()) ==> #[trigger]
                old(self).chip().load_fifo(l, data@) == Run::Done(final(self).chip(), res),
    {
        let head = [0x80u8];
        assert(head@ =~= seq![0x80u8]);
        self.bus.write_parts(ADDR, &head, data)
    }

    /// (bytes, extra bits of last byte) currently in the FIFO.
    pub fn fifo_status(&mut self) -> (res: Result<(u16, u8), P::Error>)
        ensures
            final(self).trace().extends(old(self).trace()),
            forall|l: Trace<BusEvent<P::Error>>| l.extends(final(self).trace()) ==> #[trigger]
                old(self).chip().fifo_status(l) == Run::Done(final(self).chip(), res),
    {
        let mut s = [0u8; 2];
        self.read_regs(reg::FIFO_STATUS1, &mut s)?;
        let bytes = s[0] as u16 | (((s[1] & 0xC0) as u16) << 2);
        let bits = (s[1] >> 1) & 0x07;
        Ok((bytes, bits))
    }

    /// The next `n` bytes of the FIFO.
    pub fn read_fifo_bytes(&mut self, n: usize) -> (res: Result<Vec<u8>, P::Error>)
        ensures
            final(self).trace().extends(old(self).trace()),
            forall|l: Trace<BusEvent<P::Error>>| l.extends(final(self).trace()) ==> #[trigger]
                old(self).chip().read_fifo(l, n as nat) == Run::Done(
                    final(self).chip(),
                    crate::bus::reply_bytes(res),
                ),
            res matches Ok(v) ==> v@.len() == n,
    {
        if n == 0 {
            let none: Vec<u8> = Vec::new();
            assert(none@ =~= Seq::empty());
            return Ok(none);
        }
        let sent = [0x9Fu8];
        assert(sent@ =~= seq![0x9Fu8]);
        self.bus.write_read(ADDR, &sent, n)
    }

    pub fn read_fifo(&mut self, buf: &mut [u8]) -> (res: Result<(), P::Error>)
        ensures
            final(self).trace().extends(old(self).trace()),
            forall|l: Trace<BusEvent<P::Error>>| l.extends(final(self).trace()) ==> #[trigger]
                old(self).chip().read_fifo(l, old(buf)@.len()) == Run::Done(
                    final(self).chip(),
                    filled(res, final(buf)@),
                ),
            final(buf)@.len() == old(buf)@.len(),
            res is Err ==> final(buf)@ == old(buf)@,
    {
        let b = self.read_fifo_bytes(buf.len())?;
        splice(buf, 0, b.as_slice());
        assert(buf@ =~= b@);
        Ok(())
    }

    /// Read (and thereby clear) all four interrupt registers.
    pub fn read_irq(&mut self) -> (res: Result<u32, P::Error>)
        ensures
            final(self).trace().extends(old(self).trace()),
            forall|l: Trace<BusEvent<P::Error>>| l.extends(final(self).trace()) ==> #[trigger]
                old(self).chip().read_irq(l) == Run::Done(final(self).chip(), res),
    {
        // The error register must be read first: reading the main register
        // resets it.
        let err = self.read_reg(reg::IRQ_ERROR_WUP)?;
        let mut mn = [0u8; 2];
        self.read_regs(reg::IRQ_MAIN, &mut mn)?;
        let tgt = self.read_reg(reg::IRQ_TARGET)?;
        Ok(join32(mn[0], mn[1], err, tgt))
    }

    pub fn clear_irq(&mut self) -> (res: Result<(), P::Error>)
        ensures
            final(self).trace().extends(old(self).trace()),
            forall|l: Trace<BusEvent<P::Error>>| l.extends(final(self).trace()) ==> #[trigger]
                old(self).chip().clear_irq(l) == Run::Done(final(self).chip(), res),
    {
        self.pending_irq = 0;
        let mut d = [0u8; 4];
        self.read_regs(reg::IRQ_MAIN, &mut d)?;
        Ok(())
    }

    pub fn write_irq_mask(&mut self, mask: u32) -> (res: Result<(), P::Error>)
        ensures
            final(self).trace().extends(old(self).trace()),
            forall|l: Trace<BusEvent<P::Error>>| l.extends(final(self).trace()) ==> #[trigger]
                old(self).chip().write_irq_mask(l, mask) == Run::Done(final(self).chip(), res),
    {
        self.write_regs(reg::IRQ_MASK_MAIN, &be32_bytes(mask))
    }

    /// Fold fresh flags into the pending set and return the whole set
    /// WITHOUT consuming anything (safe for diagnostics/heartbeats).
    pub fn peek_irq(&mut self) -> (res: Result<u32, P::Error>)
        ensures
            final(self).trace().extends(old(self).trace()),
            forall|l: Trace<BusEvent<P::Error>>| l.extends(final(self).trace()) ==> #[trigger]
                old(self).chip().peek_irq(l) == Run::Done(final(self).chip(), res),
    {
        let fresh = self.read_irq()?;
        self.pending_irq = self.pending_irq | fresh;
        Ok(self.pending_irq)
    }

    /// Non-blocking: fold fresh interrupt flags into the pending set and
    /// return (and consume) the ones matching `bits`.
    pub fn take_irq(&mut self, bits: u32) -> (res: Result<u32, P::Error>)
        ensures
            final(self).trace().extends(old(self).trace()),
            forall|l: Trace<BusEvent<P::Error>>| l.extends(final(self).trace()) ==> #[trigger]
                old(self).chip().take_irq(l, bits) == Run::Done(final(self).chip(), res),
    {
        let fresh = self.read_irq()?;
        self.pending_irq = self.pending_irq | fresh;
        let hit = self.pending_irq & bits;
        self.pending_irq = self.pending_irq & !hit;
        Ok(hit)
    }

    /// Pause between two accesses; never fails.
    pub fn pause_ms<D: Delay>(&mut self, delay: &mut D, ms: u32) -> (res: Result<(), P::Error>)
        ensures
            final(self).trace().extends(old(self).trace()),
            forall|l: Trace<BusEvent<P::Error>>| l.extends(final(self).trace()) ==> #[trigger]
                old(self).chip().pause_ms(l, ms) == Run::Done(final(self).chip(), res),
            res is Ok,
    {
        self.bus.pause_ms(delay, ms);
        Ok(())
    }

    /// Poll the interrupt registers until any of `bits` is set or `timeout_ms`
    /// elapses. Returns the accumulated flags (with `NRE` forced on timeout).
    pub fn wait_irq<D: Delay>(&mut self, delay: &mut D, bits: u32, timeout_ms: u32) -> (res: Result<
        u32,
        P::Error,
    >)
        requires
            timeout_ms * 4 <= u32::MAX,
        ensures
            final(self).trace().extends(old(self).trace()),
            forall|l: Trace<BusEvent<P::Error>>| l.extends(final(self).trace()) ==> #[trigger]
                old(self).chip().wait_irq(l, bits, (timeout_ms * 4) as nat) == Run::Done(
                    final(self).chip(),
                    res,
                ),
    {
        let polls = timeout_ms * 4;
        let mut elapsed: u32 = 0;
        loop
            invariant
                polls == timeout_ms * 4,
                elapsed <= polls,
                self.trace().extends(old(self).trace()),
                forall|l: Trace<BusEvent<P::Error>>|
                    l.extends(self.trace()) ==> #[trigger] old(self).chip().wait_irq(
                        l,
                        bits,
                        polls as nat,
                    ) == self.chip().wait_irq(l, bits, (polls - elapsed) as nat),
            decreases polls - elapsed,
        {
            let pending = self.peek_irq()?;
            let hit = pending & bits;
            if hit != 0 {
                self.pending_irq = pending & !hit;
                return Ok(pending);
            }
            if elapsed >= polls {
                return Ok(pending | irq::NRE);
            }
            self.bus.pause_us(delay, 250);
            elapsed += 1;
        }
    }

    // ------------------------------------------------------------------
    // register scripts
    // ------------------------------------------------------------------

    fn step<D: Delay>(&mut self, delay: &mut D, s: Step) -> (res: Result<(), P::Error>)
        ensures
            final(self).trace().extends(old(self).trace()),
            forall|l: Trace<BusEvent<P::Error>>| l.extends(final(self).trace()) ==> #[trigger]
                old(self).chip().step(l, s) == Run::Done(final(self).chip(), res),
    {
        match s {
            Step::Command(c) => self.command(c),
            Step::Write(r, v) => self.write_reg(r, v),
            Step::WritePair(r, a, b) => {
                let data = [a, b];
                assert(data@ =~= seq![a, b]);
                self.write_regs(r, &data)
            },
            Step::Modify { reg, clear, set } => self.modify_reg(reg, clear, set),
            Step::WriteB(r, v) => self.write_reg_b(r, v),
            Step::WriteTest(r, v) => {
                let sent = [cmd::TEST_ACCESS, r, v];
                assert(sent@ =~= seq![cmd::TEST_ACCESS, r, v]);
                self.bus.write(ADDR, &sent)
            },
            Step::IrqMask(mask) => self.write_irq_mask(mask),
            Step::ClearIrq => self.clear_irq(),
            Step::PauseMs(ms) => self.pause_ms(delay, ms),
        }
    }

    /// Run a register script up to its first failure.
    pub fn run<D: Delay>(&mut self, delay: &mut D, steps: &[Step]) -> (res: Result<(), P::Error>)
        ensures
            final(self).trace().extends(old(self).trace()),
            forall|l: Trace<BusEvent<P::Error>>| l.extends(final(self).trace()) ==> #[trigger]
                old(self).chip().steps(l, steps@) == Run::Done(final(self).chip(), res),
    {
        let mut i: usize = 0;
        assert(steps@.skip(0) =~= steps@);
        while i < steps.len()
            invariant
                i <= steps@.len(),
                self.trace().extends(old(self).trace()),
                forall|l: Trace<BusEvent<P::Error>>|
                    l.extends(self.trace()) ==> #[trigger] old(self).chip().steps(l, steps@)
                        == self.chip().steps(l, steps@.skip(i as int)),
            decreases steps@.len() - i,
        {
            assert(steps@.skip(i as int).drop_first() =~= steps@.skip(i + 1));
            self.step(delay, steps[i])?;
            i += 1;
        }
        Ok(())
    }

    // ------------------------------------------------------------------
    // bring-up
    // ------------------------------------------------------------------

    pub fn identity(&mut self) -> (res: Result<u8, P::Error>)
        ensures
            final(self).trace().extends(old(self).trace()),
            forall|l: Trace<BusEvent<P::Error>>| l.extends(final(self).trace()) ==> #[trigger]
                old(self).chip().read_reg(l, reg::IC_IDENTITY) == Run::Done(
                    final(self).chip(),
                    res,
                ),
    {
        self.read_reg(reg::IC_IDENTITY)
    }

    fn probe<D: Delay>(&mut self, delay: &mut D) -> (res: Result<(), Error<P::Error>>)
        ensures
            final(self).trace().extends(old(self).trace()),
            forall|l: Trace<BusEvent<P::Error>>| l.extends(final(self).trace()) ==> #[trigger]
                old(self).chip().probe(l, 0, 5) == Run::Done(final(self).chip(), res),
    {
        let mut identity: u8 = 0;
        let mut tries: u8 = 0;
        while tries < 5
            invariant
                tries <= 5,
                self.trace().extends(old(self).trace()),
                forall|l: Trace<BusEvent<P::Error>>|
                    l.extends(self.trace()) ==> #[trigger] old(self).chip().probe(l, 0, 5)
                        == self.chip().probe(l, identity, (5 - tries) as nat),
            decreases 5 - tries,
        {
            if let Ok(v) = self.identity() {
                identity = v;
                if (v >> 3) & 0x1F == IC_TYPE_ST25R3916 && v & 0x07 != 0 {
                    return Ok(());
                }
            }
            self.bus.pause_ms(delay, 20);
            tries += 1;
        }
        Err(Error::NotFound { identity })
    }

    /// Full power-up sequence for I2C @ 400 kHz, VDD = 3.3 V. Leaves the
    /// chip in Ready mode with the field off.
    pub fn init<D: Delay>(&mut self, delay: &mut D) -> (res: Result<(), Error<P::Error>>)
        ensures
            final(self).trace().extends(old(self).trace()),
            forall|l: Trace<BusEvent<P::Error>>| l.extends(final(self).trace()) ==> #[trigger]
                old(self).chip().init(l) == Run::Done(final(self).chip(), res),
    {
        self.probe(delay)?;
        let steps = [
            Step::Command(cmd::STOP_ALL),
            Step::Modify { reg: reg::OP_CONTROL, clear: TX_EN | RX_EN, set: 0 },
            Step::PauseMs(2),
            Step::Command(cmd::SET_DEFAULT),
            Step::WriteTest(0x04, 0x10),
            Step::WritePair(reg::IO_CONF1, 0x10, 0x84),
            Step::Write(reg::TX_DRIVER, 0xD0),
            Step::Modify { reg: reg::IO_CONF1, clear: 0x07, set: 0x07 },
            Step::WriteB(reg::B_RES_AM_MOD, 0x80),
            Step::Modify { reg: reg::IO_CONF2, clear: 0, set: 0x20 },
            Step::WriteB(reg::B_RES_AM_MOD, 0x00),
            Step::Write(reg::FIELD_THRESHOLD_ACT, 0x13),
            Step::Write(reg::FIELD_THRESHOLD_DEACT, 0x02),
            Step::Modify { reg: reg::NFCIP1_PASSIVE_TARGET, clear: 0xF0, set: 0x50 },
            Step::Write(reg::PT_MOD, 0x5F),
            Step::WriteB(reg::B_EMD_SUP_CONF, 0x40),
            Step::Write(reg::ANT_TUNE_A, 0x82),
            Step::Write(reg::ANT_TUNE_B, 0x82),
            Step::Modify { reg: reg::OP_CONTROL, clear: 0x03, set: 0 },
            Step::Command(cmd::CLEAR_FIFO),
            Step::IrqMask(0xFFFF_00FF),
            Step::ClearIrq,
        ];
        assert(steps@ =~= init_steps());
        bus_result(self.run(delay, &steps))?;
        self.enable_osc(delay)?;
        let ready = [Step::IrqMask(0), Step::Command(cmd::ADJUST_REGULATORS), Step::PauseMs(5)];
        assert(ready@ =~= ready_steps());
        bus_result(self.run(delay, &ready))
    }

    fn osc_ok(&mut self) -> (res: Result<bool, P::Error>)
        ensures
            final(self).trace().extends(old(self).trace()),
            forall|l: Trace<BusEvent<P::Error>>| l.extends(final(self).trace()) ==> #[trigger]
                old(self).chip().osc_ok(l) == Run::Done(final(self).chip(), res),
    {
        let v = self.read_reg(reg::AUX_DISPLAY)?;
        Ok(v & 0x10 != 0)
    }

    fn osc_required(&mut self) -> (res: Result<(), Error<P::Error>>)
        ensures
            final(self).trace().extends(old(self).trace()),
            forall|l: Trace<BusEvent<P::Error>>| l.extends(final(self).trace()) ==> #[trigger]
                old(self).chip().osc_required(l) == Run::Done(final(self).chip(), res),
    {
        if bus_result(self.osc_ok())? {
            Ok(())
        } else {
            Err(Error::Oscillator)
        }
    }

    pub fn enable_osc<D: Delay>(&mut self, delay: &mut D) -> (res: Result<(), Error<P::Error>>)
        ensures
            final(self).trace().extends(old(self).trace()),
            forall|l: Trace<BusEvent<P::Error>>| l.extends(final(self).trace()) ==> #[trigger]
                old(self).chip().enable_osc(l) == Run::Done(final(self).chip(), res),
    {
        let v = bus_result(self.read_reg(reg::OP_CONTROL))?;
        if v & EN == 0 {
            let start = [
                Step::Modify { reg: reg::IRQ_MASK_MAIN, clear: 0x80, set: 0 },
                Step::ClearIrq,
                Step::Modify { reg: reg::OP_CONTROL, clear: 0, set: EN },
            ];
            assert(start@ =~= osc_start_steps());
            bus_result(self.run(delay, &start))?;
            let flags = bus_result(self.wait_irq(delay, irq::OSC, 50))?;
            bus_result(self.modify_reg(reg::IRQ_MASK_MAIN, 0, 0x80))?;
            if flags & irq::OSC == 0 && !bus_result(self.osc_ok())? {
                return Err(Error::Oscillator);
            }
        }
        self.osc_required()
    }

    /// Configure the analog/digital front end for ISO14443A @ 106 kbps and
    /// switch the RF field on.
    pub fn configure_nfca<D: Delay>(&mut self, delay: &mut D) -> (res: Result<(), Error<P::Error>>)
        ensures
            final(self).trace().extends(old(self).trace()),
            forall|l: Trace<BusEvent<P::Error>>| l.extends(final(self).trace()) ==> #[trigger]
                old(self).chip().configure_nfca(l) == Run::Done(final(self).chip(), res),
    {
        let steps = [
            Step::Command(cmd::STOP_ALL),
            Step::Modify { reg: reg::OP_CONTROL, clear: WU, set: 0 },
            Step::Write(reg::MODE, 0x09),
            Step::Write(reg::BIT_RATE, 0x00),
            Step::Write(reg::ISO14443A_NFC, 0x00),
            Step::Modify { reg: reg::AUX, clear: 0x04, set: 0 },
            Step::WriteB(reg::B_OVERSHOOT_CONF1, 0x40),
            Step::WriteB(reg::B_OVERSHOOT_CONF2, 0x03),
            Step::WriteB(reg::B_UNDERSHOOT_CONF1, 0x40),
            Step::WriteB(reg::B_UNDERSHOOT_CONF2, 0x03),
            Step::WriteB(reg::B_CORR_CONF1, 0x47),
            Step::WriteB(reg::B_CORR_CONF2, 0x00),
            Step::Write(reg::RX_CONF1, 0x08),
            Step::Write(reg::RX_CONF2, 0x2D),
            Step::Write(reg::RX_CONF3, 0xD8),
            Step::Write(reg::RX_CONF4, 0x22),
            Step::Command(cmd::RESET_RX_GAIN),
            Step::IrqMask(0),
        ];
        assert(steps@ =~= nfca_steps());
        proof {
            reveal(Chip::configure_nfca);
        }
        bus_result(self.run(delay, &steps))?;
        self.field_on(delay)
    }

    /// Switch the RF field on (reader mode: no collision avoidance, external
    /// field detector off) and wait the ISO14443 guard time.
    ///
    /// AUX_DISPLAY.tx_on is not usable as a field indicator on this board
    /// (stays 0 while tags read fine), so tx_en is trusted.
    pub fn field_on<D: Delay>(&mut self, delay: &mut D) -> (res: Result<(), Error<P::Error>>)
        ensures
            final(self).trace().extends(old(self).trace()),
            forall|l: Trace<BusEvent<P::Error>>| l.extends(final(self).trace()) ==> #[trigger]
                old(self).chip().field_on(l).i2c() == Run::Done(final(self).chip(), res),
    {
        let v = bus_result(self.read_reg(reg::OP_CONTROL))?;
        if v & TX_EN != 0 {
            return Ok(());
        }
        let steps = [
            Step::Modify { reg: reg::OP_CONTROL, clear: 0x03, set: 0 },
            Step::Modify { reg: reg::OP_CONTROL, clear: 0, set: TX_EN | RX_EN },
            Step::PauseMs(6),
        ];
        assert(steps@ =~= field_on_steps());
        bus_result(self.run(delay, &steps))
    }

    /// `true` when AUX_DISPLAY reports tx_on. Note: on the PaperMono this bit
    /// stayed 0 while tags were being read successfully, so do not use it as
    /// a field-present check; it seems to reflect active modulation only.
    pub fn is_field_on(&mut self) -> (res: Result<bool, P::Error>)
        ensures
            final(self).trace().extends(old(self).trace()),
            forall|l: Trace<BusEvent<P::Error>>| l.extends(final(self).trace()) ==> #[trigger]
                old(self).chip().is_field_on(l) == Run::Done(final(self).chip(), res),
    {
        let v = self.read_reg(reg::AUX_DISPLAY)?;
        Ok(v & 0x20 != 0)
    }

    /// Field on through the chip's initial RF collision avoidance (en_fd = 01),
    /// as RFAL does. Returns the interrupt flags observed.
    pub fn field_on_ca<D: Delay>(&mut self, delay: &mut D) -> (res: Result<u32, Error<P::Error>>)
        ensures
            final(self).trace().extends(old(self).trace()),
            forall|l: Trace<BusEvent<P::Error>>| l.extends(final(self).trace()) ==> #[trigger]
                old(self).chip().field_on_ca(l) == Run::Done(final(self).chip(), res),
    {
        let steps = [
            Step::Modify { reg: reg::OP_CONTROL, clear: TX_EN | RX_EN, set: 0 },
            Step::Modify { reg: reg::OP_CONTROL, clear: 0x03, set: 0x01 },
            Step::WriteB(0x15, 0x00),
            Step::ClearIrq,
            Step::Command(cmd::INITIAL_RF_COLLISION),
        ];
        assert(steps@ =~= field_ca_steps());
        bus_result(self.run(delay, &steps))?;
        // I_cac (collision), I_cat (guard time done), I_apon
        let flags = bus_result(self.wait_irq(delay, 0x0006_0020, 20))?;
        let end = [
            Step::Modify { reg: reg::OP_CONTROL, clear: 0, set: TX_EN | RX_EN },
            Step::PauseMs(6),
        ];
        assert(end@ =~= field_ca_end_steps());
        bus_result(self.run(delay, &end))?;
        Ok(flags)
    }

    /// Read a test-space register (prefix 0xFC).
    pub fn read_test_reg(&mut self, r: u8) -> (res: Result<u8, P::Error>)
        ensures
            final(self).trace().extends(old(self).trace()),
            forall|l: Trace<BusEvent<P::Error>>| l.extends(final(self).trace()) ==> #[trigger]
                old(self).chip().read_prefixed(l, cmd::TEST_ACCESS, r) == Run::Done(
                    final(self).chip(),
                    res,
                ),
    {
        self.read_prefixed(cmd::TEST_ACCESS, r)
    }

    /// Run "Measure amplitude" and return the ADC result (0x25).
    pub fn measure_amplitude<D: Delay>(&mut self, delay: &mut D) -> (res: Result<u8, P::Error>)
        ensures
            final(self).trace().extends(old(self).trace()),
            forall|l: Trace<BusEvent<P::Error>>| l.extends(final(self).trace()) ==> #[trigger]
                old(self).chip().measure_amplitude(l) == Run::Done(final(self).chip(), res),
    {
        self.command(0xD3)?;
        self.pause_ms(delay, 2)?;
        self.read_reg(0x25)
    }

    /// Dump space-A registers 0x00..=0x3F into `out`. After a failure `out`
    /// holds what was read before it.
    pub fn dump_regs(&mut self, out: &mut [u8; 64]) -> (res: Result<(), P::Error>)
        ensures
            final(self).trace().extends(old(self).trace()),
            forall|l: Trace<BusEvent<P::Error>>| l.extends(final(self).trace()) ==> #[trigger]
                old(self).chip().dump_regs(l, old(out)@, 0) == Run::Done(
                    final(self).chip(),
                    Ok::<_,
                    P::Error>((final(out)@, res)),
                ),
    {
        let mut i: u8 = 0;
        while i < 64
            invariant
                i <= 64,
                self.trace().extends(old(self).trace()),
                forall|l: Trace<BusEvent<P::Error>>|
                    l.extends(self.trace()) ==> #[trigger] old(self).chip().dump_regs(
                        l,
                        old(out)@,
                        0,
                    ) == self.chip().dump_regs(l, out@, i as int),
            decreases 64 - i,
        {
            let v = self.read_reg(i)?;
            let ghost before = out@;
            out[i as usize] = v;
            assert(out@ =~= before.update(i as int, v));
            i += 1;
        }
        Ok(())
    }

    /// Snapshot of (OP_CONTROL, AUX_DISPLAY, regulator display) for logging.
    /// AUX_DISPLAY: 0x20 tx_on, 0x10 osc_ok, 0x08 rx_on, 0x40 efd_o.
    pub fn status(&mut self) -> (res: Result<(u8, u8, u8), P::Error>)
        ensures
            final(self).trace().extends(old(self).trace()),
            forall|l: Trace<BusEvent<P::Error>>| l.extends(final(self).trace()) ==> #[trigger]
                old(self).chip().status(l) == Run::Done(final(self).chip(), res),
    {
        let op = self.read_reg(reg::OP_CONTROL)?;
        let aux = self.read_reg(reg::AUX_DISPLAY)?;
        let regd = self.read_reg_b(0x2C)?;
        Ok((op, aux, regd))
    }

    /// Switch the RF field off (tx_en/rx_en cleared; the chip stays in
    /// Ready mode so [`Self::field_on`] is quick).
    pub fn field_off(&mut self) -> (res: Result<(), P::Error>)
        ensures
            final(self).trace().extends(old(self).trace()),
            forall|l: Trace<BusEvent<P::Error>>| l.extends(final(self).trace()) ==> #[trigger]
                old(self).chip().field_off(l) == Run::Done(final(self).chip(), res),
    {
        self.modify_reg(reg::OP_CONTROL, TX_EN | RX_EN, 0)
    }

    /// Ready mode off (oscillator stopped) — lowest power while keeping I2C alive.
    pub fn power_down(&mut self) -> (res: Result<(), P::Error>)
        ensures
            final(self).trace().extends(old(self).trace()),
            forall|l: Trace<BusEvent<P::Error>>| l.extends(final(self).trace()) ==> #[trigger]
                old(self).chip().power_down(l) == Run::Done(final(self).chip(), res),
    {
        self.field_off()?;
        self.modify_reg(reg::OP_CONTROL, EN, 0)
    }

    // ------------------------------------------------------------------
    // timers / framing helpers
    // ------------------------------------------------------------------

    /// Program the no-response timer (frame waiting time) in milliseconds.
    pub fn set_fwt_ms(&mut self, ms: u32) -> (res: Result<(), P::Error>)
        ensures
            final(self).trace().extends(old(self).trace()),
            forall|l: Trace<BusEvent<P::Error>>| l.extends(final(self).trace()) ==> #[trigger]
                old(self).chip().set_fwt_ms(l, ms) == Run::Done(final(self).chip(), res),
    {
        let ctrl = self.read_reg(reg::TIMER_EMV_CONTROL)?;
        let per: u64 = if ctrl & 0x01 != 0 {
            4_096_000
        } else {
            64_000
        };
        let ticks = (ms as u64 * 13_560_000 + per - 1) / per;
        let nrt: u16 = if ticks < 1 {
            1
        } else if ticks > 0xFFFF {
            0xFFFF
        } else {
            ticks as u16
        };
        self.write_regs(reg::NO_RESPONSE_TIMER1, &be16_bytes(nrt))
    }

    /// Load the passive-target "A" configuration (UID[10], ATQA[2], SAK[3]).
    pub fn load_pt_mem_a(&mut self, data: &[u8]) -> (res: Result<(), P::Error>)
        ensures
            final(self).trace().extends(old(self).trace()),
            forall|l: Trace<BusEvent<P::Error>>| l.extends(final(self).trace()) ==> #[trigger]
                old(self).chip().load_pt_mem_a(l, data@) == Run::Done(final(self).chip(), res),
    {
        let head = [0xA0u8];
        assert(head@ =~= seq![0xA0u8]);
        self.bus.write_parts(ADDR, &head, data)
    }

    /// Transmit `data` from target mode: `bits == 0` → whole bytes with CRC,
    /// otherwise `bits` bits of `data[0]` without CRC (4-bit ACK/NAK).
    pub fn target_transmit(&mut self, data: &[u8], bits: u8) -> (res: Result<(), P::Error>)
        ensures
            final(self).trace().extends(old(self).trace()),
            forall|l: Trace<BusEvent<P::Error>>| l.extends(final(self).trace()) ==> #[trigger]
                old(self).chip().target_transmit(l, data@, bits) == Run::Done(
                    final(self).chip(),
                    res,
                ),
    {
        self.command(cmd::CLEAR_FIFO)?;
        self.load_fifo(data)?;
        if bits == 0 {
            self.set_num_tx(data.len() as u16, 0)?;
            self.command(cmd::TRANSMIT_WITH_CRC)
        } else {
            self.set_num_tx(0, bits)?;
            self.command(cmd::TRANSMIT_WITHOUT_CRC)
        }
    }

    /// Announce a frame: thirteen bits of whole bytes, three of further bits.
    pub fn set_num_tx(&mut self, bytes: u16, bits: u8) -> (res: Result<(), P::Error>)
        ensures
            final(self).trace().extends(old(self).trace()),
            forall|l: Trace<BusEvent<P::Error>>| l.extends(final(self).trace()) ==> #[trigger]
                old(self).chip().set_num_tx(l, bytes, bits) == Run::Done(final(self).chip(), res),
    {
        let v: u16 = (bytes % 0x2000) * 8 + (bits % 8) as u16;
        self.write_regs(reg::NUM_TX_BYTES1, &be16_bytes(v))
    }

    /// AUX.no_crc_rx = 1 disables CRC checking (and keeps CRC in FIFO).
    pub fn set_rx_crc_check(&mut self, check: bool) -> (res: Result<(), P::Error>)
        ensures
            final(self).trace().extends(old(self).trace()),
            forall|l: Trace<BusEvent<P::Error>>| l.extends(final(self).trace()) ==> #[trigger]
                old(self).chip().set_rx_crc_check(l, check) == Run::Done(final(self).chip(), res),
    {
        self.modify_reg(
            reg::AUX,
            0x80,
            if check {
                0
            } else {
                0x80
            },
        )
    }

    // ------------------------------------------------------------------
    // ISO14443A
    // ------------------------------------------------------------------

    fn prepare(&mut self, fwt_ms: u32, antcl: u8, crc_check: bool) -> (res: Result<(), P::Error>)
        ensures
            final(self).trace().extends(old(self).trace()),
            forall|l: Trace<BusEvent<P::Error>>| l.extends(final(self).trace()) ==> #[trigger]
                old(self).chip().prepare(l, fwt_ms, antcl, crc_check) == Run::Done(
                    final(self).chip(),
                    res,
                ),
    {
        self.set_fwt_ms(fwt_ms)?;
        self.write_reg(reg::ISO14443A_NFC, antcl)?;
        self.set_rx_crc_check(crc_check)
    }

    fn fresh_fifo(&mut self) -> (res: Result<(), P::Error>)
        ensures
            final(self).trace().extends(old(self).trace()),
            forall|l: Trace<BusEvent<P::Error>>| l.extends(final(self).trace()) ==> #[trigger]
                old(self).chip().fresh_fifo(l) == Run::Done(final(self).chip(), res),
    {
        self.clear_irq()?;
        self.command(cmd::CLEAR_FIFO)
    }

    fn send(&mut self, data: &[u8], bytes: u16, bits: u8, how: u8) -> (res: Result<(), P::Error>)
        ensures
            final(self).trace().extends(old(self).trace()),
            forall|l: Trace<BusEvent<P::Error>>| l.extends(final(self).trace()) ==> #[trigger]
                old(self).chip().send(l, data@, bytes, bits, how) == Run::Done(
                    final(self).chip(),
                    res,
                ),
    {
        self.fresh_fifo()?;
        self.load_fifo(data)?;
        self.set_num_tx(bytes, bits)?;
        self.command(how)
    }

    fn late_answer<D: Delay>(&mut self, delay: &mut D) -> (res: Result<bool, P::Error>)
        ensures
            final(self).trace().extends(old(self).trace()),
            forall|l: Trace<BusEvent<P::Error>>| l.extends(final(self).trace()) ==> #[trigger]
                old(self).chip().late_answer(l, 40) == Run::Done(final(self).chip(), res),
    {
        let mut tries: u8 = 0;
        while tries < 40
            invariant
                tries <= 40,
                self.trace().extends(old(self).trace()),
                forall|l: Trace<BusEvent<P::Error>>|
                    l.extends(self.trace()) ==> #[trigger] old(self).chip().late_answer(l, 40)
                        == self.chip().late_answer(l, (40 - tries) as nat),
            decreases 40 - tries,
        {
            let (bytes, _) = self.fifo_status()?;
            if bytes >= 2 {
                return Ok(true);
            }
            self.bus.pause_us(delay, 100);
            tries += 1;
        }
        Ok(false)
    }

    /// Send REQA (`wakeup == false`) or WUPA and return ATQA if a tag answers.
    pub fn nfca_request<D: Delay>(&mut self, delay: &mut D, wakeup: bool) -> (res: Result<
        Option<u16>,
        Error<P::Error>,
    >)
        ensures
            final(self).trace().extends(old(self).trace()),
            forall|l: Trace<BusEvent<P::Error>>| l.extends(final(self).trace()) ==> #[trigger]
                old(self).chip().nfca_request(l, wakeup).i2c() == Run::Done(
                    final(self).chip(),
                    res,
                ),
    {
        bus_result(self.prepare(4, 0x01, false))?;
        bus_result(self.fresh_fifo())?;
        bus_result(
            self.command(
                if wakeup {
                    cmd::TRANSMIT_WUPA
                } else {
                    cmd::TRANSMIT_REQA
                },
            ),
        )?;
        let mut flags = bus_result(self.wait_irq(delay, irq::RXE | irq::RXS | irq::COL, 6))?;
        if flags & irq::RXE == 0 && flags & irq::RXS != 0 {
            if bus_result(self.late_answer(delay))? {
                flags = flags | irq::RXE;
            }
        }
        self.last_request_irq = flags;
        if flags & irq::RXE == 0 {
            return Ok(None);
        }
        let (bytes, _) = bus_result(self.fifo_status())?;
        if bytes < 2 {
            return Ok(None);
        }
        let mut atqa = [0u8; 2];
        bus_result(self.read_fifo(&mut atqa))?;
        Ok(Some(join16(atqa[1], atqa[0])))
    }

    /// One frame of a cascade level: did answers collide, the collision
    /// register, and the bytes received.
    fn level_frame<D: Delay>(&mut self, delay: &mut D, level: &Level) -> (res: Result<
        (bool, u8, Vec<u8>),
        Error<P::Error>,
    >)
        requires
            level@.valid(),
        ensures
            final(self).trace().extends(old(self).trace()),
            forall|l: Trace<BusEvent<P::Error>>| l.extends(final(self).trace()) ==> #[trigger]
                old(self).chip().level_frame(l, level@) == Run::Done(
                    final(self).chip(),
                    frame_result(res),
                ),
            res matches Ok((_, _, got)) ==> 1 <= got@.len() <= 5 - level.offset,
    {
        let n = level.bytes as usize + if level.bits != 0 {
            1usize
        } else {
            0usize
        };
        let frame = vstd::slice::slice_subrange(level.frame.as_slice(), 0, n);
        assert(frame@ =~= level.frame@.take(n as int));
        bus_result(
            self.send(frame, level.bytes as u16, level.bits, cmd::TRANSMIT_WITHOUT_CRC),
        )?;
        let flags = bus_result(self.wait_irq(delay, irq::RXE | irq::COL, 10))?;
        let collision = flags & irq::COL != 0;
        if !collision && flags & irq::RXE == 0 {
            return Err(unanswered(flags));
        }
        let (bytes, _) = bus_result(self.fifo_status())?;
        let want = 5 - level.offset as usize;
        let actual = if (bytes as usize) < want {
            bytes as usize
        } else {
            want
        };
        if actual == 0 {
            return Err(Error::Protocol);
        }
        let got = bus_result(self.read_fifo_bytes(actual))?;
        let cd = bus_result(self.read_reg(reg::COLLISION_STATUS))?;
        Ok((collision, cd, got))
    }

    /// One cascade level of anticollision. Returns the 5-byte response
    /// (CT/UID bytes + BCC) for `sel` in 0x93/0x95/0x97.
    pub fn nfca_anticollision_level<D: Delay>(&mut self, delay: &mut D, sel: u8) -> (res: Result<
        [u8; 5],
        Error<P::Error>,
    >)
        ensures
            final(self).trace().extends(old(self).trace()),
            forall|l: Trace<BusEvent<P::Error>>| l.extends(final(self).trace()) ==> #[trigger]
                old(self).chip().nfca_level(l, sel) == Run::Done(
                    final(self).chip(),
                    level_result(res),
                ),
    {
        bus_result(self.prepare(8, 0x01, true))?;
        let ghost prepared = self.chip();
        let ghost start = self.trace();
        let mut level = Level::new(sel);
        let mut rounds: u8 = 0;
        while rounds < 32
            invariant
                rounds <= 32,
                level@.valid(),
                start.extends(old(self).trace()),
                self.trace().extends(start),
                forall|l: Trace<BusEvent<P::Error>>|
                    l.extends(start) ==> #[trigger] old(self).chip().nfca_level(l, sel)
                        == prepared.level_frames(l, LevelModel::start(sel), 32),
                forall|l: Trace<BusEvent<P::Error>>|
                    l.extends(self.trace()) ==> #[trigger] prepared.level_frames(
                        l,
                        LevelModel::start(sel),
                        32,
                    ) == self.chip().level_frames(l, level@, (32 - rounds) as nat),
            decreases 32 - rounds,
        {
            let (collision, cd, got) = self.level_frame(delay, &level)?;
            if !level.absorb(collision, cd, got.as_slice()) {
                return Err(Error::Protocol);
            }
            if !collision {
                return Ok(level.answer);
            }
            rounds += 1;
        }
        Err(Error::Collision)
    }

    /// Complete anticollision + SELECT for all cascade levels.
    /// Call after a successful [`Self::nfca_request`].
    pub fn nfca_select<D: Delay>(&mut self, delay: &mut D, atqa: u16) -> (res: Result<
        NfcaTag,
        Error<P::Error>,
    >)
        ensures
            final(self).trace().extends(old(self).trace()),
            forall|l: Trace<BusEvent<P::Error>>| l.extends(final(self).trace()) ==> #[trigger]
                old(self).chip().nfca_select(l, TagModel::fresh(atqa), 1) == Run::Done(
                    final(self).chip(),
                    tag_result(res),
                ),
            res matches Ok(tag) ==> tag.wf(),
    {
        let mut tag = NfcaTag { atqa, uid: [0u8; 10], uid_len: 0, sak: 0 };
        assert(tag@.uid =~= TagModel::fresh(atqa).uid);
        let mut lv: u8 = 1;
        while lv <= 3
            invariant
                1 <= lv <= 4,
                tag@.uid_len == 0,
                self.trace().extends(old(self).trace()),
                forall|l: Trace<BusEvent<P::Error>>|
                    l.extends(self.trace()) ==> #[trigger] old(self).chip().nfca_select(
                        l,
                        TagModel::fresh(atqa),
                        1,
                    ) == self.chip().nfca_select(l, tag@, lv as int),
            decreases 4 - lv,
        {
            let sel = 0x91 + lv * 2;
            let r = self.nfca_anticollision_level(delay, sel)?;
            let start = ((lv - 1) * 3) as usize;
            let ghost before = tag@;

            // SELECT: SEL 0x70 + 5 bytes, CRC appended by the chip.
            let sel_frame = [sel, 0x70, r[0], r[1], r[2], r[3], r[4]];
            assert(sel_frame@ =~= seq![sel, 0x70u8] + r@);
            // SAK + CRC (CRC stays in FIFO)
            let (flags, got) = self.exchange(delay, &sel_frame, 3, 8)?;
            if flags & irq::ERROR_MASK != 0 {
                return Err(Error::RxError(flags));
            }
            if got.len() < 1 {
                return Err(Error::Protocol);
            }
            let from: usize = if r[0] == 0x88 {
                1
            } else {
                0
            };
            let part = vstd::slice::slice_subrange(r.as_slice(), from, 4);
            splice(&mut tag.uid, start, part);
            tag.sak = got[0];
            assert(tag@ == before.with_level(lv as int, r@, got@[0]));
            if got[0] & 0x04 == 0 {
                // UID complete.
                tag.uid_len = 3 * lv + 1;
                return Ok(tag);
            }
            lv += 1;
        }
        Err(Error::Protocol)
    }

    /// Transmit `tx` with CRC and receive at most `cap` bytes: the flags that
    /// came with the answer, and the answer.
    fn exchange<D: Delay>(&mut self, delay: &mut D, tx: &[u8], cap: usize, timeout_ms: u32) -> (res:
        Result<(u32, Vec<u8>), Error<P::Error>>)
        requires
            (timeout_ms + 2) * 4 <= u32::MAX,
        ensures
            final(self).trace().extends(old(self).trace()),
            forall|l: Trace<BusEvent<P::Error>>| l.extends(final(self).trace()) ==> #[trigger]
                old(self).chip().exchange(l, tx@, cap as nat, timeout_ms) == Run::Done(
                    final(self).chip(),
                    exchanged(res),
                ),
            res matches Ok((_, got)) ==> got@.len() <= cap,
    {
        bus_result(self.prepare(timeout_ms, 0x00, true))?;
        bus_result(self.send(tx, tx.len() as u16, 0, cmd::TRANSMIT_WITH_CRC))?;
        let flags = bus_result(self.wait_irq(delay, irq::RXE, timeout_ms + 2))?;
        if flags & irq::RXE == 0 {
            return Err(unanswered(flags));
        }
        let (bytes, _) = bus_result(self.fifo_status())?;
        let n = if (bytes as usize) < cap {
            bytes as usize
        } else {
            cap
        };
        let got = bus_result(self.read_fifo_bytes(n))?;
        Ok((flags, got))
    }

    /// Transmit `tx` with CRC and receive into `rx` (CRC checked by the chip,
    /// the two CRC bytes remain in the FIFO and count towards the returned
    /// length). Returns number of bytes read. An answer with a receive error
    /// is in `rx` too.
    pub fn transceive<D: Delay>(
        &mut self,
        delay: &mut D,
        tx: &[u8],
        rx: &mut [u8],
        timeout_ms: u32,
    ) -> (res: Result<usize, Error<P::Error>>)
        requires
            (timeout_ms + 2) * 4 <= u32::MAX,
        ensures
            final(self).trace().extends(old(self).trace()),
            forall|l: Trace<BusEvent<P::Error>>| l.extends(final(self).trace()) ==> #[trigger]
                old(self).chip().transceive(l, tx@, old(rx)@.len(), timeout_ms) == Run::Done(
                    final(self).chip(),
                    received(res, final(rx)@),
                ),
            res matches Ok(n) ==> n <= final(rx)@.len(),
            forall|l: Trace<BusEvent<P::Error>>|
                l.extends(final(self).trace()) ==> match #[trigger] old(self).chip().exchange(
                    l,
                    tx@,
                    old(rx)@.len(),
                    timeout_ms,
                ) {
                    Run::Done(_, Ok((_, got))) => final(rx)@ == crate::bytes::spliced(
                        old(rx)@,
                        0,
                        got,
                    ),
                    _ => final(rx)@ == old(rx)@,
                },
    {
        let (flags, got) = self.exchange(delay, tx, rx.len(), timeout_ms)?;
        splice(rx, 0, got.as_slice());
        if flags & irq::ERROR_MASK != 0 {
            return Err(Error::RxError(flags));
        }
        assert(rx@.take(got@.len() as int) =~= got@);
        Ok(got.len())
    }

    /// Put the selected tag into HALT.
    pub fn nfca_halt<D: Delay>(&mut self, delay: &mut D) -> (res: Result<(), Error<P::Error>>)
        ensures
            final(self).trace().extends(old(self).trace()),
            forall|l: Trace<BusEvent<P::Error>>| l.extends(final(self).trace()) ==> #[trigger]
                old(self).chip().nfca_halt(l).i2c() == Run::Done(final(self).chip(), res),
    {
        bus_result(self.prepare(2, 0x00, true))?;
        let halt = [0x50u8, 0x00u8];
        assert(halt@ =~= seq![0x50u8, 0x00u8]);
        bus_result(self.send(&halt, 2, 0, cmd::TRANSMIT_WITH_CRC))?;
        bus_result(self.wait_irq(delay, irq::TXE, 4))?;
        Ok(())
    }

    /// Convenience: WUPA → anticollision → SELECT. `Ok(None)` when no tag.
    ///
    /// WUPA (not REQA) is used so that tags left in HALT/ACTIVE by a previous
    /// poll keep answering; call [`Self::nfca_halt`] when done with a tag.
    pub fn nfca_poll<D: Delay>(&mut self, delay: &mut D) -> (res: Result<
        Option<NfcaTag>,
        Error<P::Error>,
    >)
        ensures
            final(self).trace().extends(old(self).trace()),
            forall|l: Trace<BusEvent<P::Error>>| l.extends(final(self).trace()) ==> #[trigger]
                old(self).chip().nfca_poll(l) == Run::Done(final(self).chip(), poll_result(res)),
            res matches Ok(Some(tag)) ==> tag.wf(),
    {
        proof {
            reveal(Chip::nfca_poll);
        }
        match self.nfca_request(delay, true)? {
            None => Ok(None),
            Some(atqa) => {
                let tag = self.nfca_select(delay, atqa)?;
                Ok(Some(tag))
            },
        }
    }

    /// Type 2 tag READ (4 blocks = 16 bytes from `block`).
    pub fn t2t_read<D: Delay>(&mut self, delay: &mut D, block: u8) -> (res: Result<
        [u8; 16],
        Error<P::Error>,
    >)
        ensures
            final(self).trace().extends(old(self).trace()),
            forall|l: Trace<BusEvent<P::Error>>| l.extends(final(self).trace()) ==> #[trigger]
                old(self).chip().t2t_read(l, block) == Run::Done(
                    final(self).chip(),
                    block_result(res),
                ),
    {
        let mut buf = [0u8; 18];
        let tx = [0x30u8, block];
        assert(tx@ =~= seq![0x30u8, block]);
        let n = self.transceive(delay, &tx, &mut buf, 10)?;
        if n < 16 {
            return Err(Error::Protocol);
        }
        let mut out = [0u8; 16];
        splice(&mut out, 0, vstd::slice::slice_subrange(buf.as_slice(), 0, 16));
        assert(out@ =~= buf@.take(n as int).take(16));
        Ok(out)
    }
}

fn unanswered<E>(flags: u32) -> (e: Error<E>)
    ensures
        e == silence::<E>(flags),
{
    if flags & irq::ERROR_MASK != 0 {
        Error::RxError(flags)
    } else {
        Error::Timeout
    }
}

/// One cascade level of anticollision between two frames.
pub struct Level {
    pub frame: [u8; 7],
    pub bytes: u8,
    pub bits: u8,
    pub answer: [u8; 5],
    pub offset: u8,
    pub collided: u8,
}

impl View for Level {
    type V = LevelModel;

    open spec fn view(&self) -> LevelModel {
        LevelModel {
            frame: self.frame@,
            bytes: self.bytes as int,
            bits: self.bits,
            answer: self.answer@,
            offset: self.offset as int,
            collided: self.collided,
        }
    }
}

impl Level {
    pub fn new(sel: u8) -> (level: Level)
        ensures
            level@ == LevelModel::start(sel),
            level@.valid(),
    {
        let level = Level {
            frame: [sel, 0x20, 0, 0, 0, 0, 0],
            bytes: 2,
            bits: 0,
            answer: [0, 0, 0, 0, 0],
            offset: 0,
            collided: 1,
        };
        assert(level.frame@ =~= LevelModel::start(sel).frame);
        assert(level.answer@ =~= LevelModel::start(sel).answer);
        level
    }

    /// Take in what one frame brought; `false`, with an unusable level, if the
    /// reported collision lies outside the frame.
    pub fn absorb(&mut self, collision: bool, cd: u8, got: &[u8]) -> (fits: bool)
        requires
            old(self)@.valid(),
            1 <= got@.len() <= 5 - old(self).offset,
        ensures
            fits == (old(self)@.absorb(collision, cd, got@) is Some),
            fits ==> old(self)@.absorb(collision, cd, got@) == Some(final(self)@),
            fits ==> final(self)@.valid(),
    {
        splice(&mut self.answer, self.offset as usize, got);
        if collision {
            let cbits = (cd >> 1) & 0x07;
            let high = (cd >> 4) & 0x0F;
            proof {
                crate::bits::low_bits_are_remainders(cd >> 1);
                crate::bits::low_bits_are_remainders(cd >> 4);
            }
            let bytes = high + if cbits == 7 {
                1u8
            } else {
                0u8
            };
            let bits = (cbits + 1) % 8;
            if bytes >= 7 {
                return false;
            }
            let collided = got[got.len() - 1] | (1u8 << cbits);
            self.frame[1] = bytes * 16 + bits;
            splice(&mut self.frame, 2 + self.offset as usize, got);
            self.frame[bytes as usize] = collided;
            self.bytes = bytes;
            self.bits = bits;
            self.offset = (got.len() - 1) as u8;
            self.collided = collided;
        }
        if self.bits != 0 {
            let i = self.offset as usize;
            self.answer[i] = ((self.answer[i] >> self.bits) << self.bits) | self.collided;
        }
        true
    }
}

/// A frame's outcome with its bytes as a sequence.
pub open spec fn frame_result<E>(r: Result<(bool, u8, Vec<u8>), Error<E>>) -> Result<
    (bool, u8, Seq<u8>),
    Error<E>,
> {
    match r {
        Ok((collision, cd, got)) => Ok((collision, cd, got@)),
        Err(e) => Err(e),
    }
}

pub open spec fn level_result<E>(r: Result<[u8; 5], Error<E>>) -> Result<Seq<u8>, Error<E>> {
    match r {
        Ok(a) => Ok(a@),
        Err(e) => Err(e),
    }
}

pub open spec fn block_result<E>(r: Result<[u8; 16], Error<E>>) -> Result<Seq<u8>, Error<E>> {
    match r {
        Ok(a) => Ok(a@),
        Err(e) => Err(e),
    }
}

pub open spec fn tag_result<E>(r: Result<NfcaTag, Error<E>>) -> Result<TagModel, Error<E>> {
    match r {
        Ok(tag) => Ok(tag@),
        Err(e) => Err(e),
    }
}

pub open spec fn poll_result<E>(r: Result<Option<NfcaTag>, Error<E>>) -> Result<
    Option<TagModel>,
    Error<E>,
> {
    match r {
        Ok(Some(tag)) => Ok(Some(tag@)),
        Ok(None) => Ok(None),
        Err(e) => Err(e),
    }
}

pub open spec fn exchanged<E>(r: Result<(u32, Vec<u8>), Error<E>>) -> Result<
    (u32, Seq<u8>),
    Error<E>,
> {
    match r {
        Ok((flags, got)) => Ok((flags, got@)),
        Err(e) => Err(e),
    }
}

/// The bytes in a buffer of which `n` were received.
pub open spec fn received<E>(r: Result<usize, Error<E>>, rx: Seq<u8>) -> Result<
    Seq<u8>,
    Error<E>,
> {
    match r {
        Ok(n) => Ok(rx.take(n as int)),
        Err(e) => Err(e),
    }
}

} // verus!
