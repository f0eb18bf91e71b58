//! The model of the ST25R3916 driver, replayed on bus traces.

use crate::bus::BusEvent;
use crate::st25r3916::{cmd, irq, reg, Error, Step, ADDR};
use crate::trace::{Run, Trace};
use vstd::prelude::*;

verus! {

/// The driver between two bus accesses: the position in the trace and the
/// interrupt flags it remembers.
pub struct Chip {
    pub at: int,
    /// Flags read from the chip but not yet consumed.
    pub pending: u32,
    /// Flags observed by the last request.
    pub last_request: u32,
}

/// A frame length as the chip takes it: whole bytes above three bits of
/// further ones.
pub open spec fn num_tx(bytes: u16, bits: u8) -> u16 {
    ((bytes % 0x2000) * 8 + bits % 8) as u16
}

/// An NFC-A tag after activation.
pub struct TagModel {
    pub atqa: u16,
    pub uid: Seq<u8>,
    pub uid_len: int,
    pub sak: u8,
}

/// One cascade level of anticollision between two frames.
pub struct LevelModel {
    /// The frame to send; its first `bytes` bytes and `bits` bits count.
    pub frame: Seq<u8>,
    pub bytes: int,
    pub bits: u8,
    /// The answer so far; the next bytes go to `offset`.
    pub answer: Seq<u8>,
    pub offset: int,
    /// The last colliding byte with the collided bit set to one.
    pub collided: u8,
}

impl<T, E> Run<Chip, T, E> {
    /// Bus failures reported as driver errors.
    pub open spec fn i2c(self) -> Run<Chip, T, Error<E>> {
        match self {
            Run::Done(c, Ok(t)) => Run::Done(c, Ok(t)),
            Run::Done(c, Err(e)) => Run::Done(c, Err(Error::I2c(e))),
            Run::Off => Run::Off,
        }
    }
}

impl Chip {
    pub open spec fn done<T, E>(self, t: T) -> Run<Chip, T, E> {
        Run::Done(self, Ok(t))
    }

    pub open spec fn fails<T, E>(self, e: E) -> Run<Chip, T, E> {
        Run::Done(self, Err(e))
    }

    pub open spec fn step_on(self) -> Chip {
        Chip { at: self.at + 1, ..self }
    }

    // ------------------------------------------------------------------
    // single accesses
    // ------------------------------------------------------------------

    pub open spec fn write<E>(self, l: Trace<BusEvent<E>>, sent: Seq<u8>) -> Run<Chip, (), E> {
        match crate::bus::wrote(l, self.at, ADDR, sent) {
            Some(outcome) => Run::Done(self.step_on(), outcome),
            None => Run::Off,
        }
    }

    pub open spec fn read<E>(self, l: Trace<BusEvent<E>>, sent: Seq<u8>, n: nat) -> Run<
        Chip,
        Seq<u8>,
        E,
    > {
        match crate::bus::replied(l, self.at, ADDR, sent, n) {
            Some(reply) => Run::Done(self.step_on(), reply),
            None => Run::Off,
        }
    }

    pub open spec fn pause_ms<E>(self, l: Trace<BusEvent<E>>, ms: u32) -> Run<Chip, (), E> {
        if l.at(self.at) == BusEvent::<E>::PauseMs(ms) {
            Run::Done(self.step_on(), Ok(()))
        } else {
            Run::Off
        }
    }

    pub open spec fn pause_us<E>(self, l: Trace<BusEvent<E>>, us: u32) -> Run<Chip, (), E> {
        if l.at(self.at) == BusEvent::<E>::PauseUs(us) {
            Run::Done(self.step_on(), Ok(()))
        } else {
            Run::Off
        }
    }

    pub open spec fn read_reg<E>(self, l: Trace<BusEvent<E>>, r: u8) -> Run<Chip, u8, E> {
        self.read(l, seq![0x40 | (r & 0x3F)], 1).chain(|c: Chip, b: Seq<u8>| c.done(b[0]))
    }

    pub open spec fn read_regs<E>(self, l: Trace<BusEvent<E>>, r: u8, n: nat) -> Run<
        Chip,
        Seq<u8>,
        E,
    > {
        self.read(l, seq![0x40 | (r & 0x3F)], n)
    }

    pub open spec fn write_reg<E>(self, l: Trace<BusEvent<E>>, r: u8, v: u8) -> Run<Chip, (), E> {
        self.write(l, seq![r & 0x3F, v])
    }

    pub open spec fn write_regs<E>(self, l: Trace<BusEvent<E>>, r: u8, data: Seq<u8>) -> Run<
        Chip,
        (),
        E,
    > {
        self.write(l, seq![r & 0x3F] + data)
    }

    /// Read, and write back only if a bit changes.
    pub open spec fn modify_reg<E>(
        self,
        l: Trace<BusEvent<E>>,
        r: u8,
        clear: u8,
        set: u8,
    ) -> Run<Chip, (), E> {
        self.read_reg(l, r).chain(
            |c: Chip, v: u8|
                {
                    let n = (v & !clear) | set;
                    if n != v {
                        c.write_reg(l, r, n)
                    } else {
                        c.done(())
                    }
                },
        )
    }

    pub open spec fn read_prefixed<E>(self, l: Trace<BusEvent<E>>, prefix: u8, r: u8) -> Run<
        Chip,
        u8,
        E,
    > {
        self.read(l, seq![prefix, 0x40 | (r & 0x3F)], 1).chain(
            |c: Chip, b: Seq<u8>| c.done(b[0]),
        )
    }

    pub open spec fn write_reg_b<E>(self, l: Trace<BusEvent<E>>, r: u8, v: u8) -> Run<
        Chip,
        (),
        E,
    > {
        self.write(l, seq![cmd::SPACE_B_ACCESS, r & 0x3F, v])
    }

    pub open spec fn command<E>(self, l: Trace<BusEvent<E>>, c: u8) -> Run<Chip, (), E> {
        self.write(l, seq![c])
    }

    pub open spec fn load_fifo<E>(self, l: Trace<BusEvent<E>>, data: Seq<u8>) -> Run<Chip, (), E> {
        self.write(l, seq![0x80u8] + data)
    }

    /// The number of bytes in the FIFO, and of extra bits in the last one.
    pub open spec fn fifo_status<E>(self, l: Trace<BusEvent<E>>) -> Run<Chip, (u16, u8), E> {
        self.read_regs(l, reg::FIFO_STATUS1, 2).chain(
            |c: Chip, s: Seq<u8>| c.done(crate::st25r3916::fifo_count(s[0], s[1])),
        )
    }

    /// Nothing is sent for an empty read.
    pub open spec fn read_fifo<E>(self, l: Trace<BusEvent<E>>, n: nat) -> Run<Chip, Seq<u8>, E> {
        if n == 0 {
            self.done(Seq::empty())
        } else {
            self.read(l, seq![0x9Fu8], n)
        }
    }

    // ------------------------------------------------------------------
    // interrupts
    // ------------------------------------------------------------------

    /// All four interrupt registers as one word; the error register first.
    pub open spec fn read_irq<E>(self, l: Trace<BusEvent<E>>) -> Run<Chip, u32, E> {
        self.read_reg(l, reg::IRQ_ERROR_WUP).chain(
            |c: Chip, err: u8|
                c.read_regs(l, reg::IRQ_MAIN, 2).chain(
                    |c: Chip, mn: Seq<u8>|
                        c.read_reg(l, reg::IRQ_TARGET).chain(
                            |c: Chip, tgt: u8|
                                c.done(crate::bytes::dword(mn[0], mn[1], err, tgt)),
                        ),
                ),
        )
    }

    /// Flags not consumed so far are forgotten even if the read fails.
    pub open spec fn clear_irq<E>(self, l: Trace<BusEvent<E>>) -> Run<Chip, (), E> {
        Chip { pending: 0, ..self }.read_regs(l, reg::IRQ_MAIN, 4).chain(
            |c: Chip, _d: Seq<u8>| c.done(()),
        )
    }

    pub open spec fn write_irq_mask<E>(self, l: Trace<BusEvent<E>>, mask: u32) -> Run<
        Chip,
        (),
        E,
    > {
        self.write_regs(l, reg::IRQ_MASK_MAIN, crate::bytes::be32(mask))
    }

    /// Fresh flags are added to the pending ones, which are returned and kept.
    pub open spec fn peek_irq<E>(self, l: Trace<BusEvent<E>>) -> Run<Chip, u32, E> {
        self.read_irq(l).chain(
            |c: Chip, fresh: u32|
                {
                    let pending = c.pending | fresh;
                    Chip { pending, ..c }.done(pending)
                },
        )
    }

    /// Fresh flags are added to the pending ones; those in `bits` are
    /// returned and consumed.
    pub open spec fn take_irq<E>(self, l: Trace<BusEvent<E>>, bits: u32) -> Run<Chip, u32, E> {
        self.read_irq(l).chain(
            |c: Chip, fresh: u32|
                {
                    let pending = c.pending | fresh;
                    let hit = pending & bits;
                    Chip { pending: pending & !hit, ..c }.done(hit)
                },
        )
    }

    /// Poll every 250 us until a flag of `bits` is up, at most `left` more
    /// times. All pending flags are returned, those in `bits` are consumed;
    /// a timeout adds `NRE` and consumes nothing.
    pub open spec fn wait_irq<E>(self, l: Trace<BusEvent<E>>, bits: u32, left: nat) -> Run<
        Chip,
        u32,
        E,
    >
        decreases left,
    {
        match self.peek_irq(l) {
            Run::Done(c, Ok(pending)) => {
                let hit = pending & bits;
                if hit != 0 {
                    Chip { pending: pending & !hit, ..c }.done(pending)
                } else if left == 0 {
                    c.done(pending | irq::NRE)
                } else {
                    match c.pause_us(l, 250) {
                        Run::Done(c, Ok(_)) => c.wait_irq(l, bits, (left - 1) as nat),
                        Run::Done(c, Err(e)) => Run::Done(c, Err(e)),
                        Run::Off => Run::Off,
                    }
                }
            },
            Run::Done(c, Err(e)) => Run::Done(c, Err(e)),
            Run::Off => Run::Off,
        }
    }

    // ------------------------------------------------------------------
    // register scripts
    // ------------------------------------------------------------------

    pub open spec fn step<E>(self, l: Trace<BusEvent<E>>, s: Step) -> Run<Chip, (), E> {
        match s {
            Step::Command(c) => self.command(l, c),
            Step::Write(r, v) => self.write_reg(l, r, v),
            Step::WritePair(r, a, b) => self.write_regs(l, r, seq![a, b]),
            Step::Modify { reg, clear, set } => self.modify_reg(l, reg, clear, set),
            Step::WriteB(r, v) => self.write_reg_b(l, r, v),
            Step::WriteTest(r, v) => self.write(l, seq![cmd::TEST_ACCESS, r, v]),
            Step::IrqMask(mask) => self.write_irq_mask(l, mask),
            Step::ClearIrq => self.clear_irq(l),
            Step::PauseMs(ms) => self.pause_ms(l, ms),
        }
    }

    /// The steps one after the other, up to the first failure.
    pub open spec fn steps<E>(self, l: Trace<BusEvent<E>>, s: Seq<Step>) -> Run<Chip, (), E>
        decreases s.len(),
    {
        if s.len() == 0 {
            self.done(())
        } else {
            match self.step(l, s[0]) {
                Run::Done(c, Ok(_)) => c.steps(l, s.drop_first()),
                Run::Done(c, Err(e)) => Run::Done(c, Err(e)),
                Run::Off => Run::Off,
            }
        }
    }

    // ------------------------------------------------------------------
    // bring-up
    // ------------------------------------------------------------------

    /// Look for the chip at most `left` times, 20 ms apart. A failed read
    /// counts as a miss and keeps the identity seen last.
    pub open spec fn probe<E>(self, l: Trace<BusEvent<E>>, identity: u8, left: nat) -> Run<
        Chip,
        (),
        Error<E>,
    >
        decreases left,
    {
        if left == 0 {
            self.fails(Error::NotFound { identity })
        } else {
            match self.read_reg(l, reg::IC_IDENTITY) {
                Run::Done(c, Ok(v)) if crate::st25r3916::is_st25r3916(v) => c.done(()),
                Run::Done(c, r) => match c.pause_ms::<E>(l, 20) {
                    Run::Done(c, _) => c.probe(
                        l,
                        match r {
                            Ok(v) => v,
                            Err(_) => identity,
                        },
                        (left - 1) as nat,
                    ),
                    Run::Off => Run::Off,
                },
                Run::Off => Run::Off,
            }
        }
    }

    /// Is the oscillator stable?
    pub open spec fn osc_ok<E>(self, l: Trace<BusEvent<E>>) -> Run<Chip, bool, E> {
        self.read_reg(l, reg::AUX_DISPLAY).chain(|c: Chip, v: u8| c.done(v & 0x10 != 0))
    }

    /// Nothing is started if the chip is enabled already; in any case the
    /// oscillator has to be stable in the end.
    pub open spec fn enable_osc<E>(self, l: Trace<BusEvent<E>>) -> Run<Chip, (), Error<E>> {
        self.read_reg(l, reg::OP_CONTROL).i2c().chain(
            |c: Chip, v: u8|
                if v & crate::st25r3916::EN == 0 {
                    c.steps(l, crate::st25r3916::osc_start_steps()).i2c().chain(
                        |c: Chip, _u: ()|
                            c.wait_irq(l, irq::OSC, 200).i2c().chain(
                                |c: Chip, flags: u32|
                                    c.modify_reg(l, reg::IRQ_MASK_MAIN, 0, 0x80).i2c().chain(
                                        |c: Chip, _u: ()|
                                            if flags & irq::OSC == 0 {
                                                c.osc_ok(l).i2c().chain(
                                                    |c: Chip, up: bool|
                                                        if up {
                                                            c.osc_required(l)
                                                        } else {
                                                            c.fails(Error::Oscillator)
                                                        },
                                                )
                                            } else {
                                                c.osc_required(l)
                                            },
                                    ),
                            ),
                    )
                } else {
                    c.osc_required(l)
                },
        )
    }

    pub open spec fn osc_required<E>(self, l: Trace<BusEvent<E>>) -> Run<Chip, (), Error<E>> {
        self.osc_ok(l).i2c().chain(
            |c: Chip, up: bool|
                if up {
                    c.done(())
                } else {
                    c.fails(Error::Oscillator)
                },
        )
    }

    pub open spec fn init<E>(self, l: Trace<BusEvent<E>>) -> Run<Chip, (), Error<E>> {
        self.probe(l, 0, 5).chain(
            |c: Chip, _u: ()|
                c.steps(l, crate::st25r3916::init_steps()).i2c().chain(
                    |c: Chip, _u: ()|
                        c.enable_osc(l).chain(
                            |c: Chip, _u: ()|
                                c.steps(l, crate::st25r3916::ready_steps()).i2c(),
                        ),
                ),
        )
    }

    /// Nothing is done if the transmitter is on already.
    pub open spec fn field_on<E>(self, l: Trace<BusEvent<E>>) -> Run<Chip, (), E> {
        self.read_reg(l, reg::OP_CONTROL).chain(
            |c: Chip, v: u8|
                if v & crate::st25r3916::TX_EN != 0 {
                    c.done(())
                } else {
                    c.steps(l, crate::st25r3916::field_on_steps())
                },
        )
    }

    #[verifier::opaque]
    pub open spec fn configure_nfca<E>(self, l: Trace<BusEvent<E>>) -> Run<Chip, (), Error<E>> {
        self.steps(l, crate::st25r3916::nfca_steps()).i2c().chain(
            |c: Chip, _u: ()| c.field_on(l).i2c(),
        )
    }

    pub open spec fn field_on_ca<E>(self, l: Trace<BusEvent<E>>) -> Run<Chip, u32, Error<E>> {
        self.steps(l, crate::st25r3916::field_ca_steps()).i2c().chain(
            |c: Chip, _u: ()|
                c.wait_irq(l, 0x0006_0020, 80).i2c().chain(
                    |c: Chip, flags: u32|
                        c.steps(l, crate::st25r3916::field_ca_end_steps()).i2c().chain(
                            |c: Chip, _u: ()| c.done(flags),
                        ),
                ),
        )
    }

    pub open spec fn measure_amplitude<E>(self, l: Trace<BusEvent<E>>) -> Run<Chip, u8, E> {
        self.command(l, 0xD3).chain(
            |c: Chip, _u: ()|
                c.pause_ms(l, 2).chain(|c: Chip, _u: ()| c.read_reg(l, 0x25)),
        )
    }

    pub open spec fn is_field_on<E>(self, l: Trace<BusEvent<E>>) -> Run<Chip, bool, E> {
        self.read_reg(l, reg::AUX_DISPLAY).chain(|c: Chip, v: u8| c.done(v & 0x20 != 0))
    }

    /// Registers `i..0x40` one by one into `out`, up to the first failure:
    /// what `out` holds then, and the outcome.
    pub open spec fn dump_regs<E>(self, l: Trace<BusEvent<E>>, out: Seq<u8>, i: int) -> Run<
        Chip,
        (Seq<u8>, Result<(), E>),
        E,
    >
        decreases 64 - i,
    {
        if i >= 64 {
            self.done((out, Ok(())))
        } else {
            match self.read_reg(l, i as u8) {
                Run::Done(c, Ok(v)) => c.dump_regs(l, out.update(i, v), i + 1),
                Run::Done(c, Err(e)) => c.done((out, Err(e))),
                Run::Off => Run::Off,
            }
        }
    }

    pub open spec fn status<E>(self, l: Trace<BusEvent<E>>) -> Run<Chip, (u8, u8, u8), E> {
        self.read_reg(l, reg::OP_CONTROL).chain(
            |c: Chip, op: u8|
                c.read_reg(l, reg::AUX_DISPLAY).chain(
                    |c: Chip, aux: u8|
                        c.read_prefixed(l, cmd::SPACE_B_ACCESS, 0x2C).chain(
                            |c: Chip, regd: u8| c.done((op, aux, regd)),
                        ),
                ),
        )
    }

    pub open spec fn field_off<E>(self, l: Trace<BusEvent<E>>) -> Run<Chip, (), E> {
        self.modify_reg(
            l,
            reg::OP_CONTROL,
            crate::st25r3916::TX_EN | crate::st25r3916::RX_EN,
            0,
        )
    }

    pub open spec fn power_down<E>(self, l: Trace<BusEvent<E>>) -> Run<Chip, (), E> {
        self.field_off(l).chain(
            |c: Chip, _u: ()| c.modify_reg(l, reg::OP_CONTROL, crate::st25r3916::EN, 0),
        )
    }

    // ------------------------------------------------------------------
    // frames
    // ------------------------------------------------------------------

    /// The no-response timer for a frame waiting time of `ms`.
    pub open spec fn set_fwt_ms<E>(self, l: Trace<BusEvent<E>>, ms: u32) -> Run<Chip, (), E> {
        self.read_reg(l, reg::TIMER_EMV_CONTROL).chain(
            |c: Chip, ctrl: u8|
                c.write_regs(
                    l,
                    reg::NO_RESPONSE_TIMER1,
                    crate::bytes::be16(crate::st25r3916::fwt_ticks(ms, ctrl & 0x01 != 0)),
                ),
        )
    }

    pub open spec fn set_num_tx<E>(self, l: Trace<BusEvent<E>>, bytes: u16, bits: u8) -> Run<
        Chip,
        (),
        E,
    > {
        self.write_regs(
            l,
            reg::NUM_TX_BYTES1,
            crate::bytes::be16(num_tx(bytes, bits)),
        )
    }

    pub open spec fn set_rx_crc_check<E>(self, l: Trace<BusEvent<E>>, check: bool) -> Run<
        Chip,
        (),
        E,
    > {
        self.modify_reg(
            l,
            reg::AUX,
            0x80,
            if check {
                0
            } else {
                0x80
            },
        )
    }

    pub open spec fn load_pt_mem_a<E>(self, l: Trace<BusEvent<E>>, data: Seq<u8>) -> Run<
        Chip,
        (),
        E,
    > {
        self.write(l, seq![0xA0u8] + data)
    }

    pub open spec fn target_transmit<E>(
        self,
        l: Trace<BusEvent<E>>,
        data: Seq<u8>,
        bits: u8,
    ) -> Run<Chip, (), E> {
        self.command(l, cmd::CLEAR_FIFO).chain(
            |c: Chip, _u: ()|
                c.load_fifo(l, data).chain(
                    |c: Chip, _u: ()|
                        if bits == 0 {
                            c.set_num_tx(l, data.len() as u16, 0).chain(
                                |c: Chip, _u: ()| c.command(l, cmd::TRANSMIT_WITH_CRC),
                            )
                        } else {
                            c.set_num_tx(l, 0, bits).chain(
                                |c: Chip, _u: ()| c.command(l, cmd::TRANSMIT_WITHOUT_CRC),
                            )
                        },
                ),
        )
    }

    /// What precedes every frame: timer, mode, CRC check, a clean slate.
    pub open spec fn prepare<E>(
        self,
        l: Trace<BusEvent<E>>,
        fwt_ms: u32,
        antcl: u8,
        crc_check: bool,
    ) -> Run<Chip, (), E> {
        self.set_fwt_ms(l, fwt_ms).chain(
            |c: Chip, _u: ()|
                c.write_reg(l, reg::ISO14443A_NFC, antcl).chain(
                    |c: Chip, _u: ()| c.set_rx_crc_check(l, crc_check),
                ),
        )
    }

    pub open spec fn fresh_fifo<E>(self, l: Trace<BusEvent<E>>) -> Run<Chip, (), E> {
        self.clear_irq(l).chain(|c: Chip, _u: ()| c.command(l, cmd::CLEAR_FIFO))
    }

    /// Load a frame and send it.
    pub open spec fn send<E>(
        self,
        l: Trace<BusEvent<E>>,
        data: Seq<u8>,
        bytes: u16,
        bits: u8,
        how: u8,
    ) -> Run<Chip, (), E> {
        self.fresh_fifo(l).chain(
            |c: Chip, _u: ()|
                c.load_fifo(l, data).chain(
                    |c: Chip, _u: ()|
                        c.set_num_tx(l, bytes, bits).chain(
                            |c: Chip, _u: ()| c.command(l, how),
                        ),
                ),
        )
    }

    /// A receiver that started without finishing: look at the FIFO at most
    /// `left` times, 100 us apart, for the two bytes of an ATQA.
    pub open spec fn late_answer<E>(self, l: Trace<BusEvent<E>>, left: nat) -> Run<Chip, bool, E>
        decreases left,
    {
        if left == 0 {
            self.done(false)
        } else {
            match self.fifo_status(l) {
                Run::Done(c, Ok(s)) => if s.0 >= 2 {
                    c.done(true)
                } else {
                    match c.pause_us(l, 100) {
                        Run::Done(c, Ok(_)) => c.late_answer(l, (left - 1) as nat),
                        Run::Done(c, Err(e)) => Run::Done(c, Err(e)),
                        Run::Off => Run::Off,
                    }
                },
                Run::Done(c, Err(e)) => Run::Done(c, Err(e)),
                Run::Off => Run::Off,
            }
        }
    }

    pub open spec fn nfca_request<E>(self, l: Trace<BusEvent<E>>, wakeup: bool) -> Run<
        Chip,
        Option<u16>,
        E,
    > {
        self.prepare(l, 4, 0x01, false).chain(
            |c: Chip, _u: ()|
                c.fresh_fifo(l).chain(
                    |c: Chip, _u: ()|
                        c.command(
                            l,
                            if wakeup {
                                cmd::TRANSMIT_WUPA
                            } else {
                                cmd::TRANSMIT_REQA
                            },
                        ).chain(
                            |c: Chip, _u: ()|
                                c.wait_irq(l, irq::RXE | irq::RXS | irq::COL, 24).chain(
                                    |c: Chip, flags: u32| c.request_flags(l, flags),
                                ),
                        ),
                ),
        )
    }

    pub open spec fn request_flags<E>(self, l: Trace<BusEvent<E>>, flags: u32) -> Run<
        Chip,
        Option<u16>,
        E,
    > {
        if flags & irq::RXE == 0 && flags & irq::RXS != 0 {
            self.late_answer(l, 40).chain(
                |c: Chip, late: bool|
                    c.request_answer(
                        l,
                        if late {
                            flags | irq::RXE
                        } else {
                            flags
                        },
                    ),
            )
        } else {
            self.request_answer(l, flags)
        }
    }

    pub open spec fn request_answer<E>(self, l: Trace<BusEvent<E>>, flags: u32) -> Run<
        Chip,
        Option<u16>,
        E,
    > {
        let c = Chip { last_request: flags, ..self };
        if flags & irq::RXE == 0 {
            c.done(None)
        } else {
            c.fifo_status(l).chain(
                |c: Chip, s: (u16, u8)|
                    if s.0 < 2 {
                        c.done(None)
                    } else {
                        c.read_fifo(l, 2).chain(
                            |c: Chip, atqa: Seq<u8>|
                                c.done(Some(crate::bytes::word(atqa[1], atqa[0]))),
                        )
                    },
            )
        }
    }

    /// At most `left` more frames of one cascade level.
    pub open spec fn level_frames<E>(
        self,
        l: Trace<BusEvent<E>>,
        level: LevelModel,
        left: nat,
    ) -> Run<Chip, Seq<u8>, Error<E>>
        decreases left,
    {
        if left == 0 {
            self.fails(Error::Collision)
        } else {
            match self.level_frame(l, level) {
                Run::Done(c, Ok((collision, cd, got))) => match level.absorb(collision, cd, got) {
                    None => c.fails(Error::Protocol),
                    Some(next) => if collision {
                        c.level_frames(l, next, (left - 1) as nat)
                    } else {
                        c.done(next.answer)
                    },
                },
                Run::Done(c, Err(e)) => Run::Done(c, Err(e)),
                Run::Off => Run::Off,
            }
        }
    }

    /// One frame of a cascade level: did answers collide, the collision
    /// register, and the bytes received.
    pub open spec fn level_frame<E>(self, l: Trace<BusEvent<E>>, level: LevelModel) -> Run<
        Chip,
        (bool, u8, Seq<u8>),
        Error<E>,
    > {
        self.send(
            l,
            level.frame.take(level.sent_bytes()),
            level.bytes as u16,
            level.bits,
            cmd::TRANSMIT_WITHOUT_CRC,
        ).i2c().chain(
            |c: Chip, _u: ()|
                c.wait_irq(l, irq::RXE | irq::COL, 40).i2c().chain(
                    |c: Chip, flags: u32|
                        if flags & irq::COL == 0 && flags & irq::RXE == 0 {
                            c.fails(crate::st25r3916::silence(flags))
                        } else {
                            c.level_answer(l, level, flags & irq::COL != 0)
                        },
                ),
        )
    }

    pub open spec fn level_answer<E>(
        self,
        l: Trace<BusEvent<E>>,
        level: LevelModel,
        collision: bool,
    ) -> Run<Chip, (bool, u8, Seq<u8>), Error<E>> {
        self.fifo_status(l).i2c().chain(
            |c: Chip, s: (u16, u8)|
                {
                    let n = if s.0 < 5 - level.offset {
                        s.0 as int
                    } else {
                        5 - level.offset
                    };
                    if n == 0 {
                        c.fails(Error::Protocol)
                    } else {
                        c.read_fifo(l, n as nat).i2c().chain(
                            |c: Chip, got: Seq<u8>|
                                c.read_reg(l, reg::COLLISION_STATUS).i2c().chain(
                                    |c: Chip, cd: u8| c.done((collision, cd, got)),
                                ),
                        )
                    }
                },
        )
    }

    /// One cascade level of anticollision.
    pub open spec fn nfca_level<E>(self, l: Trace<BusEvent<E>>, sel: u8) -> Run<
        Chip,
        Seq<u8>,
        Error<E>,
    > {
        self.prepare(l, 8, 0x01, true).i2c().chain(
            |c: Chip, _u: ()| c.level_frames(l, LevelModel::start(sel), 32),
        )
    }

    /// Transmit with CRC and receive at most `cap` bytes: the flags that came
    /// with the answer, and the answer.
    pub open spec fn exchange<E>(
        self,
        l: Trace<BusEvent<E>>,
        tx: Seq<u8>,
        cap: nat,
        timeout_ms: u32,
    ) -> Run<Chip, (u32, Seq<u8>), Error<E>> {
        self.prepare(l, timeout_ms, 0x00, true).i2c().chain(
            |c: Chip, _u: ()|
                c.send(l, tx, tx.len() as u16, 0, cmd::TRANSMIT_WITH_CRC).i2c().chain(
                    |c: Chip, _u: ()|
                        c.wait_irq(l, irq::RXE, ((timeout_ms + 2) * 4) as nat).i2c().chain(
                            |c: Chip, flags: u32|
                                if flags & irq::RXE == 0 {
                                    c.fails(crate::st25r3916::silence(flags))
                                } else {
                                    c.receive(l, cap).i2c().chain(
                                        |c: Chip, got: Seq<u8>| c.done((flags, got)),
                                    )
                                },
                        ),
                ),
        )
    }

    /// Transmit with CRC and receive at most `cap` bytes without error.
    pub open spec fn transceive<E>(
        self,
        l: Trace<BusEvent<E>>,
        tx: Seq<u8>,
        cap: nat,
        timeout_ms: u32,
    ) -> Run<Chip, Seq<u8>, Error<E>> {
        self.exchange(l, tx, cap, timeout_ms).chain(
            |c: Chip, answer: (u32, Seq<u8>)|
                if answer.0 & irq::ERROR_MASK != 0 {
                    c.fails(Error::RxError(answer.0))
                } else {
                    c.done(answer.1)
                },
        )
    }

    /// The FIFO's content, cut to `cap` bytes.
    pub open spec fn receive<E>(self, l: Trace<BusEvent<E>>, cap: nat) -> Run<Chip, Seq<u8>, E> {
        self.fifo_status(l).chain(
            |c: Chip, s: (u16, u8)|
                c.read_fifo(
                    l,
                    if s.0 < cap {
                        s.0 as nat
                    } else {
                        cap
                    },
                ),
        )
    }

    /// Anticollision and SELECT from cascade level `lv` on.
    pub open spec fn nfca_select<E>(self, l: Trace<BusEvent<E>>, tag: TagModel, lv: int) -> Run<
        Chip,
        TagModel,
        Error<E>,
    >
        decreases 4 - lv,
    {
        if lv > 3 {
            self.fails(Error::Protocol)
        } else {
            match self.nfca_level(l, crate::st25r3916::sel_code(lv)) {
                Run::Done(c, Ok(r)) => match c.transceive(
                    l,
                    seq![crate::st25r3916::sel_code(lv), 0x70u8] + r,
                    3,
                    8,
                ) {
                    Run::Done(c, Ok(got)) => if got.len() < 1 {
                        c.fails(Error::Protocol)
                    } else {
                        let next = tag.with_level(lv, r, got[0]);
                        if got[0] & 0x04 == 0 {
                            c.done(TagModel { uid_len: 3 * lv + 1, ..next })
                        } else {
                            c.nfca_select(l, next, lv + 1)
                        }
                    },
                    Run::Done(c, Err(e)) => Run::Done(c, Err(e)),
                    Run::Off => Run::Off,
                },
                Run::Done(c, Err(e)) => Run::Done(c, Err(e)),
                Run::Off => Run::Off,
            }
        }
    }

    pub open spec fn nfca_halt<E>(self, l: Trace<BusEvent<E>>) -> Run<Chip, (), E> {
        self.prepare(l, 2, 0x00, true).chain(
            |c: Chip, _u: ()|
                c.send(l, seq![0x50u8, 0x00u8], 2, 0, cmd::TRANSMIT_WITH_CRC).chain(
                    |c: Chip, _u: ()|
                        c.wait_irq(l, irq::TXE, 16).chain(|c: Chip, _flags: u32| c.done(())),
                ),
        )
    }

    #[verifier::opaque]
    pub open spec fn nfca_poll<E>(self, l: Trace<BusEvent<E>>) -> Run<
        Chip,
        Option<TagModel>,
        Error<E>,
    > {
        self.nfca_request(l, true).i2c().chain(
            |c: Chip, answer: Option<u16>|
                match answer {
                    None => c.done(None),
                    Some(atqa) => c.nfca_select(l, TagModel::fresh(atqa), 1).chain(
                        |c: Chip, tag: TagModel| c.done(Some(tag)),
                    ),
                },
        )
    }

    /// Four blocks of a Type 2 tag.
    pub open spec fn t2t_read<E>(self, l: Trace<BusEvent<E>>, block: u8) -> Run<
        Chip,
        Seq<u8>,
        Error<E>,
    > {
        self.transceive(l, seq![0x30u8, block], 18, 10).chain(
            |c: Chip, got: Seq<u8>|
                if got.len() < 16 {
                    c.fails(Error::Protocol)
                } else {
                    c.done(got.take(16))
                },
        )
    }
}

impl TagModel {
    pub open spec fn fresh(atqa: u16) -> TagModel {
        TagModel { atqa, uid: Seq::new(10, |_i: int| 0u8), uid_len: 0, sak: 0 }
    }

    /// The tag after the answer `r` of cascade level `lv` and the SAK: three
    /// bytes of UID follow a cascade tag, four end the UID.
    pub open spec fn with_level(self, lv: int, r: Seq<u8>, sak: u8) -> TagModel {
        let part = if r[0] == 0x88 {
            r.subrange(1, 4)
        } else {
            r.subrange(0, 4)
        };
        TagModel { uid: crate::bytes::spliced(self.uid, (lv - 1) * 3, part), sak, ..self }
    }
}

impl LevelModel {
    /// The first frame asks everybody.
    pub open spec fn start(sel: u8) -> LevelModel {
        LevelModel {
            frame: seq![sel, 0x20u8, 0u8, 0u8, 0u8, 0u8, 0u8],
            bytes: 2,
            bits: 0,
            answer: seq![0u8, 0u8, 0u8, 0u8, 0u8],
            offset: 0,
            collided: 1,
        }
    }

    /// The number of frame bytes that are loaded, with a started one.
    pub open spec fn sent_bytes(self) -> int {
        self.bytes + if self.bits != 0 {
            1int
        } else {
            0int
        }
    }

    pub open spec fn valid(self) -> bool {
        &&& self.frame.len() == 7
        &&& self.answer.len() == 5
        &&& 0 <= self.bytes
        &&& self.sent_bytes() <= 7
        &&& self.bits < 8
        &&& 0 <= self.offset < 5
    }

    /// Take in the bytes `got`. After a collision at the position that the
    /// collision register `cd` reports, the next frame repeats what is known
    /// and picks a one for the collided bit. `None` if that position lies
    /// outside the frame.
    pub open spec fn absorb(self, collision: bool, cd: u8, got: Seq<u8>) -> Option<LevelModel> {
        let answer = crate::bytes::spliced(self.answer, self.offset, got);
        if collision {
            let cbits = (cd >> 1) & 0x07;
            let bytes = ((cd >> 4) & 0x0F) + if cbits == 7 {
                1int
            } else {
                0int
            };
            let bits = ((cbits + 1) % 8) as u8;
            if bytes >= 7 {
                None
            } else {
                let collided = got.last() | (1u8 << cbits);
                Some(
                    LevelModel {
                        frame: crate::bytes::spliced(
                            self.frame.update(1, (bytes * 16 + bits) as u8),
                            2 + self.offset,
                            got,
                        ).update(bytes, collided),
                        bytes,
                        bits,
                        answer,
                        offset: got.len() - 1,
                        collided,
                    }.kept(),
                )
            }
        } else {
            Some(LevelModel { answer, ..self }.kept())
        }
    }

    /// In a started byte of the answer, the bits that were sent win.
    pub open spec fn kept(self) -> LevelModel {
        if self.bits != 0 {
            LevelModel {
                answer: self.answer.update(
                    self.offset,
                    ((self.answer[self.offset] >> self.bits) << self.bits) | self.collided,
                ),
                ..self
            }
        } else {
            self
        }
    }
}

} // verus!
