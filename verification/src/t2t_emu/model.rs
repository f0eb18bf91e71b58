//! The model of the emulated tag: its memory, the commands it serves, and the
//! state machine replayed on bus traces.

use crate::bus::BusEvent;
use crate::st25r3916::model::Chip;
use crate::st25r3916::{cmd, irq, reg, Error};
use crate::t2t_emu::{
    CmdResult, Event, State, ACK, AUX_NO_CRC_RX, D_106_AC_A, D_212_424_1R, D_AC_AP2P, MEM_BYTES,
    MODE_TARGET_BITRATE_DETECT, MODE_TARGET_LISTEN_A, NAK, OP_EN, OP_RX_EN, OP_TX_EN, OP_WU, PAGES,
    RETRIES, USER_BYTES, USER_FIRST_PAGE, USER_LAST_PAGE,
};
use crate::trace::{Run, Trace};
use vstd::prelude::*;

verus! {

/// The emulated tag.
pub struct Tag {
    pub memory: Seq<u8>,
    pub state: State,
    pub bitrate_106: bool,
    pub wakeup: bool,
    pub dirty: bool,
    pub commands: u32,
    pub last_cmd: u8,
}

/// What serving a command gives: the tag afterwards, the answer with its
/// number of bits (zero: whole bytes with CRC), and what comes next.
pub struct Served {
    pub tag: Tag,
    pub answer: Option<(Seq<u8>, u8)>,
    pub next: CmdResult,
}

/// Tag and chip together.
pub struct Emu {
    pub tag: Tag,
    pub chip: Chip,
}

/// Memory of an empty tag: UID with cascade tag and check bytes, lock bytes
/// (all unlocked), capability container, an empty NDEF TLV, and the defaults
/// of the configuration pages.
pub open spec fn fresh_memory(uid: Seq<u8>) -> Seq<u8> {
    Seq::new(
        MEM_BYTES as nat,
        |i: int|
            if i < 3 {
                uid[i]
            } else if i == 3 {
                0x88 ^ uid[0] ^ uid[1] ^ uid[2]
            } else if i < 8 {
                uid[i - 1]
            } else if i == 8 {
                uid[3] ^ uid[4] ^ uid[5] ^ uid[6]
            } else if i == 9 {
                0x48
            } else if i == 12 {
                0xE1
            } else if i == 13 {
                0x10
            } else if i == 14 {
                0x6D
            } else if i == 16 {
                0x03
            } else if i == 18 {
                0xFE
            } else if i == 907 {
                0xFF
            } else if i == 909 {
                0x05
            } else if 912 <= i < 916 {
                0xFF
            } else {
                0
            },
    )
}

/// The bytes of an NDEF TLV with its terminator.
pub open spec fn ndef_tlv(msg: Seq<u8>) -> Seq<u8> {
    let header = if msg.len() < 0xFF {
        seq![0x03u8, msg.len() as u8]
    } else {
        seq![0x03u8, 0xFFu8] + crate::bytes::be16(msg.len() as u16)
    };
    header + msg + seq![0xFEu8]
}

/// Start and length of the value of the TLV at `i`, if it lies inside.
pub open spec fn tlv(user: Seq<u8>, i: int) -> Option<(int, int)> {
    if i + 1 >= user.len() {
        None
    } else if user[i + 1] == 0xFF {
        if i + 3 >= user.len() {
            None
        } else {
            let n = crate::bytes::word(user[i + 2], user[i + 3]) as int;
            if i + 4 + n <= user.len() {
                Some((i + 4, n))
            } else {
                None
            }
        }
    } else {
        let n = user[i + 1] as int;
        if i + 2 + n <= user.len() {
            Some((i + 2, n))
        } else {
            None
        }
    }
}

/// The value of the first NDEF TLV at or after `i`: NULL TLVs and TLVs of
/// other types are skipped, the terminator or a broken TLV ends the search.
pub open spec fn ndef_from(user: Seq<u8>, i: int) -> Option<Seq<u8>>
    decreases user.len() - i,
{
    if i >= user.len() {
        None
    } else if user[i] == 0x00 {
        ndef_from(user, i + 1)
    } else if user[i] == 0xFE {
        None
    } else {
        match tlv(user, i) {
            None => None,
            Some((at, n)) => if user[i] == 0x03 {
                Some(user.subrange(at, at + n))
            } else {
                ndef_from(user, at + n)
            },
        }
    }
}

impl Tag {
    pub open spec fn fresh(uid: Seq<u8>) -> Tag {
        Tag {
            memory: fresh_memory(uid),
            state: State::Off,
            bitrate_106: false,
            wakeup: false,
            dirty: false,
            commands: 0,
            last_cmd: 0,
        }
    }

    pub open spec fn uid(self) -> Seq<u8> {
        self.memory.subrange(0, 3) + self.memory.subrange(4, 8)
    }

    /// User memory.
    pub open spec fn user(self) -> Seq<u8> {
        self.memory.subrange(USER_FIRST_PAGE * 4, (USER_LAST_PAGE + 1) * 4)
    }

    /// The NDEF message in user memory.
    pub open spec fn ndef(self) -> Option<Seq<u8>> {
        ndef_from(self.user(), 0)
    }

    /// The message as the only TLV in user memory, zeros behind it.
    pub open spec fn with_ndef(self, msg: Seq<u8>) -> Tag {
        let t = ndef_tlv(msg);
        Tag {
            memory: crate::bytes::spliced(
                self.memory,
                USER_FIRST_PAGE * 4,
                t + Seq::new((USER_BYTES - t.len()) as nat, |_i: int| 0u8),
            ),
            ..self
        }
    }

    /// A four-bit answer.
    pub open spec fn acks(self, nibble: u8, next: CmdResult) -> Served {
        Served { tag: self, answer: Some((seq![nibble], 4)), next }
    }

    /// An answer of whole bytes; the tag stays selected.
    pub open spec fn answers(self, data: Seq<u8>) -> Served {
        Served { tag: self, answer: Some((data, 0)), next: CmdResult::Stay }
    }

    /// The Type 2 command set.
    pub open spec fn serve(self, rx: Seq<u8>) -> Served {
        if rx[0] == 0x30 && rx.len() == 2 {
            // READ: four pages, wrapping at the end of memory
            if rx[1] >= PAGES {
                self.acks(NAK, CmdResult::Drop)
            } else {
                self.answers(
                    Seq::new(16, |i: int| self.memory[(rx[1] * 4 + i) % (MEM_BYTES as int)]),
                )
            }
        } else if rx[0] == 0x3A && rx.len() == 3 {
            // FAST_READ: pages from..=to
            if rx[1] > rx[2] || rx[2] >= PAGES || (rx[2] - rx[1] + 1) * 4 > 512 {
                self.acks(NAK, CmdResult::Drop)
            } else {
                self.answers(self.memory.subrange(rx[1] * 4, (rx[2] + 1) * 4))
            }
        } else if rx[0] == 0xA2 && rx.len() == 6 {
            // WRITE: one page; page 2 is acknowledged and left alone
            if rx[1] < 2 || rx[1] >= PAGES {
                self.acks(NAK, CmdResult::Drop)
            } else if rx[1] < 3 {
                self.acks(ACK, CmdResult::Stay)
            } else {
                Tag {
                    memory: crate::bytes::spliced(self.memory, rx[1] * 4, rx.subrange(2, 6)),
                    dirty: true,
                    ..self
                }.acks(ACK, CmdResult::Stay)
            }
        } else if rx[0] == 0x60 && rx.len() == 1 {
            // GET_VERSION
            self.answers(seq![0x00u8, 0x04, 0x04, 0x02, 0x01, 0x00, 0x13, 0x03])
        } else if rx[0] == 0x3C && rx.len() == 2 {
            // READ_SIG: 32 zero bytes
            self.answers(Seq::new(32, |_i: int| 0u8))
        } else if rx[0] == 0x50 {
            // HLTA
            Served { tag: self, answer: None, next: CmdResult::Halt }
        } else {
            self.acks(NAK, CmdResult::Drop)
        }
    }

    /// What the PT memory of the chip gets: UID, ATQA, SAK of each level.
    pub open spec fn pt_memory(self) -> Seq<u8> {
        self.uid() + seq![0u8, 0u8, 0u8, 0x44u8, 0x00u8, 0x04u8, 0x00u8, 0x00u8]
    }
}

impl Emu {
    pub open spec fn done<T, E>(self, t: T) -> Run<Emu, T, E> {
        Run::Done(self, Ok(t))
    }

    /// The tag with what a run of the chip gives.
    pub open spec fn on<T, E>(self, run: Run<Chip, T, E>) -> Run<Emu, T, E> {
        match run {
            Run::Done(chip, r) => Run::Done(Emu { chip, ..self }, r),
            Run::Off => Run::Off,
        }
    }

    pub open spec fn in_state(self, state: State) -> Emu {
        Emu { tag: Tag { state, ..self.tag }, ..self }
    }

    #[verifier::opaque]
    pub open spec fn start<E>(self, l: Trace<BusEvent<E>>) -> Run<Emu, (), Error<E>> {
        match self.on(self.chip.init(l)) {
            Run::Done(m, Ok(_)) => match m.configure(l) {
                Run::Done(m, Ok(_)) => m.done(()),
                Run::Done(m, Err(e)) => Run::Done(m, Err(Error::I2c(e))),
                Run::Off => Run::Off,
            },
            Run::Done(m, Err(e)) => Run::Done(m, Err(e)),
            Run::Off => Run::Off,
        }
    }

    pub open spec fn configure<E>(self, l: Trace<BusEvent<E>>) -> Run<Emu, (), E> {
        self.on(self.chip.steps(l, crate::t2t_emu::target_steps())).chain(
            |m: Emu, _u: ()|
                m.on(m.chip.load_pt_mem_a(l, m.tag.pt_memory())).chain(
                    |m: Emu, _u: ()|
                        m.on(m.chip.steps(l, crate::t2t_emu::listen_steps())).chain(
                            |m: Emu, _u: ()|
                                Emu { tag: Tag { dirty: false, ..m.tag }, ..m }.goto_off(
                                    l,
                                    RETRIES as nat,
                                ),
                        ),
                ),
        )
    }

    pub open spec fn stop<E>(self, l: Trace<BusEvent<E>>) -> Run<Emu, (), E> {
        self.on(self.chip.modify_reg(l, reg::OP_CONTROL, 0, OP_EN)).chain(
            |m: Emu, _u: ()|
                m.on(m.chip.modify_reg(l, reg::OP_CONTROL, OP_TX_EN | OP_RX_EN, 0)).chain(
                    |m: Emu, _u: ()|
                        m.on(
                            m.chip.modify_reg(
                                l,
                                reg::NFCIP1_PASSIVE_TARGET,
                                0,
                                D_AC_AP2P | D_212_424_1R | D_106_AC_A,
                            ),
                        ).chain(
                            |m: Emu, _u: ()|
                                m.on(m.chip.write_reg(l, reg::MODE, 0x00)).chain(
                                    |m: Emu, _u: ()| m.in_state(State::Off).done(()),
                                ),
                        ),
                ),
        )
    }

    /// Is there an external field?
    pub open spec fn field_present<E>(self, l: Trace<BusEvent<E>>) -> Run<Emu, bool, E> {
        self.on(self.chip.read_reg(l, reg::AUX_DISPLAY)).chain(
            |m: Emu, v: u8| m.done(v & 0x40 != 0),
        )
    }

    /// Wait for the field in Ready mode; with a field, go to Idle. At most
    /// `tries` more attempts to start a stuck oscillator.
    pub open spec fn goto_off<E>(self, l: Trace<BusEvent<E>>, tries: nat) -> Run<Emu, (), E>
        decreases tries,
    {
        match self.sense(l) {
            Run::Done(m, Ok(present)) => if present {
                match m.ensure_osc(l) {
                    Run::Done(m, Ok(up)) => if up {
                        m.listen(l)
                    } else if tries == 0 {
                        m.in_state(State::Off).done(())
                    } else {
                        m.goto_off(l, (tries - 1) as nat)
                    },
                    Run::Done(m, Err(e)) => Run::Done(m, Err(e)),
                    Run::Off => Run::Off,
                }
            } else {
                m.on(m.chip.steps(l, crate::t2t_emu::off_steps())).chain(
                    |m: Emu, _u: ()| m.in_state(State::Off).done(()),
                )
            },
            Run::Done(m, Err(e)) => Run::Done(m, Err(e)),
            Run::Off => Run::Off,
        }
    }

    /// Restart sensing and look for a field.
    pub open spec fn sense<E>(self, l: Trace<BusEvent<E>>) -> Run<Emu, bool, E> {
        let m = Emu { tag: Tag { bitrate_106: false, wakeup: false, ..self.tag }, ..self };
        m.on(m.chip.steps(l, crate::t2t_emu::sense_steps())).chain(
            |m: Emu, _u: ()| m.field_present(l),
        )
    }

    /// Start the oscillator unless it runs, and listen. An oscillator that
    /// does not start within 205 ms leads back to Off.
    pub open spec fn goto_idle<E>(self, l: Trace<BusEvent<E>>, tries: nat) -> Run<Emu, (), E> {
        self.ensure_osc(l).chain(
            |m: Emu, up: bool|
                if up {
                    m.listen(l)
                } else if tries == 0 {
                    m.in_state(State::Off).done(())
                } else {
                    m.goto_off(l, (tries - 1) as nat)
                },
        )
    }

    pub open spec fn ensure_osc<E>(self, l: Trace<BusEvent<E>>) -> Run<Emu, bool, E> {
        self.on(self.chip.read_reg(l, reg::OP_CONTROL)).chain(
            |m: Emu, v: u8|
                if v & OP_EN == 0 {
                    m.on(m.chip.modify_reg(l, reg::OP_CONTROL, 0, OP_EN | OP_RX_EN)).chain(
                        |m: Emu, _u: ()| m.osc_wait(l, 41),
                    )
                } else {
                    m.done(true)
                },
        )
    }

    /// Poll the oscillator every 5 ms, at most `left` more times.
    pub open spec fn osc_wait<E>(self, l: Trace<BusEvent<E>>, left: nat) -> Run<Emu, bool, E>
        decreases left,
    {
        match self.on(self.chip.read_reg(l, reg::AUX_DISPLAY)) {
            Run::Done(m, Ok(v)) => if v & 0x10 != 0 {
                m.done(true)
            } else if left == 0 {
                m.done(false)
            } else {
                match m.on(m.chip.pause_ms(l, 5)) {
                    Run::Done(m, Ok(_)) => m.osc_wait(l, (left - 1) as nat),
                    Run::Done(m, Err(e)) => Run::Done(m, Err(e)),
                    Run::Off => Run::Off,
                }
            },
            Run::Done(m, Err(e)) => Run::Done(m, Err(e)),
            Run::Off => Run::Off,
        }
    }

    pub open spec fn listen<E>(self, l: Trace<BusEvent<E>>) -> Run<Emu, (), E> {
        self.on(self.chip.modify_reg(l, reg::AUX, 0, AUX_NO_CRC_RX)).chain(
            |m: Emu, _u: ()|
                m.resense(l).chain(
                    |m: Emu, _u: ()|
                        m.flush(l).chain(
                            |m: Emu, _u: ()|
                                Emu {
                                    tag: Tag { wakeup: false, state: State::Idle, ..m.tag },
                                    ..m
                                }.done(()),
                        ),
                ),
        )
    }

    /// A selected tag that was not woken from Halt answers REQA again.
    pub open spec fn resense<E>(self, l: Trace<BusEvent<E>>) -> Run<Emu, (), E> {
        if self.tag.state == State::Active && !self.tag.wakeup {
            self.on(self.chip.modify_reg(l, reg::NFCIP1_PASSIVE_TARGET, D_106_AC_A, 0)).chain(
                |m: Emu, _u: ()| m.on(m.chip.command(l, cmd::GO_TO_SENSE)),
            )
        } else {
            self.done(())
        }
    }

    pub open spec fn flush<E>(self, l: Trace<BusEvent<E>>) -> Run<Emu, (), E> {
        self.on(self.chip.command(l, cmd::CLEAR_FIFO)).chain(
            |m: Emu, _u: ()| m.on(m.chip.command(l, cmd::UNMASK_RECEIVE_DATA)),
        )
    }

    pub open spec fn goto_ready<E>(self, l: Trace<BusEvent<E>>) -> Run<Emu, (), E> {
        self.on(self.chip.take_irq(l, irq::EOF)).chain(
            |m: Emu, f: u32|
                if f != 0 {
                    m.goto_off(l, RETRIES as nat)
                } else {
                    m.on(m.chip.steps(l, crate::t2t_emu::ready_steps())).chain(
                        |m: Emu, _u: ()| m.in_state(State::Ready).done(()),
                    )
                },
        )
    }

    pub open spec fn goto_active<E>(self, l: Trace<BusEvent<E>>) -> Run<Emu, (), E> {
        self.on(self.chip.modify_reg(l, reg::NFCIP1_PASSIVE_TARGET, 0, D_106_AC_A)).chain(
            |m: Emu, _u: ()|
                m.on(m.chip.take_irq(l, irq::ERROR_MASK)).chain(
                    |m: Emu, _f: u32| m.in_state(State::Active).done(()),
                ),
        )
    }

    pub open spec fn goto_halt<E>(self, l: Trace<BusEvent<E>>) -> Run<Emu, (), E> {
        self.on(self.chip.steps(l, crate::t2t_emu::halt_steps())).chain(
            |m: Emu, _u: ()|
                m.field_present(l).chain(
                    |m: Emu, present: bool|
                        if present {
                            m.in_state(State::Halt).done(())
                        } else {
                            m.goto_off(l, RETRIES as nat)
                        },
                ),
        )
    }

    /// Back to where the reader found us: Halt after a wake-up, else Idle.
    pub open spec fn fall_back<E>(self, l: Trace<BusEvent<E>>) -> Run<Emu, (), E> {
        if self.tag.wakeup {
            self.goto_halt(l)
        } else {
            self.goto_idle(l, RETRIES as nat)
        }
    }

    pub open spec fn read_bitrate<E>(self, l: Trace<BusEvent<E>>) -> Run<Emu, (), E> {
        self.on(self.chip.read_reg(l, reg::BITRATE_DETECT)).chain(
            |m: Emu, v: u8|
                Emu { tag: Tag { bitrate_106: (v >> 4) & 0x03 == 0, ..m.tag }, ..m }.done(()),
        )
    }

    // ------------------------------------------------------------------
    // one round of the state machine
    // ------------------------------------------------------------------

    pub open spec fn update_off<E>(self, l: Trace<BusEvent<E>>) -> Run<Emu, (), E> {
        self.on(self.chip.take_irq(l, irq::EON)).chain(
            |m: Emu, f: u32|
                if f != 0 {
                    m.field_appears(l)
                } else {
                    m.field_present(l).chain(
                        |m: Emu, present: bool|
                            if present {
                                m.field_appears(l)
                            } else {
                                m.done(())
                            },
                    )
                },
        )
    }

    pub open spec fn field_appears<E>(self, l: Trace<BusEvent<E>>) -> Run<Emu, (), E> {
        Emu { tag: Tag { commands: 0, ..self.tag }, ..self }.goto_idle(l, RETRIES as nat)
    }

    pub open spec fn update_idle<E>(self, l: Trace<BusEvent<E>>) -> Run<Emu, (), E> {
        self.on(
            self.chip.take_irq(l, irq::NFCT | irq::RXE | irq::EOF | irq::RXE_PTA),
        ).chain(
            |m: Emu, f: u32|
                if f & irq::NFCT != 0 {
                    m.read_bitrate(l).chain(|m: Emu, _u: ()| m.idle_flags(l, f))
                } else {
                    m.idle_flags(l, f)
                },
        )
    }

    pub open spec fn idle_flags<E>(self, l: Trace<BusEvent<E>>, f: u32) -> Run<Emu, (), E> {
        if f & irq::EOF != 0 {
            self.goto_off(l, RETRIES as nat)
        } else if f & irq::RXE != 0 {
            self.stray(l)
        } else if f & irq::RXE_PTA != 0 && self.tag.bitrate_106 {
            self.on(self.chip.read_reg(l, reg::PT_DISPLAY)).chain(
                |m: Emu, v: u8|
                    {
                        let halted = m.tag.state == State::Halt;
                        if v & 0x0F > (if halted {
                            0x09u8
                        } else {
                            0x01u8
                        }) {
                            Emu { tag: Tag { wakeup: halted, ..m.tag }, ..m }.goto_ready(l)
                        } else {
                            m.done(())
                        }
                    },
            )
        } else {
            self.done(())
        }
    }

    /// A frame the auto-responder did not handle is read in part and dropped.
    pub open spec fn stray<E>(self, l: Trace<BusEvent<E>>) -> Run<Emu, (), E> {
        self.on(self.chip.take_irq(l, irq::ERROR_MASK)).chain(
            |m: Emu, _errs: u32|
                m.on(m.chip.fifo_status(l)).chain(
                    |m: Emu, s: (u16, u8)|
                        m.discard(l, s.0).chain(
                            |m: Emu, _u: ()|
                                if m.tag.state == State::Idle {
                                    m.on(m.chip.modify_reg(l, reg::OP_CONTROL, OP_TX_EN, 0))
                                } else {
                                    m.done(())
                                },
                        ),
                ),
        )
    }

    /// Read at most four bytes of the FIFO, then drop the rest.
    pub open spec fn discard<E>(self, l: Trace<BusEvent<E>>, bytes: u16) -> Run<Emu, (), E> {
        self.on(
            self.chip.read_fifo(
                l,
                if bytes < 4 {
                    bytes as nat
                } else {
                    4
                },
            ),
        ).chain(|m: Emu, _peek: Seq<u8>| m.flush(l))
    }

    pub open spec fn update_ready<E>(self, l: Trace<BusEvent<E>>) -> Run<Emu, (), E> {
        let wake = if self.tag.wakeup {
            irq::WU_AX
        } else {
            irq::WU_A
        };
        self.on(self.chip.take_irq(l, irq::EOF | wake)).chain(
            |m: Emu, f: u32|
                if f & irq::EOF != 0 {
                    m.goto_off(l, RETRIES as nat)
                } else if f & wake != 0 {
                    m.goto_active(l)
                } else {
                    m.done(())
                },
        )
    }

    pub open spec fn update_active<E>(self, l: Trace<BusEvent<E>>) -> Run<Emu, (), E> {
        self.on(self.chip.take_irq(l, irq::EOF | irq::RXE)).chain(
            |m: Emu, f: u32|
                if f & irq::EOF != 0 {
                    m.goto_off(l, RETRIES as nat)
                } else if f & irq::RXE != 0 {
                    m.frame(l)
                } else {
                    m.done(())
                },
        )
    }

    /// A received frame: dropped if it is broken, too short or too long, else
    /// a command followed by its CRC.
    pub open spec fn frame<E>(self, l: Trace<BusEvent<E>>) -> Run<Emu, (), E> {
        self.on(self.chip.take_irq(l, irq::ERROR_MASK)).chain(
            |m: Emu, errs: u32|
                m.on(m.chip.fifo_status(l)).chain(
                    |m: Emu, s: (u16, u8)|
                        if errs != 0 || s.0 <= 2 || s.0 > 64 {
                            m.discard(l, s.0).chain(|m: Emu, _u: ()| m.fall_back(l))
                        } else {
                            m.on(m.chip.read_fifo(l, (s.0 - 2) as nat)).chain(
                                |m: Emu, rx: Seq<u8>| m.command(l, rx),
                            )
                        },
                ),
        )
    }

    /// Count, serve and answer one command, then move on.
    pub open spec fn command<E>(self, l: Trace<BusEvent<E>>, rx: Seq<u8>) -> Run<Emu, (), E> {
        Emu {
            tag: Tag {
                commands: ((self.tag.commands + 1) % 0x1_0000_0000) as u32,
                last_cmd: rx[0],
                ..self.tag
            },
            ..self
        }.handle_command(l, rx).chain(
            |m: Emu, next: CmdResult|
                match next {
                    CmdResult::Stay => m.done(()),
                    CmdResult::Halt => m.goto_halt(l),
                    CmdResult::Drop => m.fall_back(l),
                },
        )
    }

    /// Memory changes before the answer goes out.
    pub open spec fn handle_command<E>(self, l: Trace<BusEvent<E>>, rx: Seq<u8>) -> Run<
        Emu,
        CmdResult,
        E,
    > {
        let served = self.tag.serve(rx);
        let m = Emu { tag: served.tag, ..self };
        match served.answer {
            None => m.done(served.next),
            Some((data, bits)) => m.on(m.chip.target_transmit(l, data, bits)).chain(
                |m: Emu, _u: ()| m.done(served.next),
            ),
        }
    }

    /// The event that a change of state from `before` is, and what it resets.
    pub open spec fn report(self, before: State) -> (Emu, Event) {
        let after = self.tag.state;
        if before == State::Off && after != State::Off {
            (self, Event::FieldOn)
        } else if before != State::Off && after == State::Off {
            (
                Emu { tag: Tag { dirty: false, ..self.tag }, ..self },
                Event::FieldOff { written: self.tag.dirty },
            )
        } else if before != State::Active && after == State::Active {
            (self, Event::Selected)
        } else {
            (self, Event::Unchanged)
        }
    }

    pub open spec fn round<E>(self, l: Trace<BusEvent<E>>) -> Run<Emu, (), E> {
        match self.tag.state {
            State::Off => self.update_off(l),
            State::Idle | State::Halt => self.update_idle(l),
            State::Ready => self.update_ready(l),
            State::Active => self.update_active(l),
        }
    }

    #[verifier::opaque]
    pub open spec fn update<E>(self, l: Trace<BusEvent<E>>) -> Run<Emu, Event, E> {
        let before = self.tag.state;
        self.round(l).chain(
            |m: Emu, _u: ()|
                {
                    let (m, event) = m.report(before);
                    m.done(event)
                },
        )
    }
}

} // verus!
