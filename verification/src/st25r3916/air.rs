//! What goes through the air.
//!
//! The chip keeps what is loaded into its FIFO and sends it when told to: as
//! many bits as were announced, with or without CRC. Here its bus is listened to
//! from that side, and what each operation of the driver sends, and where its
//! result comes from, is stated frame by frame.

use crate::bus::BusEvent;
use crate::st25r3916::model::{Chip, LevelModel};
use crate::trace::{Run, Trace};
use vstd::prelude::*;

verus! {

/// A frame that was sent: how (the command), what, and how many bits of it.
pub struct Frame {
    pub how: u8,
    pub data: Seq<u8>,
    pub bits: int,
}

/// The sending side of the chip.
pub struct Radio {
    pub fifo: Seq<u8>,
    /// Bits announced for the next frame.
    pub bits: int,
    pub frames: Seq<Frame>,
}

impl Radio {
    /// After one event on the bus.
    pub open spec fn hear<E>(self, event: BusEvent<E>) -> Radio {
        match event {
            BusEvent::Write { addr, sent, outcome } => if addr != 0x50 || outcome is Err
                || sent.len() == 0 {
                self
            } else if sent[0] == 0x80 {
                Radio { fifo: self.fifo + sent.skip(1), ..self }
            } else if sent[0] == 0x22 && sent.len() == 3 {
                Radio { bits: 256 * sent[1] + sent[2], ..self }
            } else if sent.len() != 1 {
                self
            } else if sent[0] == 0xDB {
                Radio { fifo: Seq::empty(), ..self }
            } else if sent[0] == 0xC4 || sent[0] == 0xC5 {
                Radio {
                    frames: self.frames.push(
                        Frame { how: sent[0], data: self.fifo, bits: self.bits },
                    ),
                    ..self
                }
            } else if sent[0] == 0xC6 || sent[0] == 0xC7 {
                Radio {
                    frames: self.frames.push(
                        Frame { how: sent[0], data: Seq::empty(), bits: 7 },
                    ),
                    ..self
                }
            } else {
                self
            },
            _ => self,
        }
    }

    /// After the events from `from` up to `to`.
    pub open spec fn listen<E>(self, l: Trace<BusEvent<E>>, from: int, to: int) -> Radio
        decreases to - from,
    {
        if from >= to {
            self
        } else {
            self.hear(l.at(from)).listen(l, from + 1, to)
        }
    }
}

proof fn listening_goes_on<E>(r: Radio, l: Trace<BusEvent<E>>, a: int, b: int, c: int)
    requires
        a <= b <= c,
    ensures
        r.listen(l, a, c) == r.listen(l, a, b).listen(l, b, c),
    decreases b - a,
{
    if a < b {
        listening_goes_on(r.hear(l.at(a)), l, a + 1, b, c);
    }
}

/// An operation sent nothing.
pub open spec fn silent<T, E, F>(
    l: Trace<BusEvent<E>>,
    c: Chip,
    run: Run<Chip, T, F>,
    r: Radio,
) -> bool {
    match run {
        Run::Done(d, Ok(_)) => c.at <= d.at && r.listen(l, c.at, d.at).frames == r.frames,
        _ => true,
    }
}

proof fn read_is_silent<E>(l: Trace<BusEvent<E>>, c: Chip, sent: Seq<u8>, n: nat, r: Radio)
    ensures
        match c.read(l, sent, n) {
            Run::Done(d, _) => d.at == c.at + 1 && r.listen(l, c.at, d.at) == r,
            Run::Off => true,
        },
{
    reveal_with_fuel(Radio::listen, 2);
}

proof fn write_is_heard<E>(l: Trace<BusEvent<E>>, c: Chip, sent: Seq<u8>, r: Radio)
    ensures
        match c.write(l, sent) {
            Run::Done(d, Ok(_)) => d.at == c.at + 1 && r.listen(l, c.at, d.at) == r.hear(
                BusEvent::<E>::Write { addr: 0x50, sent, outcome: Ok(()) },
            ),
            _ => true,
        },
{
    reveal_with_fuel(Radio::listen, 2);
}

proof fn read_reg_is_silent<E>(l: Trace<BusEvent<E>>, c: Chip, reg: u8, r: Radio)
    ensures
        match c.read_reg(l, reg) {
            Run::Done(d, Ok(_)) => d.at == c.at + 1 && r.listen(l, c.at, d.at) == r,
            _ => true,
        },
{
    read_is_silent(l, c, seq![0x40 | (reg & 0x3F)], 1, r);
}

proof fn write_reg_is_silent<E>(l: Trace<BusEvent<E>>, c: Chip, reg: u8, v: u8, r: Radio)
    ensures
        match c.write_reg(l, reg, v) {
            Run::Done(d, Ok(_)) => d.at == c.at + 1 && r.listen(l, c.at, d.at) == r,
            _ => true,
        },
{
    let sent = seq![reg & 0x3F, v];
    write_is_heard(l, c, sent, r);
    crate::bits::low_bits_are_remainders(reg);
    assert(sent[0] == reg & 0x3F && sent.len() == 2);
}

proof fn modify_is_silent<E>(l: Trace<BusEvent<E>>, c: Chip, reg: u8, clear: u8, set: u8, r: Radio)
    ensures
        match c.modify_reg(l, reg, clear, set) {
            Run::Done(d, Ok(_)) => c.at < d.at && r.listen(l, c.at, d.at) == r,
            _ => true,
        },
{
    read_reg_is_silent(l, c, reg, r);
    match c.read_reg(l, reg) {
        Run::Done(a, Ok(v)) => {
            let n = (v & !clear) | set;
            write_reg_is_silent(l, a, reg, n, r);
            match c.modify_reg(l, reg, clear, set) {
                Run::Done(d, Ok(_)) => listening_goes_on(r, l, c.at, a.at, d.at),
                _ => {},
            }
        },
        _ => {},
    }
}

proof fn irq_reads_are_silent<E>(l: Trace<BusEvent<E>>, c: Chip, bits: u32, r: Radio)
    ensures
        match c.clear_irq(l) {
            Run::Done(d, Ok(_)) => c.at < d.at && r.listen(l, c.at, d.at) == r,
            _ => true,
        },
        match c.peek_irq(l) {
            Run::Done(d, Ok(_)) => c.at < d.at && r.listen(l, c.at, d.at) == r,
            _ => true,
        },
        match c.take_irq(l, bits) {
            Run::Done(d, Ok(_)) => c.at < d.at && r.listen(l, c.at, d.at) == r,
            _ => true,
        },
{
    read_is_silent(l, Chip { pending: 0, ..c }, seq![0x40 | (0x1Au8 & 0x3F)], 4, r);
    read_reg_is_silent(l, c, 0x1C, r);
    match c.read_reg(l, 0x1C) {
        Run::Done(a, Ok(_)) => {
            read_is_silent(l, a, seq![0x40 | (0x1Au8 & 0x3F)], 2, r);
            match a.read_regs(l, 0x1A, 2) {
                Run::Done(b, Ok(_)) => {
                    read_reg_is_silent(l, b, 0x1D, r);
                    match b.read_reg(l, 0x1D) {
                        Run::Done(d, Ok(_)) => {
                            listening_goes_on(r, l, c.at, a.at, d.at);
                            listening_goes_on(r, l, a.at, b.at, d.at);
                        },
                        _ => {},
                    }
                },
                _ => {},
            }
        },
        _ => {},
    }
}

proof fn waiting_is_silent<E>(l: Trace<BusEvent<E>>, c: Chip, bits: u32, left: nat, r: Radio)
    ensures
        match c.wait_irq(l, bits, left) {
            Run::Done(d, Ok(_)) => c.at < d.at && r.listen(l, c.at, d.at) == r,
            _ => true,
        },
    decreases left,
{
    irq_reads_are_silent(l, c, 0, r);
    match c.peek_irq(l) {
        Run::Done(a, Ok(pending)) => if pending & bits == 0 && left > 0 {
            match a.pause_us::<E>(l, 250) {
                Run::Done(b, Ok(_)) => {
                    reveal_with_fuel(Radio::listen, 2);
                    assert(r.listen(l, a.at, b.at) == r);
                    waiting_is_silent(l, b, bits, (left - 1) as nat, r);
                    match b.wait_irq(l, bits, (left - 1) as nat) {
                        Run::Done(d, Ok(_)) => {
                            listening_goes_on(r, l, c.at, a.at, d.at);
                            listening_goes_on(r, l, a.at, b.at, d.at);
                        },
                        _ => {},
                    }
                },
                _ => {},
            }
        },
        _ => {},
    }
}

proof fn fifo_reads_are_silent<E>(l: Trace<BusEvent<E>>, c: Chip, n: nat, r: Radio)
    ensures
        match c.fifo_status(l) {
            Run::Done(d, Ok(_)) => d.at == c.at + 1 && r.listen(l, c.at, d.at) == r,
            _ => true,
        },
        match c.read_fifo(l, n) {
            Run::Done(d, Ok(_)) => c.at <= d.at && r.listen(l, c.at, d.at) == r,
            _ => true,
        },
{
    read_is_silent(l, c, seq![0x40 | (0x1Eu8 & 0x3F)], 2, r);
    read_is_silent(l, c, seq![0x9Fu8], n, r);
}

/// How the chip is made ready for a frame: the waiting time in its timer, the
/// anticollision mode as asked for, and the CRC checked or not. Nothing is sent.
proof fn preparing_is_silent<E>(
    l: Trace<BusEvent<E>>,
    c: Chip,
    ms: u32,
    antcl: u8,
    check: bool,
    r: Radio,
)
    ensures
        match c.prepare(l, ms, antcl, check) {
            Run::Done(d, Ok(_)) => c.at < d.at && r.listen(l, c.at, d.at) == r,
            _ => true,
        },
{
    read_reg_is_silent(l, c, 0x12, r);
    match c.read_reg(l, 0x12) {
        Run::Done(a, Ok(ctrl)) => {
            let ticks = crate::st25r3916::fwt_ticks(ms, ctrl & 0x01 != 0);
            let sent = seq![0x10u8 & 0x3F] + crate::bytes::be16(ticks);
            crate::bits::low_bits_are_remainders(0x10);
            assert(sent[0] == 0x10);
            write_is_heard(l, a, sent, r);
            match a.write(l, sent) {
                Run::Done(b, Ok(_)) => {
                    listening_goes_on(r, l, c.at, a.at, b.at);
                    write_reg_is_silent(l, b, 0x05, antcl, r);
                    match b.write_reg(l, 0x05, antcl) {
                        Run::Done(d, Ok(_)) => {
                            listening_goes_on(r, l, c.at, b.at, d.at);
                            modify_is_silent(
                                l,
                                d,
                                0x0A,
                                0x80,
                                if check {
                                    0
                                } else {
                                    0x80
                                },
                                r,
                            );
                            match d.set_rx_crc_check(l, check) {
                                Run::Done(f, Ok(_)) => listening_goes_on(r, l, c.at, d.at, f.at),
                                _ => {},
                            }
                        },
                        _ => {},
                    }
                },
                _ => {},
            }
        },
        _ => {},
    }
}

proof fn a_frame_is_heard<E>(
    l: Trace<BusEvent<E>>,
    c: Chip,
    data: Seq<u8>,
    bytes: u16,
    bits: u8,
    how: u8,
    r: Radio,
)
    requires
        how == 0xC4 || how == 0xC5,
        bytes < 0x2000,
        bits < 8,
    ensures
        match c.send(l, data, bytes, bits, how) {
            Run::Done(d, Ok(_)) => c.at < d.at && r.listen(l, c.at, d.at).frames == r.frames.push(
                Frame { how, data, bits: 8 * bytes + bits },
            ),
            _ => true,
        },
{
    irq_reads_are_silent(l, c, 0, r);
    match c.clear_irq(l) {
        Run::Done(a, Ok(_)) => {
            let clear = seq![0xDBu8];
            write_is_heard(l, a, clear, r);
            match a.write(l, clear) {
                Run::Done(b, Ok(_)) => {
                    let rb = r.listen(l, a.at, b.at);
                    assert(rb == (Radio { fifo: Seq::empty(), ..r }));
                    listening_goes_on(r, l, c.at, a.at, b.at);
                    a_loaded_frame_is_heard(l, b, data, bytes, bits, how, rb);
                    match c.send(l, data, bytes, bits, how) {
                        Run::Done(d, Ok(_)) => listening_goes_on(r, l, c.at, b.at, d.at),
                        _ => {},
                    }
                },
                _ => {},
            }
        },
        _ => {},
    }
}

/// Loaded into an empty FIFO, announced and sent.
pub open spec fn loaded_and_sent<E>(
    c: Chip,
    l: Trace<BusEvent<E>>,
    data: Seq<u8>,
    bytes: u16,
    bits: u8,
    how: u8,
) -> Run<Chip, (), E> {
    c.load_fifo(l, data).chain(
        |c: Chip, _u: ()|
            c.set_num_tx(l, bytes, bits).chain(|c: Chip, _u: ()| c.command(l, how)),
    )
}

proof fn a_loaded_frame_is_heard<E>(
    l: Trace<BusEvent<E>>,
    c: Chip,
    data: Seq<u8>,
    bytes: u16,
    bits: u8,
    how: u8,
    r: Radio,
)
    requires
        how == 0xC4 || how == 0xC5,
        bytes < 0x2000,
        bits < 8,
        r.fifo.len() == 0,
    ensures
        match loaded_and_sent(c, l, data, bytes, bits, how) {
            Run::Done(d, Ok(_)) => c.at < d.at && r.listen(l, c.at, d.at).frames == r.frames.push(
                Frame { how, data, bits: 8 * bytes + bits },
            ),
            _ => true,
        },
{
    let load = seq![0x80u8] + data;
    write_is_heard(l, c, load, r);
    assert(load[0] == 0x80);
    assert(r.fifo + load.skip(1) =~= data);
    match c.write(l, load) {
        Run::Done(a, Ok(_)) => {
            let ra = r.listen(l, c.at, a.at);
            assert(ra == (Radio { fifo: data, ..r }));
            let n = crate::st25r3916::model::num_tx(bytes, bits);
            let num = seq![0x22u8 & 0x3F] + crate::bytes::be16(n);
            crate::bits::low_bits_are_remainders(0x22);
            crate::bytes::bytes_have_their_worth(n, 0);
            assert(num[0] == 0x22 && num[1] == crate::bytes::be16(n)[0] && num[2]
                == crate::bytes::be16(n)[1] && num.len() == 3);
            write_is_heard(l, a, num, ra);
            match a.write(l, num) {
                Run::Done(b, Ok(_)) => {
                    let rb = ra.listen(l, a.at, b.at);
                    assert(rb == (Radio { bits: 8 * bytes + bits, ..ra }));
                    listening_goes_on(r, l, c.at, a.at, b.at);
                    let go = seq![how];
                    assert(go[0] == how && go.len() == 1);
                    write_is_heard(l, b, go, rb);
                    match b.write(l, go) {
                        Run::Done(d, Ok(_)) => listening_goes_on(r, l, c.at, b.at, d.at),
                        _ => {},
                    }
                },
                _ => {},
            }
        },
        _ => {},
    }
}

/// The two status registers say how many bytes are in the FIFO.
pub open spec fn fifo_holds<E>(l: Trace<BusEvent<E>>, i: int, n: int) -> bool {
    l.at(i) matches BusEvent::Read { addr, sent, asked, reply } && addr == 0x50 && sent
        == seq![0x5Eu8] && asked == 2 && (reply matches Ok(s) && n == s[0] + 256 * (s[1] / 64))
}

/// What was got is what the FIFO held, up to `cap` bytes: counted first, then
/// read in one go.
pub open spec fn came_from_the_fifo<E>(l: Trace<BusEvent<E>>, at: int, got: Seq<u8>, cap: nat) -> bool {
    ||| (exists|n: int|
        n > 0 && #[trigger] fifo_holds(l, at - 2, n) && l.at(at - 1) == (BusEvent::<E>::Read {
            addr: 0x50,
            sent: seq![0x9Fu8],
            asked: (if n < cap {
                n
            } else {
                cap as int
            }) as nat,
            reply: Ok(got),
        }) && cap > 0)
    ||| got.len() == 0 && (fifo_holds(l, at - 1, 0) || cap == 0)
}

proof fn receiving_empties_the_fifo<E>(l: Trace<BusEvent<E>>, c: Chip, cap: nat, r: Radio)
    ensures
        match c.receive(l, cap) {
            Run::Done(d, Ok(got)) => c.at < d.at && r.listen(l, c.at, d.at) == r
                && came_from_the_fifo(l, d.at, got, cap),
            _ => true,
        },
{
    crate::bits::register_codes(0x1E);
    fifo_reads_are_silent(l, c, 0, r);
    match c.fifo_status(l) {
        Run::Done(a, Ok(s)) => {
            let b = l.at(c.at)->Read_reply->Ok_0;
            crate::st25r3916::laws::the_fifo_is_counted(b[0], b[1]);
            assert(fifo_holds(l, c.at, s.0 as int));
            let n = if s.0 < cap {
                s.0 as nat
            } else {
                cap
            };
            fifo_reads_are_silent(l, a, n, r);
            match a.read_fifo(l, n) {
                Run::Done(d, Ok(_)) => {
                    listening_goes_on(r, l, c.at, a.at, d.at);
                    if n > 0 {
                        assert(d.at - 2 == c.at);
                    }
                },
                _ => {},
            }
        },
        _ => {},
    }
}

/// An exchange sends one frame, whole bytes with CRC, and what it gives is what
/// then came out of the FIFO.
pub proof fn an_exchange_sends_one_frame<E>(
    l: Trace<BusEvent<E>>,
    c: Chip,
    tx: Seq<u8>,
    cap: nat,
    timeout_ms: u32,
    r: Radio,
)
    requires
        tx.len() <= 512,
    ensures
        match c.transceive(l, tx, cap, timeout_ms) {
            Run::Done(d, Ok(got)) => {
                &&& c.at < d.at
                &&& r.listen(l, c.at, d.at).frames == r.frames.push(
                    Frame { how: 0xC4, data: tx, bits: 8 * tx.len() as int },
                )
                &&& came_from_the_fifo(l, d.at, got, cap)
            },
            _ => true,
        },
{
    preparing_is_silent(l, c, timeout_ms, 0x00, true, r);
    match c.prepare(l, timeout_ms, 0x00, true) {
        Run::Done(a, Ok(_)) => {
            a_frame_is_heard(l, a, tx, tx.len() as u16, 0, 0xC4, r);
            match a.send(l, tx, tx.len() as u16, 0, 0xC4) {
                Run::Done(b, Ok(_)) => {
                    listening_goes_on(r, l, c.at, a.at, b.at);
                    let rb = r.listen(l, c.at, b.at);
                    let left = ((timeout_ms + 2) * 4) as nat;
                    waiting_is_silent(l, b, 0x1000_0000, left, rb);
                    match b.wait_irq(l, 0x1000_0000, left) {
                        Run::Done(d, Ok(flags)) => {
                            listening_goes_on(r, l, c.at, b.at, d.at);
                            receiving_empties_the_fifo(l, d, cap, rb);
                            match d.receive(l, cap) {
                                Run::Done(g, Ok(got)) => listening_goes_on(r, l, c.at, d.at, g.at),
                                _ => {},
                            }
                        },
                        _ => {},
                    }
                },
                _ => {},
            }
        },
        _ => {},
    }
}

/// What precedes a frame: the timer for its waiting time, the anticollision
/// mode, and whether the CRC of the answer is checked.
pub proof fn a_frame_is_prepared<E>(
    l: Trace<BusEvent<E>>,
    c: Chip,
    ms: u32,
    antcl: u8,
    check: bool,
)
    ensures
        match c.prepare(l, ms, antcl, check) {
            Run::Done(d, Ok(_)) => {
                &&& exists|coarse: bool|
                    l.at(c.at + 1) == (BusEvent::<E>::Write {
                        addr: 0x50,
                        sent: seq![0x10u8] + crate::bytes::be16(
                            #[trigger] crate::st25r3916::fwt_ticks(ms, coarse),
                        ),
                        outcome: Ok(()),
                    })
                &&& l.at(c.at + 2) == (BusEvent::<E>::Write {
                    addr: 0x50,
                    sent: seq![0x05u8, antcl],
                    outcome: Ok(()),
                })
                &&& crate::st25r3916::laws::shown(l, d.at - 1, 0x0A) matches Some(v) && (v / 128 == 0)
                    == check
            },
            _ => true,
        },
{
    crate::bits::low_bits_are_remainders(0x10);
    crate::bits::low_bits_are_remainders(0x05);
    match c.read_reg(l, 0x12) {
        Run::Done(a, Ok(ctrl)) => {
            let coarse = ctrl & 0x01 != 0;
            let ticks = crate::st25r3916::fwt_ticks(ms, coarse);
            match a.write_regs(l, 0x10, crate::bytes::be16(ticks)) {
                Run::Done(b, Ok(_)) => {
                    match b.write_reg(l, 0x05, antcl) {
                        Run::Done(d, Ok(_)) => {
                            let set: u8 = if check {
                                0
                            } else {
                                0x80
                            };
                            crate::st25r3916::laws::a_modified_register_shows_it(
                                d,
                                l,
                                0x0A,
                                0x80,
                                set,
                            );
                            match d.set_rx_crc_check(l, check) {
                                Run::Done(f, Ok(_)) => {
                                    let v = crate::st25r3916::laws::shown(
                                        l,
                                        f.at - 1,
                                        0x0A,
                                    )->Some_0;
                                    crate::bits::register_codes(0);
                                    crate::bits::single_bits(v);
                                },
                                _ => {},
                            }
                        },
                        _ => {},
                    }
                },
                _ => {},
            }
        },
        _ => {},
    }
}

/// A call sends REQA, or WUPA, which halted tags answer too; what a tag
/// answered are the two bytes that came out of the FIFO, low byte first.
pub proof fn a_request_calls_tags<E>(l: Trace<BusEvent<E>>, c: Chip, wakeup: bool, r: Radio)
    ensures
        match c.nfca_request(l, wakeup) {
            Run::Done(d, Ok(answer)) => {
                &&& c.at < d.at
                &&& r.listen(l, c.at, d.at).frames == r.frames.push(
                    Frame {
                        how: if wakeup {
                            0xC7
                        } else {
                            0xC6
                        },
                        data: Seq::empty(),
                        bits: 7,
                    },
                )
                &&& answer matches Some(atqa) ==> (l.at(d.at - 1) matches BusEvent::Read {
                    addr,
                    sent,
                    asked,
                    reply,
                } && addr == 0x50 && sent == seq![0x9Fu8] && asked == 2 && (reply matches Ok(b)
                    && atqa == b[0] + 256 * b[1]))
            },
            _ => true,
        },
{
    preparing_is_silent(l, c, 4, 0x01, false, r);
    match c.prepare(l, 4, 0x01, false) {
        Run::Done(a, Ok(_)) => {
            irq_reads_are_silent(l, a, 0, r);
            match a.clear_irq(l) {
                Run::Done(b, Ok(_)) => {
                    listening_goes_on(r, l, c.at, a.at, b.at);
                    let clear = seq![0xDBu8];
                    write_is_heard(l, b, clear, r);
                    match b.write(l, clear) {
                        Run::Done(d, Ok(_)) => {
                            listening_goes_on(r, l, c.at, b.at, d.at);
                            let rd = r.listen(l, c.at, d.at);
                            let how: u8 = if wakeup {
                                0xC7
                            } else {
                                0xC6
                            };
                            let go = seq![how];
                            assert(go[0] == how && go.len() == 1);
                            write_is_heard(l, d, go, rd);
                            match d.write(l, go) {
                                Run::Done(f, Ok(_)) => {
                                    listening_goes_on(r, l, c.at, d.at, f.at);
                                    let rf = r.listen(l, c.at, f.at);
                                    let bits = 0x1000_0000u32 | 0x2000_0000u32 | 0x0400_0000u32;
                                    waiting_is_silent(l, f, bits, 24, rf);
                                    match f.wait_irq(l, bits, 24) {
                                        Run::Done(g, Ok(flags)) => {
                                            listening_goes_on(r, l, c.at, f.at, g.at);
                                            an_answer_is_fetched(l, g, flags, rf);
                                            match g.request_flags(l, flags) {
                                                Run::Done(h, Ok(_)) => listening_goes_on(
                                                    r,
                                                    l,
                                                    c.at,
                                                    g.at,
                                                    h.at,
                                                ),
                                                _ => {},
                                            }
                                        },
                                        _ => {},
                                    }
                                },
                                _ => {},
                            }
                        },
                        _ => {},
                    }
                },
                _ => {},
            }
        },
        _ => {},
    }
}

/// The result of fetching an ATQA: two bytes of the FIFO.
pub open spec fn fetched<E>(l: Trace<BusEvent<E>>, d: Chip, answer: Option<u16>) -> bool {
    answer matches Some(atqa) ==> (l.at(d.at - 1) matches BusEvent::Read { addr, sent, asked, reply }
        && addr == 0x50 && sent == seq![0x9Fu8] && asked == 2 && (reply matches Ok(b) && atqa
        == b[0] + 256 * b[1]))
}

proof fn an_answer_is_fetched<E>(l: Trace<BusEvent<E>>, c: Chip, flags: u32, r: Radio)
    ensures
        match c.request_flags(l, flags) {
            Run::Done(d, Ok(answer)) => c.at <= d.at && r.listen(l, c.at, d.at) == r && fetched(
                l,
                d,
                answer,
            ),
            _ => true,
        },
{
    if flags & 0x1000_0000 == 0 && flags & 0x2000_0000 != 0 {
        late_answers_are_silent(l, c, 40, r);
        match c.late_answer(l, 40) {
            Run::Done(a, Ok(late)) => {
                let all = if late {
                    flags | 0x1000_0000
                } else {
                    flags
                };
                an_atqa_is_read(l, a, all, r);
                match a.request_answer(l, all) {
                    Run::Done(d, Ok(_)) => listening_goes_on(r, l, c.at, a.at, d.at),
                    _ => {},
                }
            },
            _ => {},
        }
    } else {
        an_atqa_is_read(l, c, flags, r);
    }
}

proof fn late_answers_are_silent<E>(l: Trace<BusEvent<E>>, c: Chip, left: nat, r: Radio)
    ensures
        match c.late_answer(l, left) {
            Run::Done(d, Ok(_)) => c.at <= d.at && r.listen(l, c.at, d.at) == r,
            _ => true,
        },
    decreases left,
{
    if left > 0 {
        fifo_reads_are_silent(l, c, 0, r);
        match c.fifo_status(l) {
            Run::Done(a, Ok(s)) => if s.0 < 2 {
                match a.pause_us::<E>(l, 100) {
                    Run::Done(b, Ok(_)) => {
                        reveal_with_fuel(Radio::listen, 2);
                        assert(r.listen(l, a.at, b.at) == r);
                        late_answers_are_silent(l, b, (left - 1) as nat, r);
                        match b.late_answer(l, (left - 1) as nat) {
                            Run::Done(d, Ok(_)) => {
                                listening_goes_on(r, l, c.at, a.at, d.at);
                                listening_goes_on(r, l, a.at, b.at, d.at);
                            },
                            _ => {},
                        }
                    },
                    _ => {},
                }
            },
            _ => {},
        }
    }
}

proof fn an_atqa_is_read<E>(l: Trace<BusEvent<E>>, c: Chip, flags: u32, r: Radio)
    ensures
        match c.request_answer(l, flags) {
            Run::Done(d, Ok(answer)) => c.at <= d.at && r.listen(l, c.at, d.at) == r && fetched(
                l,
                d,
                answer,
            ),
            _ => true,
        },
{
    if flags & 0x1000_0000 != 0 {
        let n = Chip { last_request: flags, ..c };
        fifo_reads_are_silent(l, n, 0, r);
        match n.fifo_status(l) {
            Run::Done(a, Ok(s)) => if s.0 >= 2 {
                fifo_reads_are_silent(l, a, 2, r);
                match a.read_fifo(l, 2) {
                    Run::Done(d, Ok(b)) => {
                        listening_goes_on(r, l, c.at, a.at, d.at);
                        crate::bytes::words_are_sums(0, 0, b[1], b[0]);
                    },
                    _ => {},
                }
            },
            _ => {},
        }
    }
}

/// A tag is halted with the frame 50 00 and its CRC.
pub proof fn a_halt_sends_its_frame<E>(l: Trace<BusEvent<E>>, c: Chip, r: Radio)
    ensures
        match c.nfca_halt(l) {
            Run::Done(d, Ok(_)) => c.at < d.at && r.listen(l, c.at, d.at).frames == r.frames.push(
                Frame { how: 0xC4, data: seq![0x50u8, 0x00u8], bits: 16 },
            ),
            _ => true,
        },
{
    preparing_is_silent(l, c, 2, 0x00, true, r);
    match c.prepare(l, 2, 0x00, true) {
        Run::Done(a, Ok(_)) => {
            let data = seq![0x50u8, 0x00u8];
            a_frame_is_heard(l, a, data, 2, 0, 0xC4, r);
            match a.send(l, data, 2, 0, 0xC4) {
                Run::Done(b, Ok(_)) => {
                    listening_goes_on(r, l, c.at, a.at, b.at);
                    let rb = r.listen(l, c.at, b.at);
                    waiting_is_silent(l, b, 0x0800_0000, 16, rb);
                    match b.wait_irq(l, 0x0800_0000, 16) {
                        Run::Done(d, Ok(_)) => listening_goes_on(r, l, c.at, b.at, d.at),
                        _ => {},
                    }
                },
                _ => {},
            }
        },
        _ => {},
    }
}

/// A Type 2 tag is read with the frame 30, block and CRC; its four blocks are
/// the first sixteen bytes that came out of the FIFO.
pub proof fn a_block_read_sends_its_frame<E>(l: Trace<BusEvent<E>>, c: Chip, block: u8, r: Radio)
    ensures
        match c.t2t_read(l, block) {
            Run::Done(d, Ok(blocks)) => {
                &&& r.listen(l, c.at, d.at).frames == r.frames.push(
                    Frame { how: 0xC4, data: seq![0x30u8, block], bits: 16 },
                )
                &&& exists|got: Seq<u8>|
                    got.len() >= 16 && #[trigger] came_from_the_fifo(l, d.at, got, 18) && blocks
                        == got.take(16)
            },
            _ => true,
        },
{
    let tx = seq![0x30u8, block];
    an_exchange_sends_one_frame(l, c, tx, 18, 10, r);
    match c.transceive(l, tx, 18, 10) {
        Run::Done(d, Ok(got)) => {
            assert(tx.len() == 2);
            assert(came_from_the_fifo(l, d.at, got, 18));
        },
        _ => {},
    }
}

/// Every read gave as many bytes as were asked for.
pub open spec fn whole_replies<E>(l: Trace<BusEvent<E>>) -> bool {
    forall|i: int|
        match #[trigger] l.at(i) {
            BusEvent::Read { asked, reply, .. } => reply matches Ok(b) ==> b.len() == asked,
            _ => true,
        }
}

/// A frame of a cascade level: as much of it as is known, without CRC; what a
/// tag answered is what then came out of the FIFO.
pub proof fn a_level_frame_is_sent<E>(l: Trace<BusEvent<E>>, c: Chip, level: LevelModel, r: Radio)
    requires
        level.valid(),
        whole_replies(l),
    ensures
        match c.level_frame(l, level) {
            Run::Done(d, Ok((_, cd, got))) => {
                &&& 1 <= got.len() <= 5 - level.offset
                &&& c.at < d.at
                &&& r.listen(l, c.at, d.at).frames == r.frames.push(
                    Frame {
                        how: 0xC5,
                        data: level.frame.take(level.sent_bytes()),
                        bits: 8 * level.bytes + level.bits,
                    },
                )
                &&& l.at(d.at - 2) matches BusEvent::Read { addr, sent, reply, .. } && addr == 0x50
                    && sent == seq![0x9Fu8] && reply == Ok::<Seq<u8>, E>(got)
            },
            _ => true,
        },
{
    let data = level.frame.take(level.sent_bytes());
    a_frame_is_heard(l, c, data, level.bytes as u16, level.bits, 0xC5, r);
    match c.send(l, data, level.bytes as u16, level.bits, 0xC5) {
        Run::Done(a, Ok(_)) => {
            let ra = r.listen(l, c.at, a.at);
            let bits = 0x1000_0000u32 | 0x0400_0000u32;
            waiting_is_silent(l, a, bits, 40, ra);
            match a.wait_irq(l, bits, 40) {
                Run::Done(b, Ok(flags)) => {
                    listening_goes_on(r, l, c.at, a.at, b.at);
                    fifo_reads_are_silent(l, b, 0, ra);
                    match b.fifo_status(l) {
                        Run::Done(d, Ok(s)) => {
                            listening_goes_on(r, l, c.at, b.at, d.at);
                            let n = if s.0 < 5 - level.offset {
                                s.0 as nat
                            } else {
                                (5 - level.offset) as nat
                            };
                            fifo_reads_are_silent(l, d, n, ra);
                            match d.read_fifo(l, n) {
                                Run::Done(f, Ok(_)) => {
                                    listening_goes_on(r, l, c.at, d.at, f.at);
                                    read_reg_is_silent(l, f, 0x20, ra);
                                    match f.read_reg(l, 0x20) {
                                        Run::Done(g, Ok(_)) => listening_goes_on(
                                            r,
                                            l,
                                            c.at,
                                            f.at,
                                            g.at,
                                        ),
                                        _ => {},
                                    }
                                },
                                _ => {},
                            }
                        },
                        _ => {},
                    }
                },
                _ => {},
            }
        },
        _ => {},
    }
}

/// A reply in target mode: whole bytes with CRC, or so many bits of the first
/// byte without.
pub proof fn a_reply_is_sent<E>(l: Trace<BusEvent<E>>, c: Chip, data: Seq<u8>, bits: u8, r: Radio)
    requires
        data.len() <= 512,
        bits < 8,
    ensures
        match c.target_transmit(l, data, bits) {
            Run::Done(d, Ok(_)) => c.at < d.at && r.listen(l, c.at, d.at).frames == r.frames.push(
                if bits == 0 {
                    Frame { how: 0xC4, data, bits: 8 * data.len() as int }
                } else {
                    Frame { how: 0xC5, data, bits: bits as int }
                },
            ),
            _ => true,
        },
{
    let clear = seq![0xDBu8];
    write_is_heard(l, c, clear, r);
    match c.write(l, clear) {
        Run::Done(a, Ok(_)) => {
            let ra = r.listen(l, c.at, a.at);
            assert(ra == (Radio { fifo: Seq::empty(), ..r }));
            a_loaded_frame_is_heard(l, a, data, data.len() as u16, 0, 0xC4, ra);
            a_loaded_frame_is_heard(l, a, data, 0, bits, 0xC5, ra);
            match c.target_transmit(l, data, bits) {
                Run::Done(d, Ok(_)) => listening_goes_on(r, l, c.at, a.at, d.at),
                _ => {},
            }
        },
        _ => {},
    }
}

/// Frames of one cascade level: without CRC all of them, and the first asks
/// every tag.
pub open spec fn level_frames(frames: Seq<Frame>, sel: u8) -> bool {
    &&& frames.len() > 0
    &&& frames[0] == (Frame { how: 0xC5, data: seq![sel, 0x20u8], bits: 16 })
    &&& forall|i: int| 0 <= i < frames.len() ==> (#[trigger] frames[i]).how == 0xC5
}

proof fn more_level_frames<E>(
    l: Trace<BusEvent<E>>,
    c: Chip,
    level: LevelModel,
    left: nat,
    r: Radio,
) -> (sent: Seq<Frame>)
    requires
        level.valid(),
        whole_replies(l),
    ensures
        match c.level_frames(l, level, left) {
            Run::Done(d, Ok(answer)) => {
                &&& answer.len() == level.answer.len()
                &&& c.at < d.at
                &&& r.listen(l, c.at, d.at).frames == r.frames + sent
                &&& sent.len() > 0
                &&& sent[0] == (Frame {
                    how: 0xC5,
                    data: level.frame.take(level.sent_bytes()),
                    bits: 8 * level.bytes + level.bits,
                })
                &&& forall|i: int| 0 <= i < sent.len() ==> (#[trigger] sent[i]).how == 0xC5
            },
            _ => true,
        },
    decreases left,
{
    let first = Frame {
        how: 0xC5,
        data: level.frame.take(level.sent_bytes()),
        bits: 8 * level.bytes + level.bits,
    };
    let one = seq![first];
    assert(r.frames + one =~= r.frames.push(first));
    if left == 0 {
        one
    } else {
        a_level_frame_is_sent(l, c, level, r);
        match c.level_frame(l, level) {
            Run::Done(a, Ok((collision, cd, got))) => match level.absorb(collision, cd, got) {
                Some(next) => if collision {
                    crate::st25r3916::laws::a_collision_is_narrowed_down(level, cd, got);
                    let ra = r.listen(l, c.at, a.at);
                    let rest = more_level_frames(l, a, next, (left - 1) as nat, ra);
                    match a.level_frames(l, next, (left - 1) as nat) {
                        Run::Done(d, Ok(_)) => {
                            listening_goes_on(r, l, c.at, a.at, d.at);
                            assert(r.frames.push(first) + rest =~= r.frames + (one + rest));
                        },
                        _ => {},
                    }
                    one + rest
                } else {
                    one
                },
                None => one,
            },
            _ => one,
        }
    }
}

/// A cascade level asks every tag first and then narrows the question down,
/// all without CRC.
pub proof fn a_level_is_asked<E>(l: Trace<BusEvent<E>>, c: Chip, sel: u8, r: Radio) -> (sent: Seq<
    Frame,
>)
    requires
        whole_replies(l),
    ensures
        match c.nfca_level(l, sel) {
            Run::Done(d, Ok(answer)) => answer.len() == 5 && c.at < d.at && r.listen(l, c.at, d.at).frames == r.frames + sent
                && level_frames(sent, sel),
            _ => true,
        },
{
    preparing_is_silent(l, c, 8, 0x01, true, r);
    crate::st25r3916::laws::a_level_asks_everybody_first(sel);
    match c.prepare(l, 8, 0x01, true) {
        Run::Done(a, Ok(_)) => {
            let sent = more_level_frames(l, a, LevelModel::start(sel), 32, r);
            match a.level_frames(l, LevelModel::start(sel), 32) {
                Run::Done(d, Ok(_)) => listening_goes_on(r, l, c.at, a.at, d.at),
                _ => {},
            }
            sent
        },
        _ => Seq::empty(),
    }
}

/// The frames of one cascade level and SELECT with the answer to them and its
/// CRC, and the frames behind them.
pub open spec fn one_level(
    frames: Seq<Frame>,
    lv: int,
    asked: Seq<Frame>,
    answer: Seq<u8>,
    rest: Seq<Frame>,
) -> bool {
    let sel = (0x91 + 2 * lv) as u8;
    &&& level_frames(asked, sel)
    &&& answer.len() == 5
    &&& frames == asked + seq![
        Frame { how: 0xC4, data: seq![sel, 0x70u8] + answer, bits: 56 },
    ] + rest
}

/// What selecting a tag sends from a cascade level on: the frames of the
/// level, and those of the next one until the tag says that its UID is
/// complete.
pub open spec fn select_frames(frames: Seq<Frame>, lv: int) -> bool
    decreases 4 - lv,
{
    lv <= 3 && exists|asked: Seq<Frame>, answer: Seq<u8>, rest: Seq<Frame>|
        {
            &&& #[trigger] one_level(frames, lv, asked, answer, rest)
            &&& rest.len() == 0 || select_frames(rest, lv + 1)
        }
}

/// A tag is selected level by level.
pub proof fn a_tag_is_selected<E>(
    l: Trace<BusEvent<E>>,
    c: Chip,
    tag: crate::st25r3916::model::TagModel,
    lv: int,
    r: Radio,
) -> (sent: Seq<Frame>)
    requires
        1 <= lv,
        whole_replies(l),
    ensures
        match c.nfca_select(l, tag, lv) {
            Run::Done(d, Ok(_)) => c.at < d.at && r.listen(l, c.at, d.at).frames == r.frames + sent
                && select_frames(sent, lv),
            _ => true,
        },
    decreases 4 - lv,
{
    if lv > 3 {
        Seq::empty()
    } else {
        let sel = crate::st25r3916::sel_code(lv);
        let asked = a_level_is_asked(l, c, sel, r);
        match c.nfca_level(l, sel) {
            Run::Done(a, Ok(answer)) => {
                let ra = r.listen(l, c.at, a.at);
                let tx = seq![sel, 0x70u8] + answer;
                an_exchange_sends_one_frame(l, a, tx, 3, 8, ra);
                let select = seq![Frame { how: 0xC4, data: tx, bits: 56 }];
                match a.transceive(l, tx, 3, 8) {
                    Run::Done(b, Ok(got)) => {
                        listening_goes_on(r, l, c.at, a.at, b.at);
                        let rb = r.listen(l, c.at, b.at);
                        assert(rb.frames =~= r.frames + (asked + select));
                        if got.len() >= 1 && got[0] & 0x04 != 0 {
                            let next = tag.with_level(lv, answer, got[0]);
                            let rest = a_tag_is_selected(l, b, next, lv + 1, rb);
                            let sent = asked + select + rest;
                            match b.nfca_select(l, next, lv + 1) {
                                Run::Done(d, Ok(_)) => {
                                    listening_goes_on(r, l, c.at, b.at, d.at);
                                    assert(r.frames + (asked + select) + rest =~= r.frames + sent);
                                    assert(one_level(sent, lv, asked, answer, rest));
                                },
                                _ => {},
                            }
                            sent
                        } else {
                            let none = Seq::<Frame>::empty();
                            assert(asked + select =~= asked + select + none);
                            assert(one_level(asked + select, lv, asked, answer, none));
                            asked + select
                        }
                    },
                    _ => Seq::empty(),
                }
            },
            _ => Seq::empty(),
        }
    }
}

/// A look for a tag calls with WUPA, so that halted tags answer too, and
/// selects a tag that answers.
pub proof fn a_poll_calls_and_selects<E>(l: Trace<BusEvent<E>>, c: Chip, r: Radio) -> (sent: Seq<
    Frame,
>)
    requires
        whole_replies(l),
    ensures
        match c.nfca_poll(l) {
            Run::Done(d, Ok(found)) => {
                let call = Frame { how: 0xC7, data: Seq::empty(), bits: 7 };
                &&& r.listen(l, c.at, d.at).frames == r.frames.push(call) + sent
                &&& found is None ==> sent.len() == 0
                &&& found is Some ==> select_frames(sent, 1)
            },
            _ => true,
        },
{
    reveal(Chip::nfca_poll);
    a_request_calls_tags(l, c, true, r);
    match c.nfca_request(l, true) {
        Run::Done(a, Ok(answer)) => {
            let ra = r.listen(l, c.at, a.at);
            match answer {
                None => {
                    let none = Seq::<Frame>::empty();
                    assert(ra.frames + none =~= ra.frames);
                    none
                },
                Some(atqa) => {
                    let fresh = crate::st25r3916::model::TagModel::fresh(atqa);
                    let sent = a_tag_is_selected(l, a, fresh, 1, ra);
                    match a.nfca_select(l, fresh, 1) {
                        Run::Done(d, Ok(_)) => listening_goes_on(r, l, c.at, a.at, d.at),
                        _ => {},
                    }
                    sent
                },
            }
        },
        _ => Seq::empty(),
    }
}

/// A tag after the answers of its cascade levels from `lv` on, and what it
/// said to SELECT at each.
pub open spec fn answered(
    tag: crate::st25r3916::model::TagModel,
    lv: int,
    answers: Seq<Seq<u8>>,
    saks: Seq<u8>,
) -> crate::st25r3916::model::TagModel
    decreases answers.len(),
{
    if answers.len() == 0 {
        tag
    } else {
        answered(
            tag.with_level(lv, answers[0], saks[0]),
            lv + 1,
            answers.drop_first(),
            saks.drop_first(),
        )
    }
}

/// A selected tag is the one that answered: each level adds to its UID, the
/// last one completes it (four bytes after one level, seven after two, ten
/// after three), and the SAK is the last one, the first without the cascade
/// bit.
pub proof fn a_selected_tag_is_the_one_that_answered<E>(
    l: Trace<BusEvent<E>>,
    c: Chip,
    tag: crate::st25r3916::model::TagModel,
    lv: int,
) -> (said: (Seq<Seq<u8>>, Seq<u8>))
    requires
        1 <= lv <= 3,
        whole_replies(l),
    ensures
        c.nfca_select(l, tag, lv) matches Run::Done(_, Ok(t)) ==> {
            let (answers, saks) = said;
            let n = answers.len() as int;
            &&& saks.len() == n
            &&& 1 <= n <= 4 - lv
            &&& t == (crate::st25r3916::model::TagModel {
                uid_len: 3 * (lv - 1 + n) + 1,
                ..answered(tag, lv, answers, saks)
            })
            &&& t.sak == saks.last()
            &&& saks.last() / 4 % 2 == 0
            &&& forall|i: int| 0 <= i < n - 1 ==> #[trigger] saks[i] / 4 % 2 == 1
            &&& forall|i: int| 0 <= i < n ==> (#[trigger] answers[i]).len() == 5
        },
    decreases 4 - lv,
{
    let sel = crate::st25r3916::sel_code(lv);
    let none = Radio { fifo: Seq::empty(), bits: 0, frames: Seq::empty() };
    let _ = a_level_is_asked(l, c, sel, none);
    match c.nfca_level(l, sel) {
        Run::Done(a, Ok(answer)) => match a.transceive(l, seq![sel, 0x70u8] + answer, 3, 8) {
            Run::Done(b, Ok(got)) => if got.len() < 1 {
                (Seq::empty(), Seq::empty())
            } else {
                let sak = got[0];
                crate::bits::single_bits(sak);
                let next = tag.with_level(lv, answer, sak);
                let (one, first) = (seq![answer], seq![sak]);
                if sak & 0x04 == 0 {
                    reveal_with_fuel(answered, 2);
                    assert(one.drop_first() =~= Seq::empty());
                    assert(first.drop_first() =~= Seq::empty());
                    (one, first)
                } else if lv == 3 {
                    (one, first)
                } else {
                    let (more, rest) = a_selected_tag_is_the_one_that_answered(l, b, next, lv + 1);
                    assert((one + more).drop_first() =~= more);
                    assert((first + rest).drop_first() =~= rest);
                    (one + more, first + rest)
                }
            },
            _ => (Seq::empty(), Seq::empty()),
        },
        _ => (Seq::empty(), Seq::empty()),
    }
}

} // verus!
