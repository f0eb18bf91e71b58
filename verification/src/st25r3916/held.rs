//! What the chip's registers hold after a script.
//!
//! The chip takes a write as a register number and the values for it and the
//! registers behind it, in a second space behind the prefix 0xFB, goes back to
//! its defaults when told to, and answers a read with what its register holds.

use crate::bus::BusEvent;
use crate::st25r3916::model::Chip;
use crate::st25r3916::Step;
use crate::trace::{Run, Trace};
use vstd::prelude::*;

verus! {

/// Values of the registers: of the first space or, with `true`, of the second.
pub type Values = spec_fn(bool, u8) -> u8;

/// The register after one event, if it held `v` before.
pub open spec fn after<E>(event: BusEvent<E>, second: bool, r: u8, v: u8, defaults: Values) -> u8 {
    match event {
        BusEvent::Write { addr, sent, outcome } => if addr != 0x50 || outcome is Err {
            v
        } else if sent == seq![0xC1u8] {
            defaults(second, r)
        } else if second {
            if sent.len() == 3 && sent[0] == 0xFB && sent[1] == r {
                sent[2]
            } else {
                v
            }
        } else if sent.len() > 1 && sent[0] < 0x40 && sent[0] <= r && r - sent[0] < sent.len() - 1 {
            sent[1 + r - sent[0]]
        } else {
            v
        },
        _ => v,
    }
}

/// The register after the first `n` events.
pub open spec fn held<E>(
    l: Trace<BusEvent<E>>,
    n: int,
    start: Values,
    defaults: Values,
    second: bool,
    r: u8,
) -> u8
    decreases n,
{
    if n <= 0 {
        start(second, r)
    } else {
        after(l.at(n - 1), second, r, held(l, n - 1, start, defaults, second, r), defaults)
    }
}

/// Every read of a single register of the first space is answered with what it
/// holds.
pub open spec fn faithful<E>(l: Trace<BusEvent<E>>, start: Values, defaults: Values) -> bool {
    forall|i: int|
        0 <= i ==> match #[trigger] l.at(i) {
            BusEvent::Read { addr, sent, asked, reply } => addr == 0x50 && sent.len() == 1 && 0x40
                <= sent[0] < 0x80 && asked == 1 && reply is Ok ==> reply->Ok_0[0] == held(
                l,
                i,
                start,
                defaults,
                false,
                (sent[0] - 0x40) as u8,
            ),
            _ => true,
        }
}

/// What a step makes of a register.
pub open spec fn effect(s: Step, second: bool, r: u8, v: u8, defaults: Values) -> u8 {
    match s {
        Step::Command(c) => if c == 0xC1 {
            defaults(second, r)
        } else {
            v
        },
        Step::Write(q, n) => if !second && q == r {
            n
        } else {
            v
        },
        Step::WritePair(q, a, b) => if !second && q == r {
            a
        } else if !second && q + 1 == r {
            b
        } else {
            v
        },
        Step::Modify { reg, clear, set } => if !second && reg == r {
            (v & !clear) | set
        } else {
            v
        },
        Step::WriteB(q, n) => if second && q == r {
            n
        } else {
            v
        },
        Step::IrqMask(mask) => if !second && 0x16 <= r <= 0x19 {
            crate::bytes::be32(mask)[r - 0x16]
        } else {
            v
        },
        _ => v,
    }
}

/// What steps `i..` make of a register.
pub open spec fn script(s: Seq<Step>, i: int, second: bool, r: u8, v: u8, defaults: Values) -> u8
    decreases s.len() - i,
{
    if i >= s.len() {
        v
    } else {
        script(s, i + 1, second, r, effect(s[i], second, r, v, defaults), defaults)
    }
}

/// The step names registers that exist.
pub open spec fn proper(s: Step) -> bool {
    match s {
        Step::Write(r, _) => r < 0x40,
        Step::WritePair(r, _, _) => r < 0x3F,
        Step::Modify { reg, .. } => reg < 0x40,
        Step::WriteB(r, _) => r < 0x40,
        _ => true,
    }
}

proof fn small(r: u8)
    requires
        r < 0x40,
    ensures
        r & 0x3F == r,
        0x40u8 | r == 0x40 + r,
{
    crate::bits::register_codes(r);
}

proof fn reads_leave_registers<E>(
    c: Chip,
    l: Trace<BusEvent<E>>,
    start: Values,
    defaults: Values,
    sent: Seq<u8>,
    n: nat,
    second: bool,
    r: u8,
)
    requires
        c.at >= 0,
    ensures
        match c.read(l, sent, n) {
            Run::Done(d, _) => d.at == c.at + 1 && held(l, d.at, start, defaults, second, r) == held(
                l,
                c.at,
                start,
                defaults,
                second,
                r,
            ),
            Run::Off => true,
        },
{
}

proof fn writes_reach_registers<E>(
    c: Chip,
    l: Trace<BusEvent<E>>,
    start: Values,
    defaults: Values,
    sent: Seq<u8>,
    second: bool,
    r: u8,
)
    requires
        c.at >= 0,
    ensures
        match c.write(l, sent) {
            Run::Done(d, Ok(_)) => d.at == c.at + 1 && held(l, d.at, start, defaults, second, r)
                == after(
                BusEvent::<E>::Write { addr: 0x50, sent, outcome: Ok(()) },
                second,
                r,
                held(l, c.at, start, defaults, second, r),
                defaults,
            ),
            _ => true,
        },
{
}

proof fn a_step_has_its_effect<E>(
    c: Chip,
    l: Trace<BusEvent<E>>,
    start: Values,
    defaults: Values,
    s: Step,
    second: bool,
    r: u8,
)
    requires
        c.at >= 0,
        proper(s),
        r < 0x40,
        faithful(l, start, defaults),
    ensures
        match c.step(l, s) {
            Run::Done(d, Ok(_)) => d.at >= 0 && held(l, d.at, start, defaults, second, r) == effect(
                s,
                second,
                r,
                held(l, c.at, start, defaults, second, r),
                defaults,
            ),
            _ => true,
        },
{
    let reset = seq![0xC1u8];
    assert(reset.len() == 1 && reset[0] == 0xC1);
    match s {
        Step::Command(code) => {
            let sent = seq![code];
            assert(sent[0] == code);
            writes_reach_registers(c, l, start, defaults, sent, second, r);
            if code == 0xC1 {
                assert(sent =~= reset);
            }
        },
        Step::Write(q, n) => {
            small(q);
            let sent = seq![q & 0x3F, n];
            assert(sent.len() == 2 && sent[0] == q && sent[1] == n);
            writes_reach_registers(c, l, start, defaults, sent, second, r);
        },
        Step::WritePair(q, a, b) => {
            small(q);
            let sent = seq![q & 0x3F] + seq![a, b];
            assert(sent.len() == 3 && sent[0] == q && sent[1] == a && sent[2] == b);
            writes_reach_registers(c, l, start, defaults, sent, second, r);
        },
        Step::Modify { reg, clear, set } => {
            small(reg);
            let ask = seq![0x40 | (reg & 0x3F)];
            assert(ask.len() == 1 && ask[0] == 0x40 + reg);
            reads_leave_registers(c, l, start, defaults, ask, 1, second, r);
            reads_leave_registers(c, l, start, defaults, ask, 1, false, reg);
            match c.read_reg(l, reg) {
                Run::Done(d, Ok(v)) => {
                    assert(v == held(l, c.at, start, defaults, false, reg));
                    let n = (v & !clear) | set;
                    let sent = seq![reg & 0x3F, n];
                    assert(sent.len() == 2 && sent[0] == reg && sent[1] == n);
                    writes_reach_registers(d, l, start, defaults, sent, second, r);
                },
                _ => {},
            }
        },
        Step::WriteB(q, n) => {
            small(q);
            let sent = seq![0xFBu8, q & 0x3F, n];
            assert(sent.len() == 3 && sent[0] == 0xFB && sent[1] == q && sent[2] == n);
            writes_reach_registers(c, l, start, defaults, sent, second, r);
        },
        Step::WriteTest(q, n) => {
            let sent = seq![0xFCu8, q, n];
            assert(sent.len() == 3 && sent[0] == 0xFC);
            writes_reach_registers(c, l, start, defaults, sent, second, r);
        },
        Step::IrqMask(mask) => {
            small(0x16);
            let sent = seq![0x16u8 & 0x3F] + crate::bytes::be32(mask);
            assert(sent.len() == 5 && sent[0] == 0x16);
            if 0x16 <= r <= 0x19 {
                assert(sent[1 + r - 0x16] == crate::bytes::be32(mask)[r - 0x16]);
            }
            writes_reach_registers(c, l, start, defaults, sent, second, r);
        },
        Step::ClearIrq => {
            reads_leave_registers(
                Chip { pending: 0, ..c },
                l,
                start,
                defaults,
                seq![0x40 | (0x1Au8 & 0x3F)],
                4,
                second,
                r,
            );
        },
        Step::PauseMs(_) => {},
    }
}

/// Steps that succeeded leave in each register what they make of it, one after
/// the other.
pub proof fn scripts_have_their_effect<E>(
    c: Chip,
    l: Trace<BusEvent<E>>,
    start: Values,
    defaults: Values,
    s: Seq<Step>,
    second: bool,
    r: u8,
)
    requires
        c.at >= 0,
        forall|i: int| 0 <= i < s.len() ==> proper(#[trigger] s[i]),
        r < 0x40,
        faithful(l, start, defaults),
    ensures
        match c.steps(l, s) {
            Run::Done(d, Ok(_)) => d.at >= 0 && held(l, d.at, start, defaults, second, r) == script(
                s,
                0,
                second,
                r,
                held(l, c.at, start, defaults, second, r),
                defaults,
            ),
            _ => true,
        },
    decreases s.len(),
{
    if s.len() > 0 {
        a_step_has_its_effect(c, l, start, defaults, s[0], second, r);
        match c.step(l, s[0]) {
            Run::Done(a, Ok(_)) => {
                let rest = s.drop_first();
                assert forall|i: int| 0 <= i < rest.len() implies proper(#[trigger] rest[i]) by {
                    assert(rest[i] == s[i + 1]);
                }
                scripts_have_their_effect(a, l, start, defaults, rest, second, r);
                let v = held(l, a.at, start, defaults, second, r);
                shifted(s, 1, second, r, v, defaults);
            },
            _ => {},
        }
    }
}

proof fn shifted(s: Seq<Step>, i: int, second: bool, r: u8, v: u8, defaults: Values)
    requires
        1 <= i <= s.len(),
    ensures
        script(s, i, second, r, v, defaults) == script(
            s.drop_first(),
            i - 1,
            second,
            r,
            v,
            defaults,
        ),
    decreases s.len() - i,
{
    if i < s.len() {
        assert(s.drop_first()[i - 1] == s[i]);
        shifted(s, i + 1, second, r, effect(s[i], second, r, v, defaults), defaults);
    }
}

/// As a reader: initiator for ISO 14443 A at 106 kbit/s, correlator on, the
/// receiver's gains and filters set, no interrupt masked.
pub proof fn a_reader_is_set_up<E>(
    c: Chip,
    l: Trace<BusEvent<E>>,
    start: Values,
    defaults: Values,
)
    requires
        c.at >= 0,
        faithful(l, start, defaults),
    ensures
        c.steps(l, crate::st25r3916::nfca_steps()) matches Run::Done(d, Ok(_)) ==> {
            let a = |r: u8| held(l, d.at, start, defaults, false, r);
            let b = |r: u8| held(l, d.at, start, defaults, true, r);
            &&& a(0x03) == 0x09
            &&& a(0x04) == 0x00
            &&& a(0x05) == 0x00
            &&& a(0x0A) & 0x04 == 0
            &&& a(0x0B) == 0x08
            &&& a(0x0C) == 0x2D
            &&& a(0x0D) == 0xD8
            &&& a(0x0E) == 0x22
            &&& a(0x16) == 0 && a(0x17) == 0 && a(0x18) == 0 && a(0x19) == 0
            &&& b(0x30) == 0x40 && b(0x31) == 0x03 && b(0x32) == 0x40 && b(0x33) == 0x03
            &&& b(0x0C) == 0x47 && b(0x0D) == 0x00
        },
{
    let s = crate::st25r3916::nfca_steps();
    assert forall|i: int| 0 <= i < s.len() implies proper(#[trigger] s[i]) by {}
    nfca_script(c, l, start, defaults, false, 0x03);
    nfca_script(c, l, start, defaults, false, 0x04);
    nfca_script(c, l, start, defaults, false, 0x05);
    nfca_script(c, l, start, defaults, false, 0x0A);
    nfca_script(c, l, start, defaults, false, 0x0B);
    nfca_script(c, l, start, defaults, false, 0x0C);
    nfca_script(c, l, start, defaults, false, 0x0D);
    nfca_script(c, l, start, defaults, false, 0x0E);
    nfca_script(c, l, start, defaults, false, 0x16);
    nfca_script(c, l, start, defaults, false, 0x17);
    nfca_script(c, l, start, defaults, false, 0x18);
    nfca_script(c, l, start, defaults, false, 0x19);
    nfca_script(c, l, start, defaults, true, 0x30);
    nfca_script(c, l, start, defaults, true, 0x31);
    nfca_script(c, l, start, defaults, true, 0x32);
    nfca_script(c, l, start, defaults, true, 0x33);
    nfca_script(c, l, start, defaults, true, 0x0C);
    nfca_script(c, l, start, defaults, true, 0x0D);
    let v = held(l, c.at, start, defaults, false, 0x0A);
    assert(((v & !0x04u8) | 0u8) & 0x04 == 0) by (bit_vector);
}

proof fn nfca_script<E>(
    c: Chip,
    l: Trace<BusEvent<E>>,
    start: Values,
    defaults: Values,
    second: bool,
    r: u8,
)
    requires
        c.at >= 0,
        r < 0x40,
        faithful(l, start, defaults),
    ensures
        c.steps(l, crate::st25r3916::nfca_steps()) matches Run::Done(d, Ok(_)) ==> {
            let v = held(l, c.at, start, defaults, second, r);
            held(l, d.at, start, defaults, second, r) == if second {
                if r == 0x30 || r == 0x32 {
                    0x40
                } else if r == 0x31 || r == 0x33 {
                    0x03
                } else if r == 0x0C {
                    0x47
                } else if r == 0x0D {
                    0x00
                } else {
                    v
                }
            } else if r == 0x02 {
                (v & !0x04u8) | 0
            } else if r == 0x03 {
                0x09
            } else if r == 0x04 || r == 0x05 || 0x16 <= r <= 0x19 {
                0
            } else if r == 0x0A {
                (v & !0x04u8) | 0
            } else if r == 0x0B {
                0x08
            } else if r == 0x0C {
                0x2D
            } else if r == 0x0D {
                0xD8
            } else if r == 0x0E {
                0x22
            } else {
                v
            }
        },
{
    let s = crate::st25r3916::nfca_steps();
    assert forall|i: int| 0 <= i < s.len() implies proper(#[trigger] s[i]) by {}
    scripts_have_their_effect(c, l, start, defaults, s, second, r);
    reveal_with_fuel(script, 20);
}

proof fn constants()
    ensures
        (0x10u8 & !0x07u8) | 0x07u8 == 0x17,
        (0x84u8 & !0u8) | 0x20u8 == 0xA4,
        0x50u8 | 0x08u8 | 0x04u8 == 0x5C,
        0x80u8 | 0x40u8 == 0xC0,
        0x08u8 | 0x40u8 == 0x48,
{
    assert((0x10u8 & !0x07u8) | 0x07u8 == 0x17 && (0x84u8 & !0u8) | 0x20u8 == 0xA4 && 0x50u8 | 0x08u8
        | 0x04u8 == 0x5C && 0x80u8 | 0x40u8 == 0xC0 && 0x08u8 | 0x40u8 == 0x48) by (bit_vector);
}

/// The bring-up starts from the chip's defaults and sets: I2C timing and supply,
/// driver, field thresholds, frame delay, modulation, antenna tuning; all
/// interrupts but errors are masked.
pub proof fn a_chip_is_brought_up<E>(
    c: Chip,
    l: Trace<BusEvent<E>>,
    start: Values,
    defaults: Values,
    second: bool,
    r: u8,
)
    requires
        c.at >= 0,
        r < 0x40,
        faithful(l, start, defaults),
    ensures
        c.steps(l, crate::st25r3916::init_steps()) matches Run::Done(d, Ok(_)) ==> {
            let v = held(l, c.at, start, defaults, second, r);
            held(l, d.at, start, defaults, second, r) == if second {
                if r == 0x2A {
                    0x00
                } else if r == 0x05 {
                    0x40
                } else if r < 0x40 {
                    defaults(true, r)
                } else {
                    v
                }
            } else if r == 0x00 {
                0x17
            } else if r == 0x01 {
                0xA4
            } else if r == 0x28 {
                0xD0
            } else if r == 0x2A {
                0x13
            } else if r == 0x2B {
                0x02
            } else if r == 0x08 {
                (defaults(false, r) & !0xF0u8) | 0x50
            } else if r == 0x29 {
                0x5F
            } else if r == 0x26 || r == 0x27 {
                0x82
            } else if r == 0x02 {
                (defaults(false, r) & !0x03u8) | 0
            } else if r == 0x16 || r == 0x17 || r == 0x19 {
                0xFF
            } else if r == 0x18 {
                0x00
            } else if r < 0x40 {
                defaults(false, r)
            } else {
                v
            }
        },
{
    let s = crate::st25r3916::init_steps();
    assert forall|i: int| 0 <= i < s.len() implies proper(#[trigger] s[i]) by {}
    scripts_have_their_effect(c, l, start, defaults, s, second, r);
    reveal_with_fuel(script, 24);
    constants();
}

/// As a tag: no wake-up mode, field detector automatic, a UID of seven bytes.
pub proof fn a_target_begins<E>(
    c: Chip,
    l: Trace<BusEvent<E>>,
    start: Values,
    defaults: Values,
    second: bool,
    r: u8,
)
    requires
        c.at >= 0,
        r < 0x40,
        faithful(l, start, defaults),
    ensures
        c.steps(l, crate::t2t_emu::target_steps()) matches Run::Done(d, Ok(_)) ==> {
            let v = held(l, c.at, start, defaults, second, r);
            held(l, d.at, start, defaults, second, r) == if second {
                v
            } else if r == 0x02 {
                (((v & !0x04u8) | 0) & !0x03u8) | 0x03
            } else if r == 0x0A {
                (v & !0x30u8) | 0x10
            } else {
                v
            }
        },
{
    let s = crate::t2t_emu::target_steps();
    assert forall|i: int| 0 <= i < s.len() implies proper(#[trigger] s[i]) by {}
    scripts_have_their_effect(c, l, start, defaults, s, second, r);
    reveal_with_fuel(script, 6);
    constants();
}

/// As a tag: bit rate detection, automatic answers for NFC-A alone, timers,
/// parity, antenna and filters, no interrupt masked.
pub proof fn a_target_listens<E>(
    c: Chip,
    l: Trace<BusEvent<E>>,
    start: Values,
    defaults: Values,
    second: bool,
    r: u8,
)
    requires
        c.at >= 0,
        r < 0x40,
        faithful(l, start, defaults),
    ensures
        c.steps(l, crate::t2t_emu::listen_steps()) matches Run::Done(d, Ok(_)) ==> {
            let v = held(l, c.at, start, defaults, second, r);
            held(l, d.at, start, defaults, second, r) == if second {
                if 0x30 <= r <= 0x33 {
                    0x00
                } else {
                    v
                }
            } else if r == 0x03 {
                0xC8
            } else if r == 0x08 {
                0x5C
            } else if 0x16 <= r <= 0x19 {
                0x00
            } else if r == 0x12 {
                0x08
            } else if r == 0x0F {
                0x04
            } else if r == 0x05 {
                (v & !0xE0u8) | 0
            } else if r == 0x26 {
                0x00
            } else if r == 0x27 {
                0xFF
            } else {
                v
            }
        },
{
    let s = crate::t2t_emu::listen_steps();
    assert forall|i: int| 0 <= i < s.len() implies proper(#[trigger] s[i]) by {}
    scripts_have_their_effect(c, l, start, defaults, s, second, r);
    reveal_with_fuel(script, 16);
    constants();
}

/// Waiting for a field: receiver on, automatic answers on, no CRC on what is
/// received, bit rate detection.
pub proof fn a_target_senses<E>(
    c: Chip,
    l: Trace<BusEvent<E>>,
    start: Values,
    defaults: Values,
    second: bool,
    r: u8,
)
    requires
        c.at >= 0,
        r < 0x40,
        faithful(l, start, defaults),
    ensures
        c.steps(l, crate::t2t_emu::sense_steps()) matches Run::Done(d, Ok(_)) ==> {
            let v = held(l, c.at, start, defaults, second, r);
            held(l, d.at, start, defaults, second, r) == if second {
                v
            } else if r == 0x02 {
                (v & !0u8) | 0x40
            } else if r == 0x08 {
                (v & !0x01u8) | 0
            } else if r == 0x05 {
                (v & !0x20u8) | 0
            } else if r == 0x0A {
                (v & !0u8) | 0x80
            } else if r == 0x03 {
                0xC8
            } else {
                v
            }
        },
{
    let s = crate::t2t_emu::sense_steps();
    assert forall|i: int| 0 <= i < s.len() implies proper(#[trigger] s[i]) by {}
    scripts_have_their_effect(c, l, start, defaults, s, second, r);
    reveal_with_fuel(script, 10);
    constants();
}

/// Without a field: transmitter off, oscillator and receiver on.
pub proof fn a_target_rests<E>(
    c: Chip,
    l: Trace<BusEvent<E>>,
    start: Values,
    defaults: Values,
    second: bool,
    r: u8,
)
    requires
        c.at >= 0,
        r < 0x40,
        faithful(l, start, defaults),
    ensures
        c.steps(l, crate::t2t_emu::off_steps()) matches Run::Done(d, Ok(_)) ==> {
            let v = held(l, c.at, start, defaults, second, r);
            held(l, d.at, start, defaults, second, r) == if second {
                v
            } else if r == 0x02 {
                (((v & !0x08u8) | 0) & !0u8) | 0xC0
            } else {
                v
            }
        },
{
    let s = crate::t2t_emu::off_steps();
    assert forall|i: int| 0 <= i < s.len() implies proper(#[trigger] s[i]) by {}
    scripts_have_their_effect(c, l, start, defaults, s, second, r);
    reveal_with_fuel(script, 4);
    constants();
}

/// Anticollision under way: the CRC is taken off, 106 kbit/s, listening as
/// NFC-A.
pub proof fn a_target_gets_ready<E>(
    c: Chip,
    l: Trace<BusEvent<E>>,
    start: Values,
    defaults: Values,
    second: bool,
    r: u8,
)
    requires
        c.at >= 0,
        r < 0x40,
        faithful(l, start, defaults),
    ensures
        c.steps(l, crate::t2t_emu::ready_steps()) matches Run::Done(d, Ok(_)) ==> {
            let v = held(l, c.at, start, defaults, second, r);
            held(l, d.at, start, defaults, second, r) == if second {
                v
            } else if r == 0x0A {
                (v & !0x80u8) | 0
            } else if r == 0x04 {
                0x00
            } else if r == 0x02 {
                (v & !0x04u8) | 0
            } else if r == 0x03 {
                0x88
            } else {
                v
            }
        },
{
    let s = crate::t2t_emu::ready_steps();
    assert forall|i: int| 0 <= i < s.len() implies proper(#[trigger] s[i]) by {}
    scripts_have_their_effect(c, l, start, defaults, s, second, r);
    reveal_with_fuel(script, 6);
    constants();
}

/// Halted: automatic answers on, bit rate detection.
pub proof fn a_target_halts<E>(
    c: Chip,
    l: Trace<BusEvent<E>>,
    start: Values,
    defaults: Values,
    second: bool,
    r: u8,
)
    requires
        c.at >= 0,
        r < 0x40,
        faithful(l, start, defaults),
    ensures
        c.steps(l, crate::t2t_emu::halt_steps()) matches Run::Done(d, Ok(_)) ==> {
            let v = held(l, c.at, start, defaults, second, r);
            held(l, d.at, start, defaults, second, r) == if second {
                v
            } else if r == 0x08 {
                (v & !0x01u8) | 0
            } else if r == 0x03 {
                0xC8
            } else if r == 0x05 {
                (v & !0x20u8) | 0
            } else {
                v
            }
        },
{
    let s = crate::t2t_emu::halt_steps();
    assert forall|i: int| 0 <= i < s.len() implies proper(#[trigger] s[i]) by {}
    scripts_have_their_effect(c, l, start, defaults, s, second, r);
    reveal_with_fuel(script, 7);
    constants();
}

} // verus!
