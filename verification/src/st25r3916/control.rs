//! The operation control register across whole sequences: oscillator,
//! transmitter and receiver.
//!
//! A chip that keeps what is written to it answers every read of the register
//! with what was written last, or zero after `SET_DEFAULT`. On the trace of
//! such a chip, what a sequence leaves in the register is known.

use crate::bus::BusEvent;
use crate::st25r3916::model::Chip;
use crate::st25r3916::{cmd, irq, reg, Step, ADDR, EN, RX_EN, TX_EN};
use crate::trace::{Run, Trace};
use vstd::prelude::*;

verus! {

/// The register after one event, if it held `v` before.
pub open spec fn after_event<E>(event: BusEvent<E>, v: u8) -> u8 {
    match event {
        BusEvent::Write { addr, sent, outcome } => if addr == ADDR && outcome is Ok {
            if sent == seq![cmd::SET_DEFAULT] {
                0
            } else if sent.len() == 2 && sent[0] == reg::OP_CONTROL {
                sent[1]
            } else {
                v
            }
        } else {
            v
        },
        _ => v,
    }
}

/// The register after the first `n` events, if it held `v` before.
pub open spec fn control<E>(l: Trace<BusEvent<E>>, n: int, v: u8) -> u8
    decreases n,
{
    if n <= 0 {
        v
    } else {
        after_event(l.at(n - 1), control(l, n - 1, v))
    }
}

/// Every read of the register alone is answered with what it holds.
pub open spec fn keeps_control<E>(l: Trace<BusEvent<E>>, v: u8) -> bool {
    forall|i: int|
        0 <= i ==> match #[trigger] l.at(i) {
            BusEvent::Read { addr, sent, asked, reply } => addr == ADDR && sent == seq![0x42u8]
                && asked == 1 && reply is Ok ==> reply->Ok_0[0] == control(l, i, v),
            _ => true,
        }
}

/// The register after a step that succeeded.
pub open spec fn after_step(s: Step, v: u8) -> u8 {
    match s {
        Step::Command(c) => if c == cmd::SET_DEFAULT {
            0
        } else {
            v
        },
        Step::Write(r, n) => if r == reg::OP_CONTROL {
            n
        } else {
            v
        },
        Step::Modify { reg: r, clear, set } => if r == reg::OP_CONTROL {
            (v & !clear) | set
        } else {
            v
        },
        _ => v,
    }
}

/// The register after steps that succeeded.
pub open spec fn after_steps(s: Seq<Step>, v: u8) -> u8
    decreases s.len(),
{
    if s.len() == 0 {
        v
    } else {
        after_steps(s.drop_first(), after_step(s[0], v))
    }
}

/// The step names a register that exists.
pub open spec fn plain(s: Step) -> bool {
    match s {
        Step::Write(r, _) => r < 0x40,
        Step::Modify { reg: r, .. } => r < 0x40,
        _ => true,
    }
}

proof fn small_registers(r: u8)
    ensures
        r < 0x40 ==> r & 0x3F == r,
        0x40u8 | (0x02u8 & 0x3F) == 0x42,
{
    crate::bits::register_codes(r);
    crate::bits::register_codes(0x02);
}

proof fn write_effect<E>(c: Chip, l: Trace<BusEvent<E>>, sent: Seq<u8>, v: u8)
    requires
        c.at >= 0,
    ensures
        match c.write(l, sent) {
            Run::Done(d, r) => d.at == c.at + 1 && control(l, d.at, v) == (if r is Ok && sent
                == seq![cmd::SET_DEFAULT] {
                0
            } else if r is Ok && sent.len() == 2 && sent[0] == reg::OP_CONTROL {
                sent[1]
            } else {
                control(l, c.at, v)
            }),
            Run::Off => true,
        },
{
}

proof fn read_effect<E>(c: Chip, l: Trace<BusEvent<E>>, sent: Seq<u8>, n: nat, v: u8)
    requires
        c.at >= 0,
    ensures
        match c.read(l, sent, n) {
            Run::Done(d, _) => d.at == c.at + 1 && control(l, d.at, v) == control(l, c.at, v),
            Run::Off => true,
        },
{
}

proof fn command_effect<E>(c: Chip, l: Trace<BusEvent<E>>, code: u8, v: u8)
    requires
        c.at >= 0,
    ensures
        match c.command(l, code) {
            Run::Done(d, Ok(_)) => d.at >= 0 && control(l, d.at, v) == (if code == cmd::SET_DEFAULT {
                0
            } else {
                control(l, c.at, v)
            }),
            _ => true,
        },
{
    let sent = seq![code];
    write_effect(c, l, sent, v);
    assert(sent[0] == code);
    if sent == seq![cmd::SET_DEFAULT] {
        assert(seq![cmd::SET_DEFAULT][0] == cmd::SET_DEFAULT);
    }
}

proof fn write_reg_effect<E>(c: Chip, l: Trace<BusEvent<E>>, r: u8, n: u8, v: u8)
    requires
        c.at >= 0,
        r < 0x40,
    ensures
        match c.write_reg(l, r, n) {
            Run::Done(d, Ok(_)) => d.at >= 0 && control(l, d.at, v) == (if r == reg::OP_CONTROL {
                n
            } else {
                control(l, c.at, v)
            }),
            _ => true,
        },
{
    small_registers(r);
    let sent = seq![r & 0x3F, n];
    write_effect(c, l, sent, v);
    assert(sent.len() == 2 && sent[0] == r && sent[1] == n);
    assert(sent.len() != seq![cmd::SET_DEFAULT].len());
}

proof fn read_reg_effect<E>(c: Chip, l: Trace<BusEvent<E>>, r: u8, v: u8)
    requires
        c.at >= 0,
        keeps_control(l, v),
    ensures
        match c.read_reg(l, r) {
            Run::Done(d, out) => {
                &&& d.at >= 0
                &&& control(l, d.at, v) == control(l, c.at, v)
                &&& out is Ok && r == reg::OP_CONTROL ==> out->Ok_0 == control(l, c.at, v)
            },
            Run::Off => true,
        },
{
    small_registers(r);
    read_effect(c, l, seq![0x40 | (r & 0x3F)], 1, v);
}

proof fn modify_effect<E>(c: Chip, l: Trace<BusEvent<E>>, r: u8, clear: u8, set: u8, v: u8)
    requires
        c.at >= 0,
        r < 0x40,
        keeps_control(l, v),
    ensures
        match c.modify_reg(l, r, clear, set) {
            Run::Done(d, Ok(_)) => d.at >= 0 && control(l, d.at, v) == (if r == reg::OP_CONTROL {
                (control(l, c.at, v) & !clear) | set
            } else {
                control(l, c.at, v)
            }),
            _ => true,
        },
{
    read_reg_effect(c, l, r, v);
    match c.read_reg(l, r) {
        Run::Done(d, Ok(x)) => write_reg_effect(d, l, r, (x & !clear) | set, v),
        _ => {},
    }
}

proof fn irq_effects<E>(c: Chip, l: Trace<BusEvent<E>>, v: u8)
    requires
        c.at >= 0,
        keeps_control(l, v),
    ensures
        match c.clear_irq(l) {
            Run::Done(d, Ok(_)) => d.at >= 0 && control(l, d.at, v) == control(l, c.at, v),
            _ => true,
        },
        match c.peek_irq(l) {
            Run::Done(d, Ok(_)) => d.at >= 0 && control(l, d.at, v) == control(l, c.at, v),
            _ => true,
        },
{
    read_effect(Chip { pending: 0, ..c }, l, seq![0x40 | (reg::IRQ_MAIN & 0x3F)], 4, v);
    read_reg_effect(c, l, reg::IRQ_ERROR_WUP, v);
    match c.read_reg(l, reg::IRQ_ERROR_WUP) {
        Run::Done(d, Ok(_)) => {
            read_effect(d, l, seq![0x40 | (reg::IRQ_MAIN & 0x3F)], 2, v);
            match d.read_regs(l, reg::IRQ_MAIN, 2) {
                Run::Done(e, Ok(_)) => read_reg_effect(e, l, reg::IRQ_TARGET, v),
                _ => {},
            }
        },
        _ => {},
    }
}

proof fn wait_effect<E>(c: Chip, l: Trace<BusEvent<E>>, bits: u32, left: nat, v: u8)
    requires
        c.at >= 0,
        keeps_control(l, v),
    ensures
        match c.wait_irq(l, bits, left) {
            Run::Done(d, Ok(_)) => d.at >= 0 && control(l, d.at, v) == control(l, c.at, v),
            _ => true,
        },
    decreases left,
{
    irq_effects(c, l, v);
    match c.peek_irq(l) {
        Run::Done(d, Ok(pending)) => if pending & bits == 0 && left > 0 {
            match d.pause_us::<E>(l, 250) {
                Run::Done(e, Ok(_)) => wait_effect(e, l, bits, (left - 1) as nat, v),
                _ => {},
            }
        },
        _ => {},
    }
}

proof fn step_effect<E>(c: Chip, l: Trace<BusEvent<E>>, s: Step, v: u8)
    requires
        c.at >= 0,
        plain(s),
        keeps_control(l, v),
    ensures
        match c.step(l, s) {
            Run::Done(d, Ok(_)) => d.at >= 0 && control(l, d.at, v) == after_step(
                s,
                control(l, c.at, v),
            ),
            _ => true,
        },
{
    match s {
        Step::Command(code) => command_effect(c, l, code, v),
        Step::Write(r, n) => write_reg_effect(c, l, r, n, v),
        Step::WritePair(r, a, b) => {
            let sent = seq![r & 0x3F] + seq![a, b];
            write_effect(c, l, sent, v);
            assert(sent.len() == 3);
            assert(seq![cmd::SET_DEFAULT].len() == 1);
        },
        Step::Modify { reg: r, clear, set } => modify_effect(c, l, r, clear, set, v),
        Step::WriteB(r, n) => {
            let sent = seq![cmd::SPACE_B_ACCESS, r & 0x3F, n];
            write_effect(c, l, sent, v);
            assert(sent.len() == 3);
            assert(seq![cmd::SET_DEFAULT].len() == 1);
        },
        Step::WriteTest(r, n) => {
            let sent = seq![cmd::TEST_ACCESS, r, n];
            write_effect(c, l, sent, v);
            assert(sent.len() == 3);
            assert(seq![cmd::SET_DEFAULT].len() == 1);
        },
        Step::IrqMask(mask) => {
            let sent = seq![reg::IRQ_MASK_MAIN & 0x3F] + crate::bytes::be32(mask);
            write_effect(c, l, sent, v);
            assert(sent.len() == 5);
            assert(seq![cmd::SET_DEFAULT].len() == 1);
        },
        Step::ClearIrq => irq_effects(c, l, v),
        Step::PauseMs(_) => {},
    }
}

proof fn steps_effect<E>(c: Chip, l: Trace<BusEvent<E>>, s: Seq<Step>, v: u8)
    requires
        c.at >= 0,
        forall|i: int| 0 <= i < s.len() ==> plain(#[trigger] s[i]),
        keeps_control(l, v),
    ensures
        match c.steps(l, s) {
            Run::Done(d, Ok(_)) => d.at >= 0 && control(l, d.at, v) == after_steps(
                s,
                control(l, c.at, v),
            ),
            _ => true,
        },
    decreases s.len(),
{
    if s.len() > 0 {
        step_effect(c, l, s[0], v);
        match c.step(l, s[0]) {
            Run::Done(d, Ok(_)) => {
                let rest = s.drop_first();
                assert forall|i: int| 0 <= i < rest.len() implies plain(#[trigger] rest[i]) by {
                    assert(rest[i] == s[i + 1]);
                }
                steps_effect(d, l, rest, v);
            },
            _ => {},
        }
    }
}

proof fn probe_effect<E>(c: Chip, l: Trace<BusEvent<E>>, identity: u8, left: nat, v: u8)
    requires
        c.at >= 0,
        keeps_control(l, v),
    ensures
        match c.probe(l, identity, left) {
            Run::Done(d, Ok(_)) => d.at >= 0 && control(l, d.at, v) == control(l, c.at, v),
            _ => true,
        },
    decreases left,
{
    if left > 0 {
        read_reg_effect(c, l, reg::IC_IDENTITY, v);
        match c.read_reg(l, reg::IC_IDENTITY) {
            Run::Done(d, r) => {
                match d.pause_ms::<E>(l, 20) {
                    Run::Done(e, _) => probe_effect(
                        e,
                        l,
                        match r {
                            Ok(x) => x,
                            Err(_) => identity,
                        },
                        (left - 1) as nat,
                        v,
                    ),
                    Run::Off => {},
                }
            },
            Run::Off => {},
        }
    }
}

proof fn osc_required_effect<E>(c: Chip, l: Trace<BusEvent<E>>, v: u8)
    requires
        c.at >= 0,
        keeps_control(l, v),
    ensures
        match c.osc_required(l) {
            Run::Done(d, Ok(_)) => d.at >= 0 && control(l, d.at, v) == control(l, c.at, v),
            _ => true,
        },
        match c.osc_ok(l) {
            Run::Done(d, Ok(_)) => d.at >= 0 && control(l, d.at, v) == control(l, c.at, v),
            _ => true,
        },
{
    read_reg_effect(c, l, reg::AUX_DISPLAY, v);
}

/// Starting the oscillator sets its bit and keeps the others.
pub proof fn the_oscillator_is_started<E>(c: Chip, l: Trace<BusEvent<E>>, v: u8)
    requires
        c.at >= 0,
        keeps_control(l, v),
    ensures
        match c.enable_osc(l) {
            Run::Done(d, Ok(_)) => d.at >= 0 && control(l, d.at, v) == control(l, c.at, v) | EN,
            _ => true,
        },
{
    let x = control(l, c.at, v);
    assert((x & 0x80 != 0 ==> x | 0x80 == x) && (x & !0u8) | 0x80 == x | 0x80) by (bit_vector);
    read_reg_effect(c, l, reg::OP_CONTROL, v);
    match c.read_reg(l, reg::OP_CONTROL) {
        Run::Done(d, Ok(seen)) => {
            if seen & EN == 0 {
                let s = crate::st25r3916::osc_start_steps();
                assert forall|i: int| 0 <= i < s.len() implies plain(#[trigger] s[i]) by {}
                reveal_with_fuel(after_steps, 4);
                assert(s.drop_first() =~= seq![s[1], s[2]]);
                assert(s.drop_first().drop_first() =~= seq![s[2]]);
                assert(s.drop_first().drop_first().drop_first() =~= Seq::<Step>::empty());
                steps_effect(d, l, s, v);
                match d.steps(l, s) {
                    Run::Done(e, Ok(_)) => {
                        wait_effect(e, l, irq::OSC, 200, v);
                        match e.wait_irq(l, irq::OSC, 200) {
                            Run::Done(f, Ok(_)) => {
                                modify_effect(f, l, reg::IRQ_MASK_MAIN, 0, 0x80, v);
                                match f.modify_reg(l, reg::IRQ_MASK_MAIN, 0, 0x80) {
                                    Run::Done(g, Ok(_)) => {
                                        osc_required_effect(g, l, v);
                                        match g.osc_ok(l) {
                                            Run::Done(h, Ok(_)) => osc_required_effect(h, l, v),
                                            _ => {},
                                        }
                                    },
                                    _ => {},
                                }
                            },
                            _ => {},
                        }
                    },
                    _ => {},
                }
            } else {
                osc_required_effect(d, l, v);
            }
        },
        _ => {},
    }
}

proof fn constants_of_the_bring_up()
    ensures
        (0u8 & !0x03u8) | 0u8 == 0,
        0u8 | 0x80 == 0x80,
{
    assert((0u8 & !0x03u8) | 0u8 == 0 && 0u8 | 0x80 == 0x80) by (bit_vector);
}

/// Steps taken one by one.
proof fn one_step_on(s: Seq<Step>, i: int, x: u8)
    requires
        0 <= i < s.len(),
    ensures
        after_steps(s.skip(i), x) == after_steps(s.skip(i + 1), after_step(s[i], x)),
{
    assert(s.skip(i).drop_first() =~= s.skip(i + 1));
    assert(s.skip(i)[0] == s[i]);
}

/// What the first part of the bring-up leaves in the register: nothing, as
/// the chip was set to its defaults on the way.
proof fn the_defaults_clear_the_register(x: u8)
    ensures
        after_steps(crate::st25r3916::init_steps(), x) == 0,
{
    let s = crate::st25r3916::init_steps();
    let x1 = after_step(s[0], x);
    let x2 = after_step(s[1], x1);
    let x3 = after_step(s[2], x2);
    assert(s.skip(0) =~= s);
    one_step_on(s, 0, x);
    one_step_on(s, 1, x1);
    one_step_on(s, 2, x2);
    one_step_on(s, 3, x3);
    assert(after_step(s[3], x3) == 0);
    tail_keeps_zero(s, 4);
}

proof fn tail_keeps_zero(s: Seq<Step>, i: int)
    requires
        0 <= i <= s.len(),
        s == crate::st25r3916::init_steps(),
        i >= 4,
    ensures
        after_steps(s.skip(i), 0) == 0,
    decreases s.len() - i,
{
    if i < s.len() {
        constants_of_the_bring_up();
        assert(after_step(s[i], 0) == 0);
        one_step_on(s, i, 0);
        tail_keeps_zero(s, i + 1);
    }
}

proof fn ready_steps_keep_the_register(x: u8)
    ensures
        after_steps(crate::st25r3916::ready_steps(), x) == x,
{
    let s = crate::st25r3916::ready_steps();
    reveal_with_fuel(after_steps, 4);
    assert(s.drop_first() =~= seq![s[1], s[2]]);
    assert(s.drop_first().drop_first() =~= seq![s[2]]);
    assert(s.drop_first().drop_first().drop_first() =~= Seq::<Step>::empty());
}

/// A successful init leaves the chip in Ready mode with the field off:
/// oscillator on, transmitter and receiver off.
pub proof fn init_leaves_ready_mode_without_field<E>(c: Chip, l: Trace<BusEvent<E>>, v: u8)
    requires
        c.at >= 0,
        keeps_control(l, v),
    ensures
        match c.init(l) {
            Run::Done(d, Ok(_)) => control(l, d.at, v) == EN,
            _ => true,
        },
{
    constants_of_the_bring_up();
    probe_effect(c, l, 0, 5, v);
    match c.probe(l, 0, 5) {
        Run::Done(d, Ok(_)) => {
            let s = crate::st25r3916::init_steps();
            assert forall|i: int| 0 <= i < s.len() implies plain(#[trigger] s[i]) by {}
            steps_effect(d, l, s, v);
            the_defaults_clear_the_register(control(l, d.at, v));
            match d.steps(l, s) {
                Run::Done(e, Ok(_)) => {
                    the_oscillator_is_started(e, l, v);
                    match e.enable_osc(l) {
                        Run::Done(f, Ok(_)) => {
                            let t = crate::st25r3916::ready_steps();
                            assert forall|i: int| 0 <= i < t.len() implies plain(
                                #[trigger] t[i],
                            ) by {}
                            steps_effect(f, l, t, v);
                            ready_steps_keep_the_register(EN);
                        },
                        _ => {},
                    }
                },
                _ => {},
            }
        },
        _ => {},
    }
}

/// A field that was switched on with success has transmitter and receiver on,
/// or it was on before.
pub proof fn the_field_is_on<E>(c: Chip, l: Trace<BusEvent<E>>, v: u8)
    requires
        c.at >= 0,
        keeps_control(l, v),
    ensures
        match c.field_on(l) {
            Run::Done(d, Ok(_)) => {
                let before = control(l, c.at, v);
                let after = control(l, d.at, v);
                &&& after & TX_EN != 0
                &&& before & TX_EN != 0 ==> after == before
                &&& before & TX_EN == 0 ==> after & RX_EN != 0 && after & EN == before & EN
            },
            _ => true,
        },
{
    let x = control(l, c.at, v);
    assert({
        let n = ((x & !0x03u8) | 0u8) & !0u8 | (0x08u8 | 0x40u8);
        &&& n & 0x08 != 0
        &&& n & 0x40 != 0
        &&& n & 0x80 == x & 0x80
    }) by (bit_vector);
    read_reg_effect(c, l, reg::OP_CONTROL, v);
    match c.read_reg(l, reg::OP_CONTROL) {
        Run::Done(d, Ok(seen)) => {
            let s = crate::st25r3916::field_on_steps();
            assert forall|i: int| 0 <= i < s.len() implies plain(#[trigger] s[i]) by {}
            reveal_with_fuel(after_steps, 4);
            assert(s.drop_first() =~= seq![s[1], s[2]]);
            assert(s.drop_first().drop_first() =~= seq![s[2]]);
            assert(s.drop_first().drop_first().drop_first() =~= Seq::<Step>::empty());
            steps_effect(d, l, s, v);
        },
        _ => {},
    }
}

} // verus!
