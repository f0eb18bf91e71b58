//! What the registers of the devices on the bus hold.
//!
//! A device takes a write as a register number and the values for it and the
//! registers behind it, and answers a read with what its register holds. On the
//! trace of such devices, what each operation leaves in them is known.

use crate::board::ioe;
use crate::bus::BusEvent;
use crate::i2c_reg::Cursor;
use crate::ioe1::Pin;
use crate::trace::{Run, Trace};
use vstd::prelude::*;

verus! {

/// What the devices hold at first: by address and register.
pub type Start = spec_fn(u8, u8) -> u8;

/// The register of a device after one event, if it held `v` before.
pub open spec fn after<E>(event: BusEvent<E>, addr: u8, r: u8, v: u8) -> u8 {
    match event {
        BusEvent::Write { addr: a, sent, outcome } => if a == addr && outcome is Ok && sent.len() > 1
            && sent[0] <= r && r - sent[0] < sent.len() - 1 {
            sent[1 + r - sent[0]]
        } else {
            v
        },
        _ => v,
    }
}

/// The register of a device after the first `n` events.
pub open spec fn held<E>(l: Trace<BusEvent<E>>, n: int, start: Start, addr: u8, r: u8) -> u8
    decreases n,
{
    if n <= 0 {
        start(addr, r)
    } else {
        after(l.at(n - 1), addr, r, held(l, n - 1, start, addr, r))
    }
}

/// Every read of a single register is answered with what it holds.
pub open spec fn faithful<E>(l: Trace<BusEvent<E>>, start: Start) -> bool {
    forall|i: int|
        0 <= i ==> match #[trigger] l.at(i) {
            BusEvent::Read { addr, sent, asked, reply } => sent.len() == 1 && asked == 1 && reply
                is Ok ==> reply->Ok_0[0] == held(l, i, start, addr, sent[0]),
            _ => true,
        }
}

/// A bit of a register, counted from the lowest.
pub open spec fn bit(v: u8, k: u8) -> bool {
    (v >> k) & 1 == 1
}

proof fn masks_move_their_bits(v: u8, k: u8, j: u8, on: bool)
    requires
        k < 8,
        j < 8,
    ensures
        ({
            let m = 1u8 << k;
            let n = (v & !m) | ((if on {
                m
            } else {
                0
            }) & m);
            bit(n, j) == if j == k {
                on
            } else {
                bit(v, j)
            }
        }),
{
    assert(k < 8 && j < 8 ==> ({
        let m = 1u8 << k;
        let set = (v & !m) | (m & m);
        let clear = (v & !m) | (0u8 & m);
        &&& (set >> j) & 1 == (if j == k {
            1u8
        } else {
            (v >> j) & 1
        })
        &&& (clear >> j) & 1 == (if j == k {
            0u8
        } else {
            (v >> j) & 1
        })
    })) by (bit_vector);
}

proof fn updates_take_effect<E>(
    c: Cursor,
    l: Trace<BusEvent<E>>,
    start: Start,
    addr: u8,
    reg: u8,
    mask: u8,
    value: u8,
    a: u8,
    r: u8,
)
    requires
        c.at >= 0,
        faithful(l, start),
    ensures
        match c.update_u8(l, addr, reg, mask, value) {
            Run::Done(d, Ok(_)) => {
                let was = held(l, c.at, start, a, r);
                &&& c.at < d.at
                &&& held(l, d.at, start, a, r) == if a == addr && r == reg {
                    (was & !mask) | (value & mask)
                } else {
                    was
                }
            },
            _ => true,
        },
{
    match c.read_u8(l, addr, reg) {
        Run::Done(d, Ok(cur)) => {
            assert(seq![reg].len() == 1 && seq![reg][0] == reg);
            assert(cur == held(l, c.at, start, addr, reg));
            let new = (cur & !mask) | (value & mask);
            let sent = seq![reg] + seq![new];
            assert(sent.len() == 2 && sent[0] == reg && sent[1] == new);
            assert(held(l, c.at + 1, start, a, r) == held(l, c.at, start, a, r));
            assert(held(l, c.at + 2, start, a, r) == after(
                l.at(c.at + 1),
                a,
                r,
                held(l, c.at + 1, start, a, r),
            ));
        },
        _ => {},
    }
}

proof fn writes_take_effect<E>(
    c: Cursor,
    l: Trace<BusEvent<E>>,
    start: Start,
    addr: u8,
    reg: u8,
    data: Seq<u8>,
    a: u8,
    r: u8,
)
    requires
        c.at >= 0,
        data.len() > 0,
    ensures
        match c.write(l, addr, reg, data) {
            Run::Done(d, Ok(_)) => {
                &&& d.at == c.at + 1
                &&& held(l, d.at, start, a, r) == if a == addr && reg <= r && r - reg < data.len() {
                    data[r - reg]
                } else {
                    held(l, c.at, start, a, r)
                }
            },
            _ => true,
        },
{
    let sent = seq![reg] + data;
    assert(sent[0] == reg);
    if reg <= r && r - reg < data.len() {
        assert(sent[1 + r - reg] == data[r - reg]);
    }
}

/// A written pin has its level, and every other pin and register stays.
pub proof fn a_pin_is_driven<E>(
    c: Cursor,
    l: Trace<BusEvent<E>>,
    start: Start,
    pin: Pin,
    high: bool,
    r: u8,
    j: u8,
)
    requires
        c.at >= 0,
        faithful(l, start),
        pin.0 < 14,
        j < 8,
    ensures
        c.ioe1_write(l, pin, high) matches Run::Done(d, Ok(_)) ==> {
            let mine = r == (if pin.0 < 8 {
                0x05int
            } else {
                0x06
            }) && j == pin.0 % 8;
            &&& c.at < d.at
            &&& bit(held(l, d.at, start, 0x4F, r), j) == if mine {
                high
            } else {
                bit(held(l, c.at, start, 0x4F, r), j)
            }
        },
{
    a_bit_is_set(c, l, start, 0x05, 0x06, pin, high, r, j);
}

proof fn a_bit_is_set<E>(
    c: Cursor,
    l: Trace<BusEvent<E>>,
    start: Start,
    low: u8,
    high: u8,
    pin: Pin,
    on: bool,
    r: u8,
    j: u8,
)
    requires
        c.at >= 0,
        faithful(l, start),
        pin.0 < 14,
        j < 8,
    ensures
        c.ioe1_bit(l, low, high, pin, on) matches Run::Done(d, Ok(_)) ==> {
            let mine = r == (if pin.0 < 8 {
                low
            } else {
                high
            }) && j == pin.0 % 8;
            &&& c.at < d.at
            &&& bit(held(l, d.at, start, 0x4F, r), j) == if mine {
                on
            } else {
                bit(held(l, c.at, start, 0x4F, r), j)
            }
        },
{
    let m = pin.mask();
    let value = if on {
        m
    } else {
        0
    };
    let reg = pin.of(low, high);
    updates_take_effect(c, l, start, 0x4F, reg, m, value, 0x4F, r);
    masks_move_their_bits(held(l, c.at, start, 0x4F, r), (pin.0 % 8) as u8, j, on);
}

/// A pin that is made an output drives both ways (push-pull), a pin that is
/// made an input has its pull-up as asked for; every other pin and register
/// stays, and so does the level.
pub proof fn a_pin_has_its_direction<E>(
    c: Cursor,
    l: Trace<BusEvent<E>>,
    start: Start,
    pin: Pin,
    pull_up: bool,
    r: u8,
    j: u8,
)
    requires
        c.at >= 0,
        faithful(l, start),
        pin.0 < 14,
        j < 8,
    ensures
        ({
            let bank = if pin.0 < 8 {
                0int
            } else {
                1
            };
            let mode = r == 0x03 + bank && j == pin.0 % 8;
            let drive = r == 0x13 + bank && j == pin.0 % 8;
            let pull = r == 0x09 + bank && j == pin.0 % 8;
            let was = bit(held(l, c.at, start, 0x4F, r), j);
            &&& c.ioe1_set_output(l, pin) matches Run::Done(d, Ok(_)) ==> c.at < d.at && bit(
                held(l, d.at, start, 0x4F, r),
                j,
            ) == if mode {
                true
            } else if drive {
                false
            } else {
                was
            }
            &&& c.ioe1_set_input(l, pin, pull_up) matches Run::Done(d, Ok(_)) ==> c.at < d.at && bit(
                held(l, d.at, start, 0x4F, r),
                j,
            ) == if mode {
                false
            } else if pull {
                pull_up
            } else {
                was
            }
        }),
{
    a_bit_is_set(c, l, start, 0x13, 0x14, pin, false, r, j);
    match c.ioe1_bit(l, 0x13, 0x14, pin, false) {
        Run::Done(d, Ok(_)) => a_bit_is_set(d, l, start, 0x03, 0x04, pin, true, r, j),
        _ => {},
    }
    a_bit_is_set(c, l, start, 0x03, 0x04, pin, false, r, j);
    match c.ioe1_bit(l, 0x03, 0x04, pin, false) {
        Run::Done(d, Ok(_)) => a_bit_is_set(d, l, start, 0x09, 0x0A, pin, pull_up, r, j),
        _ => {},
    }
}

/// A pin that is read gives its own bit of the input registers.
pub proof fn a_pin_is_read<E>(c: Cursor, l: Trace<BusEvent<E>>, start: Start, pin: Pin)
    requires
        c.at >= 0,
        faithful(l, start),
        pin.0 < 14,
    ensures
        c.ioe1_read(l, pin) matches Run::Done(d, Ok(high)) ==> high == bit(
            held(
                l,
                c.at,
                start,
                0x4F,
                if pin.0 < 8 {
                    0x07
                } else {
                    0x08
                },
            ),
            (pin.0 % 8) as u8,
        ),
{
    let k = (pin.0 % 8) as u8;
    let reg = pin.of(0x07, 0x08);
    let v = held(l, c.at, start, 0x4F, reg);
    assert(seq![reg].len() == 1 && seq![reg][0] == reg);
    assert(k < 8 ==> (v & (1u8 << k) != 0) == ((v >> k) & 1 == 1)) by (bit_vector);
}

/// The level of an output pin of the expander after `n` events.
pub open spec fn level<E>(l: Trace<BusEvent<E>>, n: int, start: Start, pin: int) -> bool {
    bit(
        held(
            l,
            n,
            start,
            0x4F,
            if pin < 8 {
                0x05
            } else {
                0x06
            },
        ),
        (pin % 8) as u8,
    )
}

proof fn a_level_is_set<E>(
    c: Cursor,
    l: Trace<BusEvent<E>>,
    start: Start,
    pin: Pin,
    high: bool,
    other: int,
)
    requires
        c.at >= 0,
        faithful(l, start),
        pin.0 < 14,
        0 <= other < 14,
    ensures
        c.ioe1_write(l, pin, high) matches Run::Done(d, Ok(_)) ==> c.at < d.at && level(
            l,
            d.at,
            start,
            other,
        ) == if other == pin.0 {
            high
        } else {
            level(l, c.at, start, other)
        },
{
    let r: u8 = if other < 8 {
        0x05
    } else {
        0x06
    };
    a_pin_is_driven(c, l, start, pin, high, r, (other % 8) as u8);
}

proof fn reset_lines_are_driven<E>(
    c: Cursor,
    l: Trace<BusEvent<E>>,
    start: Start,
    high: bool,
    other: int,
)
    requires
        c.at >= 0,
        faithful(l, start),
        0 <= other < 14,
    ensures
        c.reset_lines(l, high) matches Run::Done(d, Ok(_)) ==> c.at < d.at && level(
            l,
            d.at,
            start,
            other,
        ) == if other == 4 || other == 5 {
            high
        } else {
            level(l, c.at, start, other)
        },
{
    a_level_is_set(c, l, start, Pin(ioe::EPD_RST), high, other);
    match c.ioe1_write(l, Pin(ioe::EPD_RST), high) {
        Run::Done(d, Ok(_)) => a_level_is_set(d, l, start, Pin(ioe::TP_RST), high, other),
        _ => {},
    }
}

/// There was a pause of 10 ms with both reset lines (pins 4 and 5) low.
pub open spec fn was_reset<E>(l: Trace<BusEvent<E>>, from: int, to: int, start: Start) -> bool {
    exists|i: int|
        from <= i < to && #[trigger] l.at(i) == BusEvent::<E>::PauseMs(10) && !level(
            l,
            i,
            start,
            4,
        ) && !level(l, i, start, 5)
}

/// A hardware reset holds both reset lines low for 10 ms, lets them go, and
/// gives the devices 10 ms; every other line stays.
pub proof fn a_reset_pulses_the_lines<E>(
    c: Cursor,
    l: Trace<BusEvent<E>>,
    start: Start,
    other: int,
)
    requires
        c.at >= 0,
        faithful(l, start),
        0 <= other < 14,
    ensures
        c.epd_hard_reset(l) matches Run::Done(d, Ok(_)) ==> {
            &&& c.at < d.at
            &&& was_reset(l, c.at, d.at, start)
            &&& l.at(d.at - 1) == BusEvent::<E>::PauseMs(10)
            &&& level(l, d.at - 1, start, 4) && level(l, d.at - 1, start, 5)
            &&& level(l, d.at, start, other) == if other == 4 || other == 5 {
                true
            } else {
                level(l, c.at, start, other)
            }
        },
{
    reset_lines_are_driven(c, l, start, false, other);
    reset_lines_are_driven(c, l, start, false, 4);
    reset_lines_are_driven(c, l, start, false, 5);
    match c.reset_lines(l, false) {
        Run::Done(a, Ok(_)) => match a.pause_ms(l, 10) {
            Run::Done(b, Ok(_)) => {
                assert(l.at(a.at) == BusEvent::<E>::PauseMs(10));
                reset_lines_are_driven(b, l, start, true, other);
                reset_lines_are_driven(b, l, start, true, 4);
                reset_lines_are_driven(b, l, start, true, 5);
            },
            _ => {},
        },
        _ => {},
    }
}

proof fn an_output_keeps_levels<E>(
    c: Cursor,
    l: Trace<BusEvent<E>>,
    start: Start,
    pin: Pin,
    other: int,
)
    requires
        c.at >= 0,
        faithful(l, start),
        pin.0 < 14,
        0 <= other < 14,
    ensures
        c.ioe1_set_output(l, pin) matches Run::Done(d, Ok(_)) ==> c.at < d.at && level(
            l,
            d.at,
            start,
            other,
        ) == level(l, c.at, start, other),
{
    let r: u8 = if other < 8 {
        0x05
    } else {
        0x06
    };
    a_pin_has_its_direction(c, l, start, pin, false, r, (other % 8) as u8);
}

proof fn outputs_keep_levels<E>(c: Cursor, l: Trace<BusEvent<E>>, start: Start, other: int)
    requires
        c.at >= 0,
        faithful(l, start),
        0 <= other < 14,
    ensures
        c.outputs(l) matches Run::Done(d, Ok(_)) ==> c.at < d.at && level(l, d.at, start, other)
            == level(l, c.at, start, other),
{
    an_output_keeps_levels(c, l, start, Pin(ioe::EPD_EN), other);
    match c.ioe1_set_output(l, Pin(ioe::EPD_EN)) {
        Run::Done(a, Ok(_)) => {
            an_output_keeps_levels(a, l, start, Pin(ioe::EPD_RST), other);
            match a.ioe1_set_output(l, Pin(ioe::EPD_RST)) {
                Run::Done(b, Ok(_)) => {
                    an_output_keeps_levels(b, l, start, Pin(ioe::TP_RST), other);
                    match b.ioe1_set_output(l, Pin(ioe::TP_RST)) {
                        Run::Done(d, Ok(_)) => {
                            an_output_keeps_levels(d, l, start, Pin(ioe::TP_EN), other);
                            match d.ioe1_set_output(l, Pin(ioe::TP_EN)) {
                                Run::Done(f, Ok(_)) => an_output_keeps_levels(
                                    f,
                                    l,
                                    start,
                                    Pin(ioe::TF_EN),
                                    other,
                                ),
                                _ => {},
                            }
                        },
                        _ => {},
                    }
                },
                _ => {},
            }
        },
        _ => {},
    }
}

proof fn rails_are_switched<E>(c: Cursor, l: Trace<BusEvent<E>>, start: Start, other: int)
    requires
        c.at >= 0,
        faithful(l, start),
        0 <= other < 14,
    ensures
        c.rails(l) matches Run::Done(d, Ok(_)) ==> c.at < d.at && level(l, d.at, start, other)
            == if other == 2 || other == 12 {
            true
        } else if other == 13 {
            false
        } else {
            level(l, c.at, start, other)
        },
{
    a_level_is_set(c, l, start, Pin(ioe::EPD_EN), true, other);
    match c.ioe1_write(l, Pin(ioe::EPD_EN), true) {
        Run::Done(a, Ok(_)) => {
            a_level_is_set(a, l, start, Pin(ioe::TP_EN), true, other);
            match a.ioe1_write(l, Pin(ioe::TP_EN), true) {
                Run::Done(b, Ok(_)) => a_level_is_set(b, l, start, Pin(ioe::TF_EN), false, other),
                _ => {},
            }
        },
        _ => {},
    }
}

/// Once the display is powered, its supply (pin 2) and that of the touch panel
/// (pin 12) are on, that of the card slot (pin 13) is off, and both were reset
/// with their supplies on; every other line stays.
pub proof fn the_display_is_powered_and_reset<E>(
    c: Cursor,
    l: Trace<BusEvent<E>>,
    start: Start,
    other: int,
)
    requires
        c.at >= 0,
        faithful(l, start),
        0 <= other < 14,
    ensures
        c.epd_power_on(l) matches Run::Done(d, Ok(_)) ==> {
            &&& was_reset(l, c.at, d.at, start)
            &&& l.at(d.at - 1) == BusEvent::<E>::PauseMs(10)
            &&& level(l, d.at, start, other) == if other == 2 || other == 12 || other == 4 || other
                == 5 {
                true
            } else if other == 13 {
                false
            } else {
                level(l, c.at, start, other)
            }
        },
{
    outputs_keep_levels(c, l, start, other);
    match c.outputs(l) {
        Run::Done(a, Ok(_)) => {
            rails_are_switched(a, l, start, other);
            match a.rails(l) {
                Run::Done(b, Ok(_)) => match b.pause_ms(l, 2) {
                    Run::Done(d, Ok(_)) => {
                        a_reset_pulses_the_lines(d, l, start, other);
                        match d.epd_hard_reset(l) {
                            Run::Done(f, Ok(_)) => {
                                let i = choose|i: int|
                                    d.at <= i < f.at && #[trigger] l.at(i) == BusEvent::<
                                        E,
                                    >::PauseMs(10) && !level(l, i, start, 4) && !level(
                                        l,
                                        i,
                                        start,
                                        5,
                                    );
                                assert(c.at <= i < f.at && l.at(i) == BusEvent::<E>::PauseMs(10));
                            },
                            _ => {},
                        }
                    },
                    _ => {},
                },
                _ => {},
            }
        },
        _ => {},
    }
}

/// The NFC chip is powered through pin 3, the touch panel is reset through pin
/// 5, low for 10 ms and 300 ms before it is used; every other line stays.
pub proof fn other_lines_are_driven<E>(
    c: Cursor,
    l: Trace<BusEvent<E>>,
    start: Start,
    on: bool,
    other: int,
)
    requires
        c.at >= 0,
        faithful(l, start),
        0 <= other < 14,
    ensures
        c.nfc_power(l, on) matches Run::Done(d, Ok(_)) ==> level(l, d.at, start, other) == if other
            == 3 {
            on
        } else {
            level(l, c.at, start, other)
        },
        c.touch_reset(l) matches Run::Done(d, Ok(_)) ==> {
            &&& l.at(d.at - 1) == BusEvent::<E>::PauseMs(300)
            &&& level(l, d.at, start, 5)
            &&& other != 5 ==> level(l, d.at, start, other) == level(l, c.at, start, other)
            &&& exists|i: int|
                c.at <= i < d.at && #[trigger] l.at(i) == BusEvent::<E>::PauseMs(10) && !level(
                    l,
                    i,
                    start,
                    5,
                )
        },
{
    an_output_keeps_levels(c, l, start, Pin(ioe::NFC_EN), other);
    match c.ioe1_set_output(l, Pin(ioe::NFC_EN)) {
        Run::Done(a, Ok(_)) => a_level_is_set(a, l, start, Pin(ioe::NFC_EN), on, other),
        _ => {},
    }
    an_output_keeps_levels(c, l, start, Pin(ioe::TP_RST), other);
    match c.ioe1_set_output(l, Pin(ioe::TP_RST)) {
        Run::Done(a, Ok(_)) => {
            a_level_is_set(a, l, start, Pin(ioe::TP_RST), false, other);
            a_level_is_set(a, l, start, Pin(ioe::TP_RST), false, 5);
            match a.ioe1_write(l, Pin(ioe::TP_RST), false) {
                Run::Done(b, Ok(_)) => match b.pause_ms(l, 10) {
                    Run::Done(d, Ok(_)) => {
                        assert(l.at(b.at) == BusEvent::<E>::PauseMs(10));
                        a_level_is_set(d, l, start, Pin(ioe::TP_RST), true, other);
                        a_level_is_set(d, l, start, Pin(ioe::TP_RST), true, 5);
                    },
                    _ => {},
                },
                _ => {},
            }
        },
        _ => {},
    }
}

/// The front light: its two registers hold the duty for the brightness, and
/// nothing else changes.
pub proof fn the_light_is_set<E>(
    c: Cursor,
    l: Trace<BusEvent<E>>,
    start: Start,
    brightness: u8,
    r: u8,
)
    requires
        c.at >= 0,
    ensures
        c.pm1_set_frontlight(l, brightness) matches Run::Done(d, Ok(_)) ==> {
            let low = held(l, d.at, start, 0x6E, 0x30);
            let high = held(l, d.at, start, 0x6E, 0x31);
            &&& brightness == 0 ==> low == 0 && high == 0
            &&& brightness > 0 ==> low + 256 * (high - 16) == brightness * brightness / 16
            &&& r != 0x30 && r != 0x31 ==> held(l, d.at, start, 0x6E, r) == held(
                l,
                c.at,
                start,
                0x6E,
                r,
            )
        },
{
    let data = crate::pm1::frontlight_bytes(brightness);
    crate::pm1::light_goes_with_the_square(brightness);
    writes_take_effect(c, l, start, 0x6E, 0x30, data, 0x6E, 0x30);
    writes_take_effect(c, l, start, 0x6E, 0x30, data, 0x6E, 0x31);
    writes_take_effect(c, l, start, 0x6E, 0x30, data, 0x6E, r);
}

/// Once the power chip is configured, its bus never sleeps, its watchdog is
/// off, and charging, both supplies and the LED line are on; its other supply
/// bits stay.
pub proof fn the_power_chip_is_configured<E>(c: Cursor, l: Trace<BusEvent<E>>, start: Start, j: u8)
    requires
        c.at >= 0,
        faithful(l, start),
        j < 8,
    ensures
        c.pm1_configure(l) matches Run::Done(d, Ok(_)) ==> {
            &&& held(l, d.at, start, 0x6E, 0x09) == 0
            &&& held(l, d.at, start, 0x6E, 0x0A) == 0
            &&& bit(held(l, d.at, start, 0x6E, 0x06), j) == if j == 0 || j == 1 || j == 2 || j == 4 {
                true
            } else {
                bit(held(l, c.at, start, 0x6E, 0x06), j)
            }
        },
{
    let zero = seq![0u8];
    let rails = 0x01u8 | 0x02u8 | 0x04u8 | 0x10u8;
    let v = held(l, c.at, start, 0x6E, 0x06);
    assert(j < 8 ==> ({
        let m = 0x01u8 | 0x02u8 | 0x04u8 | 0x10u8;
        let n = (v & !m) | (m & m);
        ((n >> j) & 1 == 1) == (if j == 0 || j == 1 || j == 2 || j == 4 {
            true
        } else {
            (v >> j) & 1 == 1
        })
    })) by (bit_vector);
    writes_take_effect(c, l, start, 0x6E, 0x09, zero, 0x6E, 0x09);
    writes_take_effect(c, l, start, 0x6E, 0x09, zero, 0x6E, 0x06);
    match c.pm1_i2c_cfg(l, 0x00) {
        Run::Done(a, Ok(_)) => {
            writes_take_effect(a, l, start, 0x6E, 0x09, zero, 0x6E, 0x09);
            writes_take_effect(a, l, start, 0x6E, 0x09, zero, 0x6E, 0x06);
            match a.pm1_i2c_cfg(l, 0x00) {
                Run::Done(b, Ok(_)) => {
                    writes_take_effect(b, l, start, 0x6E, 0x0A, zero, 0x6E, 0x09);
                    writes_take_effect(b, l, start, 0x6E, 0x0A, zero, 0x6E, 0x0A);
                    writes_take_effect(b, l, start, 0x6E, 0x0A, zero, 0x6E, 0x06);
                    match b.write_u8(l, 0x6E, 0x0A, 0) {
                        Run::Done(d, Ok(_)) => {
                            updates_take_effect(d, l, start, 0x6E, 0x06, rails, rails, 0x6E, 0x06);
                            updates_take_effect(d, l, start, 0x6E, 0x06, rails, rails, 0x6E, 0x09);
                            updates_take_effect(d, l, start, 0x6E, 0x06, rails, rails, 0x6E, 0x0A);
                        },
                        _ => {},
                    }
                },
                _ => {},
            }
        },
        _ => {},
    }
}

/// The fast mode of both devices is bit four of their bus registers, 5 ms
/// before they are spoken to again; the slow mode is zero.
pub proof fn bus_speeds_are_switched<E>(c: Cursor, l: Trace<BusEvent<E>>, start: Start)
    requires
        c.at >= 0,
        faithful(l, start),
    ensures
        c.fast_devices(l) matches Run::Done(d, Ok((Ok(_), Ok(_)))) ==> {
            &&& held(l, d.at, start, 0x6E, 0x09) == 0x10
            &&& held(l, d.at, start, 0x4F, 0x23) == 0x10
            &&& l.at(d.at - 1) == BusEvent::<E>::PauseMs(5)
        },
        c.clear_speed_bits(l) matches Run::Done(d, Ok((Ok(_), Ok(_)))) ==> {
            &&& held(l, d.at, start, 0x6E, 0x09) == 0
            &&& held(l, d.at, start, 0x4F, 0x23) == 0
            &&& l.at(d.at - 1) == BusEvent::<E>::PauseMs(10)
        },
{
    let fast = seq![0x10u8];
    let slow = seq![0u8];
    writes_take_effect(c, l, start, 0x6E, 0x09, fast, 0x6E, 0x09);
    match c.pm1_i2c_cfg(l, 0x10) {
        Run::Done(a, Ok(_)) => {
            writes_take_effect(a, l, start, 0x4F, 0x23, fast, 0x4F, 0x23);
            writes_take_effect(a, l, start, 0x4F, 0x23, fast, 0x6E, 0x09);
        },
        _ => {},
    }
    writes_take_effect(c, l, start, 0x6E, 0x09, slow, 0x6E, 0x09);
    match c.write_u8(l, 0x6E, 0x09, 0x00) {
        Run::Done(a, Ok(_)) => {
            writes_take_effect(a, l, start, 0x4F, 0x23, slow, 0x4F, 0x23);
            writes_take_effect(a, l, start, 0x4F, 0x23, slow, 0x6E, 0x09);
        },
        _ => {},
    }
}

} // verus!
