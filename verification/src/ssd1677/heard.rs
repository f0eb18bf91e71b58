//! What the controller hears on the wires, and what its RAM holds after a
//! refresh.
//!
//! The controller takes bytes while it is selected: a command with the
//! data/command line low, data for the last command with the line high. Here
//! the wires are listened to from that side, and what each operation of the
//! driver tells the controller is stated command by command.

use crate::ssd1677::framebuffer::FrameBuffer;
use crate::ssd1677::model::{Panel, WaveformModel};
use crate::ssd1677::port::PanelEvent;
use crate::ssd1677::{Error, GrayMode};
use crate::trace::{Run, Trace};
use vstd::prelude::*;

verus! {

/// A command and its data.
pub struct Told {
    pub command: u8,
    pub data: Seq<u8>,
}

/// The listening controller.
pub struct Ear {
    pub selected: bool,
    /// The data/command line is high.
    pub data_mode: bool,
    /// Everything heard so far.
    pub told: Seq<Told>,
}

impl Ear {
    /// After one use of the wires.
    pub open spec fn hear<S, P>(self, event: PanelEvent<S, P>) -> Ear {
        match event {
            PanelEvent::Select(Ok(_)) => Ear { selected: true, ..self },
            PanelEvent::Deselect(Ok(_)) => Ear { selected: false, ..self },
            PanelEvent::CommandMode(Ok(_)) => Ear { data_mode: false, ..self },
            PanelEvent::DataMode(Ok(_)) => Ear { data_mode: true, ..self },
            PanelEvent::Sent { bytes, outcome } => if outcome is Err || !self.selected {
                self
            } else if !self.data_mode {
                Ear {
                    told: self.told + Seq::new(
                        bytes.len(),
                        |i: int| Told { command: bytes[i], data: Seq::empty() },
                    ),
                    ..self
                }
            } else if self.told.len() == 0 {
                self
            } else {
                let last = self.told.last();
                Ear {
                    told: self.told.drop_last().push(
                        Told { command: last.command, data: last.data + bytes },
                    ),
                    ..self
                }
            },
            _ => self,
        }
    }

    /// After the uses of the wires from entry `from` up to `to`.
    pub open spec fn listen<S, P>(self, l: Trace<PanelEvent<S, P>>, from: int, to: int) -> Ear
        decreases to - from,
    {
        if from >= to {
            self
        } else {
            self.hear(l.at(from)).listen(l, from + 1, to)
        }
    }
}

proof fn listening_goes_on<S, P>(e: Ear, l: Trace<PanelEvent<S, P>>, a: int, b: int, c: int)
    requires
        a <= b <= c,
    ensures
        e.listen(l, a, c) == e.listen(l, a, b).listen(l, b, c),
    decreases b - a,
{
    if a < b {
        listening_goes_on(e.hear(l.at(a)), l, a + 1, b, c);
    }
}

/// An operation that succeeded told the controller this, and left it
/// deselected.
pub open spec fn tells<S, P>(
    e: Ear,
    l: Trace<PanelEvent<S, P>>,
    m: Panel,
    run: Run<Panel, (), Error<S, P>>,
    told: Seq<Told>,
) -> bool {
    match run {
        Run::Done(after, Ok(_)) => {
            &&& m.at <= after.at
            &&& e.listen(l, m.at, after.at).told == e.told + told
            &&& !e.listen(l, m.at, after.at).selected
        },
        _ => true,
    }
}

pub open spec fn say(command: u8, data: Seq<u8>) -> Told {
    Told { command, data }
}

proof fn command_is_heard<S, P>(e: Ear, l: Trace<PanelEvent<S, P>>, m: Panel, c: u8)
    requires
        !e.selected,
    ensures
        tells(e, l, m, m.command(l, c), seq![say(c, Seq::empty())]),
{
    match m.command(l, c) {
        Run::Done(after, Ok(_)) => {
            assert(after.at == m.at + 5);
            reveal_with_fuel(Ear::listen, 6);
            assert(e.listen(l, m.at, after.at).told =~= e.told + seq![say(c, Seq::empty())]);
        },
        _ => {},
    }
}

proof fn data_is_heard<S, P>(e: Ear, l: Trace<PanelEvent<S, P>>, m: Panel, c: u8, d: Seq<u8>, t: Seq<Told>)
    requires
        !e.selected,
        e.told == t.push(say(c, Seq::empty())),
    ensures
        match m.data(l, d) {
            Run::Done(after, Ok(_)) => m.at <= after.at && e.listen(l, m.at, after.at).told
                == t.push(say(c, d)) && !e.listen(l, m.at, after.at).selected,
            _ => true,
        },
{
    match m.data(l, d) {
        Run::Done(after, Ok(_)) => {
            if d.len() == 0 {
                assert(d =~= Seq::empty());
            } else {
                assert(after.at == m.at + 5);
                reveal_with_fuel(Ear::listen, 6);
                assert(Seq::<u8>::empty() + d =~= d);
                assert(e.told.drop_last() =~= t);
            }
        },
        _ => {},
    }
}

proof fn command_data_is_heard<S, P>(e: Ear, l: Trace<PanelEvent<S, P>>, m: Panel, c: u8, d: Seq<u8>)
    requires
        !e.selected,
    ensures
        tells(e, l, m, m.command_data(l, c, d), seq![say(c, d)]),
{
    command_is_heard(e, l, m, c);
    match m.command(l, c) {
        Run::Done(a, Ok(_)) => {
            let f = e.listen(l, m.at, a.at);
            assert(f.told =~= e.told.push(say(c, Seq::empty())));
            data_is_heard(f, l, a, c, d, e.told);
            match a.data(l, d) {
                Run::Done(b, Ok(_)) => {
                    listening_goes_on(e, l, m.at, a.at, b.at);
                    assert(e.told + seq![say(c, d)] =~= e.told.push(say(c, d)));
                },
                _ => {},
            }
        },
        _ => {},
    }
}

proof fn polling_is_silent<S, P>(e: Ear, l: Trace<PanelEvent<S, P>>, m: Panel, left: nat)
    ensures
        match m.poll_busy(l, left) {
            Run::Done(after, _) => {
                &&& m.at < after.at
                &&& e.listen(l, m.at, after.at) == e
            },
            Run::Off => true,
        },
        m.poll_busy(l, left) matches Run::Done(after, Ok(_)) ==> l.at(after.at - 1) == (
        PanelEvent::<S, P>::Busy(Ok(false))),
    decreases left,
{
    match m.is_busy(l) {
        Run::Done(a, Ok(busy)) => {
            reveal_with_fuel(Ear::listen, 3);
            if busy && left > 0 {
                match a.pause_ms(l, 1) {
                    Run::Done(b, Ok(_)) => {
                        polling_is_silent(e, l, b, (left - 1) as nat);
                        match b.poll_busy(l, (left - 1) as nat) {
                            Run::Done(c, _) => listening_goes_on(e, l, m.at, b.at, c.at),
                            _ => {},
                        }
                    },
                    _ => {},
                }
            }
        },
        _ => {
            reveal_with_fuel(Ear::listen, 3);
        },
    }
}

proof fn waiting_is_silent<S, P>(e: Ear, l: Trace<PanelEvent<S, P>>, m: Panel, ms: u32)
    ensures
        match m.wait_busy(l, ms) {
            Run::Done(after, Ok(_)) => {
                &&& m.at <= after.at
                &&& e.listen(l, m.at, after.at) == e
                &&& l.at(after.at - 1) == PanelEvent::<S, P>::Busy(Ok(false))
            },
            _ => true,
        },
{
    match m.pause_ms(l, 2) {
        Run::Done(a, Ok(_)) => {
            reveal_with_fuel(Ear::listen, 2);
            polling_is_silent(e, l, a, ms as nat);
            match a.poll_busy(l, ms as nat) {
                Run::Done(b, Ok(_)) => listening_goes_on(e, l, m.at, a.at, b.at),
                _ => {},
            }
        },
        _ => {},
    }
}

/// Two operations tell what they tell one after the other.
proof fn tells_both<S, P>(
    e: Ear,
    l: Trace<PanelEvent<S, P>>,
    m: Panel,
    a: Panel,
    b: Panel,
    first: Seq<Told>,
    second: Seq<Told>,
)
    requires
        m.at <= a.at <= b.at,
        e.listen(l, m.at, a.at).told == e.told + first,
        e.listen(l, m.at, a.at).listen(l, a.at, b.at).told == e.listen(l, m.at, a.at).told + second,
    ensures
        e.listen(l, m.at, b.at).told == e.told + (first + second),
        e.listen(l, m.at, b.at) == e.listen(l, m.at, a.at).listen(l, a.at, b.at),
{
    listening_goes_on(e, l, m.at, a.at, b.at);
    assert(e.told + first + second =~= e.told + (first + second));
}

/// Commands with their data, one after the other.
pub open spec fn says<S, P>(m: Panel, l: Trace<PanelEvent<S, P>>, list: Seq<Told>) -> Run<
    Panel,
    (),
    Error<S, P>,
>
    decreases list.len(),
{
    if list.len() == 0 {
        m.done(())
    } else {
        match m.command_data(l, list[0].command, list[0].data) {
            Run::Done(a, Ok(_)) => says(a, l, list.drop_first()),
            Run::Done(a, Err(e)) => Run::Done(a, Err(e)),
            Run::Off => Run::Off,
        }
    }
}

proof fn saying_is_heard<S, P>(e: Ear, l: Trace<PanelEvent<S, P>>, m: Panel, list: Seq<Told>)
    requires
        !e.selected,
    ensures
        tells(e, l, m, says(m, l, list), list),
    decreases list.len(),
{
    if list.len() == 0 {
        assert(e.told + list =~= e.told);
    } else {
        let (c, d) = (list[0].command, list[0].data);
        command_data_is_heard(e, l, m, c, d);
        match m.command_data(l, c, d) {
            Run::Done(a, Ok(_)) => {
                let rest = list.drop_first();
                saying_is_heard(e.listen(l, m.at, a.at), l, a, rest);
                match says(a, l, rest) {
                    Run::Done(b, Ok(_)) => {
                        tells_both(e, l, m, a, b, seq![say(c, d)], rest);
                        assert(seq![say(c, d)] + rest =~= list);
                    },
                    _ => {},
                }
            },
            _ => {},
        }
    }
}

proof fn five_in_turn(list: Seq<Told>)
    ensures
        list.len() >= 2 ==> list.drop_first()[0] == list[1],
        list.len() >= 3 ==> list.drop_first().drop_first()[0] == list[2],
        list.len() >= 4 ==> list.drop_first().drop_first().drop_first()[0] == list[3],
        list.len() >= 5 ==> list.drop_first().drop_first().drop_first().drop_first()[0] == list[4],
{
}

/// A window in native coordinates: X++ and Y++ data entry, first and last
/// column, first and last row, and the counters at the first of both, all low
/// byte first.
pub open spec fn window_words(x: int, y: int, xe: int, ye: int) -> Seq<Told> {
    seq![
        say(0x11, seq![0x03u8]),
        say(0x44, seq![(x % 256) as u8, (x / 256) as u8, (xe % 256) as u8, (xe / 256) as u8]),
        say(0x45, seq![(y % 256) as u8, (y / 256) as u8, (ye % 256) as u8, (ye / 256) as u8]),
        say(0x4E, seq![(x % 256) as u8, (x / 256) as u8]),
        say(0x4F, seq![(y % 256) as u8, (y / 256) as u8]),
    ]
}

proof fn words_are_low_byte_first(a: u16, b: u16)
    ensures
        crate::bytes::le16(a) == seq![(a % 256) as u8, (a / 256) as u8],
        crate::bytes::le16(a) + crate::bytes::le16(b) == seq![
            (a % 256) as u8,
            (a / 256) as u8,
            (b % 256) as u8,
            (b / 256) as u8,
        ],
{
    assert(crate::bytes::le16(a) =~= seq![(a % 256) as u8, (a / 256) as u8]);
    assert(crate::bytes::le16(a) + crate::bytes::le16(b) =~= seq![
        (a % 256) as u8,
        (a / 256) as u8,
        (b % 256) as u8,
        (b / 256) as u8,
    ]);
}

/// A window is told column by column, row by row.
#[verifier::rlimit(60)]
pub proof fn a_window_is_told<S, P>(
    e: Ear,
    l: Trace<PanelEvent<S, P>>,
    m: Panel,
    x: u16,
    y: u16,
    w: u16,
    h: u16,
)
    requires
        !e.selected,
        1 <= x + w <= u16::MAX,
        1 <= y + h <= u16::MAX,
    ensures
        tells(e, l, m, m.window(l, x, y, w, h), window_words(x as int, y as int, x + w - 1, y + h - 1)),
{
    reveal(Panel::window);
    let xe = (x + w - 1) as u16;
    let ye = (y + h - 1) as u16;
    words_are_low_byte_first(x, xe);
    words_are_low_byte_first(y, ye);
    let list = window_words(x as int, y as int, x + w - 1, y + h - 1);
    saying_is_heard(e, l, m, list);
    reveal_with_fuel(says, 6);
    five_in_turn(list);
    assert(m.window(l, x, y, w, h) == says(m, l, list));
}

/// The window over the whole RAM: 800 columns, 480 rows.
pub open spec fn full_window_words() -> Seq<Told> {
    window_words(0, 0, 799, 479)
}

/// Row after row of part of a plane.
pub open spec fn rows_bytes(
    plane: Seq<u8>,
    y: int,
    end: int,
    first: int,
    n: int,
    invert: bool,
) -> Seq<u8>
    decreases end - y,
{
    if y >= end {
        Seq::empty()
    } else {
        crate::ssd1677::model::row_part(plane, y, first, n, invert) + rows_bytes(
            plane,
            y + 1,
            end,
            first,
            n,
            invert,
        )
    }
}

/// The bytes of a rectangle are those of the plane, row after row.
pub proof fn rectangles_are_sent_row_by_row(
    plane: Seq<u8>,
    y: int,
    end: int,
    first: int,
    n: int,
    invert: bool,
    r: int,
    j: int,
)
    requires
        plane.len() == 48_000,
        0 <= y <= end <= 480,
        0 <= first,
        0 < n,
        first + n <= 100,
    ensures
        rows_bytes(plane, y, end, first, n, invert).len() == (end - y) * n,
        0 <= r < end - y && 0 <= j < n ==> 0 <= r * n + j < (end - y) * n && rows_bytes(
            plane,
            y,
            end,
            first,
            n,
            invert,
        )[r * n + j] == {
            let b = plane[100 * (y + r) + first + j];
            if invert {
                !b
            } else {
                b
            }
        },
    decreases end - y,
{
    if y < end {
        rectangles_are_sent_row_by_row(plane, y + 1, end, first, n, invert, r - 1, j);
        let rest = rows_bytes(plane, y + 1, end, first, n, invert);
        let row = crate::ssd1677::model::row_part(plane, y, first, n, invert);
        assert((end - y) * n == n + (end - (y + 1)) * n) by (nonlinear_arith);
        if 0 <= r < end - y && 0 <= j < n {
            assert(r * n + j == n + ((r - 1) * n + j)) by (nonlinear_arith);
            assert(0 <= r * n) by (nonlinear_arith)
                requires
                    0 <= r,
                    0 < n,
            ;
            assert(r * n + n <= (end - y) * n) by (nonlinear_arith)
                requires
                    r + 1 <= end - y,
                    0 < n,
            ;
            if r == 0 {
                assert(r * n == 0) by (nonlinear_arith)
                    requires
                        r == 0,
                ;
                assert((row + rest)[j] == row[j]);
            } else {
                assert(n <= r * n) by (nonlinear_arith)
                    requires
                        1 <= r,
                        0 < n,
                ;
                assert((row + rest)[r * n + j] == rest[(r - 1) * n + j]);
            }
        }
    } else {
        assert((end - y) * n == 0) by (nonlinear_arith)
            requires
                end == y,
        ;
    }
}

/// Every byte inverted, if asked for.
pub open spec fn turned(plane: Seq<u8>, invert: bool) -> Seq<u8> {
    Seq::new(
        plane.len(),
        |i: int|
            if invert {
                !plane[i]
            } else {
                plane[i]
            },
    )
}

proof fn all_rows_make_the_plane(plane: Seq<u8>, invert: bool)
    requires
        plane.len() == 48_000,
    ensures
        rows_bytes(plane, 0, 480, 0, 100, invert) == turned(plane, invert),
{
    let rows = rows_bytes(plane, 0, 480, 0, 100, invert);
    rectangles_are_sent_row_by_row(plane, 0, 480, 0, 100, invert, 0, 0);
    assert forall|i: int| 0 <= i < 48_000 implies #[trigger] rows[i] == turned(plane, invert)[i] by {
        rectangles_are_sent_row_by_row(plane, 0, 480, 0, 100, invert, i / 100, i % 100);
        assert(i / 100 * 100 + i % 100 == i);
    }
    assert(rows =~= turned(plane, invert));
}

proof fn rows_are_heard<S, P>(
    e: Ear,
    l: Trace<PanelEvent<S, P>>,
    m: Panel,
    plane: Seq<u8>,
    y: int,
    end: int,
    first: int,
    n: int,
    invert: bool,
)
    requires
        e.selected,
        e.data_mode,
        e.told.len() > 0,
    ensures
        match m.rows(l, plane, y, end, first, n, invert) {
            Run::Done(after, Ok(_)) => {
                &&& m.at <= after.at
                &&& e.listen(l, m.at, after.at) == (Ear {
                    told: e.told.drop_last().push(
                        say(
                            e.told.last().command,
                            e.told.last().data + rows_bytes(plane, y, end, first, n, invert),
                        ),
                    ),
                    ..e
                })
            },
            _ => true,
        },
    decreases end - y,
{
    let last = e.told.last();
    if y >= end {
        assert(last.data + rows_bytes(plane, y, end, first, n, invert) =~= last.data);
        assert(e.told.drop_last().push(last) =~= e.told);
    } else {
        let row = crate::ssd1677::model::row_part(plane, y, first, n, invert);
        match m.send(l, row) {
            Run::Done(a, Ok(_)) => {
                reveal_with_fuel(Ear::listen, 2);
                let f = e.hear(l.at(m.at));
                rows_are_heard(f, l, a, plane, y + 1, end, first, n, invert);
                match a.rows(l, plane, y + 1, end, first, n, invert) {
                    Run::Done(b, Ok(_)) => {
                        assert(f.told.drop_last() =~= e.told.drop_last());
                        assert(last.data + row + rows_bytes(plane, y + 1, end, first, n, invert)
                            =~= last.data + rows_bytes(plane, y, end, first, n, invert));
                        listening_goes_on(e, l, m.at, a.at, b.at);
                    },
                    _ => {},
                }
            },
            _ => {},
        }
    }
}

proof fn sent_rows_are_heard<S, P>(
    e: Ear,
    l: Trace<PanelEvent<S, P>>,
    m: Panel,
    c: u8,
    t: Seq<Told>,
    plane: Seq<u8>,
    y: int,
    end: int,
    first: int,
    n: int,
    invert: bool,
)
    requires
        !e.selected,
        e.told == t.push(say(c, Seq::empty())),
    ensures
        match m.send_rows(l, plane, y, end, first, n, invert) {
            Run::Done(after, Ok(_)) => {
                &&& m.at <= after.at
                &&& e.listen(l, m.at, after.at).told == t.push(
                    say(c, rows_bytes(plane, y, end, first, n, invert)),
                )
                &&& !e.listen(l, m.at, after.at).selected
            },
            _ => true,
        },
{
    match m.start_data(l) {
        Run::Done(a, Ok(_)) => {
            reveal_with_fuel(Ear::listen, 3);
            let f = e.listen(l, m.at, a.at);
            rows_are_heard(f, l, a, plane, y, end, first, n, invert);
            match a.rows(l, plane, y, end, first, n, invert) {
                Run::Done(b, Ok(_)) => {
                    let g = f.listen(l, a.at, b.at);
                    match b.end(l) {
                        Run::Done(d, Ok(_)) => {
                            listening_goes_on(e, l, m.at, a.at, b.at);
                            listening_goes_on(e, l, m.at, b.at, d.at);
                            assert(e.told.drop_last() =~= t);
                            assert(Seq::<u8>::empty() + rows_bytes(
                                plane,
                                y,
                                end,
                                first,
                                n,
                                invert,
                            ) =~= rows_bytes(plane, y, end, first, n, invert));
                        },
                        _ => {},
                    }
                },
                _ => {},
            }
        },
        _ => {},
    }
}

/// A plane goes to its bank whole, inverted if asked for.
pub proof fn a_plane_is_told<S, P>(
    e: Ear,
    l: Trace<PanelEvent<S, P>>,
    m: Panel,
    c: u8,
    plane: Seq<u8>,
    invert: bool,
)
    requires
        !e.selected,
        plane.len() == 48_000,
    ensures
        tells(
            e,
            l,
            m,
            m.write_plane(l, c, plane, invert),
            full_window_words().push(say(c, turned(plane, invert))),
        ),
{
    reveal(Panel::write_plane);
    a_window_is_told(e, l, m, 0, 0, 800, 480);
    let w = full_window_words();
    match m.full_window(l) {
        Run::Done(a, Ok(_)) => {
            let ea = e.listen(l, m.at, a.at);
            command_is_heard(ea, l, a, c);
            match a.command(l, c) {
                Run::Done(b, Ok(_)) => {
                    let eb = ea.listen(l, a.at, b.at);
                    assert(eb.told =~= ea.told.push(say(c, Seq::empty())));
                    all_rows_make_the_plane(plane, true);
                    sent_rows_are_heard(eb, l, b, c, ea.told, plane, 0, 480, 0, 100, true);
                    data_is_heard(eb, l, b, c, plane, ea.told);
                    assert(turned(plane, false) =~= plane);
                    let rest = if invert {
                        b.send_rows(l, plane, 0, 480, 0, 100, true)
                    } else {
                        b.data(l, plane)
                    };
                    match rest {
                        Run::Done(d, Ok(_)) => {
                            listening_goes_on(e, l, m.at, a.at, b.at);
                            listening_goes_on(e, l, m.at, b.at, d.at);
                            assert((e.told + w).push(say(c, turned(plane, invert))) =~= e.told
                                + w.push(say(c, turned(plane, invert))));
                        },
                        _ => {},
                    }
                },
                _ => {},
            }
        },
        _ => {},
    }
}

/// Part of a plane goes to its place in the bank: the rows asked for, and the
/// byte columns that hold the bit columns asked for.
pub proof fn a_rectangle_is_told<S, P>(
    e: Ear,
    l: Trace<PanelEvent<S, P>>,
    m: Panel,
    c: u8,
    plane: Seq<u8>,
    x0: u16,
    y0: u16,
    w: u16,
    h: u16,
    invert: bool,
)
    requires
        !e.selected,
        w > 0,
        h > 0,
        x0 + w <= 800,
        y0 + h <= 480,
    ensures
        ({
            let first = x0 as int / 8;
            let last = (x0 + w - 1) / 8;
            tells(
                e,
                l,
                m,
                m.write_plane_rect(l, c, plane, x0, y0, w, h, invert),
                window_words(8 * first, y0 as int, 8 * last + 7, y0 + h - 1).push(
                    say(c, rows_bytes(plane, y0 as int, y0 + h, first, last - first + 1, invert)),
                ),
            )
        }),
{
    let first = x0 as int / 8;
    let last = (x0 + w - 1) / 8;
    let n = last - first + 1;
    a_window_is_told(e, l, m, (8 * first) as u16, y0, (8 * n) as u16, h);
    let words = window_words(8 * first, y0 as int, 8 * last + 7, y0 + h - 1);
    let bytes = rows_bytes(plane, y0 as int, y0 + h, first, n, invert);
    match m.window(l, (8 * first) as u16, y0, (8 * n) as u16, h) {
        Run::Done(a, Ok(_)) => {
            let ea = e.listen(l, m.at, a.at);
            command_is_heard(ea, l, a, c);
            match a.command(l, c) {
                Run::Done(b, Ok(_)) => {
                    let eb = ea.listen(l, a.at, b.at);
                    assert(eb.told =~= ea.told.push(say(c, Seq::empty())));
                    sent_rows_are_heard(
                        eb,
                        l,
                        b,
                        c,
                        ea.told,
                        plane,
                        y0 as int,
                        y0 + h,
                        first,
                        n,
                        invert,
                    );
                    match b.send_rows(l, plane, y0 as int, y0 + h, first, n, invert) {
                        Run::Done(d, Ok(_)) => {
                            listening_goes_on(e, l, m.at, a.at, b.at);
                            listening_goes_on(e, l, m.at, b.at, d.at);
                            assert((e.told + words).push(say(c, bytes)) =~= e.told + words.push(
                                say(c, bytes),
                            ));
                        },
                        _ => {},
                    }
                },
                _ => {},
            }
        },
        _ => {},
    }
}

// ----------------------------------------------------------------------
// whole operations
// ----------------------------------------------------------------------

/// An update: no bypass, the sequence, with clock and analog supply switched on
/// first if they are off, and the start.
pub open spec fn update_words(sequence: int, on: bool) -> Seq<Told> {
    seq![
        say(0x21, seq![0x00u8]),
        say(
            0x22,
            seq![
                (sequence + if on {
                    0int
                } else {
                    0xC0int
                }) as u8,
            ],
        ),
        say(0x20, Seq::empty()),
    ]
}

/// An update is told, and the panel was no longer busy at its end.
pub proof fn an_update_is_told<S, P>(
    e: Ear,
    l: Trace<PanelEvent<S, P>>,
    m: Panel,
    c2: u8,
    timeout_ms: u32,
)
    requires
        !e.selected,
        c2 < 0x40,
    ensures
        tells(
            e,
            l,
            m,
            m.activate(l, 0x00, c2, timeout_ms),
            update_words(c2 as int, m.screen_on),
        ),
        m.activate(l, 0x00, c2, timeout_ms) matches Run::Done(after, Ok(_)) ==> l.at(after.at - 1)
            == PanelEvent::<S, P>::Busy(Ok(false)),
{
    reveal(Panel::activate);
    assert(c2 < 0x40 ==> c2 | (0x80u8 | 0x40u8) == c2 + 0xC0) by (bit_vector);
    let list = update_words(c2 as int, m.screen_on);
    saying_is_heard(e, l, m, list);
    reveal_with_fuel(says, 4);
    five_in_turn(list);
    match says(m, l, list) {
        Run::Done(a, Ok(_)) => {
            waiting_is_silent(e.listen(l, m.at, a.at), l, a, timeout_ms);
            match a.wait_busy(l, timeout_ms) {
                Run::Done(b, Ok(_)) => listening_goes_on(e, l, m.at, a.at, b.at),
                _ => {},
            }
        },
        _ => {},
    }
}

/// A waveform and its voltages: gate, the three source ones, VCOM.
pub open spec fn waveform_words(lut: Seq<u8>) -> Seq<Told> {
    seq![
        say(0x32, lut.take(105)),
        say(0x03, seq![lut[105]]),
        say(0x04, seq![lut[106], lut[107], lut[108]]),
        say(0x2C, seq![lut[109]]),
    ]
}

proof fn a_waveform_is_told<S, P>(e: Ear, l: Trace<PanelEvent<S, P>>, m: Panel, lut: Seq<u8>)
    requires
        !e.selected,
    ensures
        tells(e, l, m, m.send_lut(l, lut), waveform_words(lut)),
{
    reveal(Panel::send_lut);
    let list = waveform_words(lut);
    saying_is_heard(e, l, m, list);
    reveal_with_fuel(says, 5);
    five_in_turn(list);
    assert(m.send_lut(l, lut) == says(m, l, list));
}

/// Two planes, a waveform and an update.
pub open spec fn picture_words(
    bw: Seq<u8>,
    red: Seq<u8>,
    lut: Seq<u8>,
    sequence: int,
    on: bool,
) -> Seq<Told> {
    full_window_words().push(say(0x24, turned(bw, true))) + full_window_words().push(
        say(0x26, turned(red, true)),
    ) + waveform_words(lut) + update_words(sequence, on)
}

proof fn showing_is_told<S, P>(
    e: Ear,
    l: Trace<PanelEvent<S, P>>,
    m: Panel,
    bw: Seq<u8>,
    red: Seq<u8>,
    lut: Seq<u8>,
    c2: u8,
    timeout_ms: u32,
)
    requires
        !e.selected,
        c2 < 0x40,
        bw.len() == 48_000,
        red.len() == 48_000,
    ensures
        tells(
            e,
            l,
            m,
            m.show(l, bw, red, lut, c2, timeout_ms),
            picture_words(bw, red, lut, c2 as int, m.screen_on),
        ),
{
    reveal(Panel::show);
    let w1 = full_window_words().push(say(0x24, turned(bw, true)));
    let w2 = full_window_words().push(say(0x26, turned(red, true)));
    a_plane_is_told(e, l, m, 0x24, bw, true);
    crate::ssd1677::laws::planes_keep(l);
    match m.write_plane(l, 0x24, bw, true) {
        Run::Done(a, Ok(_)) => {
            let ea = e.listen(l, m.at, a.at);
            a_plane_is_told(ea, l, a, 0x26, red, true);
            match a.write_plane(l, 0x26, red, true) {
                Run::Done(b, Ok(_)) => {
                    tells_both(e, l, m, a, b, w1, w2);
                    let eb = e.listen(l, m.at, b.at);
                    a_waveform_is_told(eb, l, b, lut);
                    match b.send_lut(l, lut) {
                        Run::Done(c, Ok(_)) => {
                            tells_both(e, l, m, b, c, w1 + w2, waveform_words(lut));
                            let ec = e.listen(l, m.at, c.at);
                            an_update_is_told(ec, l, c, c2, timeout_ms);
                            assert(c.screen_on == m.screen_on);
                            match c.activate(l, 0x00, c2, timeout_ms) {
                                Run::Done(d, Ok(_)) => tells_both(
                                    e,
                                    l,
                                    m,
                                    c,
                                    d,
                                    w1 + w2 + waveform_words(lut),
                                    update_words(c2 as int, m.screen_on),
                                ),
                                _ => {},
                            }
                        },
                        _ => {},
                    }
                },
                _ => {},
            }
        },
        _ => {},
    }
}

/// What a gray refresh tells, from a known face: the low plane to bank 0x24
/// and the high one to bank 0x26, both inverted; exchanged on an odd face in
/// mode 1, that is for quality and text. Then the waveform of the mode, and the
/// update: mode 1 powers the panel down, the fast mode leaves it on.
pub open spec fn gray_words(
    luts: WaveformModel,
    lsb: Seq<u8>,
    msb: Seq<u8>,
    mode: GrayMode,
    odd: bool,
    on: bool,
) -> Seq<Told> {
    match mode {
        GrayMode::Fast => picture_words(lsb, msb, luts.fast, 0x0C, on),
        GrayMode::Quality => if odd {
            picture_words(msb, lsb, luts.quality, 0x07, on)
        } else {
            picture_words(lsb, msb, luts.quality, 0x07, on)
        },
        GrayMode::Text => if odd {
            picture_words(msb, lsb, luts.text, 0x07, on)
        } else {
            picture_words(lsb, msb, luts.text, 0x07, on)
        },
    }
}

/// A panel whose face is known hears the picture and nothing else; any other
/// is initialised first, which makes its face even and leaves it off.
pub proof fn a_gray_refresh_is_told<S, P>(
    e: Ear,
    l: Trace<PanelEvent<S, P>>,
    m: Panel,
    luts: WaveformModel,
    lsb: Seq<u8>,
    msb: Seq<u8>,
    mode: GrayMode,
)
    requires
        !e.selected,
        lsb.len() == 48_000,
        msb.len() == 48_000,
    ensures
        tells(
            e,
            l,
            m,
            m.refresh_gray4(l, luts, lsb, msb, mode),
            if m.face_known {
                gray_words(luts, lsb, msb, mode, m.face_odd, m.screen_on)
            } else {
                init_words() + gray_words(luts, lsb, msb, mode, false, false)
            },
        ),
{
    crate::bits::register_codes(0);
    an_init_is_told(e, l, m);
    crate::ssd1677::laws::init_makes_the_face_known(m, l);
    match m.ensure_known_face(l) {
        Run::Done(a, Ok(_)) => {
            let ea = e.listen(l, m.at, a.at);
            let first = if m.face_known {
                Seq::empty()
            } else {
                init_words()
            };
            let second = gray_words(luts, lsb, msb, mode, a.face_odd, a.screen_on);
            assert(e.told + Seq::<Told>::empty() =~= e.told);
            showing_is_told(ea, l, a, lsb, msb, luts.fast, 0x0C, 5_000);
            showing_is_told(ea, l, a, lsb, msb, luts.quality, 0x07, 15_000);
            showing_is_told(ea, l, a, msb, lsb, luts.quality, 0x07, 15_000);
            showing_is_told(ea, l, a, lsb, msb, luts.text, 0x07, 15_000);
            showing_is_told(ea, l, a, msb, lsb, luts.text, 0x07, 15_000);
            assert(Seq::<Told>::empty() + second =~= second);
            match m.refresh_gray4(l, luts, lsb, msb, mode) {
                Run::Done(b, Ok(_)) => tells_both(e, l, m, a, b, first, second),
                _ => {},
            }
        },
        _ => {},
    }
}

/// What an initialisation tells: software reset, internal temperature sensor,
/// booster, 480 gates, border, no bypass, the full window, and white for both
/// banks.
pub open spec fn init_words() -> Seq<Told> {
    seq![say(0x12, Seq::empty())] + seq![
        say(0x18, seq![0x80u8]),
        say(0x0C, seq![0xAEu8, 0xC7, 0xC3, 0xC0, 0x40]),
        say(0x01, seq![0xDFu8, 0x01, 0x02]),
        say(0x3C, seq![0x01u8]),
        say(0x21, seq![0x00u8]),
    ] + full_window_words() + seq![say(0x46, seq![0xF7u8]), say(0x47, seq![0xF7u8])]
}

proof fn a_reset_is_told<S, P>(e: Ear, l: Trace<PanelEvent<S, P>>, m: Panel)
    requires
        !e.selected,
    ensures
        tells(e, l, m, m.reset(l), seq![say(0x12, Seq::empty())]),
{
    reveal(Panel::reset);
    waiting_is_silent(e, l, m, 500);
    match m.wait_busy(l, 500) {
        Run::Done(a, Ok(_)) => {
            command_is_heard(e, l, a, 0x12);
            match a.command(l, 0x12) {
                Run::Done(b, Ok(_)) => {
                    let eb = e.listen(l, a.at, b.at);
                    match b.pause_ms(l, 10) {
                        Run::Done(c, Ok(_)) => {
                            reveal_with_fuel(Ear::listen, 2);
                            assert(eb.listen(l, b.at, c.at) == eb);
                            waiting_is_silent(eb, l, c, 500);
                            match c.wait_busy(l, 500) {
                                Run::Done(d, Ok(_)) => {
                                    listening_goes_on(e, l, m.at, a.at, d.at);
                                    listening_goes_on(e, l, a.at, b.at, d.at);
                                    listening_goes_on(eb, l, b.at, c.at, d.at);
                                },
                                _ => {},
                            }
                        },
                        _ => {},
                    }
                },
                _ => {},
            }
        },
        _ => {},
    }
}

#[verifier::rlimit(60)]
proof fn a_configuration_is_told<S, P>(e: Ear, l: Trace<PanelEvent<S, P>>, m: Panel)
    requires
        !e.selected,
    ensures
        tells(
            e,
            l,
            m,
            m.configure(l),
            seq![
                say(0x18, seq![0x80u8]),
                say(0x0C, seq![0xAEu8, 0xC7, 0xC3, 0xC0, 0x40]),
                say(0x01, seq![0xDFu8, 0x01, 0x02]),
                say(0x3C, seq![0x01u8]),
                say(0x21, seq![0x00u8]),
            ],
        ),
{
    reveal(Panel::configure);
    let list = seq![
        say(0x18, seq![0x80u8]),
        say(0x0C, seq![0xAEu8, 0xC7, 0xC3, 0xC0, 0x40]),
        say(0x01, seq![0xDFu8, 0x01, 0x02]),
        say(0x3C, seq![0x01u8]),
        say(0x21, seq![0x00u8]),
    ];
    assert(crate::bytes::le16(479) + seq![0x02u8] =~= seq![0xDFu8, 0x01, 0x02]);
    saying_is_heard(e, l, m, list);
    reveal_with_fuel(says, 6);
    five_in_turn(list);
    assert(m.configure(l) == says(m, l, list));
}

proof fn a_clearing_is_told<S, P>(e: Ear, l: Trace<PanelEvent<S, P>>, m: Panel)
    requires
        !e.selected,
    ensures
        tells(
            e,
            l,
            m,
            m.clear_ram(l),
            seq![say(0x46, seq![0xF7u8]), say(0x47, seq![0xF7u8])],
        ),
{
    reveal(Panel::clear_ram);
    let red = seq![say(0x46, seq![0xF7u8])];
    let bw = seq![say(0x47, seq![0xF7u8])];
    command_data_is_heard(e, l, m, 0x46, seq![0xF7u8]);
    match m.command_data(l, 0x46, seq![0xF7u8]) {
        Run::Done(a, Ok(_)) => {
            let ea = e.listen(l, m.at, a.at);
            waiting_is_silent(ea, l, a, 500);
            match a.wait_busy(l, 500) {
                Run::Done(b, Ok(_)) => {
                    listening_goes_on(e, l, m.at, a.at, b.at);
                    command_data_is_heard(ea, l, b, 0x47, seq![0xF7u8]);
                    match b.command_data(l, 0x47, seq![0xF7u8]) {
                        Run::Done(c, Ok(_)) => {
                            tells_both(e, l, m, b, c, red, bw);
                            let ec = e.listen(l, m.at, c.at);
                            waiting_is_silent(ec, l, c, 500);
                            match c.wait_busy(l, 500) {
                                Run::Done(d, Ok(_)) => {
                                    listening_goes_on(e, l, m.at, c.at, d.at);
                                    assert(red + bw =~= seq![
                                        say(0x46, seq![0xF7u8]),
                                        say(0x47, seq![0xF7u8]),
                                    ]);
                                },
                                _ => {},
                            }
                        },
                        _ => {},
                    }
                },
                _ => {},
            }
        },
        _ => {},
    }
}

/// What an initialisation tells the controller.
pub proof fn an_init_is_told<S, P>(e: Ear, l: Trace<PanelEvent<S, P>>, m: Panel)
    requires
        !e.selected,
    ensures
        tells(e, l, m, m.init(l), init_words()),
{
    reveal(Panel::init);
    let t1 = seq![say(0x12, Seq::empty())];
    let t2 = seq![
        say(0x18, seq![0x80u8]),
        say(0x0C, seq![0xAEu8, 0xC7, 0xC3, 0xC0, 0x40]),
        say(0x01, seq![0xDFu8, 0x01, 0x02]),
        say(0x3C, seq![0x01u8]),
        say(0x21, seq![0x00u8]),
    ];
    let t3 = full_window_words();
    let t4 = seq![say(0x46, seq![0xF7u8]), say(0x47, seq![0xF7u8])];
    a_reset_is_told(e, l, m);
    match m.reset(l) {
        Run::Done(a, Ok(_)) => {
            a_configuration_is_told(e.listen(l, m.at, a.at), l, a);
            match a.configure(l) {
                Run::Done(b, Ok(_)) => {
                    tells_both(e, l, m, a, b, t1, t2);
                    a_window_is_told(e.listen(l, m.at, b.at), l, b, 0, 0, 800, 480);
                    match b.full_window(l) {
                        Run::Done(c, Ok(_)) => {
                            tells_both(e, l, m, b, c, t1 + t2, t3);
                            a_clearing_is_told(e.listen(l, m.at, c.at), l, c);
                            match c.clear_ram(l) {
                                Run::Done(d, Ok(_)) => tells_both(
                                    e,
                                    l,
                                    m,
                                    c,
                                    d,
                                    t1 + t2 + t3,
                                    t4,
                                ),
                                _ => {},
                            }
                        },
                        _ => {},
                    }
                },
                _ => {},
            }
        },
        _ => {},
    }
}

/// What a bank holds: the data that last came for it.
pub open spec fn bank(told: Seq<Told>, command: u8) -> Seq<u8>
    decreases told.len(),
{
    if told.len() == 0 {
        Seq::empty()
    } else if told.last().command == command {
        told.last().data
    } else {
        bank(told.drop_last(), command)
    }
}

proof fn later_words_leave_banks(told: Seq<Told>, more: Seq<Told>, command: u8)
    requires
        forall|i: int| 0 <= i < more.len() ==> (#[trigger] more[i]).command != command,
    ensures
        bank(told + more, command) == bank(told, command),
    decreases more.len(),
{
    if more.len() == 0 {
        assert(told + more =~= told);
    } else {
        let rest = more.drop_last();
        assert((told + more).drop_last() =~= told + rest);
        assert((told + more).last() == more.last());
        assert(more.last() == more[more.len() - 1]);
        assert forall|i: int| 0 <= i < rest.len() implies (#[trigger] rest[i]).command
            != command by {
            assert(rest[i] == more[i]);
        }
        later_words_leave_banks(told, rest, command);
    }
}

proof fn a_picture_fills_both_banks(
    told: Seq<Told>,
    bw: Seq<u8>,
    red: Seq<u8>,
    lut: Seq<u8>,
    sequence: int,
    on: bool,
)
    ensures
        bank(told + picture_words(bw, red, lut, sequence, on), 0x24) == turned(bw, true),
        bank(told + picture_words(bw, red, lut, sequence, on), 0x26) == turned(red, true),
{
    let w1 = full_window_words();
    let a = told + w1;
    let b = a.push(say(0x24, turned(bw, true)));
    let c = b + w1;
    let d = c.push(say(0x26, turned(red, true)));
    let tail = waveform_words(lut) + update_words(sequence, on);
    assert(told + picture_words(bw, red, lut, sequence, on) =~= d + tail);
    later_words_leave_banks(d, tail, 0x24);
    later_words_leave_banks(d, tail, 0x26);
    assert(d.drop_last() =~= c);
    later_words_leave_banks(b, w1, 0x24);
    assert(bank(d, 0x24) == bank(c, 0x24));
    assert(b.last() == say(0x24, turned(bw, true)));
    assert(d.last() == say(0x26, turned(red, true)));
}

/// After a gray refresh in any mode the banks hold the picture: the two bits
/// of a pixel, read as the controller does, make three less its level. The low
/// bit is in bank 0x24 and the high one in bank 0x26; in mode 1 (quality and
/// text alike) it is the other way round if the face was odd.
pub proof fn the_banks_hold_the_picture<S, P>(
    e: Ear,
    l: Trace<PanelEvent<S, P>>,
    m: Panel,
    luts: WaveformModel,
    fb: FrameBuffer,
    mode: GrayMode,
    x: int,
    y: int,
)
    requires
        !e.selected,
        0 <= x < 480,
        0 <= y < 800,
    ensures
        match m.refresh_gray4(l, luts, fb.lsb@, fb.msb@, mode) {
            Run::Done(after, Ok(_)) => {
                let told = e.listen(l, m.at, after.at).told;
                let exchanged = mode != GrayMode::Fast && m.face_known && m.face_odd;
                let low = bank(
                    told,
                    if exchanged {
                        0x26
                    } else {
                        0x24
                    },
                );
                let high = bank(
                    told,
                    if exchanged {
                        0x24
                    } else {
                        0x26
                    },
                );
                let col = if fb.orientation.flip_x {
                    479 - x
                } else {
                    x
                };
                let row = if fb.orientation.flip_y {
                    799 - y
                } else {
                    y
                };
                let i = 100 * col + row / 8;
                let k = (7 - row % 8) as u8;
                ((low[i] >> k) & 1) + 2 * ((high[i] >> k) & 1) == 3 - fb.level(x, y)
            },
            _ => true,
        },
{
    let (lsb, msb) = (fb.lsb@, fb.msb@);
    a_gray_refresh_is_told(e, l, m, luts, lsb, msb, mode);
    crate::ssd1677::framebuffer::pixels_have_their_place(fb, x, y);
    let start = if m.face_known {
        e.told
    } else {
        e.told + init_words()
    };
    let on = m.face_known && m.screen_on;
    a_picture_fills_both_banks(start, lsb, msb, luts.fast, 0x0C, on);
    a_picture_fills_both_banks(start, lsb, msb, luts.quality, 0x07, on);
    a_picture_fills_both_banks(start, msb, lsb, luts.quality, 0x07, on);
    a_picture_fills_both_banks(start, lsb, msb, luts.text, 0x07, on);
    a_picture_fills_both_banks(start, msb, lsb, luts.text, 0x07, on);
    let words = gray_words(luts, lsb, msb, mode, m.face_known && m.face_odd, on);
    assert(e.told + (init_words() + words) =~= e.told + init_words() + words);
    let col = fb.orientation.col(x);
    let row = fb.orientation.row(y);
    let i = 100 * col + row / 8;
    let k = (7 - row % 8) as u8;
    let a = lsb[i];
    let b = msb[i];
    assert(k < 8 ==> (!a >> k) & 1 == 1 - ((a >> k) & 1) && (!b >> k) & 1 == 1 - ((b >> k) & 1) && (
    a >> k) & 1 <= 1 && (b >> k) & 1 <= 1) by (bit_vector);
}

/// A monochrome refresh: the image to both banks, then the built-in sequence
/// with the temperature and its waveform loaded, after which the panel stays
/// powered.
pub proof fn a_mono_refresh_is_told<S, P>(
    e: Ear,
    l: Trace<PanelEvent<S, P>>,
    m: Panel,
    mono: Seq<u8>,
)
    requires
        !e.selected,
        mono.len() == 48_000,
        m.face_known,
    ensures
        tells(
            e,
            l,
            m,
            m.refresh_mono_full(l, mono),
            full_window_words().push(say(0x26, mono)) + full_window_words().push(say(0x24, mono))
                + update_words(0x34, m.screen_on),
        ),
{
    crate::bits::register_codes(0);
    assert(turned(mono, false) =~= mono);
    crate::ssd1677::laws::planes_keep(l);
    let w1 = full_window_words().push(say(0x26, mono));
    let w2 = full_window_words().push(say(0x24, mono));
    a_plane_is_told(e, l, m, 0x26, mono, false);
    match m.write_plane(l, 0x26, mono, false) {
        Run::Done(a, Ok(_)) => {
            a_plane_is_told(e.listen(l, m.at, a.at), l, a, 0x24, mono, false);
            match a.write_plane(l, 0x24, mono, false) {
                Run::Done(b, Ok(_)) => {
                    tells_both(e, l, m, a, b, w1, w2);
                    an_update_is_told(e.listen(l, m.at, b.at), l, b, 0x34, 10_000);
                    match b.activate(l, 0x00, 0x34, 10_000) {
                        Run::Done(c, Ok(_)) => tells_both(
                            e,
                            l,
                            m,
                            b,
                            c,
                            w1 + w2,
                            update_words(0x34, m.screen_on),
                        ),
                        _ => {},
                    }
                },
                _ => {},
            }
        },
        _ => {},
    }
}

/// What a partial update tells: the border floats, the rectangle goes to bank
/// 0x24, the built-in partial sequence runs, the same rectangle goes to bank
/// 0x26, and the border is driven again.
pub open spec fn partial_words(
    mono: Seq<u8>,
    x0: int,
    y0: int,
    w: int,
    h: int,
    on: bool,
) -> Seq<Told> {
    let first = x0 / 8;
    let last = (x0 + w - 1) / 8;
    let window = window_words(8 * first, y0, 8 * last + 7, y0 + h - 1);
    let bytes = rows_bytes(mono, y0, y0 + h, first, last - first + 1, false);
    seq![say(0x3C, seq![0x80u8])] + window.push(say(0x24, bytes)) + update_words(0x3F, on)
        + window.push(say(0x26, bytes)) + seq![say(0x3C, seq![0x01u8])]
}

proof fn rectangles_keep<S, P>(
    m: Panel,
    l: Trace<PanelEvent<S, P>>,
    c: u8,
    plane: Seq<u8>,
    x0: u16,
    y0: u16,
    w: u16,
    h: u16,
)
    ensures
        crate::ssd1677::laws::keeps(m, m.write_plane_rect(l, c, plane, x0, y0, w, h, false)),
{
    let first = crate::ssd1677::framebuffer::first_byte(x0);
    let n = crate::ssd1677::framebuffer::last_byte(x0, w) - first + 1;
    crate::ssd1677::laws::columns_keep(m, l, c, plane, first as u16, n as u16, y0, h, false);
}

/// A partial update, from a known face.
pub proof fn a_partial_update_is_told<S, P>(
    e: Ear,
    l: Trace<PanelEvent<S, P>>,
    m: Panel,
    mono: Seq<u8>,
    x0: u16,
    y0: u16,
    w: u16,
    h: u16,
)
    requires
        !e.selected,
        m.face_known,
        w > 0,
        h > 0,
        x0 + w <= 800,
        y0 + h <= 480,
    ensures
        tells(
            e,
            l,
            m,
            m.refresh_mono_partial(l, mono, x0, y0, w, h),
            partial_words(mono, x0 as int, y0 as int, w as int, h as int, m.screen_on),
        ),
{
    let first = x0 as int / 8;
    let last = (x0 + w - 1) / 8;
    let window = window_words(8 * first, y0 as int, 8 * last + 7, y0 + h - 1);
    let bytes = rows_bytes(mono, y0 as int, y0 + h, first, last - first + 1, false);
    let t1 = seq![say(0x3C, seq![0x80u8])];
    let t2 = window.push(say(0x24, bytes));
    let t3 = update_words(0x3F, m.screen_on);
    let t4 = window.push(say(0x26, bytes));
    let t5 = seq![say(0x3C, seq![0x01u8])];
    command_data_is_heard(e, l, m, 0x3C, seq![0x80u8]);
    match m.command_data(l, 0x3C, seq![0x80u8]) {
        Run::Done(a, Ok(_)) => {
            a_rectangle_is_told(e.listen(l, m.at, a.at), l, a, 0x24, mono, x0, y0, w, h, false);
            rectangles_keep(a, l, 0x24, mono, x0, y0, w, h);
            assert(a.screen_on == m.screen_on);
            match a.write_plane_rect(l, 0x24, mono, x0, y0, w, h, false) {
                Run::Done(b, Ok(_)) => {
                    tells_both(e, l, m, a, b, t1, t2);
                    an_update_is_told(e.listen(l, m.at, b.at), l, b, 0x3F, 5_000);
                    match b.activate(l, 0x00, 0x3F, 5_000) {
                        Run::Done(c, Ok(_)) => {
                            tells_both(e, l, m, b, c, t1 + t2, t3);
                            a_rectangle_is_told(
                                e.listen(l, m.at, c.at),
                                l,
                                c,
                                0x26,
                                mono,
                                x0,
                                y0,
                                w,
                                h,
                                false,
                            );
                            match c.write_plane_rect(l, 0x26, mono, x0, y0, w, h, false) {
                                Run::Done(d, Ok(_)) => {
                                    tells_both(e, l, m, c, d, t1 + t2 + t3, t4);
                                    command_data_is_heard(
                                        e.listen(l, m.at, d.at),
                                        l,
                                        d,
                                        0x3C,
                                        seq![0x01u8],
                                    );
                                    match d.command_data(l, 0x3C, seq![0x01u8]) {
                                        Run::Done(f, Ok(_)) => tells_both(
                                            e,
                                            l,
                                            m,
                                            d,
                                            f,
                                            t1 + t2 + t3 + t4,
                                            t5,
                                        ),
                                        _ => {},
                                    }
                                },
                                _ => {},
                            }
                        },
                        _ => {},
                    }
                },
                _ => {},
            }
        },
        _ => {},
    }
}

/// An update over a picture: the picture to both banks, then the partial
/// update.
pub proof fn an_update_over_a_picture_is_told<S, P>(
    e: Ear,
    l: Trace<PanelEvent<S, P>>,
    m: Panel,
    shown: Seq<u8>,
    mono: Seq<u8>,
    x0: u16,
    y0: u16,
    w: u16,
    h: u16,
)
    requires
        !e.selected,
        m.face_known,
        shown.len() == 48_000,
        w > 0,
        h > 0,
        x0 + w <= 800,
        y0 + h <= 480,
    ensures
        tells(
            e,
            l,
            m,
            m.refresh_mono_over(l, shown, mono, x0, y0, w, h),
            full_window_words().push(say(0x26, shown)) + full_window_words().push(say(0x24, shown))
                + partial_words(mono, x0 as int, y0 as int, w as int, h as int, m.screen_on),
        ),
{
    assert(turned(shown, false) =~= shown);
    crate::ssd1677::laws::planes_keep(l);
    let w1 = full_window_words().push(say(0x26, shown));
    let w2 = full_window_words().push(say(0x24, shown));
    let w3 = partial_words(mono, x0 as int, y0 as int, w as int, h as int, m.screen_on);
    a_plane_is_told(e, l, m, 0x26, shown, false);
    match m.write_plane(l, 0x26, shown, false) {
        Run::Done(a, Ok(_)) => {
            a_plane_is_told(e.listen(l, m.at, a.at), l, a, 0x24, shown, false);
            match a.write_plane(l, 0x24, shown, false) {
                Run::Done(b, Ok(_)) => {
                    tells_both(e, l, m, a, b, w1, w2);
                    a_partial_update_is_told(e.listen(l, m.at, b.at), l, b, mono, x0, y0, w, h);
                    match b.refresh_mono_partial(l, mono, x0, y0, w, h) {
                        Run::Done(c, Ok(_)) => tells_both(e, l, m, b, c, w1 + w2, w3),
                        _ => {},
                    }
                },
                _ => {},
            }
        },
        _ => {},
    }
}

/// Power is switched with an update sequence of its own, unless it is as
/// wanted; deep sleep powers down and keeps the RAM.
pub proof fn power_and_sleep_are_told<S, P>(e: Ear, l: Trace<PanelEvent<S, P>>, m: Panel, on: bool)
    requires
        !e.selected,
    ensures
        tells(
            e,
            l,
            m,
            m.set_power(l, on),
            if on == m.screen_on {
                Seq::empty()
            } else if on {
                seq![say(0x22, seq![0xC0u8]), say(0x20, Seq::empty())]
            } else {
                seq![say(0x22, seq![0x03u8]), say(0x20, Seq::empty())]
            },
        ),
        m.set_power(l, on) matches Run::Done(after, Ok(_)) ==> after.screen_on == on,
        tells(
            e,
            l,
            m,
            m.deep_sleep(l),
            if m.screen_on {
                seq![
                    say(0x22, seq![0x03u8]),
                    say(0x20, Seq::empty()),
                    say(0x10, seq![0x01u8]),
                ]
            } else {
                seq![say(0x10, seq![0x01u8])]
            },
        ),
{
    power_is_told(e, l, m, on);
    power_is_told(e, l, m, false);
    match m.set_power(l, false) {
        Run::Done(a, Ok(_)) => {
            command_data_is_heard(e.listen(l, m.at, a.at), l, a, 0x10, seq![0x01u8]);
            match a.command_data(l, 0x10, seq![0x01u8]) {
                Run::Done(b, Ok(_)) => {
                    let off = if m.screen_on {
                        seq![say(0x22, seq![0x03u8]), say(0x20, Seq::empty())]
                    } else {
                        Seq::empty()
                    };
                    let sleep = seq![say(0x10, seq![0x01u8])];
                    tells_both(e, l, m, a, b, off, sleep);
                    assert(off + sleep =~= if m.screen_on {
                        seq![
                            say(0x22, seq![0x03u8]),
                            say(0x20, Seq::empty()),
                            say(0x10, seq![0x01u8]),
                        ]
                    } else {
                        seq![say(0x10, seq![0x01u8])]
                    });
                },
                _ => {},
            }
        },
        _ => {},
    }
}

proof fn power_is_told<S, P>(e: Ear, l: Trace<PanelEvent<S, P>>, m: Panel, on: bool)
    requires
        !e.selected,
    ensures
        tells(
            e,
            l,
            m,
            m.set_power(l, on),
            if on == m.screen_on {
                Seq::empty()
            } else if on {
                seq![say(0x22, seq![0xC0u8]), say(0x20, Seq::empty())]
            } else {
                seq![say(0x22, seq![0x03u8]), say(0x20, Seq::empty())]
            },
        ),
        m.set_power(l, on) matches Run::Done(after, Ok(_)) ==> after.screen_on == on,
{
    assert(e.told + Seq::<Told>::empty() =~= e.told);
    if on != m.screen_on {
        let v: u8 = if on {
            0xC0
        } else {
            0x03
        };
        let list = seq![say(0x22, seq![v]), say(0x20, Seq::empty())];
        saying_is_heard(e, l, m, list);
        reveal_with_fuel(says, 3);
        five_in_turn(list);
        match says(m, l, list) {
            Run::Done(a, Ok(_)) => {
                waiting_is_silent(e.listen(l, m.at, a.at), l, a, 2000);
                match a.wait_busy(l, 2000) {
                    Run::Done(b, Ok(_)) => listening_goes_on(e, l, m.at, a.at, b.at),
                    _ => {},
                }
            },
            _ => {},
        }
    }
}

/// How long BUSY is waited for: a wait that fails has seen BUSY high for the
/// whole time, once per millisecond.
pub proof fn a_timeout_takes_its_time<S, P>(m: Panel, l: Trace<PanelEvent<S, P>>, left: nat)
    ensures
        m.poll_busy(l, left) matches Run::Done(after, Err(Error::BusyTimeout)) ==> {
            &&& after.at == m.at + 2 * left + 1
            &&& forall|i: int|
                0 <= i <= left ==> #[trigger] l.at(m.at + 2 * i) == PanelEvent::<S, P>::Busy(
                    Ok(true),
                )
            &&& forall|i: int|
                0 <= i < left ==> #[trigger] l.at(m.at + 2 * i + 1) == PanelEvent::<
                    S,
                    P,
                >::PauseMs(1)
        },
    decreases left,
{
    match m.is_busy(l) {
        Run::Done(a, Ok(busy)) => if busy && left > 0 {
            match a.pause_ms(l, 1) {
                Run::Done(b, Ok(_)) => {
                    a_timeout_takes_its_time(b, l, (left - 1) as nat);
                    match m.poll_busy(l, left) {
                        Run::Done(after, Err(Error::BusyTimeout)) => {
                            assert forall|i: int| 0 <= i <= left implies #[trigger] l.at(
                                m.at + 2 * i,
                            ) == PanelEvent::<S, P>::Busy(Ok(true)) by {
                                if i > 0 {
                                    assert(l.at(b.at + 2 * (i - 1)) == PanelEvent::<S, P>::Busy(
                                        Ok(true),
                                    ));
                                }
                            }
                            assert forall|i: int| 0 <= i < left implies #[trigger] l.at(
                                m.at + 2 * i + 1,
                            ) == PanelEvent::<S, P>::PauseMs(1) by {
                                if i > 0 {
                                    assert(l.at(b.at + 2 * (i - 1) + 1) == PanelEvent::<
                                        S,
                                        P,
                                    >::PauseMs(1));
                                }
                            }
                        },
                        _ => {},
                    }
                },
                _ => {},
            }
        },
        _ => {},
    }
}

} // verus!
