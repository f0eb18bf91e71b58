//! What holds of the panel driver on every trace, and of the planes it shows.

use crate::ssd1677::framebuffer::{FrameBuffer, Orientation, PLANE_BYTES, ROW_BYTES};
use crate::ssd1677::model::{Panel, WaveformModel};
use crate::ssd1677::port::PanelEvent;
use crate::ssd1677::{cmd, ctrl2, Error, GrayMode, RAM_X_PIXELS, RAM_Y_LINES};
use crate::trace::{Run, Trace};
use vstd::prelude::*;

verus! {

/// A run that changes nothing but the position.
pub open spec fn keeps<S, P>(m: Panel, run: Run<Panel, (), Error<S, P>>) -> bool {
    match run {
        Run::Done(after, _) => after.screen_on == m.screen_on && after.face_odd == m.face_odd
            && after.face_known == m.face_known,
        Run::Off => true,
    }
}

proof fn poll_keeps<S, P>(m: Panel, l: Trace<PanelEvent<S, P>>, left: nat)
    ensures
        keeps(m, m.poll_busy(l, left)),
    decreases left,
{
    match m.is_busy(l) {
        Run::Done(a, Ok(busy)) => if busy && left > 0 {
            match a.pause_ms(l, 1) {
                Run::Done(b, Ok(_)) => poll_keeps(b, l, (left - 1) as nat),
                _ => {},
            }
        },
        _ => {},
    }
}

proof fn wait_keeps<S, P>(m: Panel, l: Trace<PanelEvent<S, P>>, ms: u32)
    ensures
        keeps(m, m.wait_busy(l, ms)),
{
    assert forall|a: Panel| keeps(a, #[trigger] a.poll_busy(l, ms as nat)) by {
        poll_keeps(a, l, ms as nat);
    }
}

proof fn commands_keep<S, P>(l: Trace<PanelEvent<S, P>>)
    ensures
        forall|a: Panel, c: u8| keeps(a, #[trigger] a.command(l, c)),
        forall|a: Panel, d: Seq<u8>| keeps(a, #[trigger] a.data(l, d)),
        forall|a: Panel, c: u8, d: Seq<u8>| keeps(a, #[trigger] a.command_data(l, c, d)),
        forall|a: Panel, ms: u32| keeps(a, #[trigger] a.wait_busy(l, ms)),
{
    assert forall|a: Panel, ms: u32| keeps(a, #[trigger] a.wait_busy(l, ms)) by {
        wait_keeps(a, l, ms);
    }
}

proof fn rows_keep<S, P>(
    m: Panel,
    l: Trace<PanelEvent<S, P>>,
    plane: Seq<u8>,
    y: int,
    end: int,
    first: int,
    n: int,
    invert: bool,
)
    ensures
        keeps(m, m.rows(l, plane, y, end, first, n, invert)),
    decreases end - y,
{
    if y < end {
        match m.send(l, crate::ssd1677::model::row_part(plane, y, first, n, invert)) {
            Run::Done(a, Ok(_)) => rows_keep(a, l, plane, y + 1, end, first, n, invert),
            _ => {},
        }
    }
}

proof fn window_keeps<S, P>(m: Panel, l: Trace<PanelEvent<S, P>>, x: u16, y: u16, w: u16, h: u16)
    ensures
        keeps(m, m.window(l, x, y, w, h)),
{
    reveal(Panel::window);
    commands_keep(l);
}

proof fn send_rows_keep<S, P>(m: Panel, l: Trace<PanelEvent<S, P>>, plane: Seq<u8>)
    ensures
        keeps(m, m.send_rows(l, plane, 0, RAM_Y_LINES as int, 0, ROW_BYTES as int, true)),
{
    match m.start_data(l) {
        Run::Done(a, Ok(_)) => {
            rows_keep(a, l, plane, 0, RAM_Y_LINES as int, 0, ROW_BYTES as int, true);
        },
        _ => {},
    }
}

proof fn command_keeps<S, P>(m: Panel, l: Trace<PanelEvent<S, P>>, c: u8)
    ensures
        keeps(m, m.command(l, c)),
{
}

proof fn data_keeps<S, P>(m: Panel, l: Trace<PanelEvent<S, P>>, d: Seq<u8>)
    ensures
        keeps(m, m.data(l, d)),
{
}

proof fn write_plane_keeps<S, P>(
    m: Panel,
    l: Trace<PanelEvent<S, P>>,
    c: u8,
    plane: Seq<u8>,
    invert: bool,
)
    ensures
        keeps(m, m.write_plane(l, c, plane, invert)),
{
    reveal(Panel::write_plane);
    let w = m.full_window(l);
    assert(keeps(m, w)) by {
        window_keeps(m, l, 0, 0, RAM_X_PIXELS, RAM_Y_LINES);
    }
    match w {
        Run::Done(a, Ok(_)) => {
            command_keeps(a, l, c);
            match a.command(l, c) {
                Run::Done(b, Ok(_)) => {
                    send_rows_keep(b, l, plane);
                    data_keeps(b, l, plane);
                },
                _ => {},
            }
        },
        _ => {},
    }
}

proof fn send_lut_keeps<S, P>(m: Panel, l: Trace<PanelEvent<S, P>>, lut: Seq<u8>)
    ensures
        keeps(m, m.send_lut(l, lut)),
{
    reveal(Panel::send_lut);
    commands_keep(l);
}

/// Sending part of a plane changes neither power nor face.
pub proof fn columns_keep<S, P>(
    m: Panel,
    l: Trace<PanelEvent<S, P>>,
    c: u8,
    plane: Seq<u8>,
    first: u16,
    n: u16,
    y0: u16,
    h: u16,
    invert: bool,
)
    ensures
        keeps(m, m.write_columns(l, c, plane, first, n, y0, h, invert)),
{
    window_keeps(m, l, (first * 8) as u16, y0, (n * 8) as u16, h);
    match m.window(l, (first * 8) as u16, y0, (n * 8) as u16, h) {
        Run::Done(a, Ok(_)) => {
            command_keeps(a, l, c);
            match a.command(l, c) {
                Run::Done(b, Ok(_)) => match b.start_data(l) {
                    Run::Done(d, Ok(_)) => rows_keep(
                        d,
                        l,
                        plane,
                        y0 as int,
                        y0 + h,
                        first as int,
                        n as int,
                        invert,
                    ),
                    _ => {},
                },
                _ => {},
            }
        },
        _ => {},
    }
}

/// Sending planes and waveforms changes neither power nor face.
pub proof fn planes_keep<S, P>(l: Trace<PanelEvent<S, P>>)
    ensures
        forall|a: Panel, c: u8, p: Seq<u8>, inv: bool|
            keeps(a, #[trigger] a.write_plane(l, c, p, inv)),
        forall|a: Panel, lut: Seq<u8>| keeps(a, #[trigger] a.send_lut(l, lut)),
{
    assert forall|a: Panel, c: u8, p: Seq<u8>, inv: bool|
        keeps(a, #[trigger] a.write_plane(l, c, p, inv)) by {
        write_plane_keeps(a, l, c, p, inv);
    }
    assert forall|a: Panel, lut: Seq<u8>| keeps(a, #[trigger] a.send_lut(l, lut)) by {
        send_lut_keeps(a, l, lut);
    }
}

/// A panel that was initialised is off, and its RAM face is known and even.
pub proof fn init_makes_the_face_known<S, P>(m: Panel, l: Trace<PanelEvent<S, P>>)
    ensures
        match m.init(l) {
            Run::Done(after, Ok(_)) => !after.screen_on && !after.face_odd && after.face_known,
            _ => true,
        },
{
    reveal(Panel::init);
}

/// A panel in deep sleep is off, and whatever is shown next initialises it
/// first.
pub proof fn waking_from_deep_sleep_takes_an_init<S, P>(m: Panel, l: Trace<PanelEvent<S, P>>)
    ensures
        match m.deep_sleep(l) {
            Run::Done(after, Ok(_)) => {
                &&& !after.screen_on
                &&& !after.face_known
                &&& after.ensure_known_face(l) == after.init(l)
            },
            _ => true,
        },
{
    commands_keep(l);
}

proof fn activation_sets_the_state<S, P>(
    m: Panel,
    l: Trace<PanelEvent<S, P>>,
    c2: u8,
    timeout_ms: u32,
)
    ensures
        match m.activate(l, 0x00, c2, timeout_ms) {
            Run::Done(after, Ok(_)) => {
                &&& after.screen_on == (c2 & (ctrl2::DISABLE_ANALOG | ctrl2::DISABLE_CLOCK) == 0)
                &&& after.face_odd == (c2 & ctrl2::MODE2 != 0 && (if m.face_known {
                    !m.face_odd
                } else {
                    m.face_odd
                }))
                &&& after.face_known == (m.face_known || c2 & ctrl2::MODE2 == 0)
            },
            _ => true,
        },
{
    reveal(Panel::activate);
    commands_keep(l);
    assert((c2 | (0x80u8 | 0x40u8)) & (0x02u8 | 0x01u8) == c2 & (0x02u8 | 0x01u8) && (c2 | (0x80u8
        | 0x40u8)) & 0x08u8 == c2 & 0x08u8) by (bit_vector);
}

/// The face a refresh starts from: a panel with an unknown face is
/// initialised first.
pub open spec fn starting_face(m: Panel) -> bool {
    m.face_known && m.face_odd
}

proof fn showing_sets_the_state<S, P>(
    m: Panel,
    l: Trace<PanelEvent<S, P>>,
    bw: Seq<u8>,
    red: Seq<u8>,
    lut: Seq<u8>,
    c2: u8,
    timeout_ms: u32,
)
    ensures
        match m.show(l, bw, red, lut, c2, timeout_ms) {
            Run::Done(after, Ok(_)) => {
                &&& after.screen_on == (c2 & (ctrl2::DISABLE_ANALOG | ctrl2::DISABLE_CLOCK) == 0)
                &&& after.face_odd == (c2 & ctrl2::MODE2 != 0 && (if m.face_known {
                    !m.face_odd
                } else {
                    m.face_odd
                }))
                &&& after.face_known == (m.face_known || c2 & ctrl2::MODE2 == 0)
            },
            _ => true,
        },
{
    reveal(Panel::show);
    planes_keep(l);
    assert forall|a: Panel| match #[trigger] a.activate(l, 0x00, c2, timeout_ms) {
        Run::Done(after, Ok(_)) => {
            &&& after.screen_on == (c2 & (ctrl2::DISABLE_ANALOG | ctrl2::DISABLE_CLOCK) == 0)
            &&& after.face_odd == (c2 & ctrl2::MODE2 != 0 && (if a.face_known {
                !a.face_odd
            } else {
                a.face_odd
            }))
            &&& after.face_known == (a.face_known || c2 & ctrl2::MODE2 == 0)
        },
        _ => true,
    } by {
        activation_sets_the_state(a, l, c2, timeout_ms);
    }
}

/// After a gray refresh the RAM face is known. A mode-1 refresh (quality,
/// text) leaves the panel powered down with an even face; a fast refresh
/// leaves it powered and turns the face over.
pub proof fn gray_refreshes_track_face_and_power<S, P>(
    m: Panel,
    l: Trace<PanelEvent<S, P>>,
    luts: WaveformModel,
    lsb: Seq<u8>,
    msb: Seq<u8>,
    mode: GrayMode,
)
    ensures
        match m.refresh_gray4(l, luts, lsb, msb, mode) {
            Run::Done(after, Ok(_)) => {
                &&& after.face_known
                &&& after.screen_on == (mode == GrayMode::Fast)
                &&& after.face_odd == (mode == GrayMode::Fast && !starting_face(m))
            },
            _ => true,
        },
{
    init_makes_the_face_known(m, l);
    crate::bits::update_codes();
    match m.ensure_known_face(l) {
        Run::Done(a, Ok(_)) => {
            match mode {
                GrayMode::Fast => showing_sets_the_state(
                    a,
                    l,
                    lsb,
                    msb,
                    luts.fast,
                    ctrl2::MODE2 | ctrl2::DISPLAY,
                    5_000,
                ),
                _ => showing_sets_the_state(
                    a,
                    l,
                    if a.face_odd {
                        msb
                    } else {
                        lsb
                    },
                    if a.face_odd {
                        lsb
                    } else {
                        msb
                    },
                    if mode == GrayMode::Quality {
                        luts.quality
                    } else {
                        luts.text
                    },
                    ctrl2::DISPLAY | ctrl2::DISABLE_ANALOG | ctrl2::DISABLE_CLOCK,
                    15_000,
                ),
            }
        },
        _ => {},
    }
}

/// A full monochrome refresh keeps the panel powered and makes the face even.
pub proof fn a_mono_refresh_keeps_power<S, P>(m: Panel, l: Trace<PanelEvent<S, P>>, mono: Seq<u8>)
    ensures
        match m.refresh_mono_full(l, mono) {
            Run::Done(after, Ok(_)) => after.screen_on && !after.face_odd && after.face_known,
            _ => true,
        },
{
    planes_keep(l);
    let c2 = ctrl2::LOAD_TEMP | ctrl2::LOAD_LUT | ctrl2::DISPLAY;
    crate::bits::update_codes();
    assert forall|a: Panel| match #[trigger] a.activate(l, 0x00, c2, 10_000) {
        Run::Done(after, Ok(_)) => after.screen_on && !after.face_odd && after.face_known,
        _ => true,
    } by {
        activation_sets_the_state(a, l, c2, 10_000);
    }
}

/// A partial update over what is shown starts from it: once both banks hold
/// the picture, no init clears them again.
pub proof fn a_baseline_is_not_cleared<S, P>(m: Panel, l: Trace<PanelEvent<S, P>>, shown: Seq<u8>)
    ensures
        m.ensure_known_face(l) matches Run::Done(a, Ok(_)) ==> (a.write_plane(
            l,
            cmd::WRITE_RAM_RED,
            shown,
            false,
        ) matches Run::Done(b, Ok(_)) ==> (b.write_plane(l, cmd::WRITE_RAM_BW, shown, false)
            matches Run::Done(c, Ok(_)) ==> c.ensure_known_face(l) == c.done::<(), S, P>(()))),
{
    init_makes_the_face_known(m, l);
    planes_keep(l);
}

/// What the controller gets for a pixel is its distance from white: the bits
/// of the inverted planes make `3 - level`.
pub proof fn inverted_planes_count_from_white(low: u8, high: u8, bit: u8)
    requires
        bit == 0x80 || bit == 0x40 || bit == 0x20 || bit == 0x10 || bit == 0x08 || bit == 0x04
            || bit == 0x02 || bit == 0x01,
    ensures
        crate::ssd1677::framebuffer::level_of(!low, !high, bit) == 3
            - crate::ssd1677::framebuffer::level_of(low, high, bit),
{
    assert((bit == 0x80 || bit == 0x40 || bit == 0x20 || bit == 0x10 || bit == 0x08 || bit == 0x04
        || bit == 0x02 || bit == 0x01) ==> ((!low & bit != 0) == !(low & bit != 0)) && ((!high & bit
        != 0) == !(high & bit != 0))) by (bit_vector);
    crate::bits::two_bits_make_a_level();
}

/// A non-empty rectangle, mapped to native coordinates, is a region that can
/// be sent and folded in.
pub proof fn native_regions_fit(x: u32, y: u32, w: u32, h: u32)
    requires
        w > 0,
        h > 0,
    ensures
        ({
            let (x0, nw, y0, nh) = crate::ssd1677::framebuffer::native(x, y, w, h);
            &&& 1 <= x0 + nw <= u16::MAX
            &&& 1 <= y0 + nh <= RAM_Y_LINES
            &&& nh > 0
            &&& crate::ssd1677::framebuffer::first_byte(x0)
                <= crate::ssd1677::framebuffer::last_byte(x0, nw)
        }),
{
}

/// Where a monochrome image was folded in, a pixel is black or white, as the
/// image has it; elsewhere it is unchanged.
pub proof fn folded_pixels_are_black_or_white(
    before: FrameBuffer,
    after: FrameBuffer,
    mono: Seq<u8>,
    first: int,
    last: int,
    y0: int,
    y1: int,
    x: int,
    y: int,
)
    requires
        mono.len() == PLANE_BYTES,
        before.orientation == (Orientation { flip_x: false, flip_y: false }),
        after.orientation == before.orientation,
        after.lsb@ == crate::ssd1677::framebuffer::patched(
            before.lsb@,
            mono,
            first,
            last,
            y0,
            y1,
        ),
        after.msb@ == crate::ssd1677::framebuffer::patched(
            before.msb@,
            mono,
            first,
            last,
            y0,
            y1,
        ),
        crate::ssd1677::framebuffer::on_screen(x, y),
    ensures
        after.level(x, y) == if y0 <= x <= y1 && first <= y / 8 <= last {
            if mono[x * 100 + y / 8] & (0x80u8 >> ((y % 8) as u8)) != 0 {
                3u8
            } else {
                0u8
            }
        } else {
            before.level(x, y)
        },
{
    crate::bits::two_bits_make_a_level();
    let i = before.orientation.byte(x, y);
    assert(i == x * 100 + y / 8);
    assert(i / 100 == x);
    assert(i % 100 == y / 8);
}

/// A partial update turns the face over and powers the panel down.
pub proof fn a_partial_update_tracks_face_and_power<S, P>(
    m: Panel,
    l: Trace<PanelEvent<S, P>>,
    mono: Seq<u8>,
    x0: u16,
    y0: u16,
    w: u16,
    h: u16,
)
    requires
        m.face_known,
    ensures
        m.refresh_mono_partial(l, mono, x0, y0, w, h) matches Run::Done(after, Ok(_)) ==> {
            &&& after.face_known
            &&& after.face_odd == !m.face_odd
            &&& !after.screen_on
        },
{
    let first = crate::ssd1677::framebuffer::first_byte(x0);
    let n = crate::ssd1677::framebuffer::last_byte(x0, w) - first + 1;
    commands_keep(l);
    crate::bits::update_codes();
    match m.command_data(l, 0x3C, seq![0x80u8]) {
        Run::Done(a, Ok(_)) => {
            columns_keep(a, l, 0x24, mono, first as u16, n as u16, y0, h, false);
            match a.write_plane_rect(l, 0x24, mono, x0, y0, w, h, false) {
                Run::Done(b, Ok(_)) => {
                    activation_sets_the_state(b, l, 0x3F, 5_000);
                    match b.activate(l, 0x00, 0x3F, 5_000) {
                        Run::Done(c, Ok(_)) => columns_keep(
                            c,
                            l,
                            0x26,
                            mono,
                            first as u16,
                            n as u16,
                            y0,
                            h,
                            false,
                        ),
                        _ => {},
                    }
                },
                _ => {},
            }
        },
        _ => {},
    }
}

/// A wait that succeeds has given BUSY 2 ms to rise and then seen it low.
pub proof fn busy_is_waited_for<S, P>(m: Panel, l: Trace<PanelEvent<S, P>>, timeout_ms: u32)
    ensures
        m.wait_busy(l, timeout_ms) matches Run::Done(after, Ok(_)) ==> {
            &&& m.at + 2 <= after.at
            &&& l.at(m.at) == PanelEvent::<S, P>::PauseMs(2)
            &&& l.at(after.at - 1) == PanelEvent::<S, P>::Busy(Ok(false))
        },
{
    match m.pause_ms(l, 2) {
        Run::Done(a, Ok(_)) => polls_end_low(a, l, timeout_ms as nat),
        _ => {},
    }
}

proof fn polls_end_low<S, P>(m: Panel, l: Trace<PanelEvent<S, P>>, left: nat)
    ensures
        m.poll_busy(l, left) matches Run::Done(after, Ok(_)) ==> m.at < after.at && l.at(after.at - 1)
            == PanelEvent::<S, P>::Busy(Ok(false)),
    decreases left,
{
    match m.is_busy(l) {
        Run::Done(a, Ok(busy)) => if busy && left > 0 {
            match a.pause_ms(l, 1) {
                Run::Done(b, Ok(_)) => polls_end_low(b, l, (left - 1) as nat),
                _ => {},
            }
        },
        _ => {},
    }
}

/// The display is not left busy: a reset, an update, and a change of its power
/// succeed only once BUSY was seen low, and nothing follows that.
pub proof fn nothing_leaves_the_display_busy<S, P>(
    m: Panel,
    l: Trace<PanelEvent<S, P>>,
    ctrl1: u8,
    c2: u8,
    timeout_ms: u32,
    on: bool,
)
    ensures
        m.reset(l) matches Run::Done(after, Ok(_)) ==> l.at(after.at - 1) == PanelEvent::<
            S,
            P,
        >::Busy(Ok(false)),
        m.activate(l, ctrl1, c2, timeout_ms) matches Run::Done(after, Ok(_)) ==> l.at(after.at - 1)
            == PanelEvent::<S, P>::Busy(Ok(false)),
        on != m.screen_on ==> (m.set_power(l, on) matches Run::Done(after, Ok(_)) ==> l.at(
            after.at - 1,
        ) == PanelEvent::<S, P>::Busy(Ok(false))),
{
    reveal(Panel::reset);
    reveal(Panel::activate);
    assert forall|a: Panel, t: u32| #[trigger]
        a.wait_busy(l, t) matches Run::Done(after, Ok(_)) implies l.at(a.wait_busy(l, t)->Done_0.at - 1)
        == PanelEvent::<S, P>::Busy(Ok(false)) by {
        busy_is_waited_for(a, l, t);
    }
}

} // verus!
