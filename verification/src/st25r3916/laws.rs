//! What holds of the reader driver on every trace.

use crate::bus::BusEvent;
use crate::st25r3916::model::{Chip, LevelModel, TagModel};
use crate::st25r3916::{cmd, reg, Error, Step, ADDR, EN, FIFO_DEPTH, RX_EN, TX_EN};
use crate::trace::{Run, Trace};
use vstd::prelude::*;

verus! {

/// Taking flags loses none: what is taken and what stays pending make up all
/// that was pending or fresh, and nothing is both.
pub proof fn taken_flags_are_not_lost(pending: u32, fresh: u32, bits: u32)
    ensures
        ({
            let all = pending | fresh;
            let hit = all & bits;
            let rest = all & !hit;
            &&& hit | rest == all
            &&& hit & rest == 0
            &&& rest & bits == 0
        }),
{
    assert({
        let all = pending | fresh;
        let hit = all & bits;
        let rest = all & !hit;
        &&& hit | rest == all
        &&& hit & rest == 0
        &&& rest & bits == 0
    }) by (bit_vector);
}

/// Changing a register sets and clears what was asked for and keeps every
/// other bit; doing it again changes nothing.
pub proof fn modified_registers_keep_other_bits(v: u8, clear: u8, set: u8)
    ensures
        ({
            let n = (v & !clear) | set;
            &&& n & set == set
            &&& n & (clear & !set) == 0
            &&& n & !(clear | set) == v & !(clear | set)
            &&& (n & !clear) | set == n
        }),
{
    assert({
        let n = (v & !clear) | set;
        &&& n & set == set
        &&& n & (clear & !set) == 0
        &&& n & !(clear | set) == v & !(clear | set)
        &&& (n & !clear) | set == n
    }) by (bit_vector);
}

/// A write to the chip that succeeded.
pub open spec fn sent_well<E>(l: Trace<BusEvent<E>>, i: int, bytes: Seq<u8>) -> bool {
    match l.at(i) {
        BusEvent::Write { addr, sent, outcome } => addr == ADDR && outcome is Ok && sent == bytes,
        _ => false,
    }
}

/// A reply of whole bytes, up to the depth of the FIFO, is sent as it is and
/// with CRC: the FIFO is cleared and loaded with it, its length is announced in
/// bits, and it is transmitted.
pub proof fn replies_are_sent_whole<E>(c: Chip, l: Trace<BusEvent<E>>, data: Seq<u8>)
    requires
        1 <= data.len() <= FIFO_DEPTH,
    ensures
        c.target_transmit(l, data, 0) matches Run::Done(d, Ok(_)) ==> {
            &&& d.at == c.at + 4
            &&& sent_well(l, c.at, seq![cmd::CLEAR_FIFO])
            &&& sent_well(l, c.at + 1, seq![0x80u8] + data)
            &&& sent_well(
                l,
                c.at + 2,
                seq![reg::NUM_TX_BYTES1] + crate::bytes::be16((data.len() * 8) as u16),
            )
            &&& sent_well(l, c.at + 3, seq![cmd::TRANSMIT_WITH_CRC])
        },
{
    crate::bits::low_bits_are_remainders(0x22);
    assert(crate::st25r3916::model::num_tx(data.len() as u16, 0) == data.len() * 8);
}

/// The value of a register that entry `i` of a trace shows: one that was read
/// from it alone, or written to it.
pub open spec fn shown<E>(l: Trace<BusEvent<E>>, i: int, r: u8) -> Option<u8> {
    match l.at(i) {
        BusEvent::Write { addr, sent, outcome } => if addr == crate::st25r3916::ADDR && outcome is Ok
            && sent.len() == 2 && sent[0] == r & 0x3F {
            Some(sent[1])
        } else {
            None
        },
        BusEvent::Read { addr, sent, asked, reply } => if addr == crate::st25r3916::ADDR && asked
            == 1 && sent == seq![0x40 | (r & 0x3F)] && reply is Ok {
            Some(reply->Ok_0[0])
        } else {
            None
        },
        _ => None,
    }
}

/// After a register was changed with success, the last access shows it as
/// asked for: the bits to set are set, the bits to clear are clear.
pub proof fn a_modified_register_shows_it<E>(
    chip: Chip,
    l: Trace<BusEvent<E>>,
    r: u8,
    clear: u8,
    set: u8,
)
    ensures
        match chip.modify_reg(l, r, clear, set) {
            Run::Done(c, Ok(_)) => shown(l, c.at - 1, r) matches Some(v) && v & set == set && v & (
            clear & !set) == 0,
            _ => true,
        },
{
    match chip.read_reg(l, r) {
        Run::Done(c, Ok(v)) => {
            let n = (v & !clear) | set;
            modified_registers_keep_other_bits(v, clear, set);
            let sent = seq![r & 0x3F, n];
            assert(sent.len() == 2 && sent[0] == r & 0x3F && sent[1] == n);
        },
        _ => {},
    }
}

/// When the field was switched off with success, the last access shows
/// transmitter and receiver off; after powering down it shows the oscillator
/// off.
pub proof fn field_and_oscillator_are_off<E>(chip: Chip, l: Trace<BusEvent<E>>)
    ensures
        match chip.field_off(l) {
            Run::Done(c, Ok(_)) => shown(l, c.at - 1, reg::OP_CONTROL) matches Some(v) && v & (TX_EN
                | RX_EN) == 0,
            _ => true,
        },
        match chip.power_down(l) {
            Run::Done(c, Ok(_)) => shown(l, c.at - 1, reg::OP_CONTROL) matches Some(v) && v & EN
                == 0,
            _ => true,
        },
{
    assert((0x08u8 | 0x40u8) & !0u8 == 0x08u8 | 0x40u8 && 0x80u8 & !0u8 == 0x80u8)
        by (bit_vector);
    a_modified_register_shows_it(chip, l, reg::OP_CONTROL, TX_EN | RX_EN, 0);
    match chip.field_off(l) {
        Run::Done(c, Ok(_)) => a_modified_register_shows_it(c, l, reg::OP_CONTROL, EN, 0),
        _ => {},
    }
}

/// The no-response timer is never off, and unless it is at its limit it waits
/// at least as long as asked: `ticks` periods of 64 or 4096 cycles of
/// 13.56 MHz are `ms` milliseconds or more, by less than one tick.
pub proof fn the_timer_waits_long_enough(ms: u32, coarse: bool)
    ensures
        ({
            let ticks = crate::st25r3916::fwt_ticks(ms, coarse);
            let per = if coarse {
                4_096_000int
            } else {
                64_000int
            };
            &&& ticks >= 1
            &&& ticks < 0xFFFF ==> ticks * per >= ms * 13_560_000
            &&& 1 < ticks < 0xFFFF ==> (ticks - 1) * per < ms * 13_560_000
        }),
{
}

/// A tag that was selected has a UID of four, seven or ten bytes.
pub proof fn selected_tags_have_a_whole_uid<E>(
    chip: Chip,
    l: Trace<BusEvent<E>>,
    tag: TagModel,
    lv: int,
)
    requires
        1 <= lv,
    ensures
        match chip.nfca_select(l, tag, lv) {
            Run::Done(_, Ok(t)) => t.uid_len == 4 || t.uid_len == 7 || t.uid_len == 10,
            _ => true,
        },
    decreases 4 - lv,
{
    if lv <= 3 {
        match chip.nfca_level(l, crate::st25r3916::sel_code(lv)) {
            Run::Done(c, Ok(r)) => match c.transceive(
                l,
                seq![crate::st25r3916::sel_code(lv), 0x70u8] + r,
                3,
                8,
            ) {
                Run::Done(c, Ok(got)) => if got.len() >= 1 && got[0] & 0x04 != 0 {
                    selected_tags_have_a_whole_uid(c, l, tag.with_level(lv, r, got[0]), lv + 1);
                },
                _ => {},
            },
            _ => {},
        }
    }
}

/// A tag that answers alone is taken as it answers.
pub proof fn a_lone_answer_is_taken_as_it_is(sel: u8, cd: u8, got: Seq<u8>)
    requires
        got.len() == 5,
    ensures
        LevelModel::start(sel).absorb(false, cd, got) matches Some(level) && level.answer == got,
{
    assert(crate::bytes::spliced(LevelModel::start(sel).answer, 0, got) =~= got);
}

/// After a collision the next frame asks only tags with a one at the collided
/// bit, it is longer by that bit, and the level stays well-formed.
pub proof fn a_collision_is_narrowed_down(level: LevelModel, cd: u8, got: Seq<u8>)
    requires
        level.valid(),
        1 <= got.len() <= 5 - level.offset,
    ensures
        level.absorb(true, cd, got) matches Some(next) ==> {
            &&& next.valid()
            &&& next.frame[next.bytes] == next.collided
            &&& next.collided & (1u8 << ((cd >> 1) & 0x07)) != 0
            &&& next.bytes * 8 + next.bits == ((cd >> 4) & 0x0F) * 8 + ((cd >> 1) & 0x07) + 1
        },
{
    let cbits = (cd >> 1) & 0x07;
    let last = got.last();
    crate::bits::low_bits_are_remainders(cd >> 1);
    crate::bits::low_bits_are_remainders(cd >> 4);
    assert(cbits <= 7 ==> (last | (1u8 << cbits)) & (1u8 << cbits) != 0) by (bit_vector);
}

/// A frame is never taken for received when the chip flagged an error.
pub proof fn broken_frames_are_refused<E>(
    chip: Chip,
    l: Trace<BusEvent<E>>,
    tx: Seq<u8>,
    cap: nat,
    timeout_ms: u32,
)
    ensures
        match chip.exchange(l, tx, cap, timeout_ms) {
            Run::Done(c, Ok((flags, _))) => flags & crate::st25r3916::irq::ERROR_MASK != 0
                ==> chip.transceive(l, tx, cap, timeout_ms) == Run::<Chip, Seq<u8>, Error<E>>::Done(
                c,
                Err(Error::RxError(flags)),
            ),
            _ => true,
        },
{
}

// ----------------------------------------------------------------------
// what the chip says
// ----------------------------------------------------------------------

/// A timer at its limit was asked for more.
pub proof fn the_timer_has_a_limit(ms: u32, coarse: bool)
    ensures
        ({
            let per = if coarse {
                4_096_000int
            } else {
                64_000int
            };
            crate::st25r3916::fwt_ticks(ms, coarse) == 0xFFFF ==> 0xFFFE * per < ms * 13_560_000
        }),
{
}

/// The chip is known by the upper five bits of its identity; revision zero
/// does not count.
pub proof fn the_chip_is_known_by_its_type(identity: u8)
    ensures
        crate::st25r3916::is_st25r3916(identity) <==> identity / 8 == 5 && identity % 8 != 0,
{
    crate::bits::low_bits_are_remainders(identity);
    crate::bits::low_bits_are_remainders(identity >> 3);
}

/// How full the FIFO is: ten bits of bytes, two of them at the top of the
/// second register, and three bits of further bits.
pub proof fn the_fifo_is_counted(s1: u8, s2: u8)
    ensures
        crate::st25r3916::fifo_count(s1, s2) == (
            (s1 + 256 * (s2 / 64)) as u16,
            (s2 / 2 % 8) as u8,
        ),
{
    assert(s1 as u16 | (((s2 & 0xC0) as u16) << 2) == s1 as u16 + 256 * (s2 as u16 / 64) && (s2 >> 1)
        & 0x07 == s2 / 2 % 8) by (bit_vector);
}

/// Silence is a timeout, unless the chip flagged an error.
pub proof fn silence_is_explained<E>(flags: u32)
    ensures
        flags & 0xF000 == 0 ==> crate::st25r3916::silence::<E>(flags) == Error::<E>::Timeout,
        flags & 0xF000 != 0 ==> crate::st25r3916::silence::<E>(flags) == Error::<E>::RxError(flags),
{
}

/// The codes of the cascade levels.
pub proof fn levels_have_their_codes()
    ensures
        crate::st25r3916::sel_code(1) == 0x93,
        crate::st25r3916::sel_code(2) == 0x95,
        crate::st25r3916::sel_code(3) == 0x97,
{
}

/// What a cascade level adds to a UID: the three bytes behind a cascade mark,
/// or all four bytes, behind what earlier levels gave.
pub proof fn levels_add_to_the_uid(tag: TagModel, lv: int, r: Seq<u8>, sak: u8, i: int)
    requires
        tag.uid.len() == 10,
        1 <= lv <= 3,
        r.len() == 5,
        0 <= i < 10,
    ensures
        ({
            let next = tag.with_level(lv, r, sak);
            let at = 3 * (lv - 1);
            &&& next.sak == sak
            &&& next.atqa == tag.atqa
            &&& next.uid_len == tag.uid_len
            &&& next.uid.len() == 10
            &&& r[0] == 0x88 && at <= i < at + 3 ==> next.uid[i] == r[1 + i - at]
            &&& r[0] != 0x88 && at <= i < at + 4 ==> next.uid[i] == r[i - at]
            &&& i < at || (r[0] == 0x88 && i >= at + 3) || i >= at + 4 ==> next.uid[i] == tag.uid[i]
        }),
{
}

/// A tag that was just found has nothing but its ATQA.
pub proof fn a_fresh_tag_has_its_atqa(atqa: u16)
    ensures
        ({
            let t = TagModel::fresh(atqa);
            &&& t.atqa == atqa && t.uid_len == 0 && t.sak == 0
            &&& t.uid == Seq::new(10, |_i: int| 0u8)
        }),
{
}

/// A level begins with a frame of two whole bytes that every tag answers.
pub proof fn a_level_asks_everybody_first(sel: u8)
    ensures
        ({
            let level = LevelModel::start(sel);
            &&& level.valid()
            &&& level.frame.take(level.sent_bytes()) == seq![sel, 0x20u8]
            &&& level.bytes == 2 && level.bits == 0 && level.offset == 0
        }),
{
    let level = LevelModel::start(sel);
    assert(level.frame.take(level.sent_bytes()) =~= seq![sel, 0x20u8]);
}

/// After a collision the next frame says in its second byte how much of it
/// counts, and repeats what was received up to the collided byte.
pub proof fn the_next_frame_repeats_what_is_known(level: LevelModel, cd: u8, got: Seq<u8>, i: int)
    requires
        level.valid(),
        1 <= got.len() <= 5 - level.offset,
        0 <= i < got.len(),
    ensures
        level.absorb(true, cd, got) matches Some(next) ==> {
            &&& next.frame[0] == level.frame[0] || next.bytes == 0
            &&& next.bytes != 1 ==> next.frame[1] == next.bytes * 16 + next.bits
            &&& 2 + level.offset + i != next.bytes ==> next.frame[2 + level.offset + i] == got[i]
            &&& next.offset == got.len() - 1
        },
        cd / 16 + (if cd / 2 % 8 == 7 {
            1int
        } else {
            0
        }) < 7 <==> level.absorb(true, cd, got) is Some,
{
    crate::bits::low_bits_are_remainders(cd);
    crate::bits::low_bits_are_remainders(cd >> 1);
    crate::bits::low_bits_are_remainders(cd >> 4);
}

/// Without a collision the answer is complete: what was received stands behind
/// what was known, and in a byte that both share the bits that were sent win.
pub proof fn a_level_ends_with_its_answer(level: LevelModel, cd: u8, got: Seq<u8>, i: int)
    requires
        level.valid(),
        1 <= got.len() <= 5 - level.offset,
        0 <= i < 5,
    ensures
        level.absorb(false, cd, got) matches Some(next) && {
            &&& next.answer.len() == 5
            &&& i < level.offset ==> next.answer[i] == level.answer[i]
            &&& level.offset < i < level.offset + got.len() ==> next.answer[i] == got[i
                - level.offset]
            &&& i == level.offset && level.bits == 0 ==> next.answer[i] == got[0]
            &&& i == level.offset && level.bits != 0 ==> next.answer[i] == ((got[0] >> level.bits)
                << level.bits) | level.collided
        },
{
}

/// The four interrupt registers make one word: main and timer registers in its
/// upper half, errors and target events in its lower; the error register is
/// read first.
pub proof fn interrupts_are_read<E>(c: Chip, l: Trace<BusEvent<E>>)
    ensures
        c.read_irq(l) matches Run::Done(d, Ok(w)) ==> {
            &&& d == (Chip { at: c.at + 3, ..c })
            &&& shown(l, c.at, 0x1C) matches Some(errors) && shown(l, c.at + 2, 0x1D)
                matches Some(target) && (l.at(c.at + 1) matches BusEvent::Read {
                addr,
                sent,
                asked,
                reply,
            } && addr == 0x50 && sent == seq![0x5Au8] && asked == 2 && (reply matches Ok(m) && w
                == 0x100_0000 * m[0] + 0x1_0000 * m[1] + 0x100 * errors + target))
        },
{
    crate::bits::register_codes(0x1A);
    crate::bits::register_codes(0x1C);
    crate::bits::register_codes(0x1D);
    match c.read_irq(l) {
        Run::Done(_, Ok(_)) => {
            let m = l.at(c.at + 1)->Read_reply->Ok_0;
            let errors = l.at(c.at)->Read_reply->Ok_0[0];
            let target = l.at(c.at + 2)->Read_reply->Ok_0[0];
            crate::bytes::words_are_sums(m[0], m[1], errors, target);
        },
        _ => {},
    }
}

/// Flags that were read are kept until they are asked for: a look returns all
/// of them and keeps them, a taking returns those asked for and keeps the rest,
/// a clearing forgets all.
pub proof fn flags_are_kept<E>(c: Chip, l: Trace<BusEvent<E>>, bits: u32)
    ensures
        c.read_irq(l) matches Run::Done(d, Ok(fresh)) ==> {
            let all = c.pending | fresh;
            &&& c.peek_irq(l) == Run::<Chip, u32, E>::Done(Chip { pending: all, ..d }, Ok(all))
            &&& c.take_irq(l, bits) matches Run::Done(f, Ok(hit)) && f.at == d.at && hit == all
                & bits && f.pending == all & !hit
        },
        c.clear_irq(l) matches Run::Done(d, _) ==> d.pending == 0,
{
}

/// A wait ends with a flag that was waited for, which is then taken, or, after
/// the given number of looks 250 us apart, with the flag for no response.
pub proof fn waits_end<E>(c: Chip, l: Trace<BusEvent<E>>, bits: u32, left: nat)
    ensures
        c.peek_irq(l) matches Run::Done(d, Ok(all)) ==> {
            &&& all & bits != 0 ==> c.wait_irq(l, bits, left) == Run::<Chip, u32, E>::Done(
                Chip { pending: all & !(all & bits), ..d },
                Ok(all),
            )
            &&& all & bits == 0 && left == 0 ==> c.wait_irq(l, bits, left) == Run::<
                Chip,
                u32,
                E,
            >::Done(d, Ok(all | 0x0040_0000))
            &&& all & bits == 0 && left > 0 && l.at(d.at) == BusEvent::<E>::PauseUs(250)
                ==> c.wait_irq(l, bits, left) == (Chip { at: d.at + 1, ..d }).wait_irq(
                l,
                bits,
                (left - 1) as nat,
            )
        },
{
}

/// The chip is looked for up to five times, 20 ms apart; what was seen last is
/// reported if it is not found.
pub proof fn the_chip_is_looked_for<E>(c: Chip, l: Trace<BusEvent<E>>, seen: u8, left: nat)
    ensures
        c.probe(l, seen, 0) == Run::<Chip, (), Error<E>>::Done(
            c,
            Err(Error::NotFound { identity: seen }),
        ),
        left > 0 ==> {
            &&& c.read_reg(l, 0x3F) matches Run::Done(d, Ok(v)) ==> {
                &&& v / 8 == 5 && v % 8 != 0 ==> c.probe(l, seen, left) == Run::<
                    Chip,
                    (),
                    Error<E>,
                >::Done(d, Ok(()))
                &&& !(v / 8 == 5 && v % 8 != 0) && l.at(d.at) == BusEvent::<E>::PauseMs(20)
                    ==> c.probe(l, seen, left) == (Chip { at: d.at + 1, ..d }).probe(
                    l,
                    v,
                    (left - 1) as nat,
                )
            }
            &&& c.read_reg(l, 0x3F) matches Run::Done(d, Err(_)) ==> (l.at(d.at) == BusEvent::<
                E,
            >::PauseMs(20) ==> c.probe(l, seen, left) == (Chip { at: d.at + 1, ..d }).probe(
                l,
                seen,
                (left - 1) as nat,
            ))
        },
{
    match c.read_reg(l, 0x3F) {
        Run::Done(_, Ok(v)) => the_chip_is_known_by_its_type(v),
        _ => {},
    }
}

/// The bring-up: the chip is looked for five times, set up, its oscillator
/// started, and its regulators adjusted; the first failure ends it.
pub proof fn the_bring_up_goes_in_order<E>(c: Chip, l: Trace<BusEvent<E>>)
    ensures
        c.probe::<E>(l, 0, 5) matches Run::Done(d, Err(e)) ==> c.init(l) == Run::<
            Chip,
            (),
            Error<E>,
        >::Done(d, Err(e)),
        c.probe::<E>(l, 0, 5) matches Run::Done(d, Ok(_)) ==> {
            &&& d.steps(l, crate::st25r3916::init_steps()) matches Run::Done(f, Err(e)) ==> c.init(l)
                == Run::<Chip, (), Error<E>>::Done(f, Err(Error::I2c(e)))
            &&& d.steps(l, crate::st25r3916::init_steps()) matches Run::Done(f, Ok(_)) ==> {
                &&& f.enable_osc(l) matches Run::Done(g, Err(e)) ==> c.init(l) == Run::<
                    Chip,
                    (),
                    Error<E>,
                >::Done(g, Err(e))
                &&& f.enable_osc(l) matches Run::Done(g, Ok(_)) ==> (g.steps(
                    l,
                    seq![Step::IrqMask(0), Step::Command(0xD6), Step::PauseMs(5)],
                ) matches Run::Done(h, Ok(_)) ==> c.init(l) == Run::<Chip, (), Error<E>>::Done(
                    h,
                    Ok(()),
                ))
            }
        },
{
    assert(crate::st25r3916::ready_steps() =~= seq![
        Step::IrqMask(0),
        Step::Command(0xD6),
        Step::PauseMs(5),
    ]);
}

/// An oscillator that is enabled counts as started only if the chip shows it
/// as stable.
pub proof fn the_oscillator_has_to_be_stable<E>(c: Chip, l: Trace<BusEvent<E>>)
    ensures
        c.osc_required(l) matches Run::Done(d, Ok(_)) ==> (shown(l, c.at, 0x31) matches Some(v) && v
            / 16 % 2 == 1),
        c.osc_required(l) matches Run::Done(d, Err(Error::Oscillator)) ==> (shown(l, c.at, 0x31)
            matches Some(v) && v / 16 % 2 == 0),
        c.enable_osc(l) matches Run::Done(d, Ok(_)) ==> (shown(l, d.at - 1, 0x31) matches Some(v)
            && v / 16 % 2 == 1),
{
    match c.read_reg(l, 0x31) {
        Run::Done(_, Ok(v)) => crate::bits::single_bits(v),
        _ => {},
    }
    let w = c.enable_osc(l);
    match w {
        Run::Done(d, Ok(_)) => match l.at(d.at - 1) {
            BusEvent::Read { reply: Ok(b), .. } => crate::bits::single_bits(b[0]),
            _ => {},
        },
        _ => {},
    }
}

/// Configured as a reader, the chip gets its script and then the field.
pub proof fn a_reader_gets_its_field<E>(c: Chip, l: Trace<BusEvent<E>>)
    ensures
        c.steps(l, crate::st25r3916::nfca_steps()) matches Run::Done(d, Ok(_)) ==> {
            &&& d.field_on(l) matches Run::Done(f, Ok(_)) ==> c.configure_nfca(l) == Run::<
                Chip,
                (),
                Error<E>,
            >::Done(f, Ok(()))
            &&& d.field_on(l) matches Run::Done(f, Err(e)) ==> c.configure_nfca(l) == Run::<
                Chip,
                (),
                Error<E>,
            >::Done(f, Err(Error::I2c(e)))
        },
        c.steps(l, crate::st25r3916::nfca_steps()) matches Run::Done(d, Err(e)) ==> c.configure_nfca(
            l,
        ) == Run::<Chip, (), Error<E>>::Done(d, Err(Error::I2c(e))),
{
    reveal(Chip::configure_nfca);
}

/// A dump holds what each register from `i` on was read as; others stay.
pub proof fn a_dump_holds_each_register<E>(
    c: Chip,
    l: Trace<BusEvent<E>>,
    out: Seq<u8>,
    i: int,
    k: int,
)
    requires
        0 <= i <= 64,
        out.len() == 64,
        0 <= k < 64,
    ensures
        c.dump_regs(l, out, i) matches Run::Done(d, Ok((all, Ok(_)))) ==> {
            &&& d.at == c.at + 64 - i
            &&& all.len() == 64
            &&& k < i ==> all[k] == out[k]
            &&& k >= i ==> shown(l, c.at + k - i, k as u8) == Some(all[k])
        },
    decreases 64 - i,
{
    if i < 64 {
        match c.read_reg(l, i as u8) {
            Run::Done(d, Ok(v)) => {
                a_dump_holds_each_register(d, l, out.update(i, v), i + 1, k);
                a_dump_holds_each_register(d, l, out.update(i, v), i + 1, i);
            },
            _ => {},
        }
    }
}

/// Reports of the chip: the operation control and auxiliary display registers
/// and, from the second register space, the regulators; the field's amplitude,
/// measured for 2 ms; and whether the transmitter is on.
pub proof fn the_chip_reports<E>(c: Chip, l: Trace<BusEvent<E>>)
    ensures
        c.status(l) matches Run::Done(d, Ok(s)) ==> {
            &&& d.at == c.at + 3
            &&& shown(l, c.at, 0x02) == Some(s.0)
            &&& shown(l, c.at + 1, 0x31) == Some(s.1)
            &&& l.at(c.at + 2) matches BusEvent::Read { addr, sent, asked, reply } && addr == 0x50
                && sent == seq![0xFBu8, 0x6Cu8] && asked == 1 && (reply matches Ok(b) && b[0] == s.2)
        },
        c.measure_amplitude(l) matches Run::Done(d, Ok(v)) ==> {
            &&& d.at == c.at + 3
            &&& l.at(c.at) == (BusEvent::<E>::Write {
                addr: 0x50,
                sent: seq![0xD3u8],
                outcome: Ok(()),
            })
            &&& l.at(c.at + 1) == BusEvent::<E>::PauseMs(2)
            &&& shown(l, c.at + 2, 0x25) == Some(v)
        },
        c.is_field_on(l) matches Run::Done(d, Ok(on)) ==> d.at == c.at + 1 && (shown(l, c.at, 0x31)
            matches Some(v) && on == (v / 32 % 2 == 1)),
{
    crate::bits::register_codes(0x02);
    crate::bits::register_codes(0x31);
    crate::bits::register_codes(0x25);
    crate::bits::register_codes(0x2C);
    match c.read_reg(l, 0x31) {
        Run::Done(_, Ok(v)) => crate::bits::single_bits(v),
        _ => {},
    }
}

/// A field with collision avoidance: transmitter off, the chip asked to listen
/// first, the flags that it raises within 80 looks reported, transmitter and
/// receiver on in any case.
pub proof fn a_careful_field_is_reported<E>(c: Chip, l: Trace<BusEvent<E>>)
    ensures
        c.steps(
            l,
            seq![
                Step::Modify { reg: 0x02, clear: 0x48, set: 0 },
                Step::Modify { reg: 0x02, clear: 0x03, set: 0x01 },
                Step::WriteB(0x15, 0x00),
                Step::ClearIrq,
                Step::Command(0xC8),
            ],
        ) matches Run::Done(d, Ok(_)) ==> (d.wait_irq(l, 0x0006_0020, 80) matches Run::Done(f, Ok(w))
            ==> (f.steps(l, seq![Step::Modify { reg: 0x02, clear: 0, set: 0x48 }, Step::PauseMs(6)])
            matches Run::Done(g, Ok(_)) ==> c.field_on_ca(l) == Run::<Chip, u32, Error<E>>::Done(
            g,
            Ok(w),
        ))),
{
    assert(0x08u8 | 0x40u8 == 0x48 && 0x40u8 | 0x08u8 == 0x48) by (bit_vector);
    assert(crate::st25r3916::field_ca_steps() =~= seq![
        Step::Modify { reg: 0x02, clear: 0x48, set: 0 },
        Step::Modify { reg: 0x02, clear: 0x03, set: 0x01 },
        Step::WriteB(0x15, 0x00),
        Step::ClearIrq,
        Step::Command(0xC8),
    ]);
    assert(crate::st25r3916::field_ca_end_steps() =~= seq![
        Step::Modify { reg: 0x02, clear: 0, set: 0x48 },
        Step::PauseMs(6),
    ]);
}

/// A tag is known by what it answered.
pub proof fn tags_are_their_parts(tag: crate::st25r3916::NfcaTag)
    ensures
        tag@.atqa == tag.atqa,
        tag@.uid == tag.uid@,
        tag@.uid_len == tag.uid_len,
        tag@.sak == tag.sak,
{
}

/// A call is answered only if the chip says that it received something: at
/// once, or, once a reception has begun, as soon as both bytes of the answer
/// are there, looked for every 100 us and 40 times at most. The flags are
/// remembered.
pub proof fn an_answer_is_waited_for<E>(c: Chip, l: Trace<BusEvent<E>>, flags: u32, left: nat)
    ensures
        flags & 0x3000_0000 == 0 ==> c.request_flags(l, flags) == Run::<Chip, Option<u16>, E>::Done(
            Chip { last_request: flags, ..c },
            Ok(None),
        ),
        flags & 0x1000_0000 != 0 ==> c.request_flags(l, flags) == c.request_answer(l, flags),
        flags & 0x1000_0000 == 0 && flags & 0x2000_0000 != 0 ==> (c.late_answer(l, 40)
            matches Run::Done(d, Ok(late)) ==> {
            &&& late ==> c.request_flags(l, flags) == d.request_answer(l, flags | 0x1000_0000)
            &&& !late ==> c.request_flags(l, flags) == Run::<Chip, Option<u16>, E>::Done(
                Chip { last_request: flags, ..d },
                Ok(None),
            )
        }),
        c.late_answer(l, 0) == Run::<Chip, bool, E>::Done(c, Ok(false)),
        left > 0 ==> (c.fifo_status(l) matches Run::Done(d, Ok((count, _))) ==> {
            &&& count >= 2 ==> c.late_answer(l, left) == Run::<Chip, bool, E>::Done(d, Ok(true))
            &&& count < 2 && l.at(d.at) == BusEvent::<E>::PauseUs(100) ==> c.late_answer(l, left)
                == (Chip { at: d.at + 1, ..d }).late_answer(l, (left - 1) as nat)
        }),
        flags & 0x1000_0000 != 0 ==> ((Chip { last_request: flags, ..c }).fifo_status(l)
            matches Run::Done(d, Ok((count, _))) ==> {
            &&& count < 2 ==> c.request_answer(l, flags) == Run::<Chip, Option<u16>, E>::Done(
                d,
                Ok(None),
            )
            &&& count >= 2 ==> (d.read_fifo(l, 2) matches Run::Done(f, Ok(b)) ==> c.request_answer(
                l,
                flags,
            ) == Run::<Chip, Option<u16>, E>::Done(f, Ok(Some((b[0] + 256 * b[1]) as u16))))
        }),
{
    crate::bits::joined_flags(flags);
    match (Chip { last_request: flags, ..c }).fifo_status(l) {
        Run::Done(d, Ok(s)) => match d.read_fifo(l, 2) {
            Run::Done(_, Ok(b)) => crate::bytes::words_are_sums(0, 0, b[1], b[0]),
            _ => {},
        },
        _ => {},
    }
}

/// A call is given 6 ms: 24 looks at the flags for a reception, its begin or
/// a collision.
pub proof fn a_call_is_given_its_time<E>(c: Chip, l: Trace<BusEvent<E>>, wakeup: bool)
    ensures
        c.prepare(l, 4, 0x01, false) matches Run::Done(d, Ok(_)) ==> (d.clear_irq(l)
            matches Run::Done(f, Ok(_)) ==> (f.command(l, 0xDB) matches Run::Done(g, Ok(_))
            ==> (g.command(
            l,
            if wakeup {
                0xC7
            } else {
                0xC6
            },
        ) matches Run::Done(h, Ok(_)) ==> (h.wait_irq(l, 0x3400_0000, 24) matches Run::Done(
            k,
            Ok(flags),
        ) ==> c.nfca_request(l, wakeup) == k.request_flags(l, flags))))),
{
    crate::bits::joined_flags(0);
}

/// An exchange gives the card its time and 2 ms more, four looks each; without
/// an answer the silence is explained; an answer with an error flag is refused,
/// and any other is what the FIFO holds, cut to what there is room for.
pub proof fn an_exchange_has_its_outcome<E>(
    c: Chip,
    l: Trace<BusEvent<E>>,
    tx: Seq<u8>,
    cap: nat,
    timeout_ms: u32,
)
    requires
        tx.len() <= 512,
    ensures
        c.prepare(l, timeout_ms, 0x00, true) matches Run::Done(d, Ok(_)) ==> (d.send(
            l,
            tx,
            tx.len() as u16,
            0,
            0xC4,
        ) matches Run::Done(f, Ok(_)) ==> (f.wait_irq(
            l,
            0x1000_0000,
            (4 * timeout_ms + 8) as nat,
        ) matches Run::Done(g, Ok(flags)) ==> {
            &&& flags & 0x1000_0000 == 0 ==> c.transceive(l, tx, cap, timeout_ms) == Run::<
                Chip,
                Seq<u8>,
                Error<E>,
            >::Done(g, Err(crate::st25r3916::silence(flags)))
            &&& flags & 0x1000_0000 != 0 ==> (g.receive(l, cap) matches Run::Done(h, Ok(got))
                ==> c.transceive(l, tx, cap, timeout_ms) == if flags & 0xF000 != 0 {
                Run::<Chip, Seq<u8>, Error<E>>::Done(h, Err(Error::RxError(flags)))
            } else {
                Run::<Chip, Seq<u8>, Error<E>>::Done(h, Ok(got))
            })
        })),
        c.fifo_status(l) matches Run::Done(d, Ok((count, _))) ==> {
            &&& count < cap ==> c.receive(l, cap) == d.read_fifo(l, count as nat)
            &&& count >= cap ==> c.receive(l, cap) == d.read_fifo(l, cap)
        },
{
    assert((timeout_ms + 2) * 4 == 4 * timeout_ms + 8);
    crate::bits::joined_flags(0);
}

/// The answer to a frame of a cascade level: as many bytes as the FIFO holds
/// but no more than the level still lacks, then where answers collided. No
/// byte at all is a breach of the protocol.
pub proof fn a_level_answer_is_read<E>(
    c: Chip,
    l: Trace<BusEvent<E>>,
    level: crate::st25r3916::model::LevelModel,
    collision: bool,
)
    requires
        0 <= level.offset <= 5,
    ensures
        c.fifo_status(l) matches Run::Done(d, Ok((count, _))) ==> {
            let room = 5 - level.offset;
            let n = if count <= room {
                count as nat
            } else {
                room as nat
            };
            &&& n == 0 ==> c.level_answer(l, level, collision) == Run::<
                Chip,
                (bool, u8, Seq<u8>),
                Error<E>,
            >::Done(d, Err(Error::Protocol))
            &&& n > 0 ==> (d.read_fifo(l, n) matches Run::Done(f, Ok(got)) ==> (f.read_reg(l, 0x20)
                matches Run::Done(g, Ok(cd)) ==> c.level_answer(l, level, collision) == Run::<
                Chip,
                (bool, u8, Seq<u8>),
                Error<E>,
            >::Done(g, Ok((collision, cd, got)))))
        },
{
}

/// A frame of a cascade level is given 10 ms, 40 looks; a collision counts as
/// an answer.
pub proof fn a_level_frame_is_answered<E>(
    c: Chip,
    l: Trace<BusEvent<E>>,
    level: crate::st25r3916::model::LevelModel,
)
    ensures
        c.send(
            l,
            level.frame.take(level.sent_bytes()),
            level.bytes as u16,
            level.bits,
            0xC5,
        ) matches Run::Done(d, Ok(_)) ==> (d.wait_irq(l, 0x1400_0000, 40) matches Run::Done(
            f,
            Ok(flags),
        ) ==> {
            &&& flags & 0x0400_0000 != 0 ==> c.level_frame(l, level) == f.level_answer(l, level, true)
            &&& flags & 0x0400_0000 == 0 && flags & 0x1000_0000 != 0 ==> c.level_frame(l, level)
                == f.level_answer(l, level, false)
            &&& flags & 0x1400_0000 == 0 ==> c.level_frame(l, level) == Run::<
                Chip,
                (bool, u8, Seq<u8>),
                Error<E>,
            >::Done(f, Err(crate::st25r3916::silence(flags)))
        }),
{
    crate::bits::joined_flags(0);
    match c.send(
        l,
        level.frame.take(level.sent_bytes()),
        level.bytes as u16,
        level.bits,
        0xC5,
    ) {
        Run::Done(d, Ok(_)) => match d.wait_irq(l, 0x1400_0000, 40) {
            Run::Done(_, Ok(flags)) => crate::bits::joined_flags(flags),
            _ => {},
        },
        _ => {},
    }
}

} // verus!
