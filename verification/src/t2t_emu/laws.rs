//! What holds of the emulated tag whatever a reader does.

use crate::bus::BusEvent;
use crate::st25r3916::model::Chip;
use crate::t2t_emu::model::{Emu, Tag};
use crate::t2t_emu::{CmdResult, Event, State, MEM_BYTES, PAGES, RETRIES, USER_BYTES};
use crate::trace::{Run, Trace};
use vstd::prelude::*;

verus! {

/// A stored NDEF message that fits is the one that is found.
pub proof fn stored_ndef_is_found(tag: Tag, msg: Seq<u8>)
    requires
        tag.memory.len() == MEM_BYTES,
        crate::t2t_emu::model::ndef_tlv(msg).len() <= USER_BYTES,
    ensures
        tag.with_ndef(msg).ndef() == Some(msg),
{
    let t = crate::t2t_emu::model::ndef_tlv(msg);
    let after = tag.with_ndef(msg);
    let user = after.user();
    assert(user =~= t + Seq::new((USER_BYTES - t.len()) as nat, |_i: int| 0u8));
    if msg.len() < 0xFF {
        assert(user.subrange(2, 2 + msg.len() as int) =~= msg);
    } else {
        crate::bytes::word_of_its_bytes(msg.len() as u16);
        assert(user[2] == crate::bytes::be16(msg.len() as u16)[0]);
        assert(user[3] == crate::bytes::be16(msg.len() as u16)[1]);
        assert(user.subrange(4, 4 + msg.len() as int) =~= msg);
    }
}

/// Storing a message that fits changes nothing outside user memory: neither
/// UID, lock bytes and capability container before it nor the configuration
/// pages behind it.
pub proof fn storing_ndef_leaves_the_rest(tag: Tag, msg: Seq<u8>)
    requires
        tag.memory.len() == MEM_BYTES,
        crate::t2t_emu::model::ndef_tlv(msg).len() <= USER_BYTES,
    ensures
        tag.with_ndef(msg).memory.len() == MEM_BYTES,
        tag.with_ndef(msg).memory.take(16) == tag.memory.take(16),
        tag.with_ndef(msg).memory.skip(904) == tag.memory.skip(904),
        tag.with_ndef(msg).uid() == tag.uid(),
{
    let after = tag.with_ndef(msg);
    assert(after.memory.take(16) =~= tag.memory.take(16));
    assert(after.memory.skip(904) =~= tag.memory.skip(904));
    assert(after.uid() =~= tag.uid());
}

/// A new tag has the UID it was made with and an empty NDEF message.
pub proof fn a_new_tag_is_empty(uid: Seq<u8>)
    requires
        uid.len() == 7,
    ensures
        Tag::fresh(uid).uid() == uid,
        Tag::fresh(uid).ndef() == Some(Seq::<u8>::empty()),
{
    let tag = Tag::fresh(uid);
    assert(tag.uid() =~= uid);
    assert(tag.user()[0] == 0x03);
    assert(tag.user()[1] == 0x00);
    assert(tag.user().subrange(2, 2) =~= Seq::<u8>::empty());
}

/// No command changes UID, check bytes or lock bytes.
pub proof fn commands_keep_the_identity(tag: Tag, rx: Seq<u8>)
    requires
        tag.memory.len() == MEM_BYTES,
    ensures
        tag.serve(rx).tag.memory.len() == MEM_BYTES,
        tag.serve(rx).tag.memory.take(12) == tag.memory.take(12),
        tag.serve(rx).tag.uid() == tag.uid(),
{
    let after = tag.serve(rx).tag;
    assert(after.memory.take(12) =~= tag.memory.take(12));
    assert(after.uid() =~= tag.uid());
}

/// A page that a reader wrote is what it reads there afterwards.
pub proof fn a_written_page_reads_back(tag: Tag, page: u8, data: Seq<u8>)
    requires
        tag.memory.len() == MEM_BYTES,
        3 <= page < PAGES,
        data.len() == 4,
    ensures
        ({
            let written = tag.serve(seq![0xA2u8, page] + data).tag;
            &&& written.serve(seq![0x30u8, page]).answer matches Some((answer, bits)) && bits == 0
                && answer.take(4) == data
            &&& written.serve(seq![0x3Au8, page, page]).answer == Some((data, 0u8))
        }),
{
    let rx = seq![0xA2u8, page] + data;
    let written = tag.serve(rx).tag;
    assert(rx.subrange(2, 6) =~= data);
    let answer = Seq::new(16, |i: int| written.memory[(page * 4 + i) % (MEM_BYTES as int)]);
    assert(answer.take(4) =~= data);
    assert(written.memory.subrange(page * 4, (page + 1) * 4) =~= data);
}

/// While the tag is not marked as written, memory is untouched, and every
/// acknowledged WRITE of a page that can be written marks it.
pub proof fn an_unmarked_tag_is_unwritten(tag: Tag, rx: Seq<u8>)
    requires
        tag.memory.len() == MEM_BYTES,
    ensures
        tag.dirty ==> tag.serve(rx).tag.dirty,
        !tag.serve(rx).tag.dirty ==> tag.serve(rx).tag.memory == tag.memory,
        rx.len() == 6 && rx[0] == 0xA2 && 3 <= rx[1] < PAGES ==> tag.serve(rx).tag.dirty,
{
}

/// Moving between the states without a command keeps memory and mark.
pub open spec fn keeps<T, E>(m: Emu, run: Run<Emu, T, E>) -> bool {
    match run {
        Run::Done(after, _) => after.tag.memory == m.tag.memory && after.tag.dirty == m.tag.dirty,
        Run::Off => true,
    }
}

proof fn osc_wait_keeps<E>(m: Emu, l: Trace<BusEvent<E>>, left: nat)
    ensures
        match m.osc_wait(l, left) {
            Run::Done(after, _) => after.tag == m.tag,
            Run::Off => true,
        },
    decreases left,
{
    match m.on(m.chip.read_reg(l, crate::st25r3916::reg::AUX_DISPLAY)) {
        Run::Done(a, Ok(v)) => if v & 0x10 == 0 && left > 0 {
            match a.on(a.chip.pause_ms(l, 5)) {
                Run::Done(b, Ok(_)) => osc_wait_keeps(b, l, (left - 1) as nat),
                _ => {},
            }
        },
        _ => {},
    }
}

proof fn ensure_osc_keeps<E>(m: Emu, l: Trace<BusEvent<E>>)
    ensures
        match m.ensure_osc(l) {
            Run::Done(after, _) => after.tag == m.tag,
            Run::Off => true,
        },
{
    assert forall|a: Emu| match #[trigger] a.osc_wait(l, 41) {
        Run::Done(after, _) => after.tag == a.tag,
        Run::Off => true,
    } by {
        osc_wait_keeps(a, l, 41);
    }
}

/// Going to Off, and on to Idle, keeps memory and mark.
pub proof fn going_off_keeps<E>(m: Emu, l: Trace<BusEvent<E>>, tries: nat)
    ensures
        keeps(m, m.goto_off(l, tries)),
    decreases tries,
{
    match m.sense(l) {
        Run::Done(a, Ok(present)) => if present {
            ensure_osc_keeps(a, l);
            match a.ensure_osc(l) {
                Run::Done(b, Ok(up)) => if !up && tries > 0 {
                    going_off_keeps(b, l, (tries - 1) as nat);
                },
                _ => {},
            }
        },
        _ => {},
    }
}

proof fn moves_keep<E>(l: Trace<BusEvent<E>>)
    ensures
        forall|a: Emu| keeps(a, #[trigger] a.goto_off(l, RETRIES as nat)),
        forall|a: Emu| keeps(a, #[trigger] a.goto_idle(l, RETRIES as nat)),
{
    assert forall|a: Emu| keeps(a, #[trigger] a.goto_off(l, RETRIES as nat)) by {
        going_off_keeps(a, l, RETRIES as nat);
    }
    assert forall|a: Emu| keeps(a, #[trigger] a.goto_idle(l, RETRIES as nat)) by {
        ensure_osc_keeps(a, l);
        match a.ensure_osc(l) {
            Run::Done(b, Ok(up)) => {
                going_off_keeps(b, l, (RETRIES - 1) as nat);
            },
            _ => {},
        }
    }
}

/// What a round of the state machine may do to memory: at most one command
/// was served on it.
pub open spec fn at_most_one_command(before: Tag, after: Tag) -> bool {
    ||| after.memory == before.memory && after.dirty == before.dirty
    ||| exists|t: Tag, rx: Seq<u8>|
        {
            &&& t.memory == before.memory
            &&& t.dirty == before.dirty
            &&& (#[trigger] t.serve(rx)).tag.memory == after.memory
            &&& t.serve(rx).tag.dirty == after.dirty
        }
}

proof fn a_command_is_one_command<E>(m: Emu, l: Trace<BusEvent<E>>, rx: Seq<u8>)
    ensures
        match m.command(l, rx) {
            Run::Done(after, _) => at_most_one_command(m.tag, after.tag),
            Run::Off => true,
        },
{
    moves_keep(l);
    let counted = Tag {
        commands: ((m.tag.commands + 1) % 0x1_0000_0000) as u32,
        last_cmd: rx[0],
        ..m.tag
    };
    let served = counted.serve(rx);
}

proof fn off_keeps<E>(m: Emu, l: Trace<BusEvent<E>>)
    ensures
        keeps(m, m.update_off(l)),
{
    moves_keep(l);
}

proof fn ready_keeps<E>(m: Emu, l: Trace<BusEvent<E>>)
    ensures
        keeps(m, m.update_ready(l)),
        keeps(m, m.goto_ready(l)),
{
    moves_keep(l);
}

proof fn stray_keeps<E>(m: Emu, l: Trace<BusEvent<E>>)
    ensures
        keeps(m, m.stray(l)),
{
}

proof fn idle_flags_keep<E>(m: Emu, l: Trace<BusEvent<E>>, f: u32)
    ensures
        keeps(m, m.idle_flags(l, f)),
{
    moves_keep(l);
    stray_keeps(m, l);
    assert forall|a: Emu| keeps(a, #[trigger] a.goto_ready(l)) by {
        ready_keeps(a, l);
    }
}

proof fn idle_keeps<E>(m: Emu, l: Trace<BusEvent<E>>)
    ensures
        keeps(m, m.update_idle(l)),
{
    assert forall|a: Emu, f: u32| keeps(a, #[trigger] a.idle_flags(l, f)) by {
        idle_flags_keep(a, l, f);
    }
}

proof fn fall_back_keeps<E>(m: Emu, l: Trace<BusEvent<E>>)
    ensures
        keeps(m, m.fall_back(l)),
{
    moves_keep(l);
}

proof fn a_frame_is_at_most_one_command<E>(m: Emu, l: Trace<BusEvent<E>>)
    ensures
        match m.frame(l) {
            Run::Done(after, _) => at_most_one_command(m.tag, after.tag),
            Run::Off => true,
        },
{
    assert forall|a: Emu| keeps(a, #[trigger] a.fall_back(l)) by {
        fall_back_keeps(a, l);
    }
    assert forall|a: Emu, rx: Seq<u8>| match #[trigger] a.command(l, rx) {
        Run::Done(after, _) => at_most_one_command(a.tag, after.tag),
        Run::Off => true,
    } by {
        a_command_is_one_command(a, l, rx);
    }
}

/// Whatever comes over the bus, a round of the state machine serves at most
/// one command on memory.
pub proof fn a_round_serves_at_most_one_command<E>(m: Emu, l: Trace<BusEvent<E>>)
    ensures
        match m.round(l) {
            Run::Done(after, _) => at_most_one_command(m.tag, after.tag),
            Run::Off => true,
        },
{
    match m.tag.state {
        State::Off => off_keeps(m, l),
        State::Idle | State::Halt => idle_keeps(m, l),
        State::Ready => ready_keeps(m, l),
        State::Active => {
            moves_keep(l);
            assert forall|a: Emu| match #[trigger] a.frame(l) {
                Run::Done(after, _) => at_most_one_command(a.tag, after.tag),
                Run::Off => true,
            } by {
                a_frame_is_at_most_one_command(a, l);
            }
        },
    }
}

/// Whatever a reader does, a round of the state machine keeps UID, check
/// bytes and lock bytes.
pub proof fn updates_keep_the_identity<E>(m: Emu, l: Trace<BusEvent<E>>)
    requires
        m.tag.memory.len() == MEM_BYTES,
    ensures
        match m.update(l) {
            Run::Done(after, _) => {
                &&& after.tag.memory.len() == MEM_BYTES
                &&& after.tag.memory.take(12) == m.tag.memory.take(12)
                &&& after.tag.uid() == m.tag.uid()
            },
            Run::Off => true,
        },
{
    reveal(Emu::update);
    a_round_serves_at_most_one_command(m, l);
    assert forall|t: Tag, rx: Seq<u8>| t.memory == m.tag.memory implies {
        &&& (#[trigger] t.serve(rx)).tag.memory.len() == MEM_BYTES
        &&& t.serve(rx).tag.memory.take(12) == m.tag.memory.take(12)
    } by {
        commands_keep_the_identity(t, rx);
    }
    match m.update(l) {
        Run::Done(after, _) => {
            assert(after.tag.memory.take(12) == m.tag.memory.take(12));
            assert(after.tag.uid() =~= after.tag.memory.take(12).subrange(0, 3)
                + after.tag.memory.take(12).subrange(4, 8));
            assert(m.tag.uid() =~= m.tag.memory.take(12).subrange(0, 3)
                + m.tag.memory.take(12).subrange(4, 8));
        },
        Run::Off => {},
    }
}

/// Starting and stopping the emulation keeps memory, and with it the UID.
pub proof fn starting_and_stopping_keep_memory<E>(m: Emu, l: Trace<BusEvent<E>>)
    ensures
        match m.start(l) {
            Run::Done(after, _) => after.tag.memory == m.tag.memory && after.tag.uid()
                == m.tag.uid(),
            Run::Off => true,
        },
        match m.stop(l) {
            Run::Done(after, _) => after.tag.memory == m.tag.memory && after.tag.uid()
                == m.tag.uid(),
            Run::Off => true,
        },
{
    reveal(Emu::start);
    moves_keep(l);
}

/// No change of memory goes unnoticed: it leaves its mark, or the field went
/// away and the event says that the tag was written.
pub proof fn writes_are_reported<E>(m: Emu, l: Trace<BusEvent<E>>)
    requires
        m.tag.memory.len() == MEM_BYTES,
    ensures
        match m.update(l) {
            Run::Done(after, r) => {
                ||| after.tag.memory == m.tag.memory
                ||| after.tag.dirty
                ||| r == Ok::<Event, E>(Event::FieldOff { written: true })
            },
            Run::Off => true,
        },
{
    reveal(Emu::update);
    a_round_serves_at_most_one_command(m, l);
    assert forall|t: Tag, rx: Seq<u8>|
        t.memory == m.tag.memory && !(#[trigger] t.serve(rx)).tag.dirty implies
        t.serve(rx).tag.memory == m.tag.memory by {
        an_unmarked_tag_is_unwritten(t, rx);
    }
}

/// The field is reported gone exactly when a round ends in Off that did not
/// begin there, and the mark is cleared with the report.
pub proof fn a_lost_field_is_reported_once<E>(m: Emu, l: Trace<BusEvent<E>>)
    ensures
        match m.update(l) {
            Run::Done(after, Ok(event)) => {
                &&& event is FieldOff <==> m.tag.state != State::Off && after.tag.state
                    == State::Off
                &&& event is FieldOff ==> !after.tag.dirty
                &&& event is FieldOn <==> m.tag.state == State::Off && after.tag.state
                    != State::Off
            },
            _ => true,
        },
{
    reveal(Emu::update);
}

// ----------------------------------------------------------------------
// what a reader sees
// ----------------------------------------------------------------------

/// READ of a page answers with the sixteen bytes from that page on; behind
/// the last page the memory begins again.
pub proof fn a_read_gives_four_pages(tag: Tag, page: u8, i: int)
    requires
        page < 231,
        0 <= i < 16,
    ensures
        ({
            let served = tag.serve(seq![0x30u8, page]);
            &&& served.tag == tag
            &&& served.next == CmdResult::Stay
            &&& served.answer matches Some((answer, bits)) && bits == 0 && answer.len() == 16
                && answer[i] == tag.memory[(4 * page + i) % 924]
        }),
{
}

/// The answers to READ of pages 4, 8, 12 and so on, one after the other.
pub open spec fn read_by_reader(tag: Tag, reads: nat) -> Seq<u8>
    decreases reads,
{
    if reads == 0 {
        Seq::empty()
    } else {
        read_by_reader(tag, (reads - 1) as nat) + tag.serve(
            seq![0x30u8, (4 * reads) as u8],
        ).answer->Some_0.0
    }
}

proof fn reads_follow_each_other(tag: Tag, reads: nat)
    requires
        tag.memory.len() == MEM_BYTES,
        reads <= 56,
    ensures
        read_by_reader(tag, reads) == tag.memory.subrange(16, 16 + 16 * reads as int),
    decreases reads,
{
    if reads == 0 {
        assert(read_by_reader(tag, reads) =~= tag.memory.subrange(16, 16));
    } else {
        reads_follow_each_other(tag, (reads - 1) as nat);
        let page = (4 * reads) as u8;
        let served = tag.serve(seq![0x30u8, page]);
        let answer = served.answer->Some_0.0;
        a_read_gives_four_pages(tag, page, 0);
        assert forall|i: int| 0 <= i < 16 implies #[trigger] answer[i] == tag.memory[16 * reads
            + i] by {
            a_read_gives_four_pages(tag, page, i);
        }
        assert(read_by_reader(tag, reads) =~= tag.memory.subrange(16, 16 + 16 * reads as int));
    }
}

/// A reader that reads page after page gets the whole user memory, in order,
/// and finds in it the message that the tag serves.
pub proof fn readers_get_the_user_memory(tag: Tag)
    requires
        tag.memory.len() == MEM_BYTES,
    ensures
        read_by_reader(tag, 56).take(888) == tag.memory.subrange(16, 904),
        crate::t2t_emu::model::ndef_from(read_by_reader(tag, 56).take(888), 0) == tag.ndef(),
{
    reads_follow_each_other(tag, 56);
    assert(read_by_reader(tag, 56).take(888) =~= tag.memory.subrange(16, 904));
}

/// FAST_READ answers with the bytes of all pages asked for, up to 128 of
/// them, and refuses everything else.
pub proof fn a_fast_read_gives_its_pages(tag: Tag, from: u8, to: u8)
    requires
        tag.memory.len() == MEM_BYTES,
    ensures
        ({
            let served = tag.serve(seq![0x3Au8, from, to]);
            let good = from <= to < 231 && to - from < 128;
            &&& served.tag == tag
            &&& good ==> served.answer == Some((tag.memory.subrange(4 * from, 4 * to + 4), 0u8))
                && served.next == CmdResult::Stay
            &&& !good ==> served.answer == Some((seq![0x00u8], 4u8)) && served.next
                == CmdResult::Drop
        }),
{
}

/// WRITE replaces the four bytes of its page and nothing else, and is
/// acknowledged; the lock page is acknowledged and kept; UID pages and pages
/// that do not exist are refused.
pub proof fn a_write_changes_its_page(tag: Tag, page: u8, data: Seq<u8>)
    requires
        tag.memory.len() == MEM_BYTES,
        data.len() == 4,
    ensures
        ({
            let served = tag.serve(seq![0xA2u8, page] + data);
            &&& 3 <= page < 231 ==> served.tag.memory == tag.memory.take(4 * page) + data
                + tag.memory.skip(4 * page + 4)
            &&& !(3 <= page < 231) ==> served.tag == tag
            &&& 2 <= page < 231 ==> served.answer == Some((seq![0x0Au8], 4u8)) && served.next
                == CmdResult::Stay
            &&& !(2 <= page < 231) ==> served.answer == Some((seq![0x00u8], 4u8)) && served.next
                == CmdResult::Drop
            &&& served.tag.state == tag.state
        }),
{
    let rx = seq![0xA2u8, page] + data;
    let served = tag.serve(rx);
    assert(rx[0] == 0xA2 && rx[1] == page && rx.len() == 6);
    assert(rx.subrange(2, 6) =~= data);
    if 3 <= page < 231 {
        assert(served.tag.memory =~= tag.memory.take(4 * page) + data + tag.memory.skip(
            4 * page + 4,
        ));
    }
}

/// The other commands: GET_VERSION is answered as an NTAG216 does, READ_SIG
/// with 32 zeros, HLTA halts without an answer, and everything else is refused.
/// None of them changes the tag.
pub proof fn other_commands_have_their_answers(tag: Tag, rx: Seq<u8>)
    requires
        rx.len() >= 1,
    ensures
        ({
            let served = tag.serve(rx);
            let known = (rx[0] == 0x30 && rx.len() == 2) || (rx[0] == 0x3A && rx.len() == 3) || (
            rx[0] == 0xA2 && rx.len() == 6);
            &&& rx[0] == 0x60 && rx.len() == 1 ==> served.tag == tag && served.next
                == CmdResult::Stay && served.answer == Some(
                (seq![0x00u8, 0x04, 0x04, 0x02, 0x01, 0x00, 0x13, 0x03], 0u8),
            )
            &&& rx[0] == 0x3C && rx.len() == 2 ==> served.tag == tag && served.next
                == CmdResult::Stay && (served.answer matches Some((sig, bits)) && bits == 0
                && sig.len() == 32 && forall|i: int| 0 <= i < 32 ==> #[trigger] sig[i] == 0)
            &&& rx[0] == 0x50 ==> served.tag == tag && served.next == CmdResult::Halt
                && served.answer is None
            &&& !known && !(rx[0] == 0x60 && rx.len() == 1) && !(rx[0] == 0x3C && rx.len() == 2)
                && rx[0] != 0x50 ==> served.tag == tag && served.next == CmdResult::Drop
                && served.answer == Some((seq![0x00u8], 4u8))
            &&& rx[0] == 0x30 && rx.len() == 2 && rx[1] >= 231 ==> served.tag == tag && served.next
                == CmdResult::Drop && served.answer == Some((seq![0x00u8], 4u8))
        }),
{
}

/// Where a stored message lies: type and length, the message, the end mark,
/// and zeros up to the end of user memory.
pub proof fn a_stored_message_has_its_place(tag: Tag, msg: Seq<u8>, i: int)
    requires
        tag.memory.len() == MEM_BYTES,
        msg.len() + 3 <= 888,
        msg.len() >= 255 ==> msg.len() + 5 <= 888,
    ensures
        ({
            let m = tag.with_ndef(msg).memory;
            let at = if msg.len() < 255 {
                18int
            } else {
                20int
            };
            &&& m.len() == 924
            &&& m[16] == 0x03
            &&& msg.len() < 255 ==> m[17] == msg.len()
            &&& msg.len() >= 255 ==> m[17] == 0xFF && 256 * m[18] + m[19] == msg.len()
            &&& 0 <= i < msg.len() ==> m[at + i] == msg[i]
            &&& m[at + msg.len()] == 0xFE
            &&& at + msg.len() < i < 904 ==> m[i] == 0
            &&& 0 <= i < 16 || 904 <= i < 924 ==> m[i] == tag.memory[i]
        }),
{
    let t = crate::t2t_emu::model::ndef_tlv(msg);
    let m = tag.with_ndef(msg).memory;
    crate::bytes::bytes_have_their_worth(msg.len() as u16, 0);
    if msg.len() < 255 {
        assert(t[0] == 3 && t[1] == msg.len() && t[2 + msg.len() as int] == 0xFE);
    } else {
        let be = crate::bytes::be16(msg.len() as u16);
        assert(t[0] == 3 && t[1] == 0xFF && t[2] == be[0] && t[3] == be[1] && t[4 + msg.len() as int]
            == 0xFE);
    }
    assert(m[16] == t[0] && m[17] == t[1] && m[18] == t[2]);
}

/// How much room a message takes: two bytes before it, four from 255 bytes
/// on, and one behind it.
pub proof fn messages_take_their_room(msg: Seq<u8>)
    ensures
        crate::t2t_emu::model::ndef_tlv(msg).len() == msg.len() + if msg.len() < 255 {
            3int
        } else {
            5int
        },
{
}

/// What is found at a position of user memory: a message behind its length,
/// nothing at the end mark or where the length leads outside; zeros and other
/// blocks are passed over.
pub proof fn messages_are_found_behind_other_blocks(user: Seq<u8>, i: int)
    requires
        0 <= i < user.len(),
    ensures
        ({
            let found = crate::t2t_emu::model::ndef_from(user, i);
            let long = i + 1 < user.len() && user[i + 1] == 0xFF;
            let at = i + if long {
                4int
            } else {
                2int
            };
            let n = if long {
                256 * user[i + 2] + user[i + 3]
            } else {
                user[i + 1] as int
            };
            let whole = at <= user.len() && at + n <= user.len();
            &&& user[i] == 0x00 ==> found == crate::t2t_emu::model::ndef_from(user, i + 1)
            &&& user[i] == 0xFE ==> found is None
            &&& user[i] != 0x00 && user[i] != 0xFE && !whole ==> found is None
            &&& user[i] == 0x03 && whole ==> found == Some(user.subrange(at, at + n))
            &&& user[i] != 0x00 && user[i] != 0xFE && user[i] != 0x03 && whole ==> found
                == crate::t2t_emu::model::ndef_from(user, at + n)
        }),
        crate::t2t_emu::model::ndef_from(user, user.len() as int) is None,
{
}

/// The message of a tag is looked for in its user memory, from its start.
pub proof fn the_message_is_in_user_memory(tag: Tag)
    ensures
        tag.ndef() == crate::t2t_emu::model::ndef_from(tag.memory.subrange(16, 904), 0),
{
}

/// The memory of a new tag: UID and check bytes, capability container with 888
/// bytes of NDEF room, an empty message, and the defaults of an NTAG216.
pub proof fn a_new_tag_has_its_memory(uid: Seq<u8>, i: int)
    requires
        uid.len() == 7,
    ensures
        ({
            let m = Tag::fresh(uid).memory;
            &&& m.len() == 924
            &&& m.take(3) == uid.take(3)
            &&& m[3] == 0x88 ^ uid[0] ^ uid[1] ^ uid[2]
            &&& m.subrange(4, 8) == uid.skip(3)
            &&& m[8] == uid[3] ^ uid[4] ^ uid[5] ^ uid[6]
            &&& m.subrange(9, 12) == seq![0x48u8, 0, 0]
            &&& m.subrange(12, 16) == seq![0xE1u8, 0x10, 0x6D, 0x00]
            &&& m.subrange(16, 20) == seq![0x03u8, 0x00, 0xFE, 0x00]
            &&& 20 <= i < 904 ==> m[i] == 0
            &&& m.subrange(904, 908) == seq![0u8, 0, 0, 0xFF]
            &&& m.subrange(908, 912) == seq![0u8, 0x05, 0, 0]
            &&& m.subrange(912, 916) == seq![0xFFu8, 0xFF, 0xFF, 0xFF]
            &&& 916 <= i < 924 ==> m[i] == 0
            &&& !Tag::fresh(uid).dirty
            &&& Tag::fresh(uid).state == State::Off
        }),
{
    let m = Tag::fresh(uid).memory;
    assert(m.take(3) =~= uid.take(3));
    assert(m.subrange(4, 8) =~= uid.skip(3));
    assert(m.subrange(9, 12) =~= seq![0x48u8, 0, 0]);
    assert(m.subrange(12, 16) =~= seq![0xE1u8, 0x10, 0x6D, 0x00]);
    assert(m.subrange(16, 20) =~= seq![0x03u8, 0x00, 0xFE, 0x00]);
    assert(m.subrange(904, 908) =~= seq![0u8, 0, 0, 0xFF]);
    assert(m.subrange(908, 912) =~= seq![0u8, 0x05, 0, 0]);
    assert(m.subrange(912, 916) =~= seq![0xFFu8, 0xFF, 0xFF, 0xFF]);
}

/// What the chip answers with by itself: the UID of the memory, seven bytes of
/// it, then ATQA 0x0044, and SAK 0x04 before and 0x00 after the last level.
pub proof fn the_chip_knows_the_uid(tag: Tag)
    requires
        tag.memory.len() == MEM_BYTES,
    ensures
        ({
            let p = tag.pt_memory();
            &&& p.len() == 15
            &&& p.take(3) == tag.memory.take(3)
            &&& p.subrange(3, 7) == tag.memory.subrange(4, 8)
            &&& p.subrange(7, 15) == seq![0u8, 0, 0, 0x44, 0x00, 0x04, 0x00, 0x00]
        }),
{
    let p = tag.pt_memory();
    assert(p.take(3) =~= tag.memory.take(3));
    assert(p.subrange(3, 7) =~= tag.memory.subrange(4, 8));
    assert(p.subrange(7, 15) =~= seq![0u8, 0, 0, 0x44, 0x00, 0x04, 0x00, 0x00]);
}

/// A command is answered through the air with what the tag answers to it, and
/// with nothing else: whole bytes with CRC, or four bits without. Memory is
/// then what the command made of it.
pub proof fn answers_go_through_the_air<E>(
    m: Emu,
    l: Trace<BusEvent<E>>,
    rx: Seq<u8>,
    r: crate::st25r3916::air::Radio,
)
    requires
        m.tag.memory.len() == MEM_BYTES,
        rx.len() >= 1,
    ensures
        m.handle_command(l, rx) matches Run::Done(after, Ok(next)) ==> {
            let served = m.tag.serve(rx);
            let frames = r.listen(l, m.chip.at, after.chip.at).frames;
            &&& after.tag == served.tag
            &&& next == served.next
            &&& served.answer is None ==> frames == r.frames
            &&& served.answer matches Some((data, bits)) ==> frames == r.frames.push(
                crate::st25r3916::air::Frame {
                    how: if bits == 0 {
                        0xC4
                    } else {
                        0xC5
                    },
                    data,
                    bits: if bits == 0 {
                        8 * data.len() as int
                    } else {
                        4
                    },
                },
            )
        },
{
    let served = m.tag.serve(rx);
    match served.answer {
        Some((data, bits)) => {
            answers_are_short(m.tag, rx);
            crate::st25r3916::air::a_reply_is_sent(l, m.chip, data, bits, r);
        },
        None => {},
    }
}

proof fn answers_are_short(tag: Tag, rx: Seq<u8>)
    requires
        tag.memory.len() == MEM_BYTES,
        rx.len() >= 1,
    ensures
        tag.serve(rx).answer matches Some((data, bits)) ==> data.len() <= 512 && (bits == 0 || bits
            == 4),
{
}

/// What a selected tag takes for a command: a frame without errors of three to
/// 64 bytes, without the two bytes of its CRC. Anything else is thrown away,
/// and the tag falls back to where the reader found it.
pub proof fn whole_frames_are_commands<E>(m: Emu, l: Trace<BusEvent<E>>)
    ensures
        m.chip.take_irq(l, 0x0000_F000) matches Run::Done(c, Ok(errors)) ==> (c.fifo_status(
            l,
        ) matches Run::Done(d, Ok((n, _))) ==> {
            let here = Emu { chip: d, ..m };
            &&& errors == 0 && 3 <= n <= 64 ==> (d.read_fifo(l, (n - 2) as nat) matches Run::Done(
                f,
                Ok(rx),
            ) ==> m.frame(l) == (Emu { chip: f, ..m }).command(l, rx))
            &&& errors != 0 || n < 3 || n > 64 ==> (here.discard(l, n) matches Run::Done(f, Ok(_))
                ==> m.frame(l) == f.fall_back(l))
        }),
{
}

/// After a command the tag stays selected, halts, or falls back, as the
/// command asks for; each command is counted, and the last one remembered.
pub proof fn commands_move_the_tag<E>(m: Emu, l: Trace<BusEvent<E>>, rx: Seq<u8>)
    requires
        rx.len() >= 1,
        m.tag.commands < u32::MAX,
    ensures
        ({
            let counted = Emu {
                tag: Tag { commands: (m.tag.commands + 1) as u32, last_cmd: rx[0], ..m.tag },
                ..m
            };
            counted.handle_command(l, rx) matches Run::Done(a, Ok(next)) ==> m.command(l, rx)
                == match next {
                CmdResult::Stay => a.done::<(), E>(()),
                CmdResult::Halt => a.goto_halt(l),
                CmdResult::Drop => a.fall_back(l),
            }
        }),
{
}

/// What a round does first, by state, and where it leads: a field that
/// appears, or is there, wakes the tag; one that goes sends it to Off from
/// anywhere; a selected tag serves frames.
pub proof fn rounds_follow_the_field<E>(m: Emu, l: Trace<BusEvent<E>>)
    ensures
        m.tag.state == State::Off ==> (m.chip.take_irq(l, 0x0010_0000) matches Run::Done(c, Ok(f))
            ==> {
            let here = Emu { chip: c, ..m };
            &&& f != 0 ==> m.round(l) == here.field_appears(l)
            &&& f == 0 ==> (here.field_present(l) matches Run::Done(d, Ok(present)) ==> m.round(l)
                == if present {
                d.field_appears(l)
            } else {
                d.done::<(), E>(())
            })
        }),
        m.tag.state == State::Active ==> (m.chip.take_irq(l, 0x1008_0000) matches Run::Done(c, Ok(f))
            ==> {
            let here = Emu { chip: c, ..m };
            &&& f & 0x0008_0000 != 0 ==> m.round(l) == here.goto_off(l, 32)
            &&& f & 0x0008_0000 == 0 && f & 0x1000_0000 != 0 ==> m.round(l) == here.frame(l)
            &&& f & 0x0008_0000 == 0 && f & 0x1000_0000 == 0 ==> m.round(l) == here.done::<(), E>(
                (),
            )
        }),
        m.tag.state == State::Ready ==> (m.chip.take_irq(
            l,
            if m.tag.wakeup {
                0x0008_0002
            } else {
                0x0008_0001
            },
        ) matches Run::Done(c, Ok(f)) ==> {
            let here = Emu { chip: c, ..m };
            let wake: u32 = if m.tag.wakeup {
                2
            } else {
                1
            };
            &&& f & 0x0008_0000 != 0 ==> m.round(l) == here.goto_off(l, 32)
            &&& f & 0x0008_0000 == 0 && f & wake != 0 ==> m.round(l) == here.goto_active(l)
            &&& f & 0x0008_0000 == 0 && f & wake == 0 ==> m.round(l) == here.done::<(), E>(())
        }),
{
    crate::bits::joined_flags(0);
}

/// Whether there is a field is bit six of the display register.
pub proof fn the_field_is_seen<E>(m: Emu, l: Trace<BusEvent<E>>)
    ensures
        m.field_present(l) matches Run::Done(_, Ok(present)) ==> (l.at(m.chip.at)
            matches BusEvent::Read { addr, sent, asked, reply } && addr == 0x50 && sent
            == seq![0x71u8] && asked == 1 && (reply matches Ok(b) && present == (b[0] / 64 % 2
            == 1))),
{
    match m.chip.read_reg(l, 0x31) {
        Run::Done(_, Ok(v)) => {
            crate::bits::single_bits(v);
            crate::bits::register_codes(0x31);
        },
        _ => {},
    }
}

/// Going to Off ends there if there is no field, after the tag's recollection
/// of a bit rate and a wake-up is gone; with a field it ends in Idle, or in Off
/// if the oscillator stays stuck.
pub proof fn without_a_field_the_tag_is_off<E>(m: Emu, l: Trace<BusEvent<E>>, tries: nat)
    ensures
        m.goto_off(l, tries) matches Run::Done(after, Ok(_)) ==> {
            &&& after.tag.state == State::Off || after.tag.state == State::Idle
            &&& !after.tag.bitrate_106 && !after.tag.wakeup
            &&& after.tag.commands == m.tag.commands && after.tag.last_cmd == m.tag.last_cmd
        },
        m.sense(l) matches Run::Done(a, Ok(false)) ==> (m.goto_off(l, tries) matches Run::Done(
            after,
            Ok(_),
        ) ==> after.tag.state == State::Off),
        m.sense(l) matches Run::Done(a, Ok(true)) ==> (a.ensure_osc(l) matches Run::Done(b, Ok(true))
            ==> (m.goto_off(l, tries) matches Run::Done(after, Ok(_)) ==> after.tag.state
            == State::Idle)),
    decreases tries,
{
    match m.sense(l) {
        Run::Done(a, Ok(present)) => if present {
            ensure_osc_keeps(a, l);
            match a.ensure_osc(l) {
                Run::Done(b, Ok(up)) => if !up && tries > 0 {
                    without_a_field_the_tag_is_off(b, l, (tries - 1) as nat);
                },
                _ => {},
            }
        },
        _ => {},
    }
}

/// Each move that succeeds ends in its state: listening in Idle, getting ready
/// in Ready unless the field is gone, a selection in Active, a halt in Halt
/// while there is a field, and stopping in Off.
pub proof fn moves_end_in_their_states<E>(m: Emu, l: Trace<BusEvent<E>>)
    ensures
        m.listen(l) matches Run::Done(a, Ok(_)) ==> a.tag == (Tag {
            state: State::Idle,
            wakeup: false,
            ..m.tag
        }),
        m.goto_active(l) matches Run::Done(a, Ok(_)) ==> a.tag == (Tag {
            state: State::Active,
            ..m.tag
        }),
        m.stop(l) matches Run::Done(a, Ok(_)) ==> a.tag == (Tag { state: State::Off, ..m.tag }),
        m.chip.take_irq(l, 0x0008_0000) matches Run::Done(c, Ok(f)) ==> {
            let here = Emu { chip: c, ..m };
            &&& f != 0 ==> m.goto_ready(l) == here.goto_off(l, 32)
            &&& f == 0 ==> (m.goto_ready(l) matches Run::Done(a, Ok(_)) ==> a.tag == (Tag {
                state: State::Ready,
                ..m.tag
            }))
        },
        m.chip.steps(l, crate::t2t_emu::halt_steps()) matches Run::Done(c, Ok(_)) ==> {
            let here = Emu { chip: c, ..m };
            here.field_present(l) matches Run::Done(d, Ok(present)) ==> {
                &&& present ==> m.goto_halt(l) == Run::<Emu, (), E>::Done(
                    Emu { tag: Tag { state: State::Halt, ..d.tag }, ..d },
                    Ok(()),
                )
                &&& !present ==> m.goto_halt(l) == d.goto_off(l, 32)
            }
        },
        m.tag.wakeup ==> m.fall_back(l) == m.goto_halt(l),
        !m.tag.wakeup ==> m.fall_back(l) == m.goto_idle(l, 32),
        m.field_appears(l) == (Emu { tag: Tag { commands: 0, ..m.tag }, ..m }).goto_idle(l, 32),
{
    assert(m.listen(l) matches Run::Done(a, Ok(_)) ==> a.tag == (Tag {
        state: State::Idle,
        wakeup: false,
        ..m.tag
    }));
}

/// The oscillator is started only if it is off, and then awaited: it is up once
/// the chip shows it as stable, and is looked at every 5 ms, 42 times at most.
pub proof fn the_oscillator_is_awaited<E>(m: Emu, l: Trace<BusEvent<E>>, left: nat)
    ensures
        m.chip.read_reg(l, 0x02) matches Run::Done(c, Ok(v)) ==> {
            &&& v / 128 == 1 ==> m.ensure_osc(l) == Run::<Emu, bool, E>::Done(
                Emu { chip: c, ..m },
                Ok(true),
            )
            &&& v / 128 == 0 ==> (c.modify_reg(l, 0x02, 0, 0xC0) matches Run::Done(d, Ok(_))
                ==> m.ensure_osc(l) == (Emu { chip: d, ..m }).osc_wait(l, 41))
        },
        m.chip.read_reg(l, 0x31) matches Run::Done(c, Ok(v)) ==> {
            &&& v / 16 % 2 == 1 ==> m.osc_wait(l, left) == Run::<Emu, bool, E>::Done(
                Emu { chip: c, ..m },
                Ok(true),
            )
            &&& v / 16 % 2 == 0 && left == 0 ==> m.osc_wait(l, left) == Run::<Emu, bool, E>::Done(
                Emu { chip: c, ..m },
                Ok(false),
            )
            &&& v / 16 % 2 == 0 && left > 0 && l.at(c.at) == BusEvent::<E>::PauseMs(5)
                ==> m.osc_wait(l, left) == (Emu {
                chip: Chip { at: c.at + 1, ..c },
                ..m
            }).osc_wait(l, (left - 1) as nat)
        },
{
    match m.chip.read_reg(l, 0x02) {
        Run::Done(_, Ok(v)) => {
            crate::bits::single_bits(v);
            crate::bits::register_codes(0x02);
        },
        _ => {},
    }
    match m.chip.read_reg(l, 0x31) {
        Run::Done(_, Ok(v)) => crate::bits::single_bits(v),
        _ => {},
    }
}

/// What the chip reports while the tag is idle or halted: a field that goes
/// sends it to Off; a frame that is not the chip's own business is dropped; an
/// activation at 106 kbit/s makes it Ready, out of Halt or not.
pub proof fn idle_tags_follow_the_chip<E>(m: Emu, l: Trace<BusEvent<E>>, f: u32)
    ensures
        f & 0x0008_0000 != 0 ==> m.idle_flags(l, f) == m.goto_off(l, 32),
        f & 0x0008_0000 == 0 && f & 0x1000_0000 != 0 ==> m.idle_flags(l, f) == m.stray(l),
        f & 0x1008_0000 == 0 && (f & 0x0000_0010 == 0 || !m.tag.bitrate_106) ==> m.idle_flags(l, f)
            == Run::<Emu, (), E>::Done(m, Ok(())),
        f & 0x1008_0000 == 0 && f & 0x0000_0010 != 0 && m.tag.bitrate_106 ==> (m.chip.read_reg(
            l,
            0x21,
        ) matches Run::Done(c, Ok(v)) ==> {
            let here = Emu { chip: c, ..m };
            let halted = m.tag.state == State::Halt;
            m.idle_flags(l, f) == if (halted && v % 16 > 9) || (!halted && v % 16 > 1) {
                (Emu { tag: Tag { wakeup: halted, ..m.tag }, ..here }).goto_ready(l)
            } else {
                Run::<Emu, (), E>::Done(here, Ok(()))
            }
        }),
        m.read_bitrate(l) matches Run::Done(a, Ok(_)) ==> (l.at(m.chip.at) matches BusEvent::Read {
            addr,
            sent,
            asked,
            reply,
        } && addr == 0x50 && sent == seq![0x64u8] && asked == 1 && (reply matches Ok(b) && a.tag
            == (Tag { bitrate_106: b[0] / 16 % 4 == 0, ..m.tag }))),
{
    crate::bits::joined_flags(f);
    match m.chip.read_reg(l, 0x21) {
        Run::Done(_, Ok(v)) => crate::bits::low_bits_are_remainders(v),
        _ => {},
    }
    match m.chip.read_reg(l, 0x24) {
        Run::Done(_, Ok(v)) => {
            crate::bits::register_codes(0x24);
            crate::bits::low_bits_are_remainders(v);
        },
        _ => {},
    }
}

/// What a round tells: a field that came or went, with whether the reader
/// wrote, a selection, or nothing. A mark that was told is gone.
pub proof fn changes_are_told(m: Emu, before: State)
    ensures
        before == State::Off && m.tag.state != State::Off ==> m.report(before) == (
            m,
            Event::FieldOn,
        ),
        before != State::Off && m.tag.state == State::Off ==> m.report(before) == (
            Emu { tag: Tag { dirty: false, ..m.tag }, ..m },
            Event::FieldOff { written: m.tag.dirty },
        ),
        before != State::Off && before != State::Active && m.tag.state == State::Active ==> m.report(
            before,
        ) == (m, Event::Selected),
        before == m.tag.state ==> m.report(before) == (m, Event::Unchanged),
        before == State::Idle && (m.tag.state == State::Ready || m.tag.state == State::Halt)
            ==> m.report(before) == (m, Event::Unchanged),
        before == State::Ready && (m.tag.state == State::Idle || m.tag.state == State::Halt)
            ==> m.report(before) == (m, Event::Unchanged),
        before == State::Halt && (m.tag.state == State::Idle || m.tag.state == State::Ready)
            ==> m.report(before) == (m, Event::Unchanged),
        before == State::Active && m.tag.state != State::Off ==> m.report(before) == (
            m,
            Event::Unchanged,
        ),
{
}

/// A round's event is that of the change it made.
pub proof fn rounds_tell_their_change<E>(m: Emu, l: Trace<BusEvent<E>>)
    ensures
        m.round(l) matches Run::Done(a, Ok(_)) ==> m.update(l) == Run::<Emu, Event, E>::Done(
            a.report(m.tag.state).0,
            Ok(a.report(m.tag.state).1),
        ),
        m.round(l) matches Run::Done(a, Err(e)) ==> m.update(l) == Run::<Emu, Event, E>::Done(
            a,
            Err(e),
        ),
{
    reveal(Emu::update);
}

/// A started tag has no mark of a write, and is in Off or Idle with its memory
/// as it was.
pub proof fn a_start_forgets_the_mark<E>(m: Emu, l: Trace<BusEvent<E>>)
    ensures
        m.start(l) matches Run::Done(a, Ok(_)) ==> {
            &&& !a.tag.dirty
            &&& a.tag.memory == m.tag.memory
            &&& a.tag.state == State::Off || a.tag.state == State::Idle
        },
{
    reveal(Emu::start);
    assert forall|a: Emu| keeps(a, #[trigger] a.goto_off(l, 32)) && (a.goto_off(l, 32)
        matches Run::Done(b, Ok(_)) ==> b.tag.state == State::Off || b.tag.state == State::Idle) by {
        going_off_keeps(a, l, 32);
        without_a_field_the_tag_is_off(a, l, 32);
    }
}

/// A tag is its memory and what it remembers of the reader.
pub proof fn tags_are_their_memory(tag: crate::t2t_emu::T2tEmulator)
    ensures
        tag@.memory == tag.memory@,
        tag@.state == tag.state,
        tag@.bitrate_106 == tag.bitrate_106,
        tag@.wakeup == tag.wakeup,
        tag@.dirty == tag.dirty,
        tag@.commands == tag.commands,
        tag@.last_cmd == tag.last_cmd,
{
}

/// A frame that is not for the tag's memory is dropped: at most four of its
/// bytes are read, the FIFO is cleared and reception goes on; an idle tag also
/// switches its transmitter off.
pub proof fn other_frames_are_dropped<E>(m: Emu, l: Trace<BusEvent<E>>, count: u16)
    ensures
        m.chip.take_irq(l, 0xF000) matches Run::Done(c, Ok(_)) ==> (c.fifo_status(l)
            matches Run::Done(d, Ok((n, _))) ==> ((Emu { chip: d, ..m }).discard(l, n)
            matches Run::Done(a, Ok(_)) ==> {
            &&& m.tag.state != State::Idle ==> m.stray(l) == Run::<Emu, (), E>::Done(a, Ok(()))
            &&& m.tag.state == State::Idle ==> (a.chip.modify_reg(l, 0x02, 0x08, 0)
                matches Run::Done(f, Ok(u)) ==> m.stray(l) == Run::<Emu, (), E>::Done(
                Emu { chip: f, ..a },
                Ok(u),
            ))
        })),
        m.chip.read_fifo(
            l,
            if count <= 4 {
                count as nat
            } else {
                4
            },
        ) matches Run::Done(c, Ok(_)) ==> (c.command(l, 0xDB) matches Run::Done(d, Ok(_))
            ==> (d.command(l, 0xD1) matches Run::Done(f, Ok(u)) ==> m.discard(l, count) == Run::<
            Emu,
            (),
            E,
        >::Done(Emu { chip: f, ..m }, Ok(u)))),
{
    let few = if count <= 4 {
        count as nat
    } else {
        4
    };
    assert(few == (if count < 4 {
        count as nat
    } else {
        4
    }));
}

/// A tag that goes to listen gets frames with their CRC; if it was selected out of Idle
/// it is made to answer calls again; then the FIFO is cleared.
pub proof fn a_tag_goes_to_listen<E>(m: Emu, l: Trace<BusEvent<E>>)
    ensures
        m.tag.state == State::Active && !m.tag.wakeup ==> (m.chip.modify_reg(l, 0x0A, 0, 0x80)
            matches Run::Done(c, Ok(_)) ==> (c.modify_reg(l, 0x08, 0x01, 0) matches Run::Done(
            d,
            Ok(_),
        ) ==> (d.command(l, 0xCD) matches Run::Done(f, Ok(_)) ==> (f.command(l, 0xDB)
            matches Run::Done(g, Ok(_)) ==> (g.command(l, 0xD1) matches Run::Done(h, Ok(_))
            ==> m.listen(l) == Run::<Emu, (), E>::Done(
            Emu { tag: Tag { wakeup: false, state: State::Idle, ..m.tag }, chip: h },
            Ok(()),
        )))))),
        m.tag.state != State::Active || m.tag.wakeup ==> (m.chip.modify_reg(l, 0x0A, 0, 0x80)
            matches Run::Done(f, Ok(_)) ==> (f.command(l, 0xDB) matches Run::Done(g, Ok(_))
            ==> (g.command(l, 0xD1) matches Run::Done(h, Ok(_)) ==> m.listen(l) == Run::<
            Emu,
            (),
            E,
        >::Done(
            Emu { tag: Tag { wakeup: false, state: State::Idle, ..m.tag }, chip: h },
            Ok(()),
        )))),
{
}

/// A frame is a command if it came without error and has three to 64 bytes;
/// then it is read without the two bytes of its CRC. Any other is dropped.
pub proof fn frames_are_judged<E>(m: Emu, l: Trace<BusEvent<E>>)
    ensures
        m.chip.take_irq(l, 0xF000) matches Run::Done(c, Ok(errors)) ==> (c.fifo_status(l)
            matches Run::Done(d, Ok((n, _))) ==> {
            let here = Emu { chip: d, ..m };
            &&& errors == 0 && 3 <= n <= 64 ==> (d.read_fifo(l, (n - 2) as nat) matches Run::Done(
                f,
                Ok(rx),
            ) ==> m.frame(l) == (Emu { chip: f, ..m }).command(l, rx))
            &&& errors != 0 || n < 3 || n > 64 ==> (here.discard(l, n) matches Run::Done(a, Ok(_))
                ==> m.frame(l) == a.fall_back(l))
        }),
{
}

} // verus!
