//! What the transfer protocol promises.

use crate::app::ble::{
    RxModel, KIND_CONTENT, KIND_IMAGE, MAX_CONTENT_BYTES, ST_COMMITTED, ST_CRC_ERROR, ST_IDLE,
    ST_INCOMPLETE, ST_RECEIVING,
};
use crate::app::image::ImageModel;
use vstd::prelude::*;

verus! {

/// Whatever is written to CTRL and DATA, and whenever, the receiver stays
/// well-formed: never more data than announced, never more packets without an
/// acknowledgement than agreed, never an image that does not fit.
pub proof fn the_receiver_stays_well_formed(rx: RxModel, d: Seq<u8>, now: u64)
    requires
        rx.wf(),
    ensures
        rx.ctrl(d, now).wf(),
        rx.push(d, now).wf(),
        rx.reset(now).wf(),
        rx.notified().wf(),
{
    let s = rx.push(d, now);
    let w = crate::bytes::word(d[2], d[1]);
    let h = crate::bytes::word(d[4], d[3]);
    let row = crate::app::image::row_bytes(w);
    if 1 <= w <= 480 && 1 <= h <= 800 {
        assert(1 <= row * h <= 60 * 800) by (nonlinear_arith)
            requires
                1 <= row <= 60,
                1 <= h <= 800,
        ;
    }
}

/// A packet changes the data only by adding its payload at the end, and only
/// where it says it belongs there.
pub proof fn data_only_grows_in_order(rx: RxModel, d: Seq<u8>, now: u64)
    ensures
        rx.push(d, now).data == rx.data || {
            &&& rx.state == ST_RECEIVING
            &&& d.len() >= 3
            &&& crate::bytes::word(d[1], d[0]) == rx.data.len()
            &&& rx.push(d, now).data == rx.data + d.skip(2)
        },
{
}

/// An out-of-order packet is dropped; the first of a streak is answered with
/// a notification that carries the offset the receiver expects.
pub proof fn a_lost_packet_is_reported(rx: RxModel, d: Seq<u8>, now: u64)
    requires
        rx.wf(),
        rx.state == ST_RECEIVING,
        d.len() >= 3,
        crate::bytes::word(d[1], d[0]) != rx.data.len(),
    ensures
        ({
            let after = rx.push(d, now);
            &&& after.data == rx.data
            &&& !rx.nak_sent ==> after.pending_ntf
            &&& !rx.nak_sent && rx.notify_on ==> after.notification() == Some(
                seq![ST_RECEIVING] + crate::bytes::le32(rx.data.len() as u32)
                    + crate::bytes::le32(rx.expected as u32),
            )
        }),
{
}

/// Packets for the parts of a payload, each with its offset, written one
/// after the other.
pub open spec fn fed(rx: RxModel, parts: Seq<Seq<u8>>, now: u64) -> RxModel
    decreases parts.len(),
{
    if parts.len() == 0 {
        rx
    } else {
        let before = fed(rx, parts.drop_last(), now);
        before.push(crate::bytes::le16(before.data.len() as u16) + parts.last(), now)
    }
}

/// The parts one after the other.
pub open spec fn joined(parts: Seq<Seq<u8>>) -> Seq<u8>
    decreases parts.len(),
{
    if parts.len() == 0 {
        Seq::empty()
    } else {
        joined(parts.drop_last()) + parts.last()
    }
}

/// Parts that arrive in order are collected in order.
pub proof fn parts_are_collected(rx: RxModel, parts: Seq<Seq<u8>>, now: u64)
    requires
        rx.wf(),
        rx.state == ST_RECEIVING,
        forall|i: int| 0 <= i < parts.len() ==> (#[trigger] parts[i]).len() > 0,
        rx.data.len() + joined(parts).len() <= rx.expected,
    ensures
        ({
            let after = fed(rx, parts, now);
            &&& after.wf()
            &&& after.data == rx.data + joined(parts)
            &&& after.state == rx.state
            &&& after.kind == rx.kind
            &&& after.width == rx.width
            &&& after.height == rx.height
            &&& after.expected == rx.expected
            &&& after.crc == rx.crc
        }),
    decreases parts.len(),
{
    if parts.len() == 0 {
        assert(rx.data + joined(parts) =~= rx.data);
    } else {
        let rest = parts.drop_last();
        assert(joined(parts).len() == joined(rest).len() + parts.last().len());
        parts_are_collected(rx, rest, now);
        let before = fed(rx, rest, now);
        let packet = crate::bytes::le16(before.data.len() as u16) + parts.last();
        crate::bytes::word_of_its_bytes(before.data.len() as u16);
        assert(packet.skip(2) =~= parts.last());
        assert(packet[0] == crate::bytes::low_byte(before.data.len() as u16));
        assert(packet[1] == crate::bytes::high_byte(before.data.len() as u16));
        the_receiver_stays_well_formed(before, packet, now);
        assert(rx.data + joined(rest) + parts.last() =~= rx.data + joined(parts));
    }
}

/// The start message of an image transfer.
pub open spec fn image_start(image: ImageModel, ack_every: u8) -> Seq<u8> {
    seq![0x10u8] + crate::bytes::le16(image.width) + crate::bytes::le16(image.height)
        + crate::bytes::le32(image.bits.len() as u32) + crate::bytes::le32(
        crate::app::ble::crc32_of(image.bits),
    ) + seq![ack_every]
}

/// The start message of a text transfer.
pub open spec fn content_start(text: Seq<u8>, ack_every: u8) -> Seq<u8> {
    seq![0x11u8] + crate::bytes::le32(text.len() as u32) + crate::bytes::le32(
        crate::app::ble::crc32_of(text),
    ) + seq![ack_every]
}

/// Whatever state the receiver is in: an image that is started, sent in
/// order in parts of any size, and committed arrives as it was sent.
pub proof fn a_sent_image_arrives(
    rx: RxModel,
    image: ImageModel,
    parts: Seq<Seq<u8>>,
    ack_every: u8,
    now: u64,
)
    requires
        rx.wf(),
        image.wf(),
        joined(parts) == image.bits,
        forall|i: int| 0 <= i < parts.len() ==> (#[trigger] parts[i]).len() > 0,
    ensures
        ({
            let started = rx.ctrl(image_start(image, ack_every), now);
            let end = fed(started, parts, now).ctrl(seq![0x02u8], now);
            &&& end.state == ST_COMMITTED
            &&& end.done == Some(image)
            &&& end.pending_ntf
        }),
{
    let d = image_start(image, ack_every);
    let row = crate::app::image::row_bytes(image.width);
    let height = image.height;
    assert(1 <= row * height <= 60 * 800) by (nonlinear_arith)
        requires
            1 <= row <= 60,
            1 <= height <= 800,
    ;
    let len = image.bits.len() as u32;
    let crc = crate::app::ble::crc32_of(image.bits);
    crate::bytes::word_of_its_bytes(image.width);
    crate::bytes::word_of_its_bytes(image.height);
    crate::bytes::dword_of_its_bytes(len);
    crate::bytes::dword_of_its_bytes(crc);
    assert(d[1] == crate::bytes::le16(image.width)[0] && d[2] == crate::bytes::le16(
        image.width,
    )[1]);
    assert(d[3] == crate::bytes::le16(image.height)[0] && d[4] == crate::bytes::le16(
        image.height,
    )[1]);
    assert(d[5] == crate::bytes::le32(len)[0] && d[6] == crate::bytes::le32(len)[1] && d[7]
        == crate::bytes::le32(len)[2] && d[8] == crate::bytes::le32(len)[3]);
    assert(d[9] == crate::bytes::le32(crc)[0] && d[10] == crate::bytes::le32(crc)[1] && d[11]
        == crate::bytes::le32(crc)[2] && d[12] == crate::bytes::le32(crc)[3]);
    let started = rx.ctrl(d, now);
    assert(started.state == ST_RECEIVING && started.kind == KIND_IMAGE);
    assert(started.expected == image.bits.len() && started.crc == crc);
    the_receiver_stays_well_formed(rx, d, now);
    parts_are_collected(started, parts, now);
    assert(started.data + joined(parts) =~= image.bits);
}

/// The same for plate text of at most [`MAX_CONTENT_BYTES`].
pub proof fn a_sent_text_arrives(
    rx: RxModel,
    text: Seq<u8>,
    parts: Seq<Seq<u8>>,
    ack_every: u8,
    now: u64,
)
    requires
        rx.wf(),
        1 <= text.len() <= MAX_CONTENT_BYTES,
        joined(parts) == text,
        forall|i: int| 0 <= i < parts.len() ==> (#[trigger] parts[i]).len() > 0,
    ensures
        ({
            let started = rx.ctrl(content_start(text, ack_every), now);
            let end = fed(started, parts, now).ctrl(seq![0x02u8], now);
            &&& end.state == ST_COMMITTED
            &&& end.done_content == Some(text)
            &&& end.pending_ntf
        }),
{
    let d = content_start(text, ack_every);
    let len = text.len() as u32;
    let crc = crate::app::ble::crc32_of(text);
    crate::bytes::dword_of_its_bytes(len);
    crate::bytes::dword_of_its_bytes(crc);
    assert(d[1] == crate::bytes::le32(len)[0] && d[2] == crate::bytes::le32(len)[1] && d[3]
        == crate::bytes::le32(len)[2] && d[4] == crate::bytes::le32(len)[3]);
    assert(d[5] == crate::bytes::le32(crc)[0] && d[6] == crate::bytes::le32(crc)[1] && d[7]
        == crate::bytes::le32(crc)[2] && d[8] == crate::bytes::le32(crc)[3]);
    let started = rx.ctrl(d, now);
    assert(started.state == ST_RECEIVING && started.kind == KIND_CONTENT);
    the_receiver_stays_well_formed(rx, d, now);
    parts_are_collected(started, parts, now);
    assert(started.data + joined(parts) =~= text);
}

/// Only a complete payload with the announced CRC is ever handed on; a commit
/// of anything else says what is wrong and hands nothing on.
pub proof fn only_checked_payloads_are_handed_on(rx: RxModel)
    requires
        rx.state == ST_RECEIVING,
    ensures
        ({
            let end = rx.commit();
            let whole = rx.data.len() == rx.expected;
            let intact = crate::app::ble::crc32_of(rx.data) == rx.crc;
            &&& end.state == if !whole {
                ST_INCOMPLETE
            } else if !intact {
                ST_CRC_ERROR
            } else {
                ST_COMMITTED
            }
            &&& !(whole && intact) ==> end.done == rx.done && end.done_content == rx.done_content
        }),
{
}

/// Each step of the CRC keeps different registers apart.
proof fn crc32_keeps_apart(a: u32, b: u32, n: nat)
    requires
        a != b,
    ensures
        crate::app::ble::crc32_bits(a, n) != crate::app::ble::crc32_bits(b, n),
    decreases n,
{
    if n > 0 {
        crc32_keeps_apart(a, b, (n - 1) as nat);
        let x = crate::app::ble::crc32_bits(a, (n - 1) as nat);
        let y = crate::app::ble::crc32_bits(b, (n - 1) as nat);
        assert(x != y ==> (if x & 1 != 0 {
            (x >> 1) ^ 0xEDB8_8320
        } else {
            x >> 1
        }) != (if y & 1 != 0 {
            (y >> 1) ^ 0xEDB8_8320
        } else {
            y >> 1
        })) by (bit_vector);
    }
}

/// A payload that differs from the announced one in a single byte has a
/// different CRC, so it is never committed.
pub proof fn one_wrong_byte_is_noticed(data: Seq<u8>, i: int, b: u8)
    requires
        0 <= i < data.len(),
        data[i] != b,
    ensures
        crate::app::ble::crc32_of(data.update(i, b)) != crate::app::ble::crc32_of(data),
    decreases data.len(),
{
    one_wrong_byte_changes_the_register(data, i, b);
    let p = crate::app::ble::crc32_register(data);
    let q = crate::app::ble::crc32_register(data.update(i, b));
    assert(p != q ==> !p != !q) by (bit_vector);
}

proof fn xor_keeps_apart(r: u32, s: u32, x: u8, y: u8)
    ensures
        r == s && x != y ==> r ^ x as u32 != s ^ y as u32,
        r != s && x == y ==> r ^ x as u32 != s ^ y as u32,
{
    assert((r == s) != (x == y) ==> r ^ x as u32 != s ^ y as u32) by (bit_vector);
}

proof fn one_wrong_byte_changes_the_register(data: Seq<u8>, i: int, b: u8)
    requires
        0 <= i < data.len(),
        data[i] != b,
    ensures
        crate::app::ble::crc32_register(data.update(i, b)) != crate::app::ble::crc32_register(data),
    decreases data.len(),
{
    let other = data.update(i, b);
    let r = crate::app::ble::crc32_register(data.drop_last());
    let x = data.last();
    let y = other.last();
    if i == data.len() - 1 {
        assert(other.drop_last() =~= data.drop_last());
        xor_keeps_apart(r, r, x, y);
        crc32_keeps_apart(r ^ x as u32, r ^ y as u32, 8);
    } else {
        assert(other.drop_last() =~= data.drop_last().update(i, b));
        one_wrong_byte_changes_the_register(data.drop_last(), i, b);
        let s = crate::app::ble::crc32_register(other.drop_last());
        xor_keeps_apart(r, s, x, x);
        crc32_keeps_apart(r ^ x as u32, s ^ x as u32, 8);
    }
}

/// Outside a transfer a commit changes nothing and is answered.
pub proof fn a_stray_commit_is_answered(rx: RxModel, now: u64)
    requires
        rx.state != ST_RECEIVING,
    ensures
        rx.ctrl(seq![0x02u8], now) == (RxModel { last_ms: now, pending_ntf: true, ..rx }),
{
}

/// An abort forgets the transfer and keeps the subscription.
pub proof fn an_abort_keeps_the_subscription(rx: RxModel, now: u64)
    ensures
        ({
            let end = rx.ctrl(seq![0x03u8], now);
            &&& end.state == ST_IDLE
            &&& end.data.len() == 0
            &&& end.notify_on == rx.notify_on
            &&& end.pending_ntf
        }),
{
}

/// While a transfer runs, at most `ack_every` accepted packets go without an
/// acknowledgement: the packet that fills the window asks for one.
pub proof fn the_window_is_acknowledged(rx: RxModel, d: Seq<u8>, now: u64)
    requires
        rx.wf(),
        rx.state == ST_RECEIVING,
        d.len() >= 3,
        rx.accepts(crate::bytes::word(d[1], d[0]), d.skip(2)),
    ensures
        rx.since_ack + 1 == rx.ack_every ==> rx.push(d, now).pending_ntf && rx.push(
            d,
            now,
        ).since_ack == 0,
        rx.push(d, now).data.len() == rx.expected ==> rx.push(d, now).pending_ntf,
{
}

/// A whole window is acknowledged once: of the packets that arrive in order,
/// none asks for an acknowledgement before the window is full or the data
/// complete, and the one that fills or completes it does. What is then sent
/// counts all of them.
pub proof fn a_window_is_acknowledged_once(rx: RxModel, parts: Seq<Seq<u8>>, now: u64)
    requires
        rx.wf(),
        rx.state == ST_RECEIVING,
        parts.len() > 0,
        forall|i: int| 0 <= i < parts.len() ==> (#[trigger] parts[i]).len() > 0,
        rx.data.len() + joined(parts).len() <= rx.expected,
        rx.since_ack + parts.len() <= rx.ack_every,
    ensures
        ({
            let after = fed(rx, parts, now);
            let due = rx.since_ack + parts.len() == rx.ack_every || after.data.len()
                == rx.expected;
            &&& after.data == rx.data + joined(parts)
            &&& after.ack_every == rx.ack_every
            &&& after.notify_on == rx.notify_on
            &&& after.pending_ntf == (rx.pending_ntf || due)
            &&& after.since_ack == if due {
                0
            } else {
                rx.since_ack + parts.len()
            }
            &&& due && rx.notify_on ==> after.notification() == Some(
                seq![ST_RECEIVING] + crate::bytes::le32(
                    (rx.data.len() + joined(parts).len()) as u32,
                ) + crate::bytes::le32(rx.expected as u32),
            )
        }),
    decreases parts.len(),
{
    parts_are_collected(rx, parts, now);
    let rest = parts.drop_last();
    assert(joined(parts).len() == joined(rest).len() + parts.last().len());
    assert(parts.last() == parts[parts.len() - 1]);
    let before = fed(rx, rest, now);
    let d = crate::bytes::le16(before.data.len() as u16) + parts.last();
    assert(d.skip(2) =~= parts.last());
    crate::bytes::word_of_its_bytes(before.data.len() as u16);
    assert forall|i: int| 0 <= i < rest.len() implies (#[trigger] rest[i]).len() > 0 by {
        assert(rest[i] == parts[i]);
    }
    parts_are_collected(rx, rest, now);
    if rest.len() > 0 {
        a_window_is_acknowledged_once(rx, rest, now);
    } else {
        assert(rx.data + joined(rest) =~= rx.data);
    }
}

/// The remainders of the sixteen half bytes by the IEEE polynomial, bits
/// reflected.
pub open spec fn half_byte_remainder(i: u32) -> u32 {
    if i == 0 {
        0x0000_0000
    } else if i == 1 {
        0x1DB7_1064
    } else if i == 2 {
        0x3B6E_20C8
    } else if i == 3 {
        0x26D9_30AC
    } else if i == 4 {
        0x76DC_4190
    } else if i == 5 {
        0x6B6B_51F4
    } else if i == 6 {
        0x4DB2_6158
    } else if i == 7 {
        0x5005_713C
    } else if i == 8 {
        0xEDB8_8320
    } else if i == 9 {
        0xF00F_9344
    } else if i == 10 {
        0xD6D6_A3E8
    } else if i == 11 {
        0xCB61_B38C
    } else if i == 12 {
        0x9B64_C2B0
    } else if i == 13 {
        0x86D3_D2D4
    } else if i == 14 {
        0xA00A_E278
    } else {
        0xBDBD_F21C
    }
}

proof fn four_bits_make_a_half_byte(x: u32)
    ensures
        crate::app::ble::crc32_bits(x, 4) == (x >> 4) ^ half_byte_remainder(x & 15),
{
    reveal_with_fuel(crate::app::ble::crc32_bits, 5);
    assert({
        let a = if x & 1 != 0 {
            (x >> 1) ^ 0xEDB8_8320u32
        } else {
            x >> 1
        };
        let b = if a & 1 != 0 {
            (a >> 1) ^ 0xEDB8_8320u32
        } else {
            a >> 1
        };
        let c = if b & 1 != 0 {
            (b >> 1) ^ 0xEDB8_8320u32
        } else {
            b >> 1
        };
        let d = if c & 1 != 0 {
            (c >> 1) ^ 0xEDB8_8320u32
        } else {
            c >> 1
        };
        let i = x & 15;
        d == (x >> 4) ^ (if i == 0 {
            0x0000_0000u32
        } else if i == 1 {
            0x1DB7_1064u32
        } else if i == 2 {
            0x3B6E_20C8u32
        } else if i == 3 {
            0x26D9_30ACu32
        } else if i == 4 {
            0x76DC_4190u32
        } else if i == 5 {
            0x6B6B_51F4u32
        } else if i == 6 {
            0x4DB2_6158u32
        } else if i == 7 {
            0x5005_713Cu32
        } else if i == 8 {
            0xEDB8_8320u32
        } else if i == 9 {
            0xF00F_9344u32
        } else if i == 10 {
            0xD6D6_A3E8u32
        } else if i == 11 {
            0xCB61_B38Cu32
        } else if i == 12 {
            0x9B64_C2B0u32
        } else if i == 13 {
            0x86D3_D2D4u32
        } else if i == 14 {
            0xA00A_E278u32
        } else {
            0xBDBD_F21Cu32
        })
    }) by (bit_vector);
}

/// The checksum is the IEEE CRC-32, bytes taken low half first: that of
/// nothing is zero, and one more byte meets the low eight bits of the register,
/// whose two halves are replaced by their remainders.
pub proof fn the_checksum_is_the_ieee_crc(data: Seq<u8>, b: u8)
    ensures
        crate::app::ble::crc32_of(Seq::empty()) == 0,
        ({
            let x = !crate::app::ble::crc32_of(data) ^ b as u32;
            let y = (x >> 4) ^ half_byte_remainder(x & 15);
            !crate::app::ble::crc32_of(data.push(b)) == (y >> 4) ^ half_byte_remainder(y & 15)
        }),
{
    let r = crate::app::ble::crc32_register(data);
    let next = crate::app::ble::crc32_register(data.push(b));
    assert(!(!r) == r && !(!next) == next && !0xFFFF_FFFFu32 == 0) by (bit_vector);
    assert(data.push(b).drop_last() =~= data);
    let x = r ^ b as u32;
    four_bits_make_a_half_byte(x);
    four_bits_make_a_half_byte(crate::app::ble::crc32_bits(x, 4));
    reveal_with_fuel(crate::app::ble::crc32_bits, 9);
}

// ----------------------------------------------------------------------
// the protocol, message by message
// ----------------------------------------------------------------------

/// The number that four bytes make, low byte first.
pub open spec fn four_bytes(d: Seq<u8>, i: int) -> int {
    d[i] + 0x100 * d[i + 1] + 0x1_0000 * d[i + 2] + 0x100_0000 * d[i + 3]
}

/// A transfer that was just started, or refused.
pub open spec fn begun(rx: RxModel, now: u64, accepted: bool, after: RxModel) -> bool {
    &&& after.state == if accepted {
        1int
    } else {
        0
    }
    &&& after.data.len() == 0
    &&& after.done is None
    &&& after.done_content is None
    &&& after.since_ack == 0
    &&& !after.nak_sent
    &&& after.pending_ntf
    &&& after.notify_on == rx.notify_on
    &&& after.last_ms == now
    &&& !accepted ==> after.expected == 0
}

/// `10 w:u16 h:u16 len:u32 crc32:u32 ack_every:u8` starts an image transfer if
/// the image fits the display and the length is that of its rows; anything else
/// is refused. Both are answered.
pub proof fn an_image_start_is_taken(rx: RxModel, d: Seq<u8>, now: u64)
    requires
        d.len() >= 14,
        d[0] == 0x10,
    ensures
        ({
            let after = rx.ctrl(d, now);
            let w = d[1] + 256 * d[2];
            let h = d[3] + 256 * d[4];
            let good = 1 <= w <= 480 && 1 <= h <= 800 && four_bytes(d, 5) == (w + 7) / 8 * h;
            &&& begun(rx, now, good, after)
            &&& good ==> {
                &&& after.kind == 1
                &&& after.width == w
                &&& after.height == h
                &&& after.expected == four_bytes(d, 5)
                &&& after.crc == four_bytes(d, 9)
                &&& after.ack_every == if d[13] == 0 {
                    8
                } else {
                    d[13]
                }
            }
        }),
{
    crate::bytes::words_are_sums(d[4], d[3], d[2], d[1]);
    crate::bytes::words_are_sums(d[8], d[7], d[6], d[5]);
    crate::bytes::words_are_sums(d[12], d[11], d[10], d[9]);
    crate::bytes::words_are_sums(0, 0, d[4], d[3]);
}

/// `11 len:u32 crc32:u32 ack_every:u8` starts a text transfer of up to 1024
/// bytes; anything else is refused. Both are answered.
pub proof fn a_text_start_is_taken(rx: RxModel, d: Seq<u8>, now: u64)
    requires
        d.len() >= 10,
        d[0] == 0x11,
    ensures
        ({
            let after = rx.ctrl(d, now);
            let good = 1 <= four_bytes(d, 1) <= 1024;
            &&& begun(rx, now, good, after)
            &&& good ==> {
                &&& after.kind == 2
                &&& after.expected == four_bytes(d, 1)
                &&& after.crc == four_bytes(d, 5)
                &&& after.ack_every == if d[9] == 0 {
                    8
                } else {
                    d[9]
                }
            }
        }),
{
    crate::bytes::words_are_sums(d[4], d[3], d[2], d[1]);
    crate::bytes::words_are_sums(d[8], d[7], d[6], d[5]);
}

/// `02` ends a transfer: incomplete data gives state 4, a wrong checksum state
/// 3, and otherwise, with state 2, the data is handed on as what it was
/// announced as. The data is gone from the receiver in any case, and the client
/// is told.
pub proof fn a_commit_is_judged(rx: RxModel, d: Seq<u8>, now: u64)
    requires
        rx.wf(),
        rx.state == 1,
        d.len() >= 1,
        d[0] == 0x02,
    ensures
        ({
            let after = rx.ctrl(d, now);
            let whole = rx.data.len() == rx.expected;
            let right = crate::app::ble::crc32_of(rx.data) == rx.crc;
            &&& after.pending_ntf
            &&& after.data.len() == 0
            &&& after.expected == rx.expected
            &&& after.notify_on == rx.notify_on
            &&& after.last_ms == now
            &&& !whole ==> after.state == 4 && after.done == rx.done && after.done_content
                == rx.done_content
            &&& whole && !right ==> after.state == 3 && after.done == rx.done
                && after.done_content == rx.done_content
            &&& whole && right && rx.kind == 2 ==> after.state == 2 && after.done_content == Some(
                rx.data,
            ) && after.done == rx.done
            &&& whole && right && rx.kind == 1 ==> after.state == 2 && after.done == Some(
                ImageModel { width: rx.width, height: rx.height, bits: rx.data },
            ) && after.done_content == rx.done_content
        }),
{
}

/// The other messages: `03` forgets the transfer and is answered, `04` only
/// asks for an answer, `05` only asks for a doze test. What is unknown or too
/// short only counts as a sign of life.
pub proof fn other_messages_do_little(rx: RxModel, d: Seq<u8>, now: u64)
    ensures
        d.len() >= 1 && d[0] == 0x03 ==> begun(rx, now, false, rx.ctrl(d, now)),
        d.len() >= 1 && d[0] == 0x04 ==> rx.ctrl(d, now) == (RxModel {
            last_ms: now,
            pending_ntf: true,
            ..rx
        }),
        d.len() >= 1 && d[0] == 0x05 ==> rx.ctrl(d, now) == (RxModel {
            last_ms: now,
            doze_test_req: true,
            ..rx
        }),
        d.len() == 0 || (d[0] == 0x10 && d.len() < 14) || (d[0] == 0x11 && d.len() < 10) || (d[0]
            != 0x10 && d[0] != 0x11 && d[0] != 0x02 && d[0] != 0x03 && d[0] != 0x04 && d[0] != 0x05)
            ==> rx.ctrl(d, now) == (RxModel { last_ms: now, ..rx }),
        d.len() >= 1 && d[0] == 0x02 && rx.state != 1 ==> rx.ctrl(d, now) == (RxModel {
            last_ms: now,
            pending_ntf: true,
            ..rx
        }),
{
}

/// A data packet: its payload goes to the end of the data if it says it
/// belongs there and there is room for it; any other is dropped, and the first
/// of a streak asks for an answer. Outside a transfer, or without a payload, it
/// only counts as a sign of life.
pub proof fn a_packet_is_taken_or_refused(rx: RxModel, d: Seq<u8>, now: u64)
    requires
        rx.wf(),
    ensures
        ({
            let after = rx.push(d, now);
            let open = rx.state == 1 && d.len() >= 3;
            let fits = d[0] + 256 * d[1] == rx.data.len() && rx.data.len() + d.len() - 2
                <= rx.expected;
            let due = rx.since_ack + 1 == rx.ack_every || rx.data.len() + d.len() - 2
                == rx.expected;
            &&& !open ==> after == (RxModel { last_ms: now, ..rx })
            &&& open && fits ==> after == (RxModel {
                data: rx.data + d.skip(2),
                last_ms: now,
                nak_sent: false,
                since_ack: if due {
                    0
                } else {
                    (rx.since_ack + 1) as u8
                },
                pending_ntf: rx.pending_ntf || due,
                ..rx
            })
            &&& open && !fits && !rx.nak_sent ==> after == (RxModel {
                last_ms: now,
                nak_sent: true,
                since_ack: 0,
                pending_ntf: true,
                ..rx
            })
            &&& open && !fits && rx.nak_sent ==> after == (RxModel { last_ms: now, ..rx })
        }),
{
    if d.len() >= 2 {
        crate::bytes::words_are_sums(0, 0, d[1], d[0]);
    }
}

/// A status: the state, how much has been received and how much is expected,
/// low bytes first. It is sent exactly if one is due and the client subscribed,
/// and once.
pub proof fn a_status_has_its_layout(rx: RxModel)
    requires
        rx.wf(),
    ensures
        ({
            let s = rx.status_bytes();
            &&& s.len() == 9
            &&& s[0] == rx.state
            &&& four_bytes(s, 1) == rx.data.len()
            &&& four_bytes(s, 5) == rx.expected
        }),
        rx.notification() is Some <==> rx.pending_ntf && rx.notify_on,
        rx.notification() matches Some(s) ==> s == rx.status_bytes(),
        rx.notified() == (RxModel { pending_ntf: false, ..rx }),
{
    let s = rx.status_bytes();
    let r = crate::bytes::le32(rx.data.len() as u32);
    let x = crate::bytes::le32(rx.expected as u32);
    crate::bytes::bytes_have_their_worth(0, rx.data.len() as u32);
    crate::bytes::bytes_have_their_worth(0, rx.expected as u32);
    assert(s[1] == r[0] && s[2] == r[1] && s[3] == r[2] && s[4] == r[3]);
    assert(s[5] == x[0] && s[6] == x[1] && s[7] == x[2] && s[8] == x[3]);
}

/// A new receiver is idle and holds nothing.
pub proof fn a_new_receiver_is_idle()
    ensures
        ({
            let rx = RxModel::fresh();
            &&& rx.state == 0 && rx.expected == 0 && rx.data.len() == 0
            &&& rx.done is None && rx.done_content is None
            &&& !rx.notify_on && !rx.pending_ntf && !rx.nak_sent && !rx.doze_test_req
        }),
{
}

/// The identifiers of service and characteristics, read from their other end:
/// `50415045-5250-4c41-5445-0000000000xx`.
pub proof fn identifiers_spell_the_name(last: u8)
    ensures
        crate::app::ble::uuid(last).reverse() == seq![
            0x50u8,
            0x41,
            0x50,
            0x45,
            0x52,
            0x50,
            0x4C,
            0x41,
            0x54,
            0x45,
            0x00,
            0x00,
            0x00,
            0x00,
            0x00,
            last,
        ],
{
    assert(crate::app::ble::uuid(last).reverse() =~= seq![
        0x50u8,
        0x41,
        0x50,
        0x45,
        0x52,
        0x50,
        0x4C,
        0x41,
        0x54,
        0x45,
        0x00,
        0x00,
        0x00,
        0x00,
        0x00,
        last,
    ]);
}

/// A read of a value gives what is left behind its offset, as far as there is
/// room.
pub proof fn reads_end_with_the_value(len: nat, offset: usize, room: nat)
    ensures
        ({
            let n = crate::app::ble::readable(len, offset, room);
            &&& n <= room
            &&& offset + n <= len || n == 0
            &&& n == room || offset + n >= len
        }),
{
}

/// What a receiver holds is what it has taken.
pub proof fn receivers_are_their_parts(rx: crate::app::ble::ImgRx)
    ensures
        rx@.state == rx.state,
        rx@.kind == rx.kind,
        rx@.width == rx.width,
        rx@.height == rx.height,
        rx@.expected == rx.expected,
        rx@.crc == rx.crc,
        rx@.ack_every == rx.ack_every,
        rx@.data == rx.data@,
        rx.done matches Some(image) ==> rx@.done == Some(image@),
        rx.done is None ==> rx@.done is None,
        rx.done_content matches Some(text) ==> rx@.done_content == Some(text@),
        rx.done_content is None ==> rx@.done_content is None,
        rx@.last_ms == rx.last_ms,
        rx@.notify_on == rx.notify_on,
        rx@.pending_ntf == rx.pending_ntf,
        rx@.since_ack == rx.since_ack,
        rx@.nak_sent == rx.nak_sent,
        rx@.doze_test_req == rx.doze_test_req,
{
}

} // verus!
