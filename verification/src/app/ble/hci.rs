//! HCI packets between the radio controller and the BLE stack.
//!
//! The stack reads HCI **one byte at a time** and expects every byte of a
//! packet to be readable the instant it asks for it. A large ATT write arrives
//! as one L2CAP PDU split across several HCI ACL fragments (first +
//! continuing), and a raw byte stream may split packets anywhere.
//!
//! So [`BufferedHci`] is fed whole packets, waits for (and merges) ACL
//! continuation fragments itself, and serves the finished packet byte-wise.
//! Any other packet that arrives in between the fragments is queued behind the
//! merged one.

use crate::bytes::{join16, le16_bytes, owned, splice};
use vstd::prelude::*;

verus! {

pub const HCI_ACL: u8 = 0x02;

/// type + handle/flags + length
pub const ACL_HDR: usize = 5;

/// Room for one merged packet and what is queued behind it.
pub const BUFFER: usize = 1024;

/// Room for packets that arrive in between.
pub const STRAY: usize = 512;

/// How long to wait for the rest of a PDU.
pub const GATHER_MS: u64 = 200;

/// What is to be done next.
#[derive(Debug, Clone, Copy, PartialEq, Eq, Structural)]
pub enum Fill {
    /// The packet is complete (or there is none).
    Ready,
    /// Offer the next packet of the controller.
    Gather,
}

/// Packets on their way to the stack.
pub struct BufferedHci {
    pub buf: Vec<u8>,
    pub start: usize,
    pub stray: Vec<u8>,
    /// L2CAP bytes of the PDU being merged.
    pub want: usize,
    pub deadline: u64,
}

/// The buffer, mathematically.
pub struct HciModel {
    pub buf: Seq<u8>,
    pub start: int,
    pub stray: Seq<u8>,
    pub want: int,
    pub deadline: u64,
}

impl View for BufferedHci {
    type V = HciModel;

    open spec fn view(&self) -> HciModel {
        HciModel {
            buf: self.buf@,
            start: self.start as int,
            stray: self.stray@,
            want: self.want as int,
            deadline: self.deadline,
        }
    }
}

/// Packet boundary flag of an ACL packet.
pub open spec fn pb_flag(pkt: Seq<u8>) -> u8 {
    (pkt[2] >> 4) & 0x3
}

/// A packet that continues a PDU.
pub open spec fn continues(pkt: Seq<u8>) -> bool {
    pkt.len() >= ACL_HDR && pkt[0] == HCI_ACL && pb_flag(pkt) == 0b01
}

/// The number of L2CAP bytes of the PDU that a packet starts, its own header
/// included, if the packet does not hold all of them.
pub open spec fn unfinished(pkt: Seq<u8>) -> Option<int> {
    if pkt.len() < ACL_HDR + 4 || pkt[0] != HCI_ACL || pb_flag(pkt) == 0b01 {
        None
    } else {
        let here = crate::bytes::word(pkt[4], pkt[3]) as int;
        let want = crate::bytes::word(pkt[6], pkt[5]) + 4;
        if here >= want {
            None
        } else {
            Some(want)
        }
    }
}

/// The part of `part` that fits behind `n` bytes in `room`.
pub open spec fn fitting(part: Seq<u8>, n: int, room: int) -> Seq<u8> {
    if part.len() <= room - n {
        part
    } else {
        part.take(room - n)
    }
}

impl HciModel {
    pub open spec fn wf(self) -> bool {
        &&& 0 <= self.start <= self.buf.len() <= BUFFER
        &&& self.stray.len() <= STRAY
    }

    /// A merge is going on.
    pub open spec fn gathering(self) -> bool {
        self.buf.len() >= ACL_HDR && self.buf.len() - ACL_HDR < self.want
    }

    pub open spec fn fresh() -> HciModel {
        HciModel { buf: Seq::empty(), start: 0, stray: Seq::empty(), want: 0, deadline: 0 }
    }

    /// A new packet; a merge begins if it starts a longer PDU and holds less
    /// of it than promised.
    pub open spec fn begin(self, pkt: Seq<u8>, now: u64) -> (HciModel, Fill) {
        match unfinished(pkt) {
            None => (
                HciModel { buf: pkt, start: 0, stray: Seq::empty(), want: 0, deadline: 0 },
                Fill::Ready,
            ),
            Some(want) => HciModel {
                buf: pkt,
                start: 0,
                stray: Seq::empty(),
                want,
                deadline: (now + GATHER_MS) as u64,
            }.settle(),
        }
    }

    /// Finish the merge if nothing is missing.
    pub open spec fn settle(self) -> (HciModel, Fill) {
        if self.gathering() {
            (self, Fill::Gather)
        } else {
            (self.finish(), Fill::Ready)
        }
    }

    /// The next packet of the controller, empty if there is none.
    pub open spec fn offer(self, pkt: Seq<u8>, now: u64) -> (HciModel, Fill) {
        if pkt.len() == 0 {
            if now > self.deadline {
                (self.finish(), Fill::Ready)
            } else {
                (self, Fill::Gather)
            }
        } else if continues(pkt) {
            HciModel {
                buf: self.buf + fitting(
                    pkt.skip(ACL_HDR as int),
                    self.buf.len() as int,
                    BUFFER as int,
                ),
                ..self
            }.settle()
        } else if self.stray.len() + pkt.len() <= STRAY {
            (HciModel { stray: self.stray + pkt, ..self }, Fill::Gather)
        } else {
            (self, Fill::Gather)
        }
    }

    /// The merged packet with its new length, then what arrived in between.
    pub open spec fn finish(self) -> HciModel {
        let merged = crate::bytes::spliced(
            self.buf,
            3,
            crate::bytes::le16((self.buf.len() - ACL_HDR) as u16),
        );
        HciModel {
            buf: merged + fitting(self.stray, merged.len() as int, BUFFER as int),
            stray: Seq::empty(),
            want: 0,
            ..self
        }
    }

    /// How many bytes a read into `room` bytes gives.
    pub open spec fn served(self, room: nat) -> int {
        if self.buf.len() - self.start < room {
            self.buf.len() - self.start
        } else {
            room as int
        }
    }
}

impl BufferedHci {
    pub fn new() -> (hci: BufferedHci)
        ensures
            hci@ == HciModel::fresh(),
            hci@.wf(),
    {
        let hci = BufferedHci {
            buf: Vec::new(),
            start: 0,
            stray: Vec::new(),
            want: 0,
            deadline: 0,
        };
        assert(hci@.buf =~= Seq::empty());
        assert(hci@.stray =~= Seq::empty());
        hci
    }

    fn acl_pb_flag(pkt: &[u8]) -> (flag: u8)
        requires
            pkt@.len() >= 3,
        ensures
            flag == pb_flag(pkt@),
    {
        (pkt[2] >> 4) & 0x3
    }

    /// Has everything been served, so that the next packet is due?
    pub fn is_empty(&self) -> (yes: bool)
        ensures
            yes == (self@.start == self@.buf.len()),
    {
        self.start == self.buf.len()
    }

    /// Take in the next packet, completing a fragmented ACL packet if
    /// necessary: as long as the answer is [`Fill::Gather`], more packets have
    /// to be offered. An empty packet means that the controller has none.
    pub fn begin(&mut self, pkt: &[u8], now: u64) -> (fill: Fill)
        requires
            pkt@.len() <= BUFFER,
            now <= u64::MAX - GATHER_MS,
        ensures
            (final(self)@, fill) == old(self)@.begin(pkt@, now),
            final(self)@.wf(),
            fill == Fill::Gather <==> final(self)@.gathering(),
    {
        self.buf = owned(pkt);
        self.start = 0;
        self.stray = Vec::new();
        assert(self.stray@ =~= Seq::empty());
        self.want = 0;
        self.deadline = 0;
        if pkt.len() < ACL_HDR + 4 || pkt[0] != HCI_ACL || Self::acl_pb_flag(pkt) == 0b01 {
            return Fill::Ready;
        }
        let here = join16(pkt[4], pkt[3]) as usize;
        let want = join16(pkt[6], pkt[5]) as usize + 4;
        if here >= want {
            return Fill::Ready;
        }
        self.want = want;
        self.deadline = now + GATHER_MS;
        self.settle()
    }

    fn settle(&mut self) -> (fill: Fill)
        requires
            old(self)@.wf(),
            old(self)@.buf.len() >= ACL_HDR,
        ensures
            (final(self)@, fill) == old(self)@.settle(),
            final(self)@.wf(),
            fill == Fill::Gather <==> final(self)@.gathering(),
    {
        if self.buf.len() - ACL_HDR < self.want {
            return Fill::Gather;
        }
        self.finish();
        Fill::Ready
    }

    /// Take in a packet while a PDU is being merged.
    pub fn offer(&mut self, pkt: &[u8], now: u64) -> (fill: Fill)
        requires
            old(self)@.wf(),
            old(self)@.gathering(),
        ensures
            (final(self)@, fill) == old(self)@.offer(pkt@, now),
            final(self)@.wf(),
            fill == Fill::Gather <==> final(self)@.gathering(),
    {
        if pkt.len() == 0 {
            if now > self.deadline {
                self.finish();
                return Fill::Ready;
            }
            return Fill::Gather;
        }
        if pkt.len() >= ACL_HDR && pkt[0] == HCI_ACL && Self::acl_pb_flag(pkt) == 0b01 {
            let payload = vstd::slice::slice_subrange(pkt, ACL_HDR, pkt.len());
            assert(payload@ =~= pkt@.skip(ACL_HDR as int));
            append_fitting(&mut self.buf, payload, BUFFER);
            return self.settle();
        }
        if pkt.len() <= STRAY && self.stray.len() <= STRAY - pkt.len() {
            // e.g. an HCI event: keep it for after the merged packet.
            self.stray.extend_from_slice(pkt);
            assert(self.stray@ =~= old(self)@.stray + pkt@);
        }
        Fill::Gather
    }

    fn finish(&mut self)
        requires
            old(self)@.wf(),
            old(self)@.buf.len() >= ACL_HDR,
        ensures
            final(self)@ == old(self)@.finish(),
            final(self)@.wf(),
            !final(self)@.gathering(),
    {
        let len = le16_bytes((self.buf.len() - ACL_HDR) as u16);
        self.buf[3] = len[0];
        self.buf[4] = len[1];
        assert(self.buf@ =~= crate::bytes::spliced(
            old(self)@.buf,
            3,
            crate::bytes::le16((old(self)@.buf.len() - ACL_HDR) as u16),
        ));
        append_fitting(&mut self.buf, self.stray.as_slice(), BUFFER);
        self.stray = Vec::new();
        assert(self.stray@ =~= Seq::empty());
        self.want = 0;
    }

    /// Serve bytes; the number of them.
    pub fn read(&mut self, out: &mut [u8]) -> (n: usize)
        requires
            old(self)@.wf(),
        ensures
            n == old(self)@.served(old(out)@.len()),
            final(self)@ == (HciModel { start: old(self)@.start + n, ..old(self)@ }),
            final(self)@.wf(),
            final(out)@ == crate::bytes::spliced(
                old(out)@,
                0,
                old(self)@.buf.subrange(old(self)@.start, old(self)@.start + n),
            ),
    {
        let left = self.buf.len() - self.start;
        let n = if left < out.len() {
            left
        } else {
            out.len()
        };
        let part = vstd::slice::slice_subrange(self.buf.as_slice(), self.start, self.start + n);
        splice(out, 0, part);
        self.start += n;
        n
    }
}

fn append_fitting(v: &mut Vec<u8>, part: &[u8], room: usize)
    requires
        old(v)@.len() <= room,
    ensures
        final(v)@ == old(v)@ + fitting(part@, old(v)@.len() as int, room as int),
        final(v)@.len() <= room,
{
    let left = room - v.len();
    let k = if part.len() <= left {
        part.len()
    } else {
        left
    };
    let head = vstd::slice::slice_subrange(part, 0, k);
    assert(head@ =~= fitting(part@, old(v)@.len() as int, room as int));
    v.extend_from_slice(head);
    assert(v@ =~= old(v)@ + head@);
}

/// The parts of a PDU one after the other.
pub open spec fn merged_bytes(parts: Seq<Seq<u8>>) -> Seq<u8>
    decreases parts.len(),
{
    if parts.len() == 0 {
        Seq::empty()
    } else {
        merged_bytes(parts.drop_last()) + parts.last()
    }
}

/// The buffer after the controller handed over these packets one by one.
pub open spec fn offered(m: HciModel, pkts: Seq<Seq<u8>>, now: u64) -> (HciModel, Fill)
    decreases pkts.len(),
{
    if pkts.len() == 0 {
        m.settle()
    } else {
        offered(m, pkts.drop_last(), now).0.offer(pkts.last(), now)
    }
}

/// Continuation packets are put together in order, and the merge goes on
/// until everything is there.
pub proof fn fragments_are_put_together(m: HciModel, pkts: Seq<Seq<u8>>, now: u64)
    requires
        m.wf(),
        m.gathering(),
        m.want + ACL_HDR <= BUFFER,
        forall|i: int| 0 <= i < pkts.len() ==> continues(#[trigger] pkts[i]),
        m.buf.len() + merged_bytes(pkts.map(|_i: int, p: Seq<u8>| p.skip(ACL_HDR as int))).len()
            < m.want + ACL_HDR,
    ensures
        offered(m, pkts, now) == (
            HciModel {
                buf: m.buf + merged_bytes(
                    pkts.map(|_i: int, p: Seq<u8>| p.skip(ACL_HDR as int)),
                ),
                ..m
            },
            Fill::Gather,
        ),
    decreases pkts.len(),
{
    let parts = pkts.map(|_i: int, p: Seq<u8>| p.skip(ACL_HDR as int));
    if pkts.len() == 0 {
        assert(m.buf + merged_bytes(parts) =~= m.buf);
    } else {
        let before = pkts.drop_last();
        let before_parts = before.map(|_i: int, p: Seq<u8>| p.skip(ACL_HDR as int));
        assert(parts.drop_last() =~= before_parts);
        assert(parts.last() == pkts.last().skip(ACL_HDR as int));
        fragments_are_put_together(m, before, now);
        assert(m.buf + merged_bytes(before_parts) + parts.last() =~= m.buf + merged_bytes(parts));
    }
}

/// A PDU whose last fragment arrives comes out whole: header with the true
/// length, then the L2CAP bytes in order, then what arrived in between.
pub proof fn a_completed_pdu_comes_out_whole(m: HciModel, last: Seq<u8>, now: u64)
    requires
        m.wf(),
        m.gathering(),
        continues(last),
        m.want + ACL_HDR + m.stray.len() <= BUFFER,
        m.buf.len() + last.len() - ACL_HDR == m.want + ACL_HDR,
    ensures
        ({
            let (done, fill) = m.offer(last, now);
            &&& fill == Fill::Ready
            &&& done.buf == m.buf.take(3) + crate::bytes::le16(m.want as u16) + m.buf.skip(
                ACL_HDR as int,
            ) + last.skip(ACL_HDR as int) + m.stray
        }),
{
    let (done, _) = m.offer(last, now);
    assert(done.buf =~= m.buf.take(3) + crate::bytes::le16(m.want as u16) + m.buf.skip(
        ACL_HDR as int,
    ) + last.skip(ACL_HDR as int) + m.stray);
}

/// The packet boundary flag stands in bits four and five of the third byte;
/// one means that the packet continues a PDU.
pub proof fn continuations_are_recognised(pkt: Seq<u8>)
    ensures
        continues(pkt) <==> pkt.len() >= 5 && pkt[0] == 2 && pkt[2] / 16 % 4 == 1,
{
    if pkt.len() >= 5 {
        crate::bits::low_bits_are_remainders(pkt[2]);
        crate::bits::low_bits_are_remainders(pkt[2] >> 4);
    }
}

/// A packet leaves its PDU unfinished if it starts one (it is an ACL packet
/// with an L2CAP header and continues none) and its own length is smaller than
/// the L2CAP length and its four bytes of header.
pub proof fn unfinished_packets_are_recognised(pkt: Seq<u8>)
    ensures
        ({
            let starts = pkt.len() >= 9 && pkt[0] == 2 && pkt[2] / 16 % 4 != 1;
            let here = pkt[3] + 256 * pkt[4];
            let want = pkt[5] + 256 * pkt[6] + 4;
            &&& starts && here < want ==> unfinished(pkt) == Some(want as int)
            &&& !(starts && here < want) ==> unfinished(pkt) is None
        }),
{
    if pkt.len() >= 9 {
        crate::bits::low_bits_are_remainders(pkt[2]);
        crate::bits::low_bits_are_remainders(pkt[2] >> 4);
        crate::bytes::words_are_sums(pkt[6], pkt[5], pkt[4], pkt[3]);
        crate::bytes::words_are_sums(0, 0, pkt[6], pkt[5]);
    }
}

/// A packet that needs no more is served as it came, whatever was there
/// before.
pub proof fn whole_packets_pass(m: HciModel, pkt: Seq<u8>, now: u64)
    requires
        unfinished(pkt) is None,
    ensures
        m.begin(pkt, now).1 == Fill::Ready,
        m.begin(pkt, now).0.buf == pkt,
        m.begin(pkt, now).0.start == 0,
{
}

/// A packet that starts a longer PDU is kept, and more is asked for during 200
/// ms.
pub proof fn a_merge_begins(m: HciModel, pkt: Seq<u8>, now: u64)
    requires
        unfinished(pkt) matches Some(want) && pkt.len() - 5 < want,
        now <= u64::MAX - 200,
    ensures
        ({
            let (after, fill) = m.begin(pkt, now);
            &&& fill == Fill::Gather
            &&& after.buf == pkt
            &&& after.start == 0
            &&& after.stray.len() == 0
            &&& Some(after.want) == unfinished(pkt)
            &&& after.deadline == now + 200
        }),
{
}

/// While a PDU is merged, packets of other kinds are kept behind each other
/// and the merge goes on; without a packet it goes on until the time is over,
/// and then ends with what is there.
pub proof fn a_merge_is_not_disturbed(m: HciModel, pkt: Seq<u8>, now: u64)
    requires
        m.wf(),
        m.gathering(),
        !continues(pkt),
    ensures
        ({
            let (after, fill) = m.offer(pkt, now);
            &&& pkt.len() > 0 && m.stray.len() + pkt.len() <= 512 ==> fill == Fill::Gather && after
                == (HciModel { stray: m.stray + pkt, ..m })
            &&& pkt.len() > 0 && m.stray.len() + pkt.len() > 512 ==> fill == Fill::Gather && after
                == m
            &&& pkt.len() == 0 && now <= m.deadline ==> fill == Fill::Gather && after == m
            &&& pkt.len() == 0 && now > m.deadline ==> {
                &&& fill == Fill::Ready
                &&& after.stray.len() == 0
                &&& m.buf.len() + m.stray.len() <= 1024 ==> after.buf == m.buf.take(3)
                    + crate::bytes::le16((m.buf.len() - 5) as u16) + m.buf.skip(5) + m.stray
            }
        }),
{
    let (after, _) = m.offer(pkt, now);
    if pkt.len() == 0 && now > m.deadline && m.buf.len() + m.stray.len() <= 1024 {
        assert(after.buf =~= m.buf.take(3) + crate::bytes::le16((m.buf.len() - 5) as u16)
            + m.buf.skip(5) + m.stray);
    }
}

/// A read gives what is left, as far as there is room.
pub proof fn reads_give_what_is_left(m: HciModel, room: nat)
    requires
        m.wf(),
    ensures
        ({
            let n = m.served(room);
            &&& 0 <= n <= room
            &&& m.start + n <= m.buf.len()
            &&& n == room || m.start + n == m.buf.len()
        }),
{
}

/// What continues a PDU is kept up to the end of the buffer, and never more.
pub proof fn a_merge_keeps_to_the_buffer(m: HciModel, pkt: Seq<u8>, now: u64)
    requires
        m.wf(),
        m.gathering(),
        continues(pkt),
        m.stray.len() == 0,
    ensures
        ({
            let (after, fill) = m.offer(pkt, now);
            let all = m.buf.len() + pkt.len() - 5;
            &&& all <= 1024 && all - 5 < m.want ==> fill == Fill::Gather && after.buf == m.buf
                + pkt.skip(5)
            &&& all > 1024 ==> after.buf.len() == 1024 && after.buf.skip(5) == (m.buf + pkt.skip(
                5,
            )).subrange(5, 1024)
        }),
{
    let all = m.buf.len() + pkt.len() - 5;
    let (after, _) = m.offer(pkt, now);
    if all > 1024 {
        assert(after.buf.skip(5) =~= (m.buf + pkt.skip(5)).subrange(5, 1024));
    }
}

} // verus!
