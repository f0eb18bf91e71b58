//! BLE image transfer: a GATT service that receives a 1-bpp image.
//!
//! Protocol v2 (all little endian). Windowed, acknowledged transfer:
//!
//! * CTRL characteristic (write / write-without-response):
//!   * `11 len:u32 crc32:u32 ack_every:u8` — start a plate-text transfer
//!     (UTF-8 `name\ntitle\norg\nnote\nurl`, applied on commit).
//!   * `10 w:u16 h:u16 len:u32 crc32:u32 ack_every:u8` — start a transfer
//!     (`len` = row_bytes*h, `crc32` = IEEE CRC-32 of the payload,
//!     `ack_every` = number of accepted DATA packets per acknowledgement,
//!     0 → 8).
//!   * `02` — commit: verify length + CRC and apply.
//!   * `03` — abort.
//!   * `04` — sync: request a STATUS notification now.
//!   * `05` — bench: request a short doze test.
//! * DATA characteristic (write-without-response): `off:u16 | payload`.
//!   Packets must arrive in order (`off` == bytes received so far); an
//!   out-of-order packet is dropped and answered with a STATUS notification
//!   (NAK) carrying the offset the device actually expects, once per streak.
//! * CONTENT characteristic (read): current plate text in the plain form.
//! * STATUS characteristic (read / notify): `state:u8 received:u32 expected:u32`
//!   state: 0 idle, 1 receiving, 2 committed, 3 CRC error, 4 commit with
//!   missing data. A notification is sent after every `ack_every` accepted
//!   packets, when the last byte arrives, on NAK, and after start/commit/
//!   abort/sync.
//!
//! The client sends `ack_every` packets, waits for the STATUS notification
//! whose `received` covers them, and continues (rewinding to `received` on a
//! NAK). This gives back-pressure so the phone's write-without-response
//! flood can never overrun the device, and every loss is detected and
//! repaired within one window.

use crate::app::image::{image_bytes, ImageModel, MonoImage};
use crate::bytes::{join16, join32, le32_bytes, owned, splice};
use vstd::prelude::*;

pub mod hci;
pub mod laws;
pub mod session;

verus! {

pub const DEVICE_NAME: &'static str = "PaperPlate";

pub const MAX_IMAGE_BYTES: usize = 48_000;

pub const DEFAULT_ACK_EVERY: u8 = 8;

/// Plate text payload cap (the NTAG user area is 888 B anyway).
pub const MAX_CONTENT_BYTES: usize = 1024;

// Attribute handles (1-based, in table order).
pub const H_CTRL_VAL: u16 = 3;

pub const H_DATA_VAL: u16 = 5;

pub const H_STATUS_VAL: u16 = 7;

pub const H_CONTENT_VAL: u16 = 10;

pub const PROP_READ: u8 = 0x02;

pub const PROP_WRITE_NO_RSP: u8 = 0x04;

pub const PROP_WRITE: u8 = 0x08;

pub const PROP_NOTIFY: u8 = 0x10;

pub const ST_IDLE: u8 = 0;

pub const ST_RECEIVING: u8 = 1;

pub const ST_COMMITTED: u8 = 2;

pub const ST_CRC_ERROR: u8 = 3;

pub const ST_INCOMPLETE: u8 = 4;

pub const KIND_IMAGE: u8 = 1;

pub const KIND_CONTENT: u8 = 2;

// ----------------------------------------------------------------------
// attribute table
// ----------------------------------------------------------------------

/// 128-bit UUID `50415045-5250-4c41-5445-0000000000xx` ("PAPERPLATE"),
/// in the little-endian byte order the ATT layer uses.
pub open spec fn uuid(last: u8) -> Seq<u8> {
    seq![
        last,
        0x00u8,
        0x00u8,
        0x00u8,
        0x00u8,
        0x00u8,
        0x45u8,
        0x54u8,
        0x41u8,
        0x4cu8,
        0x50u8,
        0x52u8,
        0x45u8,
        0x50u8,
        0x41u8,
        0x50u8,
    ]
}

pub fn uuid_le(last: u8) -> (id: [u8; 16])
    ensures
        id@ == uuid(last),
{
    let id = [
        last,
        0x00,
        0x00,
        0x00,
        0x00,
        0x00,
        0x45,
        0x54,
        0x41,
        0x4c,
        0x50,
        0x52,
        0x45,
        0x50,
        0x41,
        0x50,
    ];
    assert(id@ =~= uuid(last));
    id
}

/// Characteristic declaration value: `props | value_handle:u16 | uuid128`.
pub fn char_decl(props: u8, value_handle: u16, id: [u8; 16]) -> (d: [u8; 19])
    ensures
        d@ == seq![props] + crate::bytes::le16(value_handle) + id@,
{
    let mut d = [0u8; 19];
    d[0] = props;
    d[1] = (value_handle % 256) as u8;
    d[2] = (value_handle / 256) as u8;
    splice(&mut d, 3, &id);
    assert(d@ =~= seq![props] + crate::bytes::le16(value_handle) + id@);
    d
}

/// How many bytes of a value a read from `offset` into `room` bytes gives.
pub open spec fn readable(len: nat, offset: usize, room: nat) -> nat {
    if offset >= len {
        0
    } else if len - offset < room {
        (len - offset) as nat
    } else {
        room
    }
}

/// Read an attribute value from `offset` on (long-read capable); the number
/// of bytes.
pub fn read_value(value: &[u8], offset: usize, out: &mut [u8]) -> (n: usize)
    ensures
        n == readable(value@.len(), offset, old(out)@.len()),
        final(out)@ == if n == 0 {
            old(out)@
        } else {
            crate::bytes::spliced(
                old(out)@,
                0,
                value@.subrange(offset as int, offset as int + n as int),
            )
        },
{
    if offset >= value.len() {
        return 0;
    }
    let left = value.len() - offset;
    let n = if left < out.len() {
        left
    } else {
        out.len()
    };
    let part = vstd::slice::slice_subrange(value, offset, offset + n);
    splice(out, 0, part);
    assert(n == 0 ==> out@ =~= old(out)@);
    n
}

/// Write a two-byte attribute value from `offset` on; what does not fit is
/// dropped.
pub fn write_cccd(value: &mut [u8; 2], offset: usize, d: &[u8])
    ensures
        final(value)@ == if offset >= 2 {
            old(value)@
        } else {
            crate::bytes::spliced(
                old(value)@,
                offset as int,
                d@.take(readable(2, offset, d@.len()) as int),
            )
        },
{
    if offset < 2 {
        let n = if 2 - offset < d.len() {
            2 - offset
        } else {
            d.len()
        };
        let part = vstd::slice::slice_subrange(d, 0, n);
        assert(part@ =~= d@.take(n as int));
        splice(value, offset, part);
    }
}

// ----------------------------------------------------------------------
// CRC-32
// ----------------------------------------------------------------------

/// `n` bits of the reflected IEEE polynomial.
pub open spec fn crc32_bits(crc: u32, n: nat) -> u32
    decreases n,
{
    if n == 0 {
        crc
    } else {
        let c = crc32_bits(crc, (n - 1) as nat);
        if c & 1 != 0 {
            (c >> 1) ^ 0xEDB8_8320
        } else {
            c >> 1
        }
    }
}

/// The register after some bytes.
pub open spec fn crc32_register(data: Seq<u8>) -> u32
    decreases data.len(),
{
    if data.len() == 0 {
        0xFFFF_FFFF
    } else {
        crc32_bits(crc32_register(data.drop_last()) ^ data.last() as u32, 8)
    }
}

/// IEEE CRC-32.
pub open spec fn crc32_of(data: Seq<u8>) -> u32 {
    !crc32_register(data)
}

pub fn crc32(data: &[u8]) -> (crc: u32)
    ensures
        crc == crc32_of(data@),
{
    let mut crc: u32 = 0xFFFF_FFFF;
    let mut i: usize = 0;
    while i < data.len()
        invariant
            i <= data@.len(),
            crc == crc32_register(data@.take(i as int)),
        decreases data@.len() - i,
    {
        let start = crc ^ data[i] as u32;
        crc = start;
        let mut bit: u8 = 0;
        while bit < 8
            invariant
                bit <= 8,
                crc == crc32_bits(start, bit as nat),
            decreases 8 - bit,
        {
            crc = if crc & 1 != 0 {
                (crc >> 1) ^ 0xEDB8_8320
            } else {
                crc >> 1
            };
            bit += 1;
        }
        assert(data@.take(i + 1).drop_last() =~= data@.take(i as int));
        i += 1;
    }
    assert(data@.take(i as int) =~= data@);
    !crc
}

// ----------------------------------------------------------------------
// transfer
// ----------------------------------------------------------------------

/// The receiving side of a transfer.
#[derive(Debug, Default)]
pub struct ImgRx {
    pub state: u8,
    /// What the current transfer carries (`KIND_*`).
    pub kind: u8,
    pub width: u16,
    pub height: u16,
    pub expected: usize,
    pub crc: u32,
    pub ack_every: u8,
    pub data: Vec<u8>,
    pub done: Option<MonoImage>,
    pub done_content: Option<Vec<u8>>,
    /// Time of the last GATT interaction (for BLE-priority scheduling).
    pub last_ms: u64,
    /// Client subscribed to STATUS notifications (CCCD).
    pub notify_on: bool,
    /// A STATUS notification should be sent at the next opportunity.
    pub pending_ntf: bool,
    /// Accepted packets since the last acknowledgement.
    pub since_ack: u8,
    /// A NAK was already sent for the current out-of-order streak.
    pub nak_sent: bool,
    /// Bench: CTRL `05` requests a short doze test (light sleep a few
    /// times, then come back and report).
    pub doze_test_req: bool,
}

/// The receiving side, mathematically.
pub struct RxModel {
    pub state: u8,
    pub kind: u8,
    pub width: u16,
    pub height: u16,
    pub expected: int,
    pub crc: u32,
    pub ack_every: u8,
    pub data: Seq<u8>,
    pub done: Option<ImageModel>,
    pub done_content: Option<Seq<u8>>,
    pub last_ms: u64,
    pub notify_on: bool,
    pub pending_ntf: bool,
    pub since_ack: u8,
    pub nak_sent: bool,
    pub doze_test_req: bool,
}

impl View for ImgRx {
    type V = RxModel;

    open spec fn view(&self) -> RxModel {
        RxModel {
            state: self.state,
            kind: self.kind,
            width: self.width,
            height: self.height,
            expected: self.expected as int,
            crc: self.crc,
            ack_every: self.ack_every,
            data: self.data@,
            done: crate::app::image::image_view(self.done),
            done_content: crate::bytes::bytes_view(self.done_content),
            last_ms: self.last_ms,
            notify_on: self.notify_on,
            pending_ntf: self.pending_ntf,
            since_ack: self.since_ack,
            nak_sent: self.nak_sent,
            doze_test_req: self.doze_test_req,
        }
    }
}

/// Zero stands for the default number of packets per acknowledgement.
pub open spec fn ack_window(asked: u8) -> u8 {
    if asked == 0 {
        DEFAULT_ACK_EVERY
    } else {
        asked
    }
}

/// The 32-bit little-endian number at `i`.
pub open spec fn number(d: Seq<u8>, i: int) -> u32 {
    crate::bytes::dword(d[i + 3], d[i + 2], d[i + 1], d[i])
}

impl RxModel {
    pub open spec fn fresh() -> RxModel {
        RxModel {
            state: ST_IDLE,
            kind: 0,
            width: 0,
            height: 0,
            expected: 0,
            crc: 0,
            ack_every: 0,
            data: Seq::empty(),
            done: None,
            done_content: None,
            last_ms: 0,
            notify_on: false,
            pending_ntf: false,
            since_ack: 0,
            nak_sent: false,
            doze_test_req: false,
        }
    }

    /// What every operation keeps.
    pub open spec fn wf(self) -> bool {
        &&& self.data.len() <= self.expected <= MAX_IMAGE_BYTES
        &&& self.state == ST_RECEIVING ==> {
            &&& self.expected > 0
            &&& self.since_ack < self.ack_every
            &&& self.kind == KIND_IMAGE || self.kind == KIND_CONTENT
            &&& self.kind == KIND_IMAGE ==> 1 <= self.width <= 480 && 1 <= self.height <= 800
                && self.expected == crate::app::image::row_bytes(self.width) * self.height
        }
        &&& self.done matches Some(image) ==> image.wf()
    }

    /// Everything forgotten but the subscription.
    pub open spec fn reset(self, now: u64) -> RxModel {
        RxModel { notify_on: self.notify_on, last_ms: now, ..RxModel::fresh() }
    }

    pub open spec fn notify(self) -> RxModel {
        RxModel { pending_ntf: true, ..self }
    }

    pub open spec fn start_content(self, len: u32, crc: u32, ack_every: u8, now: u64) -> RxModel {
        if len == 0 || len > MAX_CONTENT_BYTES {
            self.reset(now).notify()
        } else {
            RxModel {
                state: ST_RECEIVING,
                kind: KIND_CONTENT,
                expected: len as int,
                crc,
                ack_every,
                ..self.reset(now)
            }.notify()
        }
    }

    pub open spec fn start_image(
        self,
        w: u16,
        h: u16,
        len: u32,
        crc: u32,
        ack_every: u8,
        now: u64,
    ) -> RxModel {
        if w == 0 || h == 0 || w > 480 || h > 800 || len != crate::app::image::row_bytes(w) * h {
            self.reset(now).notify()
        } else {
            RxModel {
                state: ST_RECEIVING,
                kind: KIND_IMAGE,
                width: w,
                height: h,
                expected: len as int,
                crc,
                ack_every,
                ..self.reset(now)
            }.notify()
        }
    }

    pub open spec fn commit(self) -> RxModel {
        if self.state != ST_RECEIVING {
            self.notify()
        } else if self.data.len() != self.expected {
            RxModel { state: ST_INCOMPLETE, data: Seq::empty(), ..self }.notify()
        } else if crc32_of(self.data) != self.crc {
            RxModel { state: ST_CRC_ERROR, data: Seq::empty(), ..self }.notify()
        } else if self.kind == KIND_CONTENT {
            RxModel {
                state: ST_COMMITTED,
                done_content: Some(self.data),
                data: Seq::empty(),
                ..self
            }.notify()
        } else {
            RxModel {
                state: ST_COMMITTED,
                done: Some(
                    ImageModel { width: self.width, height: self.height, bits: self.data },
                ),
                data: Seq::empty(),
                ..self
            }.notify()
        }
    }

    /// A write to CTRL.
    pub open spec fn ctrl(self, d: Seq<u8>, now: u64) -> RxModel {
        let s = RxModel { last_ms: now, ..self };
        if d.len() >= 10 && d[0] == 0x11 {
            s.start_content(number(d, 1), number(d, 5), ack_window(d[9]), now)
        } else if d.len() >= 14 && d[0] == 0x10 {
            s.start_image(
                crate::bytes::word(d[2], d[1]),
                crate::bytes::word(d[4], d[3]),
                number(d, 5),
                number(d, 9),
                ack_window(d[13]),
                now,
            )
        } else if d.len() >= 1 && d[0] == 0x02 {
            s.commit()
        } else if d.len() >= 1 && d[0] == 0x03 {
            s.reset(now).notify()
        } else if d.len() >= 1 && d[0] == 0x04 {
            s.notify()
        } else if d.len() >= 1 && d[0] == 0x05 {
            RxModel { doze_test_req: true, ..s }
        } else {
            s
        }
    }

    /// A packet is accepted if it continues the data and does not overrun it.
    pub open spec fn accepts(self, off: u16, payload: Seq<u8>) -> bool {
        off == self.data.len() && self.data.len() + payload.len() <= self.expected
    }

    /// A write to DATA.
    pub open spec fn push(self, d: Seq<u8>, now: u64) -> RxModel {
        let s = RxModel { last_ms: now, ..self };
        if self.state != ST_RECEIVING || d.len() < 3 {
            s
        } else {
            let payload = d.skip(2);
            if self.accepts(crate::bytes::word(d[1], d[0]), payload) {
                let data = self.data + payload;
                let due = self.since_ack + 1 >= self.ack_every || data.len() == self.expected;
                RxModel {
                    data,
                    nak_sent: false,
                    since_ack: if due {
                        0
                    } else {
                        (self.since_ack + 1) as u8
                    },
                    pending_ntf: self.pending_ntf || due,
                    ..s
                }
            } else if !self.nak_sent {
                RxModel { nak_sent: true, since_ack: 0, pending_ntf: true, ..s }
            } else {
                s
            }
        }
    }

    /// `state | received | expected`.
    pub open spec fn status_bytes(self) -> Seq<u8> {
        seq![self.state] + crate::bytes::le32(self.data.len() as u32) + crate::bytes::le32(
            self.expected as u32,
        )
    }

    /// The pending notification is gone afterwards, and sent if subscribed.
    pub open spec fn notification(self) -> Option<Seq<u8>> {
        if self.pending_ntf && self.notify_on {
            Some(self.status_bytes())
        } else {
            None
        }
    }

    pub open spec fn notified(self) -> RxModel {
        RxModel { pending_ntf: false, ..self }
    }
}

pub open spec fn status_view(s: Option<[u8; 9]>) -> Option<Seq<u8>> {
    match s {
        Some(b) => Some(b@),
        None => None,
    }
}

impl ImgRx {
    pub fn new() -> (rx: ImgRx)
        ensures
            rx@ == RxModel::fresh(),
            rx@.wf(),
    {
        let rx = ImgRx {
            state: ST_IDLE,
            kind: 0,
            width: 0,
            height: 0,
            expected: 0,
            crc: 0,
            ack_every: 0,
            data: Vec::new(),
            done: None,
            done_content: None,
            last_ms: 0,
            notify_on: false,
            pending_ntf: false,
            since_ack: 0,
            nak_sent: false,
            doze_test_req: false,
        };
        assert(rx@.data =~= Seq::empty());
        rx
    }

    pub fn receiving(&self) -> (yes: bool)
        ensures
            yes == (self@.state == ST_RECEIVING),
    {
        self.state == ST_RECEIVING
    }

    fn start_content(&mut self, len: u32, crc: u32, ack_every: u8, now: u64)
        requires
            old(self)@.wf(),
            ack_every > 0,
        ensures
            final(self)@ == old(self)@.start_content(len, crc, ack_every, now),
            final(self)@.wf(),
    {
        self.reset(now);
        if !(len == 0 || len as u64 > MAX_CONTENT_BYTES as u64) {
            self.state = ST_RECEIVING;
            self.kind = KIND_CONTENT;
            self.expected = len as usize;
            self.crc = crc;
            self.ack_every = ack_every;
        }
        self.pending_ntf = true;
    }

    fn start_image(&mut self, w: u16, h: u16, len: u32, crc: u32, ack_every: u8, now: u64)
        requires
            old(self)@.wf(),
            ack_every > 0,
        ensures
            final(self)@ == old(self)@.start_image(w, h, len, crc, ack_every, now),
            final(self)@.wf(),
    {
        self.reset(now);
        if let Some(n) = image_bytes(w, h) {
            if len as u64 == n as u64 {
                proof {
                    rows_are_some(w, h);
                }
                self.state = ST_RECEIVING;
                self.kind = KIND_IMAGE;
                self.width = w;
                self.height = h;
                self.expected = n;
                self.crc = crc;
                self.ack_every = ack_every;
            }
        }
        self.pending_ntf = true;
    }

    fn commit(&mut self)
        requires
            old(self)@.wf(),
        ensures
            final(self)@ == old(self)@.commit(),
            final(self)@.wf(),
    {
        if self.receiving() {
            if self.data.len() != self.expected {
                self.state = ST_INCOMPLETE;
                self.data = Vec::new();
            } else if crc32(self.data.as_slice()) != self.crc {
                self.state = ST_CRC_ERROR;
                self.data = Vec::new();
            } else if self.kind == KIND_CONTENT {
                self.state = ST_COMMITTED;
                self.done_content = Some(owned(self.data.as_slice()));
                self.data = Vec::new();
            } else {
                self.state = ST_COMMITTED;
                self.done = Some(
                    MonoImage {
                        width: self.width,
                        height: self.height,
                        bits: owned(self.data.as_slice()),
                    },
                );
                self.data = Vec::new();
            }
        }
        self.pending_ntf = true;
        assert(self.data@.len() == 0 ==> self.data@ =~= Seq::empty());
    }

    /// A write to the CTRL characteristic at time `now`.
    pub fn ctrl(&mut self, d: &[u8], now: u64)
        requires
            old(self)@.wf(),
        ensures
            final(self)@ == old(self)@.ctrl(d@, now),
            final(self)@.wf(),
    {
        self.last_ms = now;
        if d.len() == 0 {
            return;
        }
        let op = d[0];
        if op == 0x11 && d.len() >= 10 {
            let len = join32(d[4], d[3], d[2], d[1]);
            let crc = join32(d[8], d[7], d[6], d[5]);
            let ack_every = if d[9] == 0 {
                DEFAULT_ACK_EVERY
            } else {
                d[9]
            };
            self.start_content(len, crc, ack_every, now);
        } else if op == 0x10 && d.len() >= 14 {
            let w = join16(d[2], d[1]);
            let h = join16(d[4], d[3]);
            let len = join32(d[8], d[7], d[6], d[5]);
            let crc = join32(d[12], d[11], d[10], d[9]);
            let ack_every = if d[13] == 0 {
                DEFAULT_ACK_EVERY
            } else {
                d[13]
            };
            self.start_image(w, h, len, crc, ack_every, now);
        } else if op == 0x02 {
            self.commit();
        } else if op == 0x03 {
            self.reset(now);
            self.pending_ntf = true;
        } else if op == 0x04 {
            self.pending_ntf = true;
        } else if op == 0x05 {
            self.doze_test_req = true;
        }
    }

    /// A write to the DATA characteristic at time `now`.
    pub fn push(&mut self, d: &[u8], now: u64)
        requires
            old(self)@.wf(),
        ensures
            final(self)@ == old(self)@.push(d@, now),
            final(self)@.wf(),
    {
        self.last_ms = now;
        if !self.receiving() || d.len() < 3 {
            return;
        }
        let off = join16(d[1], d[0]) as usize;
        let payload = vstd::slice::slice_subrange(d, 2, d.len());
        assert(payload@ =~= d@.skip(2));
        if off == self.data.len() && payload.len() <= self.expected - self.data.len() {
            self.data.extend_from_slice(payload);
            assert(self.data@ =~= old(self)@.data + payload@);
            self.nak_sent = false;
            self.since_ack += 1;
            if self.since_ack >= self.ack_every || self.data.len() == self.expected {
                self.since_ack = 0;
                self.pending_ntf = true;
            }
        } else if !self.nak_sent {
            self.nak_sent = true;
            self.since_ack = 0;
            self.pending_ntf = true;
        }
    }

    pub fn status_bytes(&self) -> (out: [u8; 9])
        requires
            self@.wf(),
        ensures
            out@ == self@.status_bytes(),
    {
        let r = le32_bytes(self.data.len() as u32);
        let e = le32_bytes(self.expected as u32);
        let out = [self.state, r[0], r[1], r[2], r[3], e[0], e[1], e[2], e[3]];
        assert(out@ =~= self@.status_bytes());
        out
    }

    /// A read of the STATUS characteristic at time `now`: the number of
    /// bytes, nothing if they do not fit.
    pub fn status(&mut self, out: &mut [u8], now: u64) -> (n: usize)
        requires
            old(self)@.wf(),
        ensures
            final(self)@ == (RxModel { last_ms: now, ..old(self)@ }),
            final(self)@.wf(),
            n == if old(out)@.len() < 9 {
                0int
            } else {
                9int
            },
            final(out)@ == if n == 0 {
                old(out)@
            } else {
                crate::bytes::spliced(old(out)@, 0, old(self)@.status_bytes())
            },
    {
        self.last_ms = now;
        if out.len() < 9 {
            return 0;
        }
        splice(out, 0, &self.status_bytes());
        9
    }

    /// Take the pending STATUS notification, if the client subscribed.
    pub fn take_notification(&mut self) -> (ntf: Option<[u8; 9]>)
        requires
            old(self)@.wf(),
        ensures
            final(self)@ == old(self)@.notified(),
            final(self)@.wf(),
            status_view(ntf) == old(self)@.notification(),
    {
        if !self.pending_ntf {
            return None;
        }
        self.pending_ntf = false;
        if self.notify_on {
            Some(self.status_bytes())
        } else {
            None
        }
    }

    pub fn reset(&mut self, now: u64)
        ensures
            final(self)@ == old(self)@.reset(now),
            final(self)@.wf(),
    {
        let notify_on = self.notify_on;
        *self = ImgRx::new();
        self.notify_on = notify_on;
        self.last_ms = now;
    }
}

/// An image has bytes.
proof fn rows_are_some(w: u16, h: u16)
    requires
        w >= 1,
        h >= 1,
    ensures
        crate::app::image::row_bytes(w) * h > 0,
{
    let row = crate::app::image::row_bytes(w);
    assert(row * h > 0) by (nonlinear_arith)
        requires
            row >= 1,
            h >= 1,
    ;
}

} // verus!
