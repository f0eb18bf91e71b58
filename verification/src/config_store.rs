//! Persistent storage for the plate's NDEF content.
//!
//! Uses the (otherwise unused) `nvs` partition of the stock partition table
//! as a raw record area: flash offset 0x9000, 24 KiB. One record lives at
//! the start of the region:
//!
//! `magic "PNP1" (4) | len u16 LE (2) | crc16 u16 LE (2) | data (len)`
//!
//! CRC: CCITT-FALSE over `data`. The display image has a record of its own in
//! unallocated flash behind the factory partition.

use crate::bytes::{join16, le16_bytes};
use crate::trace::Trace;
use vstd::prelude::*;

verus! {

broadcast use crate::trace::extends_transitive;

pub const REGION_OFFSET: u32 = 0x9000;

pub const REGION_SIZE: usize = 0x6000;

/// Raw flash area past the factory partition (0x10000 + 0xFA0000): 320 KiB
/// of unallocated flash used for the (large) display image.
pub const IMAGE_OFFSET: u32 = 0xFB_0000;

pub const IMAGE_REGION: usize = 0x50000;

pub const HEADER: usize = 8;

/// Keep well below the region (and the NTAG user area is 888 B anyway).
pub const MAX_DATA: usize = 2048;

/// Image payload cap: 4-byte header + 480x800/8 bits.
pub const MAX_IMAGE: usize = 48_004;

// ----------------------------------------------------------------------
// flash
// ----------------------------------------------------------------------

/// Flash memory, as the board provides it; erasing is its own business.
pub trait FlashPort {
    type Error;

    fn read(&mut self, offset: u32, len: usize) -> Result<Vec<u8>, Self::Error>;

    fn write(&mut self, offset: u32, bytes: &[u8]) -> Result<(), Self::Error>;
}

/// One use of the flash.
pub enum FlashEvent<E> {
    Read { offset: u32, asked: nat, reply: Result<Seq<u8>, E> },
    Written { offset: u32, bytes: Seq<u8>, outcome: Result<(), E> },
}

/// Flash memory together with the trace of its use.
pub struct Flash<F: FlashPort> {
    port: F,
    trace: Ghost<Trace<FlashEvent<F::Error>>>,
}

impl<F: FlashPort> Flash<F> {
    /// Every use so far.
    pub closed spec fn trace(&self) -> Trace<FlashEvent<F::Error>> {
        self.trace@
    }

    pub fn new(port: F) -> (flash: Self)
        ensures
            flash.trace() == Trace::<FlashEvent<F::Error>>::empty(),
    {
        Flash { port, trace: Ghost(Trace::empty()) }
    }

    /// Read `len` bytes; what the port leaves out reads as zero.
    pub fn read(&mut self, offset: u32, len: usize) -> (res: Result<Vec<u8>, F::Error>)
        ensures
            res matches Ok(v) ==> v@.len() == len,
            final(self).trace() == old(self).trace().push(
                FlashEvent::Read {
                    offset,
                    asked: len as nat,
                    reply: crate::bus::reply_bytes(res),
                },
            ),
    {
        let res = match self.port.read(offset, len) {
            Ok(mut reply) => {
                reply.resize(len, 0);
                Ok(reply)
            },
            Err(e) => Err(e),
        };
        let ghost event = FlashEvent::Read {
            offset,
            asked: len as nat,
            reply: crate::bus::reply_bytes(res),
        };
        let ghost before = self.trace@;
        self.trace = Ghost(before.push(event));
        res
    }

    pub fn write(&mut self, offset: u32, bytes: &[u8]) -> (res: Result<(), F::Error>)
        ensures
            final(self).trace() == old(self).trace().push(
                FlashEvent::Written { offset, bytes: bytes@, outcome: res },
            ),
    {
        let res = self.port.write(offset, bytes);
        let ghost event = FlashEvent::Written { offset, bytes: bytes@, outcome: res };
        let ghost before = self.trace@;
        self.trace = Ghost(before.push(event));
        res
    }
}

// ----------------------------------------------------------------------
// records
// ----------------------------------------------------------------------

/// `n` bits of the CCITT polynomial.
pub open spec fn crc16_bits(crc: u16, n: nat) -> u16
    decreases n,
{
    if n == 0 {
        crc
    } else {
        let c = crc16_bits(crc, (n - 1) as nat);
        if c & 0x8000 != 0 {
            (c << 1) ^ 0x1021
        } else {
            c << 1
        }
    }
}

/// CRC-16/CCITT-FALSE.
pub open spec fn crc16_of(data: Seq<u8>) -> u16
    decreases data.len(),
{
    if data.len() == 0 {
        0xFFFF
    } else {
        crc16_bits(crc16_of(data.drop_last()) ^ ((data.last() as u16) << 8), 8)
    }
}

/// "PNP1".
pub open spec fn magic() -> Seq<u8> {
    seq![0x50u8, 0x4Eu8, 0x50u8, 0x31u8]
}

/// As much of some data as a record of up to `max` bytes holds.
pub open spec fn kept(data: Seq<u8>, max: int) -> Seq<u8> {
    if data.len() <= max {
        data
    } else {
        data.take(max)
    }
}

/// The record for some data, cut to `max` bytes.
#[verifier::opaque]
pub open spec fn record(data: Seq<u8>, max: int) -> Seq<u8> {
    let kept = kept(data, max);
    magic() + crate::bytes::le16(kept.len() as u16) + crate::bytes::le16(crc16_of(kept)) + kept
}

/// The length of the data behind a header, if it is one of a record that fits
/// the limits.
pub open spec fn data_len(header: Seq<u8>, max: int, region: int) -> Option<int> {
    if header.take(4) != magic() {
        None
    } else {
        let len = crate::bytes::word(header[5], header[4]) as int;
        if len == 0 || len > max || HEADER + len > region {
            None
        } else {
            Some(len)
        }
    }
}

/// The data agrees with the CRC in its header.
pub open spec fn intact(header: Seq<u8>, data: Seq<u8>) -> bool {
    crc16_of(data) == crate::bytes::word(header[7], header[6])
}

/// What loading from a trace gives that goes on at `at`: a header, and, if it
/// is a good one, the data. `None` if the trace is not that of a load.
#[verifier::opaque]
pub open spec fn loaded<E>(
    l: Trace<FlashEvent<E>>,
    at: int,
    offset: u32,
    max: int,
    region: int,
) -> Option<(int, Option<Seq<u8>>)> {
    match l.at(at) {
        FlashEvent::Read { offset: o, asked, reply } => if o != offset || asked != HEADER {
            None
        } else {
            match reply {
                Err(_) => Some((at + 1, None)),
                Ok(header) => match data_len(header, max, region) {
                    None => Some((at + 1, None)),
                    Some(len) => loaded_data(l, at + 1, offset, header, len),
                },
            }
        },
        _ => None,
    }
}

pub open spec fn loaded_data<E>(
    l: Trace<FlashEvent<E>>,
    at: int,
    offset: u32,
    header: Seq<u8>,
    len: int,
) -> Option<(int, Option<Seq<u8>>)> {
    match l.at(at) {
        FlashEvent::Read { offset: o, asked, reply } => if o != offset + HEADER || asked != len {
            None
        } else {
            match reply {
                Err(_) => Some((at + 1, None)),
                Ok(data) => if intact(header, data) {
                    Some((at + 1, Some(data)))
                } else {
                    Some((at + 1, None))
                },
            }
        },
        _ => None,
    }
}

pub fn crc16(data: &[u8]) -> (crc: u16)
    ensures
        crc == crc16_of(data@),
{
    let mut crc: u16 = 0xFFFF;
    let mut i: usize = 0;
    while i < data.len()
        invariant
            i <= data@.len(),
            crc == crc16_of(data@.take(i as int)),
        decreases data@.len() - i,
    {
        let start = crc ^ ((data[i] as u16) << 8);
        crc = start;
        let mut bit: u8 = 0;
        while bit < 8
            invariant
                bit <= 8,
                crc == crc16_bits(start, bit as nat),
            decreases 8 - bit,
        {
            crc = if crc & 0x8000 != 0 {
                (crc << 1) ^ 0x1021
            } else {
                crc << 1
            };
            bit += 1;
        }
        assert(data@.take(i + 1).drop_last() =~= data@.take(i as int));
        i += 1;
    }
    assert(data@.take(i as int) =~= data@);
    crc
}

/// Build the record for some data, cut to `max` bytes.
pub fn encode_rec(data: &[u8], max: usize) -> (rec: Vec<u8>)
    requires
        max <= 0xFFFF,
    ensures
        rec@ == record(data@, max as int),
{
    let len = if data.len() <= max {
        data.len()
    } else {
        max
    };
    let kept = vstd::slice::slice_subrange(data, 0, len);
    assert(kept@ =~= if data@.len() <= max {
        data@
    } else {
        data@.take(max as int)
    });
    let mut rec: Vec<u8> = Vec::new();
    rec.push(0x50);
    rec.push(0x4E);
    rec.push(0x50);
    rec.push(0x31);
    rec.extend_from_slice(&le16_bytes(len as u16));
    rec.extend_from_slice(&le16_bytes(crc16(kept)));
    rec.extend_from_slice(kept);
    proof {
        reveal(record);
    }
    assert(rec@ =~= record(data@, max as int));
    rec
}

/// Judge a header.
pub fn header_len(header: &[u8], max: usize, region: usize) -> (len: Option<usize>)
    requires
        header@.len() == HEADER,
    ensures
        data_len(header@, max as int, region as int) == (match len {
            Some(n) => Some(n as int),
            None => None,
        }),
        len matches Some(n) ==> n <= 0xFFFF,
{
    if header[0] != 0x50 || header[1] != 0x4E || header[2] != 0x50 || header[3] != 0x31 {
        assert(header@.take(4) != magic()) by {
            let h = header@.take(4);
            let m = magic();
            if h == m {
                assert(h[0] == m[0] && h[1] == m[1] && h[2] == m[2] && h[3] == m[3]);
            }
        }
        return None;
    }
    assert(header@.take(4) =~= magic());
    let len = join16(header[5], header[4]) as usize;
    if len == 0 || len > max || HEADER + len > region {
        None
    } else {
        Some(len)
    }
}

fn load_rec<F: FlashPort>(flash: &mut Flash<F>, offset: u32, max: usize, region: usize) -> (data:
    Option<Vec<u8>>)
    requires
        offset <= u32::MAX - HEADER,
    ensures
        final(flash).trace().extends(old(flash).trace()),
        loaded(
            final(flash).trace(),
            old(flash).trace().len(),
            offset,
            max as int,
            region as int,
        ) == Some((final(flash).trace().len(), crate::bytes::bytes_view(data))),
{
    proof {
        reveal(loaded);
    }
    let ghost t0 = flash.trace();
    let header = match flash.read(offset, HEADER) {
        Ok(h) => h,
        Err(_) => {
            return None;
        },
    };
    let ghost t1 = flash.trace();
    assert(t1.at(t0.len()) == FlashEvent::<F::Error>::Read {
        offset,
        asked: HEADER as nat,
        reply: Ok(header@),
    });
    let len = match header_len(header.as_slice(), max, region) {
        Some(n) => n,
        None => {
            return None;
        },
    };
    let res = flash.read(offset + HEADER as u32, len);
    let ghost t2 = flash.trace();
    assert(t2.at(t0.len()) == t1.at(t0.len()));
    assert(t2.at(t1.len()) == FlashEvent::<F::Error>::Read {
        offset: (offset + HEADER) as u32,
        asked: len as nat,
        reply: crate::bus::reply_bytes(res),
    });
    match res {
        Ok(data) => {
            if crc16(data.as_slice()) == join16(header[7], header[6]) {
                Some(data)
            } else {
                None
            }
        },
        Err(_) => None,
    }
}

/// Load the stored content record, if a valid one is present.
pub fn load<F: FlashPort>(flash: &mut Flash<F>) -> (data: Option<Vec<u8>>)
    ensures
        final(flash).trace().extends(old(flash).trace()),
        loaded(
            final(flash).trace(),
            old(flash).trace().len(),
            REGION_OFFSET,
            MAX_DATA as int,
            REGION_SIZE as int,
        ) == Some((final(flash).trace().len(), crate::bytes::bytes_view(data))),
{
    load_rec(flash, REGION_OFFSET, MAX_DATA, REGION_SIZE)
}

/// Store the content record, replacing any previous one.
pub fn save<F: FlashPort>(flash: &mut Flash<F>, data: &[u8]) -> (res: Result<(), F::Error>)
    ensures
        final(flash).trace() == old(flash).trace().push(
            FlashEvent::Written {
                offset: REGION_OFFSET,
                bytes: record(data@, MAX_DATA as int),
                outcome: res,
            },
        ),
{
    let rec = encode_rec(data, MAX_DATA);
    flash.write(REGION_OFFSET, rec.as_slice())
}

/// Load the stored display image (an encoded image, see
/// [`crate::app::image::MonoImage::encode`]).
pub fn load_image<F: FlashPort>(flash: &mut Flash<F>) -> (data: Option<Vec<u8>>)
    ensures
        final(flash).trace().extends(old(flash).trace()),
        loaded(
            final(flash).trace(),
            old(flash).trace().len(),
            IMAGE_OFFSET,
            MAX_IMAGE as int,
            IMAGE_REGION as int,
        ) == Some((final(flash).trace().len(), crate::bytes::bytes_view(data))),
{
    load_rec(flash, IMAGE_OFFSET, MAX_IMAGE, IMAGE_REGION)
}

/// Store the display image.
pub fn save_image<F: FlashPort>(flash: &mut Flash<F>, data: &[u8]) -> (res: Result<(), F::Error>)
    ensures
        final(flash).trace() == old(flash).trace().push(
            FlashEvent::Written {
                offset: IMAGE_OFFSET,
                bytes: record(data@, MAX_IMAGE as int),
                outcome: res,
            },
        ),
{
    let rec = encode_rec(data, MAX_IMAGE);
    flash.write(IMAGE_OFFSET, rec.as_slice())
}

/// What was saved is loaded: when the flash gives back, header and data, the
/// bytes that were written for some data, loading gives that data, or as much
/// of it as a record holds. Nothing is loaded where nothing was saved.
pub proof fn saved_data_is_loaded<E>(
    l: Trace<FlashEvent<E>>,
    at: int,
    offset: u32,
    data: Seq<u8>,
    max: int,
    region: int,
)
    requires
        0 <= max <= 0xFFFF,
        HEADER + kept(data, max).len() <= region,
        offset <= u32::MAX - HEADER,
        l.at(at) == (FlashEvent::<E>::Read {
            offset,
            asked: HEADER as nat,
            reply: Ok(record(data, max).take(HEADER as int)),
        }),
        kept(data, max).len() > 0 ==> l.at(at + 1) == (FlashEvent::<E>::Read {
            offset: (offset + HEADER) as u32,
            asked: kept(data, max).len(),
            reply: Ok(record(data, max).skip(HEADER as int)),
        }),
    ensures
        loaded(l, at, offset, max, region) == (if kept(data, max).len() == 0 {
            Some((at + 1, None))
        } else {
            Some((at + 2, Some(kept(data, max))))
        }),
{
    reveal(record);
    reveal(loaded);
    let data = kept(data, max);
    let rec = record(data, max);
    let header = rec.take(HEADER as int);
    assert(header.take(4) =~= magic());
    crate::bytes::word_of_its_bytes(data.len() as u16);
    crate::bytes::word_of_its_bytes(crc16_of(data));
    assert(header[4] == crate::bytes::le16(data.len() as u16)[0]);
    assert(header[5] == crate::bytes::le16(data.len() as u16)[1]);
    assert(header[6] == crate::bytes::le16(crc16_of(data))[0]);
    assert(header[7] == crate::bytes::le16(crc16_of(data))[1]);
    assert(rec.skip(HEADER as int) =~= data);
}

/// Each step of the CRC keeps different registers apart.
proof fn crc16_keeps_apart(a: u16, b: u16, n: nat)
    requires
        a != b,
    ensures
        crc16_bits(a, n) != crc16_bits(b, n),
    decreases n,
{
    if n > 0 {
        crc16_keeps_apart(a, b, (n - 1) as nat);
        let x = crc16_bits(a, (n - 1) as nat);
        let y = crc16_bits(b, (n - 1) as nat);
        assert(x != y ==> (if x & 0x8000 != 0 {
            (x << 1) ^ 0x1021
        } else {
            x << 1
        }) != (if y & 0x8000 != 0 {
            (y << 1) ^ 0x1021
        } else {
            y << 1
        })) by (bit_vector);
    }
}

proof fn xor_keeps_apart(r: u16, s: u16, x: u8, y: u8)
    ensures
        r == s && x != y ==> r ^ ((x as u16) << 8) != s ^ ((y as u16) << 8),
        r != s && x == y ==> r ^ ((x as u16) << 8) != s ^ ((y as u16) << 8),
{
    assert((r == s) != (x == y) ==> r ^ ((x as u16) << 8) != s ^ ((y as u16) << 8)) by (bit_vector);
}

/// Damage to one byte is noticed: data that differs in a single byte has a
/// different CRC.
pub proof fn one_damaged_byte_is_noticed(data: Seq<u8>, i: int, b: u8)
    requires
        0 <= i < data.len(),
        data[i] != b,
    ensures
        crc16_of(data.update(i, b)) != crc16_of(data),
    decreases data.len(),
{
    let other = data.update(i, b);
    let r = crc16_of(data.drop_last());
    let x = data.last();
    let y = other.last();
    if i == data.len() - 1 {
        assert(other.drop_last() =~= data.drop_last());
        xor_keeps_apart(r, r, x, y);
        crc16_keeps_apart(r ^ ((x as u16) << 8), r ^ ((y as u16) << 8), 8);
    } else {
        assert(other.drop_last() =~= data.drop_last().update(i, b));
        one_damaged_byte_is_noticed(data.drop_last(), i, b);
        let s = crc16_of(other.drop_last());
        xor_keeps_apart(r, s, x, x);
        crc16_keeps_apart(r ^ ((x as u16) << 8), s ^ ((x as u16) << 8), 8);
    }
}

/// Nothing is loaded from erased flash.
pub proof fn erased_flash_holds_nothing(max: int, region: int)
    ensures
        data_len(Seq::new(8, |_i: int| 0xFFu8), max, region) is None,
{
    let h = Seq::new(8, |_i: int| 0xFFu8);
    let m = magic();
    assert(h.take(4)[0] != m[0]);
}

/// The remainders of the sixteen half bytes by the CCITT polynomial.
pub open spec fn half_byte_remainder(i: u16) -> u16 {
    if i == 0 {
        0x0000
    } else if i == 1 {
        0x1021
    } else if i == 2 {
        0x2042
    } else if i == 3 {
        0x3063
    } else if i == 4 {
        0x4084
    } else if i == 5 {
        0x50A5
    } else if i == 6 {
        0x60C6
    } else if i == 7 {
        0x70E7
    } else if i == 8 {
        0x8108
    } else if i == 9 {
        0x9129
    } else if i == 10 {
        0xA14A
    } else if i == 11 {
        0xB16B
    } else if i == 12 {
        0xC18C
    } else if i == 13 {
        0xD1AD
    } else if i == 14 {
        0xE1CE
    } else {
        0xF1EF
    }
}

proof fn four_bits_make_a_half_byte(x: u16)
    ensures
        crc16_bits(x, 4) == (x << 4) ^ half_byte_remainder(x >> 12),
{
    reveal_with_fuel(crc16_bits, 5);
    assert({
        let a = if x & 0x8000 != 0 {
            (x << 1) ^ 0x1021u16
        } else {
            x << 1
        };
        let b = if a & 0x8000 != 0 {
            (a << 1) ^ 0x1021u16
        } else {
            a << 1
        };
        let c = if b & 0x8000 != 0 {
            (b << 1) ^ 0x1021u16
        } else {
            b << 1
        };
        let d = if c & 0x8000 != 0 {
            (c << 1) ^ 0x1021u16
        } else {
            c << 1
        };
        let i = x >> 12;
        d == (x << 4) ^ (if i == 0 {
            0x0000u16
        } else if i == 1 {
            0x1021u16
        } else if i == 2 {
            0x2042u16
        } else if i == 3 {
            0x3063u16
        } else if i == 4 {
            0x4084u16
        } else if i == 5 {
            0x50A5u16
        } else if i == 6 {
            0x60C6u16
        } else if i == 7 {
            0x70E7u16
        } else if i == 8 {
            0x8108u16
        } else if i == 9 {
            0x9129u16
        } else if i == 10 {
            0xA14Au16
        } else if i == 11 {
            0xB16Bu16
        } else if i == 12 {
            0xC18Cu16
        } else if i == 13 {
            0xD1ADu16
        } else if i == 14 {
            0xE1CEu16
        } else {
            0xF1EFu16
        })
    }) by (bit_vector);
}

/// The checksum of a record is CRC-16/CCITT-FALSE: that of nothing has all
/// bits set, and one more byte meets the high eight bits of the register, whose
/// two halves are replaced by their remainders.
pub proof fn the_checksum_is_ccitt_false(data: Seq<u8>, b: u8)
    ensures
        crc16_of(Seq::empty()) == 0xFFFF,
        ({
            let x = crc16_of(data) ^ ((b as u16) << 8);
            let y = (x << 4) ^ half_byte_remainder(x >> 12);
            crc16_of(data.push(b)) == (y << 4) ^ half_byte_remainder(y >> 12)
        }),
{
    assert(data.push(b).drop_last() =~= data);
    let x = crc16_of(data) ^ ((b as u16) << 8);
    four_bits_make_a_half_byte(x);
    four_bits_make_a_half_byte(crc16_bits(x, 4));
    reveal_with_fuel(crc16_bits, 9);
}

/// The record of some data: `PNP1`, the length and the checksum of what is
/// kept, low bytes first, and what is kept, the first bytes of the data.
pub proof fn a_record_has_its_layout(data: Seq<u8>, max: int)
    requires
        0 <= max <= 0xFFFF,
    ensures
        ({
            let n = if data.len() < max {
                data.len() as int
            } else {
                max
            };
            let r = record(data, max);
            &&& r.len() == 8 + n
            &&& r.take(4) == seq![0x50u8, 0x4E, 0x50, 0x31]
            &&& r[4] + 256 * r[5] == n
            &&& r[6] + 256 * r[7] == crc16_of(data.take(n))
            &&& r.skip(8) == data.take(n)
        }),
{
    reveal(record);
    let n = if data.len() < max {
        data.len() as int
    } else {
        max
    };
    assert(kept(data, max) =~= data.take(n));
    let r = record(data, max);
    crate::bytes::bytes_have_their_worth(n as u16, 0);
    crate::bytes::bytes_have_their_worth(crc16_of(data.take(n)), 0);
    let len = crate::bytes::le16(n as u16);
    let crc = crate::bytes::le16(crc16_of(data.take(n)));
    assert(r.take(4) =~= seq![0x50u8, 0x4E, 0x50, 0x31]);
    assert(r[4] == len[0] && r[5] == len[1] && r[6] == crc[0] && r[7] == crc[1]);
    assert(r.skip(8) =~= data.take(n));
}

/// A header is taken as that of a record exactly if it begins with `PNP1` and
/// names a length, low byte first, that is neither zero nor over the limits.
pub proof fn headers_are_judged(h: Seq<u8>, max: int, region: int)
    requires
        h.len() == 8,
    ensures
        ({
            let n = h[4] + 256 * h[5];
            let good = h[0] == 0x50 && h[1] == 0x4E && h[2] == 0x50 && h[3] == 0x31 && 1 <= n
                <= max && 8 + n <= region;
            &&& good ==> data_len(h, max, region) == Some(n)
            &&& !good ==> data_len(h, max, region) is None
        }),
{
    let m = seq![0x50u8, 0x4E, 0x50, 0x31];
    if h[0] == 0x50 && h[1] == 0x4E && h[2] == 0x50 && h[3] == 0x31 {
        assert(h.take(4) =~= m);
    } else {
        let t = h.take(4);
        assert(t[0] != m[0] || t[1] != m[1] || t[2] != m[2] || t[3] != m[3]);
    }
}

/// Data is taken exactly if its checksum is the one in the header, low byte
/// first.
pub proof fn data_is_checked(h: Seq<u8>, data: Seq<u8>)
    requires
        h.len() == 8,
    ensures
        intact(h, data) <==> crc16_of(data) == h[6] + 256 * h[7],
{
}

/// Loading asks for the eight bytes of the header, then for as many bytes
/// behind it as a good header names, and gives exactly what was read there,
/// unless a read failed or the checksum is wrong.
pub proof fn a_load_reads_header_and_data<E>(
    l: Trace<FlashEvent<E>>,
    at: int,
    offset: u32,
    max: int,
    region: int,
)
    requires
        offset <= u32::MAX - 8,
    ensures
        loaded(l, at, offset, max, region) matches Some((end, data)) ==> {
            &&& l.at(at) matches FlashEvent::Read { offset: o, asked, reply } && o == offset && asked
                == 8 && (match reply {
                Err(_) => end == at + 1 && data is None,
                Ok(h) => match data_len(h, max, region) {
                    None => end == at + 1 && data is None,
                    Some(n) => {
                        &&& end == at + 2
                        &&& l.at(at + 1) matches FlashEvent::Read { offset: p, asked: m, reply: r }
                            && p == offset + 8 && m == n && (match r {
                            Err(_) => data is None,
                            Ok(d) => data == if intact(h, d) {
                                Some(d)
                            } else {
                                None::<Seq<u8>>
                            },
                        })
                    },
                },
            })
        },
{
    reveal(loaded);
}

/// The two records have their places: the content in the `nvs` partition, the
/// image behind the factory partition, each inside its region.
pub proof fn records_have_their_places()
    ensures
        REGION_OFFSET == 0x9000,
        IMAGE_OFFSET == 0x10000 + 0xFA0000,
        MAX_DATA == 2048,
        MAX_IMAGE == 4 + 480 * 800 / 8,
        8 + MAX_DATA <= REGION_SIZE <= 0xF000 - 0x9000,
        8 + MAX_IMAGE <= IMAGE_REGION <= 0x1000000 - 0xFB0000,
{
}

} // verus!
