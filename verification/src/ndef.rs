//! NDEF Type 4 Tag reading over ISO-DEP, plus a minimal NDEF record parser.

use crate::bus::{BusEvent, Delay, I2cPort};
use crate::bytes::{be16_bytes, join16, join32};
use crate::isodep::{Error as DepError, IsoDep, Line};
use crate::st25r3916::St25r3916;
use crate::text::push_decimal;
use crate::trace::{Run, Trace};
use vstd::prelude::*;
use vstd::string::*;

verus! {

broadcast use crate::trace::extends_transitive;

#[derive(Debug, Clone, PartialEq, Eq)]
pub enum Error<E> {
    Dep(DepError<E>),
    /// APDU answered with a non-9000 status word.
    Status { step: &'static str, sw: u16 },
    Malformed,
}

impl<E> From<DepError<E>> for Error<E> {
    fn from(e: DepError<E>) -> (r: Self) {
        Error::Dep(e)
    }
}

impl<E> vstd::std_specs::convert::FromSpecImpl<DepError<E>> for Error<E> {
    open spec fn obeys_from_spec() -> bool {
        true
    }

    open spec fn from_spec(e: DepError<E>) -> Self {
        Error::Dep(e)
    }
}

/// A link failure as a tag error.
pub fn dep_result<T, E>(r: Result<T, DepError<E>>) -> (res: Result<T, Error<E>>)
    ensures
        res == (match r {
            Ok(t) => Ok::<T, Error<E>>(t),
            Err(e) => Err(Error::Dep(e)),
        }),
{
    match r {
        Ok(t) => Ok(t),
        Err(e) => Err(Error::Dep(e)),
    }
}

/// The status word ends a response; anything but 9000 is a failure.
pub open spec fn checked<E>(step: &'static str, rsp: Seq<u8>) -> Result<(), Error<E>> {
    if rsp.len() < 2 {
        Err(Error::Malformed)
    } else {
        let sw = crate::bytes::word(rsp[rsp.len() - 2], rsp[rsp.len() - 1]);
        if sw != 0x9000 {
            Err(Error::Status { step, sw })
        } else {
            Ok(())
        }
    }
}

pub fn check<E>(step: &'static str, rsp: &[u8]) -> (res: Result<(), Error<E>>)
    ensures
        res == checked::<E>(step, rsp@),
{
    if rsp.len() < 2 {
        return Err(Error::Malformed);
    }
    let sw = join16(rsp[rsp.len() - 2], rsp[rsp.len() - 1]);
    if sw != 0x9000 {
        return Err(Error::Status { step, sw });
    }
    Ok(())
}

/// SELECT of the NDEF application.
pub open spec fn select_app() -> Seq<u8> {
    seq![0x00u8, 0xA4, 0x04, 0x00, 0x07, 0xD2, 0x76, 0x00, 0x00, 0x85, 0x01, 0x01, 0x00]
}

/// SELECT of a file.
pub open spec fn select_file(high: u8, low: u8) -> Seq<u8> {
    seq![0x00u8, 0xA4, 0x00, 0x0C, 0x02, high, low]
}

/// READ BINARY of `n` bytes from `offset`.
pub open spec fn read_binary(offset: u16, n: u8) -> Seq<u8> {
    seq![0x00u8, 0xB0, crate::bytes::high_byte(offset), crate::bytes::low_byte(offset), n]
}

/// The most that is read at once, from the capability container.
pub open spec fn chunk_limit(cc: Seq<u8>) -> int {
    let mle = crate::bytes::word(cc[3], cc[4]) as int;
    if mle < 15 {
        15
    } else if mle > 246 {
        246
    } else {
        mle
    }
}

impl Line {
    /// One APDU; its response if the card reports success.
    pub open spec fn apdu<E>(self, l: Trace<BusEvent<E>>, apdu: Seq<u8>, step: &'static str) -> Run<
        Line,
        Seq<u8>,
        Error<E>,
    > {
        match self.exchange(l, apdu) {
            Run::Done(m, Ok((rsp, Ok(_)))) => match checked::<E>(step, rsp) {
                Ok(_) => Run::Done(m, Ok(rsp)),
                Err(e) => Run::Done(m, Err(e)),
            },
            Run::Done(m, Ok((_, Err(e)))) => Run::Done(m, Err(Error::Dep(e))),
            Run::Done(m, Err(e)) => Run::Done(m, Err(Error::Dep(e))),
            Run::Off => Run::Off,
        }
    }

    /// Select the application, read the capability container (E103), select
    /// the NDEF file it names, read the length and then the message.
    pub open spec fn read_type4<E>(self, l: Trace<BusEvent<E>>) -> Run<Line, Seq<u8>, Error<E>> {
        self.apdu(l, select_app(), "select-app").chain(
            |m: Line, _r: Seq<u8>|
                m.apdu(l, select_file(0xE1, 0x03), "select-cc").chain(
                    |m: Line, _r: Seq<u8>|
                        m.apdu(l, read_binary(0, 0x0F), "read-cc").chain(
                            |m: Line, rsp: Seq<u8>| m.read_file(l, rsp),
                        ),
                ),
        )
    }

    /// CC: len(2) ver(1) MLe(2) MLc(2), then the NDEF file control TLV (T=04
    /// L=06: file id(2) max size(2) read access(1) write access(1)).
    pub open spec fn read_file<E>(self, l: Trace<BusEvent<E>>, cc: Seq<u8>) -> Run<
        Line,
        Seq<u8>,
        Error<E>,
    > {
        if cc.len() < 17 || cc[7] != 0x04 {
            Run::Done(self, Err(Error::Malformed))
        } else {
            self.apdu(l, select_file(cc[9], cc[10]), "select-ndef").chain(
                |m: Line, _r: Seq<u8>|
                    m.apdu(l, read_binary(0, 2), "read-nlen").chain(
                        |m: Line, rsp: Seq<u8>|
                            if rsp.len() < 4 {
                                Run::Done(m, Err(Error::Malformed))
                            } else {
                                m.read_chunks(
                                    l,
                                    chunk_limit(cc),
                                    crate::bytes::word(rsp[0], rsp[1]) as int,
                                    Seq::empty(),
                                )
                            },
                    ),
            )
        }
    }

    /// Read the rest of a message of `nlen` bytes of which `msg` is there, in
    /// chunks of at most `limit` bytes; the message starts at offset 2.
    pub open spec fn read_chunks<E>(
        self,
        l: Trace<BusEvent<E>>,
        limit: int,
        nlen: int,
        msg: Seq<u8>,
    ) -> Run<Line, Seq<u8>, Error<E>>
        decreases nlen - msg.len(),
    {
        if msg.len() >= nlen || limit < 1 {
            Run::Done(self, Ok(msg))
        } else {
            let chunk = if nlen - msg.len() < limit {
                nlen - msg.len()
            } else {
                limit
            };
            match self.apdu(
                l,
                read_binary(((2 + msg.len()) % 0x1_0000) as u16, chunk as u8),
                "read-ndef",
            ) {
                Run::Done(m, Ok(rsp)) => if rsp.len() < 2 + chunk {
                    Run::Done(m, Err(Error::Malformed))
                } else {
                    m.read_chunks(l, limit, nlen, msg + rsp.take(chunk))
                },
                Run::Done(m, Err(e)) => Run::Done(m, Err(e)),
                Run::Off => Run::Off,
            }
        }
    }
}

fn apdu<P: I2cPort, D: Delay>(
    dep: &mut IsoDep,
    nfc: &mut St25r3916<P>,
    delay: &mut D,
    bytes: &[u8],
    step: &'static str,
) -> (res: Result<Vec<u8>, Error<P::Error>>)
    requires
        old(dep).wf(),
    ensures
        final(dep).wf(),
        final(nfc).trace().extends(old(nfc).trace()),
        forall|l: Trace<BusEvent<P::Error>>| l.extends(final(nfc).trace()) ==> #[trigger]
            crate::isodep::line(old(dep)@, old(nfc).chip()).apdu(l, bytes@, step) == Run::Done(
                crate::isodep::line(final(dep)@, final(nfc).chip()),
                message_result(res),
            ),
{
    let mut rsp: Vec<u8> = Vec::new();
    dep_result(dep.exchange(nfc, delay, bytes, &mut rsp))?;
    check(step, rsp.as_slice())?;
    Ok(rsp)
}

pub open spec fn message_result<E>(r: Result<Vec<u8>, Error<E>>) -> Result<Seq<u8>, Error<E>> {
    match r {
        Ok(v) => Ok(v@),
        Err(e) => Err(e),
    }
}

/// Read the raw NDEF message from a Type 4 tag (already ISO-DEP activated).
pub fn read_type4<P: I2cPort, D: Delay>(
    dep: &mut IsoDep,
    nfc: &mut St25r3916<P>,
    delay: &mut D,
) -> (res: Result<Vec<u8>, Error<P::Error>>)
    requires
        old(dep).wf(),
    ensures
        final(dep).wf(),
        final(nfc).trace().extends(old(nfc).trace()),
        forall|l: Trace<BusEvent<P::Error>>| l.extends(final(nfc).trace()) ==> #[trigger]
            crate::isodep::line(old(dep)@, old(nfc).chip()).read_type4(l) == Run::Done(
                crate::isodep::line(final(dep)@, final(nfc).chip()),
                message_result(res),
            ),
{
    let app = [0x00u8, 0xA4, 0x04, 0x00, 0x07, 0xD2, 0x76, 0x00, 0x00, 0x85, 0x01, 0x01, 0x00];
    assert(app@ =~= select_app());
    apdu(dep, nfc, delay, &app, "select-app")?;

    let select_cc = [0x00u8, 0xA4, 0x00, 0x0C, 0x02, 0xE1, 0x03];
    assert(select_cc@ =~= select_file(0xE1, 0x03));
    apdu(dep, nfc, delay, &select_cc, "select-cc")?;
    let read_cc = [0x00u8, 0xB0, 0x00, 0x00, 0x0F];
    assert(read_cc@ =~= read_binary(0, 0x0F));
    let cc = apdu(dep, nfc, delay, &read_cc, "read-cc")?;
    read_file(dep, nfc, delay, cc.as_slice())
}

fn read_file<P: I2cPort, D: Delay>(
    dep: &mut IsoDep,
    nfc: &mut St25r3916<P>,
    delay: &mut D,
    cc: &[u8],
) -> (res: Result<Vec<u8>, Error<P::Error>>)
    requires
        old(dep).wf(),
    ensures
        final(dep).wf(),
        final(nfc).trace().extends(old(nfc).trace()),
        forall|l: Trace<BusEvent<P::Error>>| l.extends(final(nfc).trace()) ==> #[trigger]
            crate::isodep::line(old(dep)@, old(nfc).chip()).read_file(l, cc@) == Run::Done(
                crate::isodep::line(final(dep)@, final(nfc).chip()),
                message_result(res),
            ),
{
    if cc.len() < 17 || cc[7] != 0x04 {
        return Err(Error::Malformed);
    }
    let mle = join16(cc[3], cc[4]);
    let limit: usize = if mle < 15 {
        15
    } else if mle > 246 {
        246
    } else {
        mle as usize
    };
    let select = [0x00u8, 0xA4, 0x00, 0x0C, 0x02, cc[9], cc[10]];
    assert(select@ =~= select_file(cc@[9], cc@[10]));
    apdu(dep, nfc, delay, &select, "select-ndef")?;
    let read_nlen = [0x00u8, 0xB0, 0x00, 0x00, 0x02];
    assert(read_nlen@ =~= read_binary(0, 2));
    let rsp = apdu(dep, nfc, delay, &read_nlen, "read-nlen")?;
    if rsp.len() < 4 {
        return Err(Error::Malformed);
    }
    let nlen = join16(rsp[0], rsp[1]) as usize;
    read_chunks(dep, nfc, delay, limit, nlen)
}

fn read_chunks<P: I2cPort, D: Delay>(
    dep: &mut IsoDep,
    nfc: &mut St25r3916<P>,
    delay: &mut D,
    limit: usize,
    nlen: usize,
) -> (res: Result<Vec<u8>, Error<P::Error>>)
    requires
        old(dep).wf(),
        1 <= limit <= 255,
        nlen <= 0xFFFF,
    ensures
        final(dep).wf(),
        final(nfc).trace().extends(old(nfc).trace()),
        forall|l: Trace<BusEvent<P::Error>>| l.extends(final(nfc).trace()) ==> #[trigger]
            crate::isodep::line(old(dep)@, old(nfc).chip()).read_chunks(
                l,
                limit as int,
                nlen as int,
                Seq::empty(),
            ) == Run::Done(
                crate::isodep::line(final(dep)@, final(nfc).chip()),
                message_result(res),
            ),
{
    let mut msg: Vec<u8> = Vec::new();
    assert(msg@ =~= Seq::empty());
    while msg.len() < nlen
        invariant
            dep.wf(),
            1 <= limit <= 255,
            msg@.len() <= nlen <= 0xFFFF,
            nfc.trace().extends(old(nfc).trace()),
            forall|l: Trace<BusEvent<P::Error>>|
                l.extends(nfc.trace()) ==> #[trigger] crate::isodep::line(
                    old(dep)@,
                    old(nfc).chip(),
                ).read_chunks(l, limit as int, nlen as int, Seq::empty())
                    == crate::isodep::line(dep@, nfc.chip()).read_chunks(
                    l,
                    limit as int,
                    nlen as int,
                    msg@,
                ),
        decreases nlen - msg@.len(),
    {
        let left = nlen - msg.len();
        let chunk = if left < limit {
            left
        } else {
            limit
        };
        let off = be16_bytes(((2 + msg.len()) % 0x1_0000) as u16);
        let read = [0x00u8, 0xB0, off[0], off[1], chunk as u8];
        assert(read@ =~= read_binary(((2 + msg@.len()) % 0x1_0000) as u16, chunk as u8));
        let rsp = apdu(dep, nfc, delay, &read, "read-ndef")?;
        if rsp.len() < 2 + chunk {
            return Err(Error::Malformed);
        }
        let part = vstd::slice::slice_subrange(rsp.as_slice(), 0, chunk);
        assert(part@ =~= rsp@.take(chunk as int));
        let ghost before = msg@;
        msg.extend_from_slice(part);
        assert(msg@ =~= before + rsp@.take(chunk as int));
    }
    Ok(msg)
}

// ----------------------------------------------------------------------
// records
// ----------------------------------------------------------------------

/// A record of an NDEF message and the offset behind it.
pub struct Record {
    pub tnf: u8,
    pub rtype: Seq<u8>,
    pub payload: Seq<u8>,
    pub next: int,
}

/// A record inside the message it was found in.
pub struct RecordRef<'a> {
    pub tnf: u8,
    pub rtype: &'a [u8],
    pub payload: &'a [u8],
    pub next: usize,
}

impl<'a> RecordRef<'a> {
    pub open spec fn model(&self) -> Record {
        Record {
            tnf: self.tnf,
            rtype: self.rtype@,
            payload: self.payload@,
            next: self.next as int,
        }
    }
}

pub open spec fn record_view(r: Option<RecordRef>) -> Option<Record> {
    match r {
        Some(r) => Some(r.model()),
        None => None,
    }
}

/// The record that starts at byte `i`: flags, type length, payload length (one
/// byte in a short record, else four), an id behind its length if there is
/// one, type, payload. `None` unless all of it lies inside the message.
pub open spec fn record(msg: Seq<u8>, i: int) -> Option<Record> {
    if i >= msg.len() || i + 1 >= msg.len() {
        None
    } else {
        let flags = msg[i];
        let type_len = msg[i + 1] as int;
        let short = flags & 0x10 != 0;
        let p = i + if short {
            3int
        } else {
            6int
        };
        if p > msg.len() {
            None
        } else {
            let payload_len = if short {
                msg[i + 2] as int
            } else {
                crate::bytes::dword(msg[i + 2], msg[i + 3], msg[i + 4], msg[i + 5]) as int
            };
            if flags & 0x08 != 0 {
                if p >= msg.len() {
                    None
                } else {
                    record_body(msg, flags & 0x07, p + 1 + msg[p], type_len, payload_len)
                }
            } else {
                record_body(msg, flags & 0x07, p, type_len, payload_len)
            }
        }
    }
}

pub open spec fn record_body(msg: Seq<u8>, tnf: u8, p: int, type_len: int, payload_len: int) -> Option<
    Record,
> {
    if p + type_len + payload_len > msg.len() {
        None
    } else {
        Some(
            Record {
                tnf,
                rtype: msg.subrange(p, p + type_len),
                payload: msg.subrange(p + type_len, p + type_len + payload_len),
                next: p + type_len + payload_len,
            },
        )
    }
}

/// Parse the record at byte offset `i`.
pub fn record_at(msg: &[u8], i: usize) -> (r: Option<RecordRef<'_>>)
    ensures
        record_view(r) == record(msg@, i as int),
        r matches Some(r) ==> i < r.next <= msg@.len(),
{
    if i >= msg.len() || msg.len() - i < 2 {
        return None;
    }
    let flags = msg[i];
    let type_len = msg[i + 1] as usize;
    let (payload_len, p): (u32, usize) = if flags & 0x10 != 0 {
        if msg.len() - i < 3 {
            return None;
        }
        (msg[i + 2] as u32, i + 3)
    } else {
        if msg.len() - i < 6 {
            return None;
        }
        (join32(msg[i + 2], msg[i + 3], msg[i + 4], msg[i + 5]), i + 6)
    };
    let id = if flags & 0x08 != 0 {
        if p >= msg.len() {
            return None;
        }
        1 + msg[p] as usize
    } else {
        0
    };
    if msg.len() - p < id {
        return None;
    }
    let start = p + id;
    if msg.len() - start < type_len {
        return None;
    }
    let body = start + type_len;
    if ((msg.len() - body) as u64) < payload_len as u64 {
        return None;
    }
    let next = body + payload_len as usize;
    Some(
        RecordRef {
            tnf: flags & 0x07,
            rtype: vstd::slice::slice_subrange(msg, start, body),
            payload: vstd::slice::slice_subrange(msg, body, next),
            next,
        },
    )
}

/// Parse the first record: returns (TNF, type, payload).
pub fn first_record(msg: &[u8]) -> (r: Option<(u8, &[u8], &[u8])>)
    ensures
        match record(msg@, 0) {
            Some(rec) => r matches Some((tnf, rtype, payload)) && tnf == rec.tnf && rtype@
                == rec.rtype && payload@ == rec.payload,
            None => r is None,
        },
{
    match record_at(msg, 0) {
        Some(r) => Some((r.tnf, r.rtype, r.payload)),
        None => None,
    }
}

// ----------------------------------------------------------------------
// summary
// ----------------------------------------------------------------------

/// Printable ASCII as it is, everything else as a dot.
pub open spec fn printable(bytes: Seq<u8>) -> Seq<char> {
    Seq::new(
        bytes.len(),
        |i: int|
            if 0x20 <= bytes[i] < 0x7F {
                bytes[i] as char
            } else {
                '.'
            },
    )
}

/// What a URI identifier code stands for.
pub open spec fn uri_prefix_chars(code: u8) -> Seq<char> {
    if code == 0x01 {
        "http://www."@
    } else if code == 0x02 {
        "https://www."@
    } else if code == 0x03 {
        "http://"@
    } else if code == 0x04 {
        "https://"@
    } else if code == 0x05 {
        "tel:"@
    } else if code == 0x06 {
        "mailto:"@
    } else {
        ""@
    }
}

/// The text of a Text record behind its language code; empty if the record is
/// too short.
pub open spec fn text_part(payload: Seq<u8>) -> Seq<u8> {
    let lang = if payload.len() > 0 {
        (payload[0] & 0x3F) as int
    } else {
        0
    };
    if 1 + lang <= payload.len() {
        payload.skip(1 + lang)
    } else {
        Seq::empty()
    }
}

/// The summary of a message's first record.
pub open spec fn summary(msg: Seq<u8>) -> Seq<char> {
    match record(msg, 0) {
        None => "(empty/invalid NDEF)"@,
        Some(r) => if r.tnf == 1 && r.rtype == seq![0x55u8] {
            "URI: "@ + if r.payload.len() > 0 {
                uri_prefix_chars(r.payload[0]) + printable(r.payload.skip(1))
            } else {
                Seq::empty()
            }
        } else if r.tnf == 1 && r.rtype == seq![0x54u8] {
            "Text: "@ + printable(text_part(r.payload))
        } else {
            "TNF="@ + crate::text::decimal(r.tnf as nat) + " type="@ + printable(r.rtype) + " ("@
                + crate::text::decimal(r.payload.len()) + "B)"@
        },
    }
}

pub fn ascii(bytes: &[u8]) -> (s: String)
    ensures
        s@ == printable(bytes@),
{
    let mut s = String::new();
    let mut i: usize = 0;
    while i < bytes.len()
        invariant
            i <= bytes@.len(),
            s@ =~= printable(bytes@).take(i as int),
        decreases bytes@.len() - i,
    {
        let b = bytes[i];
        s.push(
            if 0x20 <= b && b < 0x7F {
                b as char
            } else {
                '.'
            },
        );
        i += 1;
    }
    assert(printable(bytes@).take(i as int) =~= printable(bytes@));
    s
}

pub fn uri_prefix(code: u8) -> (prefix: &'static str)
    ensures
        prefix@ == uri_prefix_chars(code),
{
    match code {
        0x01 => "http://www.",
        0x02 => "https://www.",
        0x03 => "http://",
        0x04 => "https://",
        0x05 => "tel:",
        0x06 => "mailto:",
        _ => "",
    }
}

/// A well-known record type of one byte.
pub fn is_type(tnf: u8, rtype: &[u8], code: u8) -> (yes: bool)
    ensures
        yes == (tnf == 1 && rtype@ == seq![code]),
{
    let yes = tnf == 1 && rtype.len() == 1 && rtype[0] == code;
    proof {
        if yes {
            assert(rtype@ =~= seq![code]);
        } else if rtype@ == seq![code] {
            assert(rtype@.len() == 1 && rtype@[0] == code);
        }
    }
    yes
}

/// A human-readable summary of the first record of an NDEF message.
pub fn summarize(msg: &[u8]) -> (s: String)
    ensures
        s@ == summary(msg@),
{
    let mut out = String::new();
    match first_record(msg) {
        None => {
            out.append("(empty/invalid NDEF)");
            assert(out@ =~= summary(msg@));
        },
        Some((tnf, rtype, payload)) => {
            if is_type(tnf, rtype, 0x55) {
                out.append("URI: ");
                if payload.len() > 0 {
                    out.append(uri_prefix(payload[0]));
                    let rest = vstd::slice::slice_subrange(payload, 1, payload.len());
                    assert(rest@ =~= payload@.skip(1));
                    let text = ascii(rest);
                    out.append(text.as_str());
                }
                assert(out@ =~= summary(msg@));
            } else if is_type(tnf, rtype, 0x54) {
                out.append("Text: ");
                let lang = if payload.len() > 0 {
                    (payload[0] & 0x3F) as usize
                } else {
                    0
                };
                if payload.len() >= 1 && payload.len() - 1 >= lang {
                    let rest = vstd::slice::slice_subrange(payload, 1 + lang, payload.len());
                    assert(rest@ =~= payload@.skip(1 + lang as int));
                    let text = ascii(rest);
                    out.append(text.as_str());
                }
                assert(out@ =~= summary(msg@));
            } else {
                out.append("TNF=");
                push_decimal(&mut out, tnf as u64);
                out.append(" type=");
                let text = ascii(rtype);
                out.append(text.as_str());
                out.append(" (");
                push_decimal(&mut out, payload.len() as u64);
                out.append("B)");
                assert(out@ =~= summary(msg@));
            }
        },
    }
    out
}

/// A message that was read has the length that its tag announced.
pub proof fn whole_messages_are_read<E>(
    m: Line,
    l: Trace<BusEvent<E>>,
    limit: int,
    nlen: int,
    msg: Seq<u8>,
)
    requires
        1 <= limit,
        msg.len() <= nlen,
    ensures
        match m.read_chunks(l, limit, nlen, msg) {
            Run::Done(_, Ok(all)) => all.len() == nlen && all.take(msg.len() as int) == msg,
            _ => true,
        },
    decreases nlen - msg.len(),
{
    if msg.len() < nlen {
        let chunk = if nlen - msg.len() < limit {
            nlen - msg.len()
        } else {
            limit
        };
        match m.apdu(
            l,
            read_binary(((2 + msg.len()) % 0x1_0000) as u16, chunk as u8),
            "read-ndef",
        ) {
            Run::Done(a, Ok(rsp)) => if rsp.len() >= 2 + chunk {
                let more = msg + rsp.take(chunk);
                whole_messages_are_read(a, l, limit, nlen, more);
                match a.read_chunks(l, limit, nlen, more) {
                    Run::Done(_, Ok(all)) => {
                        assert(all.take(msg.len() as int) =~= all.take(more.len() as int).take(
                            msg.len() as int,
                        ));
                        assert(more.take(msg.len() as int) =~= msg);
                    },
                    _ => {},
                }
            },
            _ => {},
        }
    } else {
        assert(msg.take(msg.len() as int) =~= msg);
    }
}

/// A record lies inside its message and brings the next one closer.
pub proof fn records_make_progress(msg: Seq<u8>, i: int)
    requires
        0 <= i,
    ensures
        record(msg, i) matches Some(r) ==> i < r.next <= msg.len() && r.rtype.len()
            + r.payload.len() < r.next - i,
{
}

// ----------------------------------------------------------------------
// records as they are written
// ----------------------------------------------------------------------

/// A record as a writer puts it down.
pub struct Written {
    /// Message begin, message end and chunk flags: a multiple of 0x20.
    pub flags: u8,
    pub tnf: u8,
    /// Four bytes of payload length instead of one.
    pub long: bool,
    pub id: Option<Seq<u8>>,
    pub rtype: Seq<u8>,
    pub payload: Seq<u8>,
}

impl Written {
    pub open spec fn wf(self) -> bool {
        &&& self.flags % 0x20 == 0
        &&& self.tnf < 8
        &&& self.rtype.len() <= 255
        &&& self.id matches Some(id) ==> id.len() <= 255
        &&& self.payload.len() <= if self.long {
            0xFFFF_FFFFint
        } else {
            255int
        }
    }

    /// Flags, length of the type, length of the payload, most significant byte
    /// first.
    pub open spec fn head(self) -> Seq<u8> {
        let n = self.payload.len();
        seq![
            (self.flags + (if self.long {
                0int
            } else {
                0x10int
            }) + (if self.id is Some {
                0x08int
            } else {
                0int
            }) + self.tnf) as u8,
            self.rtype.len() as u8,
        ] + if self.long {
            seq![
                (n / 0x100_0000) as u8,
                (n / 0x1_0000 % 0x100) as u8,
                (n / 0x100 % 0x100) as u8,
                (n % 0x100) as u8,
            ]
        } else {
            seq![n as u8]
        }
    }

    /// The id behind its length, if there is one.
    pub open spec fn id_bytes(self) -> Seq<u8> {
        match self.id {
            Some(id) => seq![id.len() as u8] + id,
            None => Seq::empty(),
        }
    }

    pub open spec fn bytes(self) -> Seq<u8> {
        self.head() + self.id_bytes() + self.rtype + self.payload
    }
}

proof fn flags_come_apart(flags: u8, short: bool, id: bool, tnf: u8)
    requires
        flags % 0x20 == 0,
        tnf < 8,
    ensures
        ({
            let b = (flags + (if short {
                0x10int
            } else {
                0int
            }) + (if id {
                0x08int
            } else {
                0int
            }) + tnf) as u8;
            &&& (b & 0x10 != 0) == short
            &&& (b & 0x08 != 0) == id
            &&& b & 0x07 == tnf
        }),
{
    let s: u8 = if short {
        0x10
    } else {
        0
    };
    let k: u8 = if id {
        0x08
    } else {
        0
    };
    assert(flags % 0x20 == 0 && tnf < 8 && (s == 0 || s == 0x10) && (k == 0 || k == 0x08) ==> ({
        let b = (flags + s + k + tnf) as u8;
        &&& (b & 0x10 != 0) == (s == 0x10)
        &&& (b & 0x08 != 0) == (k == 0x08)
        &&& b & 0x07 == tnf
    })) by (bit_vector);
}

proof fn records_have_their_fields(w: Written)
    requires
        w.wf(),
    ensures
        ({
            let b = w.bytes();
            let p = if w.long {
                6int
            } else {
                3int
            };
            let q = p + (match w.id {
                Some(id) => 1 + id.len() as int,
                None => 0int,
            });
            &&& b.len() == q + w.rtype.len() + w.payload.len()
            &&& (b[0] & 0x10 != 0) == !w.long
            &&& (b[0] & 0x08 != 0) == (w.id is Some)
            &&& b[0] & 0x07 == w.tnf
            &&& b[1] == w.rtype.len()
            &&& !w.long ==> b[2] == w.payload.len()
            &&& w.long ==> crate::bytes::dword(b[2], b[3], b[4], b[5]) == w.payload.len()
            &&& w.id is Some ==> b[p] == w.id->Some_0.len()
            &&& b.subrange(q, q + w.rtype.len()) == w.rtype
            &&& b.subrange(q + w.rtype.len(), b.len() as int) == w.payload
        }),
{
    flags_come_apart(w.flags, !w.long, w.id is Some, w.tnf);
    let b = w.bytes();
    let h = w.head();
    let p = h.len() as int;
    let q = p + w.id_bytes().len();
    assert(b[0] == h[0] && b[1] == h[1] && b[2] == h[2]);
    if w.long {
        assert(b[3] == h[3] && b[4] == h[4] && b[5] == h[5]);
        crate::bytes::words_are_sums(h[2], h[3], h[4], h[5]);
    }
    if w.id is Some {
        assert(b[p] == w.id_bytes()[0]);
    }
    assert(b.subrange(q, q + w.rtype.len()) =~= w.rtype);
    assert(b.subrange(q + w.rtype.len(), b.len() as int) =~= w.payload);
}

/// A record that was written is found as it was written, wherever it stands
/// and whatever follows it.
pub proof fn written_records_are_found(w: Written, before: Seq<u8>, rest: Seq<u8>)
    requires
        w.wf(),
    ensures
        record(before + w.bytes() + rest, before.len() as int) == Some(
            Record {
                tnf: w.tnf,
                rtype: w.rtype,
                payload: w.payload,
                next: (before.len() + w.bytes().len()) as int,
            },
        ),
{
    records_have_their_fields(w);
    let i = before.len() as int;
    let b = w.bytes();
    let n = b.len() as int;
    let msg = before + b + rest;
    let p = if w.long {
        6int
    } else {
        3int
    };
    let q = n - w.payload.len() - w.rtype.len();
    assert(msg[i] == b[0] && msg[i + 1] == b[1] && msg[i + 2] == b[2]);
    if w.long {
        assert(msg[i + 3] == b[3] && msg[i + 4] == b[4] && msg[i + 5] == b[5]);
    }
    if w.id is Some {
        assert(msg[i + p] == b[p]);
    }
    assert(msg.subrange(i + q, i + q + w.rtype.len()) =~= b.subrange(q, q + w.rtype.len()));
    assert(msg.subrange(i + q + w.rtype.len(), i + n) =~= b.subrange(q + w.rtype.len(), n));
}

/// A record that is cut short is not found.
pub proof fn cut_records_are_not_found(w: Written, before: Seq<u8>, cut: int)
    requires
        w.wf(),
        0 <= cut < w.bytes().len(),
    ensures
        record(before + w.bytes().take(cut), before.len() as int) is None,
{
    records_have_their_fields(w);
    let i = before.len() as int;
    let b = w.bytes();
    let msg = before + b.take(cut);
    let p = if w.long {
        6int
    } else {
        3int
    };
    if cut > 1 {
        assert(msg[i] == b[0] && msg[i + 1] == b[1]);
        if cut > 2 {
            assert(msg[i + 2] == b[2]);
        }
        if cut > 5 {
            assert(msg[i + 3] == b[3] && msg[i + 4] == b[4] && msg[i + 5] == b[5]);
        }
        if cut > p {
            assert(msg[i + p] == b[p]);
        }
    }
}

/// The URI identifier codes.
pub proof fn uri_codes_have_their_prefixes(code: u8)
    ensures
        uri_prefix_chars(1) == "http://www."@,
        uri_prefix_chars(2) == "https://www."@,
        uri_prefix_chars(3) == "http://"@,
        uri_prefix_chars(4) == "https://"@,
        uri_prefix_chars(5) == "tel:"@,
        uri_prefix_chars(6) == "mailto:"@,
        code == 0 || code > 6 ==> uri_prefix_chars(code).len() == 0,
{
    reveal_strlit("");
}

/// What can be printed is printed, everything else is a dot.
pub proof fn only_unprintable_bytes_are_dots(bytes: Seq<u8>, i: int)
    requires
        0 <= i < bytes.len(),
    ensures
        printable(bytes).len() == bytes.len(),
        32 <= bytes[i] <= 126 ==> printable(bytes)[i] == bytes[i] as char,
        !(32 <= bytes[i] <= 126) ==> printable(bytes)[i] == '.',
{
}

/// The summary of a message is about its first record, whatever follows: the
/// link of a URI record, the text of a Text record, and kind and size of any
/// other.
pub proof fn the_first_record_is_summed_up(w: Written, rest: Seq<u8>)
    requires
        w.wf(),
    ensures
        ({
            let s = summary(w.bytes() + rest);
            let p = w.payload;
            let lang = if p.len() > 0 {
                (p[0] % 64) as int
            } else {
                0
            };
            &&& w.tnf == 1 && w.rtype == seq!['U' as u8] && p.len() > 0 ==> s == "URI: "@
                + uri_prefix_chars(p[0]) + printable(p.skip(1))
            &&& w.tnf == 1 && w.rtype == seq!['U' as u8] && p.len() == 0 ==> s == "URI: "@
            &&& w.tnf == 1 && w.rtype == seq!['T' as u8] && 1 + lang <= p.len() ==> s == "Text: "@
                + printable(p.skip(1 + lang))
            &&& w.tnf == 1 && w.rtype == seq!['T' as u8] && 1 + lang > p.len() ==> s == "Text: "@
            &&& w.tnf != 1 || (w.rtype != seq!['U' as u8] && w.rtype != seq!['T' as u8]) ==> s
                == "TNF="@ + crate::text::decimal(w.tnf as nat) + " type="@ + printable(w.rtype)
                + " ("@ + crate::text::decimal(p.len()) + "B)"@
        }),
        summary(Seq::empty()) == "(empty/invalid NDEF)"@,
{
    let none = Seq::<u8>::empty();
    written_records_are_found(w, none, rest);
    assert(none + w.bytes() + rest =~= w.bytes() + rest);
    let p = w.payload;
    if p.len() > 0 {
        crate::bits::low_bits_are_remainders(p[0]);
    }
    assert(seq![0x55u8][0] != seq![0x54u8][0]);
    let s = summary(w.bytes() + rest);
    if p.len() > 0 {
        assert("URI: "@ + (uri_prefix_chars(p[0]) + printable(p.skip(1))) =~= "URI: "@
            + uri_prefix_chars(p[0]) + printable(p.skip(1)));
    }
    assert("URI: "@ + Seq::<char>::empty() =~= "URI: "@);
    assert(printable(none) =~= Seq::<char>::empty());
    assert("Text: "@ + Seq::<char>::empty() =~= "Text: "@);
}

// ----------------------------------------------------------------------
// reading a Type 4 tag
// ----------------------------------------------------------------------

/// A response counts if it ends with 90 00; any other status is reported with
/// the step it came from, and a response without one is malformed.
pub proof fn statuses_are_checked<E>(step: &'static str, rsp: Seq<u8>)
    ensures
        rsp.len() < 2 ==> checked::<E>(step, rsp) == Err::<(), Error<E>>(Error::Malformed),
        rsp.len() >= 2 ==> {
            let n = rsp.len() as int;
            let good = rsp[n - 2] == 0x90 && rsp[n - 1] == 0x00;
            &&& good ==> checked::<E>(step, rsp) is Ok
            &&& !good ==> checked::<E>(step, rsp) == Err::<(), Error<E>>(
                Error::Status { step, sw: (256 * rsp[n - 2] + rsp[n - 1]) as u16 },
            )
        },
{
    if rsp.len() >= 2 {
        crate::bytes::words_are_sums(0, 0, rsp[rsp.len() - 2], rsp[rsp.len() - 1]);
    }
}

/// The commands: SELECT of the NDEF application by its name, SELECT of a file
/// by its number, READ BINARY with offset and length.
pub proof fn commands_have_their_bytes(high: u8, low: u8, offset: u16, n: u8)
    ensures
        select_app() == seq![0x00u8, 0xA4, 0x04, 0x00, 7] + seq![
            0xD2u8,
            0x76,
            0x00,
            0x00,
            0x85,
            0x01,
            0x01,
        ] + seq![0x00u8],
        select_file(high, low) == seq![0x00u8, 0xA4, 0x00, 0x0C, 2, high, low],
        read_binary(offset, n) == seq![
            0x00u8,
            0xB0,
            (offset / 256) as u8,
            (offset % 256) as u8,
            n,
        ],
{
    assert(select_app() =~= seq![0x00u8, 0xA4, 0x04, 0x00, 7] + seq![
        0xD2u8,
        0x76,
        0x00,
        0x00,
        0x85,
        0x01,
        0x01,
    ] + seq![0x00u8]);
    assert(read_binary(offset, n) =~= seq![
        0x00u8,
        0xB0,
        (offset / 256) as u8,
        (offset % 256) as u8,
        n,
    ]);
}

/// The order in which a tag is read: the application, the capability container
/// (file E103, 15 bytes), the file it names, the length, the message. A step
/// that fails ends the reading.
pub proof fn a_tag_is_read_in_order<E>(m: Line, l: Trace<BusEvent<E>>)
    ensures
        m.apdu(l, select_app(), "select-app") matches Run::Done(a, Ok(_)) ==> (a.apdu(
            l,
            select_file(0xE1, 0x03),
            "select-cc",
        ) matches Run::Done(b, Ok(_)) ==> (b.apdu(l, read_binary(0, 15), "read-cc") matches Run::Done(
            c,
            Ok(cc),
        ) ==> m.read_type4(l) == c.read_file(l, cc))),
        m.apdu(l, select_app(), "select-app") matches Run::Done(a, Err(e)) ==> m.read_type4(l)
            == Run::<Line, Seq<u8>, Error<E>>::Done(a, Err(e)),
{
}

/// A file is read only if the container is whole and announces one; then it is
/// selected, its length, high byte first, is read, and as much of a message
/// behind it, in parts no larger than the container allows, within 15 and 246
/// bytes.
pub proof fn the_file_is_the_one_announced<E>(m: Line, l: Trace<BusEvent<E>>, cc: Seq<u8>)
    ensures
        cc.len() < 17 || cc[7] != 0x04 ==> m.read_file(l, cc) == Run::<Line, Seq<u8>, Error<E>>::Done(
            m,
            Err(Error::Malformed),
        ),
        cc.len() >= 17 && cc[7] == 0x04 ==> (m.apdu(
            l,
            select_file(cc[9], cc[10]),
            "select-ndef",
        ) matches Run::Done(a, Ok(_)) ==> (a.apdu(l, read_binary(0, 2), "read-nlen") matches Run::Done(
            b,
            Ok(rsp),
        ) ==> {
            let mle = 256 * cc[3] + cc[4];
            let limit = if mle < 15 {
                15int
            } else if mle > 246 {
                246
            } else {
                mle as int
            };
            &&& rsp.len() < 4 ==> m.read_file(l, cc) == Run::<Line, Seq<u8>, Error<E>>::Done(
                b,
                Err(Error::Malformed),
            )
            &&& rsp.len() >= 4 ==> m.read_file(l, cc) == b.read_chunks(
                l,
                limit,
                (256 * rsp[0] + rsp[1]) as int,
                Seq::empty(),
            )
        })),
{
}

/// A message is read part by part: each part from where the last one ended,
/// two bytes into the file, and as many bytes as are missing or allowed; the
/// bytes of a part are those before its status.
pub proof fn messages_are_read_part_by_part<E>(
    m: Line,
    l: Trace<BusEvent<E>>,
    limit: int,
    nlen: int,
    msg: Seq<u8>,
)
    requires
        1 <= limit <= 255,
        nlen <= 0xFFFF,
        msg.len() <= nlen,
    ensures
        msg.len() == nlen ==> m.read_chunks(l, limit, nlen, msg) == Run::<
            Line,
            Seq<u8>,
            Error<E>,
        >::Done(m, Ok(msg)),
        msg.len() < nlen ==> {
            let n = if nlen - msg.len() < limit {
                nlen - msg.len()
            } else {
                limit
            };
            m.apdu(
                l,
                read_binary(((2 + msg.len()) % 0x1_0000) as u16, n as u8),
                "read-ndef",
            ) matches Run::Done(a, Ok(rsp)) ==> m.read_chunks(l, limit, nlen, msg) == if rsp.len()
                < n + 2 {
                Run::<Line, Seq<u8>, Error<E>>::Done(a, Err(Error::Malformed))
            } else {
                a.read_chunks(l, limit, nlen, msg + rsp.take(n))
            }
        },
{
}

} // verus!
