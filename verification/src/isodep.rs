//! Minimal ISO14443-4 (ISO-DEP) initiator on top of [`St25r3916`].
//!
//! Supports: RATS/ATS, I-block exchange without CID/NAD, S(WTX) handling,
//! receive-side chaining, S(DESELECT). Bit rate stays at 106 kbps (no PPS).

use crate::bus::{BusEvent, Delay, I2cPort};
use crate::bytes::owned;
use crate::st25r3916::model::Chip;
use crate::st25r3916::{Error as NfcError, St25r3916};
use crate::trace::{Run, Trace};
use vstd::prelude::*;

verus! {

broadcast use crate::trace::extends_transitive;

/// Answer To Select.
#[derive(Debug, Clone, Default)]
pub struct Ats {
    pub raw: Vec<u8>,
    /// Frame waiting time derived from TB(1) (milliseconds, clamped).
    pub fwt_ms: u32,
    /// Max frame size the card accepts (FSC).
    pub fsc: usize,
}

/// An ATS, mathematically.
pub struct AtsModel {
    pub raw: Seq<u8>,
    pub fwt_ms: u32,
    pub fsc: int,
}

impl View for Ats {
    type V = AtsModel;

    open spec fn view(&self) -> AtsModel {
        AtsModel { raw: self.raw@, fwt_ms: self.fwt_ms, fsc: self.fsc as int }
    }
}

#[derive(Debug, Clone, Copy, PartialEq, Eq)]
pub enum Error<E> {
    Nfc(NfcError<E>),
    /// Malformed ATS / protocol violation.
    Protocol,
    /// Too many retries / WTX loops.
    Retries,
}

impl<E> From<NfcError<E>> for Error<E> {
    fn from(e: NfcError<E>) -> (r: Self) {
        Error::Nfc(e)
    }
}

impl<E> vstd::std_specs::convert::FromSpecImpl<NfcError<E>> for Error<E> {
    open spec fn obeys_from_spec() -> bool {
        true
    }

    open spec fn from_spec(e: NfcError<E>) -> Self {
        Error::Nfc(e)
    }
}

/// A reader failure as a link error.
pub fn nfc_result<T, E>(r: Result<T, NfcError<E>>) -> (res: Result<T, Error<E>>)
    ensures
        res == (match r {
            Ok(t) => Ok::<T, Error<E>>(t),
            Err(e) => Err(Error::Nfc(e)),
        }),
{
    match r {
        Ok(t) => Ok(t),
        Err(e) => Err(Error::Nfc(e)),
    }
}

/// Frame size for an FSCI; values above 8 count as 8.
pub open spec fn frame_size(fsci: u8) -> int {
    if fsci >= 8 {
        256
    } else {
        seq![16int, 24, 32, 40, 48, 64, 96, 128][fsci as int]
    }
}

/// Frame waiting time for an FWI (at most 14): 0.302 ms · 2^FWI, within 5 ms
/// and 3 s.
pub open spec fn waiting_ms(fwi: u8) -> u32 {
    let f = if fwi > 14 {
        14u64
    } else {
        fwi as u64
    };
    let ms = (302u64 << f) / 1000;
    if ms < 5 {
        5
    } else if ms > 3000 {
        3000
    } else {
        ms as u32
    }
}

impl AtsModel {
    /// What a card's answer to RATS says, the CRC included: the length byte
    /// TL has to fit; T0 gives the frame size, and TB(1), behind an optional
    /// TA(1), the frame waiting time.
    pub open spec fn parse(answer: Seq<u8>) -> Option<AtsModel> {
        if answer.len() < 3 {
            None
        } else {
            let data = answer.take(answer.len() - 2);
            let tl = data[0] as int;
            if tl < 1 || tl > data.len() {
                None
            } else if tl < 2 {
                Some(AtsModel { raw: data.take(tl), fwt_ms: 40, fsc: 32 })
            } else {
                let t0 = data[1];
                let idx = if t0 & 0x10 != 0 {
                    3int
                } else {
                    2int
                };
                Some(
                    AtsModel {
                        raw: data.take(tl),
                        fwt_ms: if t0 & 0x20 != 0 && idx < tl {
                            waiting_ms(data[idx] >> 4)
                        } else {
                            40
                        },
                        fsc: frame_size(t0 & 0x0F),
                    },
                )
            }
        }
    }

    /// Waiting time and frame size are ones that a card can announce.
    pub open spec fn wf(self) -> bool {
        5 <= self.fwt_ms <= 3000 && 16 <= self.fsc <= 256
    }
}

fn parse_ats(answer: &[u8]) -> (ats: Option<Ats>)
    ensures
        AtsModel::parse(answer@) == (match ats {
            Some(a) => Some(a@),
            None => None,
        }),
        ats matches Some(a) ==> a@.wf(),
{
    if answer.len() < 3 {
        return None;
    }
    // strip CRC
    let data = vstd::slice::slice_subrange(answer, 0, answer.len() - 2);
    assert(data@ =~= answer@.take(answer@.len() - 2));
    let tl = data[0] as usize;
    if tl < 1 || tl > data.len() {
        return None;
    }
    let raw = owned(vstd::slice::slice_subrange(data, 0, tl));
    assert(raw@ =~= data@.take(tl as int));
    let mut ats = Ats { raw, fwt_ms: 40, fsc: 32 };
    if tl >= 2 {
        let t0 = data[1];
        proof {
            crate::bits::low_bits_are_remainders(t0);
        }
        ats.fsc = fsc_of(t0 & 0x0F);
        // TA(1): bit rates, ignored
        let idx: usize = if t0 & 0x10 != 0 {
            3
        } else {
            2
        };
        if t0 & 0x20 != 0 && idx < tl {
            ats.fwt_ms = fwt_of(data[idx] >> 4);
        }
    }
    Some(ats)
}

fn fsc_of(fsci: u8) -> (fsc: usize)
    ensures
        fsc == frame_size(fsci),
        16 <= fsc <= 256,
{
    let table = [16usize, 24, 32, 40, 48, 64, 96, 128];
    if fsci >= 8 {
        256
    } else {
        assert(table@[fsci as int] == seq![16int, 24, 32, 40, 48, 64, 96, 128][fsci as int]);
        table[fsci as usize]
    }
}

fn fwt_of(fwi: u8) -> (ms: u32)
    ensures
        ms == waiting_ms(fwi),
        5 <= ms <= 3000,
{
    let f: u64 = if fwi > 14 {
        14
    } else {
        fwi as u64
    };
    let ms = (302u64 << f) / 1000;
    if ms < 5 {
        5
    } else if ms > 3000 {
        3000
    } else {
        ms as u32
    }
}

/// The link's own state.
pub struct DepModel {
    pub block_num: bool,
    pub ats: AtsModel,
}

/// Link and chip together.
pub struct Line {
    pub dep: DepModel,
    pub chip: Chip,
}

/// What an answer of the card leads to.
pub enum Reaction {
    /// Send this block and wait at most so long; the bytes belong to the
    /// response.
    Go { tx: Seq<u8>, timeout: u32, part: Seq<u8>, flip: bool },
    /// The response is complete with these bytes.
    Complete(Seq<u8>),
    Violation,
}

/// The PCB bit of a block number.
pub open spec fn block_bit(n: bool) -> u8 {
    if n {
        1
    } else {
        0
    }
}

impl DepModel {
    /// Judge an answer, the CRC included: S(WTX) is granted, I-blocks with
    /// the expected number are collected and, while the card is chaining,
    /// acknowledged; everything else violates the protocol.
    pub open spec fn react(self, answer: Seq<u8>) -> Reaction {
        if answer.len() < 3 {
            Reaction::Violation
        } else {
            let pcb = answer[0];
            let payload = answer.subrange(1, answer.len() - 2);
            if pcb & 0xF7 == 0xF2 {
                let wtxm = (if payload.len() > 0 {
                    payload[0]
                } else {
                    1
                }) & 0x3F;
                let ms = self.ats.fwt_ms * if wtxm < 1 {
                    1int
                } else {
                    wtxm as int
                };
                Reaction::Go {
                    tx: seq![0xF2u8, wtxm],
                    timeout: if ms < 5000 {
                        ms as u32
                    } else {
                        5000
                    },
                    part: Seq::empty(),
                    flip: false,
                }
            } else if pcb & 0xE2 == 0x02 {
                if pcb & 0x01 != block_bit(self.block_num) {
                    Reaction::Violation
                } else if pcb & 0x10 != 0 {
                    Reaction::Go {
                        tx: seq![0xA2u8 | block_bit(!self.block_num)],
                        timeout: self.ats.fwt_ms,
                        part: payload,
                        flip: true,
                    }
                } else {
                    Reaction::Complete(payload)
                }
            } else {
                Reaction::Violation
            }
        }
    }
}

impl Line {
    pub open spec fn on<T, E>(self, run: Run<Chip, T, NfcError<E>>) -> Run<Line, T, Error<E>> {
        match run {
            Run::Done(chip, Ok(t)) => Run::Done(Line { chip, ..self }, Ok(t)),
            Run::Done(chip, Err(e)) => Run::Done(Line { chip, ..self }, Err(Error::Nfc(e))),
            Run::Off => Run::Off,
        }
    }

    pub open spec fn flipped(self) -> Line {
        Line { dep: DepModel { block_num: !self.dep.block_num, ..self.dep }, ..self }
    }

    /// Send `tx` and go on with what the answer asks for, at most `left` more
    /// blocks: the response so far, and the outcome.
    pub open spec fn blocks<E>(
        self,
        l: Trace<BusEvent<E>>,
        tx: Seq<u8>,
        timeout: u32,
        rsp: Seq<u8>,
        left: nat,
    ) -> Run<Line, (Seq<u8>, Result<(), Error<E>>), Error<E>>
        decreases left,
    {
        if left == 0 {
            Run::Done(self, Ok((rsp, Err(Error::Retries))))
        } else {
            match self.on(self.chip.transceive(l, tx, 260, timeout)) {
                Run::Done(m, Ok(answer)) => match m.dep.react(answer) {
                    Reaction::Go { tx, timeout, part, flip } => (if flip {
                        m.flipped()
                    } else {
                        m
                    }).blocks(l, tx, timeout, rsp + part, (left - 1) as nat),
                    Reaction::Complete(part) => Run::Done(
                        m.flipped(),
                        Ok((rsp + part, Ok(()))),
                    ),
                    Reaction::Violation => Run::Done(m, Ok((rsp, Err(Error::Protocol)))),
                },
                Run::Done(m, Err(e)) => Run::Done(m, Ok((rsp, Err(e)))),
                Run::Off => Run::Off,
            }
        }
    }

    /// Exchange one APDU, which has to fit in one frame.
    pub open spec fn exchange<E>(self, l: Trace<BusEvent<E>>, apdu: Seq<u8>) -> Run<
        Line,
        (Seq<u8>, Result<(), Error<E>>),
        Error<E>,
    > {
        if apdu.len() + 3 > self.dep.ats.fsc {
            Run::Done(self, Ok((Seq::empty(), Err(Error::Protocol))))
        } else {
            self.blocks(
                l,
                seq![0x02u8 | block_bit(self.dep.block_num)] + apdu,
                self.dep.ats.fwt_ms,
                Seq::empty(),
                32,
            )
        }
    }

    pub open spec fn deselect<E>(self, l: Trace<BusEvent<E>>) -> Run<Line, (), Error<E>> {
        self.on(self.chip.transceive(l, seq![0xC2u8], 8, self.dep.ats.fwt_ms)).chain(
            |m: Line, answer: Seq<u8>|
                if answer.len() >= 3 && answer[0] == 0xC2 {
                    Run::Done(m, Ok(()))
                } else {
                    Run::Done(m, Err(Error::Protocol))
                },
        )
    }
}

/// Send RATS and read the ATS; the link starts with block number zero.
pub open spec fn activated<E>(l: Trace<BusEvent<E>>, chip: Chip) -> Run<Chip, DepModel, Error<E>> {
    match chip.transceive(l, seq![0xE0u8, 0x80u8], 32, 70) {
        Run::Done(c, Ok(answer)) => match AtsModel::parse(answer) {
            Some(ats) => Run::Done(c, Ok(DepModel { block_num: false, ats })),
            None => Run::Done(c, Err(Error::Protocol)),
        },
        Run::Done(c, Err(e)) => Run::Done(c, Err(Error::Nfc(e))),
        Run::Off => Run::Off,
    }
}

/// Link and chip, as the model has them.
pub open spec fn line(dep: DepModel, chip: Chip) -> Line {
    Line { dep, chip }
}

pub open spec fn dep_result<E>(r: Result<IsoDep, Error<E>>) -> Result<DepModel, Error<E>> {
    match r {
        Ok(dep) => Ok(dep@),
        Err(e) => Err(e),
    }
}

/// An active ISO-DEP link.
pub struct IsoDep {
    pub block_num: bool,
    pub ats: Ats,
}

impl View for IsoDep {
    type V = DepModel;

    open spec fn view(&self) -> DepModel {
        DepModel { block_num: self.block_num, ats: self.ats@ }
    }
}

fn bit(n: bool) -> (b: u8)
    ensures
        b == block_bit(n),
{
    if n {
        1
    } else {
        0
    }
}

impl IsoDep {
    pub open spec fn wf(&self) -> bool {
        self.ats@.wf()
    }

    /// Send RATS (FSD = 256, CID = 0) to a tag that was just SELECTed with
    /// SAK bit 0x20 set, and parse the ATS.
    pub fn activate<P: I2cPort, D: Delay>(nfc: &mut St25r3916<P>, delay: &mut D) -> (res: Result<
        Self,
        Error<P::Error>,
    >)
        ensures
            final(nfc).trace().extends(old(nfc).trace()),
            forall|l: Trace<BusEvent<P::Error>>| l.extends(final(nfc).trace()) ==> #[trigger]
                activated(l, old(nfc).chip()) == Run::Done(final(nfc).chip(), dep_result(res)),
            res matches Ok(dep) ==> dep.wf(),
    {
        let mut buf = [0u8; 32];
        let rats = [0xE0u8, 0x80u8];
        assert(rats@ =~= seq![0xE0u8, 0x80u8]);
        let n = nfc_result(nfc.transceive(delay, &rats, &mut buf, 70))?;
        let answer = vstd::slice::slice_subrange(buf.as_slice(), 0, n);
        assert(answer@ =~= buf@.take(n as int));
        match parse_ats(answer) {
            None => Err(Error::Protocol),
            Some(ats) => Ok(IsoDep { block_num: false, ats }),
        }
    }

    pub fn ats(&self) -> (ats: &Ats)
        ensures
            ats@ == self@.ats,
    {
        &self.ats
    }

    /// Exchange one APDU: sends `apdu` as (possibly single) I-block and
    /// collects the full response (R-APDU incl. SW1SW2) into `rsp`.
    /// Transmit-side chaining is not implemented; `apdu` must fit in FSC-3.
    pub fn exchange<P: I2cPort, D: Delay>(
        &mut self,
        nfc: &mut St25r3916<P>,
        delay: &mut D,
        apdu: &[u8],
        rsp: &mut Vec<u8>,
    ) -> (res: Result<(), Error<P::Error>>)
        requires
            old(self).wf(),
        ensures
            final(self).wf(),
            final(self)@.ats == old(self)@.ats,
            final(nfc).trace().extends(old(nfc).trace()),
            forall|l: Trace<BusEvent<P::Error>>| l.extends(final(nfc).trace()) ==> #[trigger]
                crate::isodep::line(old(self)@, old(nfc).chip()).exchange(l, apdu@) == Run::Done(
                    crate::isodep::line(final(self)@, final(nfc).chip()),
                    Ok::<_, Error<P::Error>>((final(rsp)@, res)),
                ),
    {
        rsp.clear();
        assert(rsp@ =~= Seq::<u8>::empty());
        if apdu.len() > self.ats.fsc - 3 {
            return Err(Error::Protocol);
        }
        let mut tx: Vec<u8> = Vec::new();
        // I-block, no chaining
        tx.push(0x02 | bit(self.block_num));
        tx.extend_from_slice(apdu);
        assert(tx@ =~= seq![0x02u8 | block_bit(self.block_num)] + apdu@);

        let mut rx = [0u8; 260];
        let mut timeout = self.ats.fwt_ms;
        let mut guard: u32 = 0;
        let ghost ats = self.ats@;
        while guard < 32
            invariant
                guard <= 32,
                timeout <= 5000,
                rx@.len() == 260,
                ats == old(self)@.ats,
                self.ats@ == ats,
                ats.wf(),
                nfc.trace().extends(old(nfc).trace()),
                forall|l: Trace<BusEvent<P::Error>>|
                    l.extends(nfc.trace()) ==> #[trigger] line(
                        old(self)@,
                        old(nfc).chip(),
                    ).exchange(l, apdu@) == line(self@, nfc.chip()).blocks(
                        l,
                        tx@,
                        timeout,
                        rsp@,
                        (32 - guard) as nat,
                    ),
            decreases 32 - guard,
        {
            guard += 1;
            let n = nfc_result(nfc.transceive(delay, tx.as_slice(), &mut rx, timeout))?;
            let ghost answer = rx@.take(n as int);
            if n < 3 {
                return Err(Error::Protocol);
            }
            let pcb = rx[0];
            // strip CRC
            let payload = vstd::slice::slice_subrange(rx.as_slice(), 1, n - 2);
            assert(payload@ =~= answer.subrange(1, n - 2));

            if pcb & 0xF7 == 0xF2 {
                // S(WTX): grant the requested extension.
                let first = if payload.len() > 0 {
                    payload[0]
                } else {
                    1
                };
                let wtxm = first & 0x3F;
                proof {
                    crate::bits::low_bits_are_remainders(first);
                }
                let factor: u32 = if wtxm < 1 {
                    1
                } else {
                    wtxm as u32
                };
                let fwt_ms = self.ats.fwt_ms;
                assert(fwt_ms * factor <= 3000 * 63) by (nonlinear_arith)
                    requires
                        fwt_ms <= 3000,
                        factor <= 63,
                ;
                let ms = fwt_ms * factor;
                timeout = if ms < 5000 {
                    ms
                } else {
                    5000
                };
                tx.clear();
                tx.push(0xF2);
                tx.push(wtxm);
                assert(tx@ =~= seq![0xF2u8, wtxm]);
                assert(rsp@ + Seq::<u8>::empty() =~= rsp@);
                continue ;
            }
            if pcb & 0xE2 == 0x02 {
                // I-block response.
                if pcb & 0x01 != bit(self.block_num) {
                    // Unexpected block number; treat as protocol error.
                    return Err(Error::Protocol);
                }
                let ghost before = rsp@;
                rsp.extend_from_slice(payload);
                assert(rsp@ =~= before + payload@);
                self.block_num = !self.block_num;
                if pcb & 0x10 != 0 {
                    // Card is chaining: acknowledge with R(ACK) of the new number.
                    timeout = self.ats.fwt_ms;
                    tx.clear();
                    tx.push(0xA2 | bit(self.block_num));
                    assert(tx@ =~= seq![0xA2u8 | block_bit(self.block_num)]);
                    continue ;
                }
                return Ok(());
            }
            // R-blocks (NAK/ACK) are not expected here either.
            return Err(Error::Protocol);
        }
        Err(Error::Retries)
    }

    /// S(DESELECT): cleanly ends the ISO-DEP session (tag goes to HALT).
    pub fn deselect<P: I2cPort, D: Delay>(&mut self, nfc: &mut St25r3916<P>, delay: &mut D) -> (res:
        Result<(), Error<P::Error>>)
        requires
            old(self).wf(),
        ensures
            *final(self) == *old(self),
            final(nfc).trace().extends(old(nfc).trace()),
            forall|l: Trace<BusEvent<P::Error>>| l.extends(final(nfc).trace()) ==> #[trigger]
                crate::isodep::line(old(self)@, old(nfc).chip()).deselect(l) == Run::Done(
                    crate::isodep::line(final(self)@, final(nfc).chip()),
                    res,
                ),
    {
        let mut rx = [0u8; 8];
        let tx = [0xC2u8];
        assert(tx@ =~= seq![0xC2u8]);
        let n = nfc_result(nfc.transceive(delay, &tx, &mut rx, self.ats.fwt_ms))?;
        if n >= 3 && rx[0] == 0xC2 {
            Ok(())
        } else {
            Err(Error::Protocol)
        }
    }
}

/// Whatever a card answers, the link never waits longer than five seconds
/// for the next block, and a card that asks for more time gets its request
/// back as the grant.
pub proof fn waiting_is_bounded(dep: DepModel, answer: Seq<u8>)
    requires
        dep.ats.wf(),
    ensures
        dep.react(answer) matches Reaction::Go { timeout, .. } ==> timeout <= 5000,
        answer.len() >= 4 && answer[0] & 0xF7 == 0xF2 ==> (dep.react(answer) matches Reaction::Go {
            tx,
            flip,
            ..
        } && tx == seq![0xF2u8, answer[1] & 0x3F] && !flip),
{
    let payload = answer.subrange(1, answer.len() - 2);
    if answer.len() >= 4 {
        assert(payload[0] == answer[1]);
    }
}

/// What a card announces is a waiting time and a frame size that the link can
/// work with.
pub proof fn announced_limits_are_sound(answer: Seq<u8>)
    ensures
        AtsModel::parse(answer) matches Some(ats) ==> ats.wf(),
{
}

/// The block number changes with every accepted I-block and with nothing
/// else: a block of the wrong number is never taken in.
pub proof fn block_numbers_alternate(dep: DepModel, answer: Seq<u8>)
    ensures
        dep.react(answer) is Complete || (dep.react(answer) matches Reaction::Go { flip, .. }
            && flip)
            ==> answer.len() >= 3 && answer[0] & 0xE2 == 0x02 && answer[0] & 0x01 == block_bit(
            dep.block_num,
        ),
{
}

// ----------------------------------------------------------------------
// what cards say
// ----------------------------------------------------------------------

/// Frame sizes are those of the standard.
pub proof fn frame_sizes_are_standard(fsci: u8)
    ensures
        frame_size(0) == 16 && frame_size(1) == 24 && frame_size(2) == 32 && frame_size(3) == 40
            && frame_size(4) == 48 && frame_size(5) == 64 && frame_size(6) == 96 && frame_size(7)
            == 128,
        fsci >= 8 ==> frame_size(fsci) == 256,
{
}

/// Each step of the waiting time doubles it, within its limits of 5 ms and
/// 3 s; from step fourteen on it stays.
pub proof fn waiting_times_double(fwi: u8)
    ensures
        waiting_ms(0) == 5,
        waiting_ms(5) == 9,
        waiting_ms(10) == 309,
        waiting_ms(13) == 2473,
        fwi >= 14 ==> waiting_ms(fwi) == 3000,
        4 < fwi < 13 ==> 2 * waiting_ms(fwi) <= waiting_ms((fwi + 1) as u8) <= 2 * waiting_ms(fwi)
            + 1,
        fwi <= 4 ==> waiting_ms(fwi) == 5,
{
    let f = fwi as u64;
    assert(302u64 << 0u64 == 302 && 302u64 << 1u64 == 604 && 302u64 << 2u64 == 1208 && 302u64
        << 3u64 == 2416 && 302u64 << 4u64 == 4832 && 302u64 << 5u64 == 9664 && 302u64 << 6u64
        == 19328 && 302u64 << 7u64 == 38656 && 302u64 << 8u64 == 77312 && 302u64 << 9u64 == 154624
        && 302u64 << 10u64 == 309248 && 302u64 << 11u64 == 618496 && 302u64 << 12u64 == 1236992
        && 302u64 << 13u64 == 2473984 && 302u64 << 14u64 == 4947968) by (bit_vector);
}

/// What an answer to select says, its CRC of two bytes taken off: the first
/// byte is its length; the low half of the second gives the frame size, and its
/// bits four and five say whether bytes about bit rates and waiting time
/// follow. Without them the limits are 32 bytes and 40 ms.
pub proof fn answers_to_select_are_read(answer: Seq<u8>)
    ensures
        ({
            let n = answer.len() - 2;
            let whole = n >= 1 && 1 <= answer[0] <= n;
            let tl = answer[0] as int;
            &&& !whole ==> AtsModel::parse(answer) is None
            &&& whole ==> (AtsModel::parse(answer) matches Some(ats) && {
                let at = if answer[1] / 16 % 2 == 1 {
                    3int
                } else {
                    2int
                };
                &&& ats.raw == answer.take(tl)
                &&& tl == 1 ==> ats.fsc == 32 && ats.fwt_ms == 40
                &&& tl >= 2 ==> ats.fsc == frame_size((answer[1] % 16) as u8)
                &&& tl >= 2 && answer[1] / 32 % 2 == 1 && at < tl ==> ats.fwt_ms == waiting_ms(
                    (answer[at] / 16) as u8,
                )
                &&& tl >= 2 && !(answer[1] / 32 % 2 == 1 && at < tl) ==> ats.fwt_ms == 40
            })
        }),
{
    let n = answer.len() - 2;
    if n >= 1 {
        let data = answer.take(n);
        assert(data[0] == answer[0]);
        if 1 <= answer[0] <= n {
            let tl = answer[0] as int;
            assert(data.take(tl) =~= answer.take(tl));
            if tl >= 2 {
                assert(data[1] == answer[1]);
                crate::bits::single_bits(answer[1]);
                crate::bits::low_bits_are_remainders(answer[1]);
                let at = if answer[1] / 16 % 2 == 1 {
                    3int
                } else {
                    2int
                };
                if at < tl {
                    assert(data[at] == answer[at]);
                    crate::bits::low_bits_are_remainders(answer[at]);
                }
            }
        }
    }
}

/// What a block is, by its first byte: a plea for time, a block of data, and
/// its number and whether more follows; every other is a violation.
pub proof fn blocks_are_told_apart(pcb: u8)
    ensures
        (pcb & 0xF7 == 0xF2) == (pcb == 0xF2 || pcb == 0xFA),
        (pcb & 0xE2 == 0x02) == (pcb < 32 && pcb / 2 % 2 == 1),
        (pcb & 0x01) == pcb % 2,
        (pcb & 0x10 != 0) == (pcb / 16 % 2 == 1),
{
    crate::bits::low_bits_are_remainders(pcb);
    crate::bits::single_bits(pcb);
    assert((pcb & 0xF7 == 0xF2) == (pcb == 0xF2 || pcb == 0xFA) && (pcb & 0xE2 == 0x02) == (pcb < 32
        && pcb / 2 % 2 == 1)) by (bit_vector);
}

/// How the link reacts to a block of data of the expected number: its bytes
/// belong to the response, and a card that has more is acknowledged with the
/// next number.
pub proof fn data_is_collected(dep: DepModel, answer: Seq<u8>)
    requires
        answer.len() >= 3,
        answer[0] < 32,
        answer[0] / 2 % 2 == 1,
    ensures
        ({
            let number = answer[0] % 2 == 1;
            let more = answer[0] / 16 == 1;
            let bytes = answer.subrange(1, answer.len() - 2);
            &&& number != dep.block_num ==> dep.react(answer) is Violation
            &&& number == dep.block_num && !more ==> dep.react(answer) == Reaction::Complete(bytes)
            &&& number == dep.block_num && more ==> (dep.react(answer) matches Reaction::Go {
                tx,
                timeout,
                part,
                flip,
            } && tx == seq![
                if number {
                    0xA2u8
                } else {
                    0xA3u8
                },
            ] && timeout == dep.ats.fwt_ms && part == bytes && flip)
        }),
{
    blocks_are_told_apart(answer[0]);
    crate::bits::register_codes(0);
}

/// How the link reacts to everything else: a plea for time is granted as it
/// was made, at least once and for at most five seconds, and any other block,
/// or none, violates the protocol.
pub proof fn other_blocks_are_judged(dep: DepModel, answer: Seq<u8>)
    requires
        dep.ats.wf(),
    ensures
        answer.len() < 3 ==> dep.react(answer) is Violation,
        answer.len() >= 3 && answer[0] != 0xF2 && answer[0] != 0xFA && !(answer[0] < 32 && answer[0]
            / 2 % 2 == 1) ==> dep.react(answer) is Violation,
        answer.len() >= 4 && (answer[0] == 0xF2 || answer[0] == 0xFA) ==> (dep.react(
            answer,
        ) matches Reaction::Go { tx, timeout, part, flip } && {
            let wtxm = answer[1] % 64;
            let ms = dep.ats.fwt_ms * (if wtxm == 0 {
                1int
            } else {
                wtxm as int
            });
            &&& tx == seq![0xF2u8, wtxm as u8]
            &&& timeout == if ms < 5000 {
                ms
            } else {
                5000
            }
            &&& part.len() == 0
            &&& !flip
        }),
{
    if answer.len() >= 3 {
        blocks_are_told_apart(answer[0]);
    }
    if answer.len() >= 4 {
        let payload = answer.subrange(1, answer.len() - 2);
        assert(payload[0] == answer[1]);
        crate::bits::low_bits_are_remainders(answer[1]);
    }
}

/// A card is activated with E0 80 and its CRC; the link starts with block
/// number zero and the limits of the answer.
pub proof fn an_activation_sends_rats<E>(
    l: Trace<BusEvent<E>>,
    c: Chip,
    r: crate::st25r3916::air::Radio,
)
    ensures
        activated(l, c) matches Run::Done(d, Ok(dep)) ==> {
            &&& r.listen(l, c.at, d.at).frames == r.frames.push(
                crate::st25r3916::air::Frame {
                    how: 0xC4,
                    data: seq![0xE0u8, 0x80u8],
                    bits: 16,
                },
            )
            &&& !dep.block_num
            &&& exists|answer: Seq<u8>|
                #[trigger] crate::st25r3916::air::came_from_the_fifo(l, d.at, answer, 32)
                    && AtsModel::parse(answer) == Some(dep.ats)
        },
{
    let rats = seq![0xE0u8, 0x80u8];
    crate::st25r3916::air::an_exchange_sends_one_frame(l, c, rats, 32, 70, r);
    match c.transceive(l, rats, 32, 70) {
        Run::Done(d, Ok(answer)) => {
            assert(rats.len() == 2);
            assert(crate::st25r3916::air::came_from_the_fifo(l, d.at, answer, 32));
        },
        _ => {},
    }
}

/// One block of an exchange: it goes out in a frame of its own, and what the
/// card answers decides what follows. A response is what its blocks held, in
/// order; after 32 blocks without an end the exchange is given up.
pub proof fn a_block_is_exchanged<E>(
    m: Line,
    l: Trace<BusEvent<E>>,
    tx: Seq<u8>,
    timeout: u32,
    rsp: Seq<u8>,
    left: nat,
    r: crate::st25r3916::air::Radio,
)
    requires
        tx.len() <= 512,
        left > 0,
    ensures
        m.blocks(l, tx, timeout, rsp, 0) == Run::<Line, (Seq<u8>, Result<(), Error<E>>), Error<E>>::Done(
            m,
            Ok((rsp, Err(Error::Retries))),
        ),
        m.chip.transceive(l, tx, 260, timeout) matches Run::Done(c, Ok(answer)) ==> {
            let here = Line { chip: c, ..m };
            &&& r.listen(l, m.chip.at, c.at).frames == r.frames.push(
                crate::st25r3916::air::Frame { how: 0xC4, data: tx, bits: 8 * tx.len() as int },
            )
            &&& crate::st25r3916::air::came_from_the_fifo(l, c.at, answer, 260)
            &&& m.dep.react(answer) matches Reaction::Complete(part) ==> m.blocks(
                l,
                tx,
                timeout,
                rsp,
                left,
            ) == Run::<Line, (Seq<u8>, Result<(), Error<E>>), Error<E>>::Done(
                Line { dep: DepModel { block_num: !m.dep.block_num, ..m.dep }, chip: c },
                Ok((rsp + part, Ok(()))),
            )
            &&& m.dep.react(answer) is Violation ==> m.blocks(l, tx, timeout, rsp, left) == Run::<
                Line,
                (Seq<u8>, Result<(), Error<E>>),
                Error<E>,
            >::Done(here, Ok((rsp, Err(Error::Protocol))))
            &&& m.dep.react(answer) matches Reaction::Go { tx: next, timeout: t, part, flip }
                ==> m.blocks(l, tx, timeout, rsp, left) == (Line {
                dep: DepModel { block_num: m.dep.block_num != flip, ..m.dep },
                chip: c,
            }).blocks(l, next, t, rsp + part, (left - 1) as nat)
        },
        m.chip.transceive(l, tx, 260, timeout) matches Run::Done(c, Err(e)) ==> m.blocks(
            l,
            tx,
            timeout,
            rsp,
            left,
        ) == Run::<Line, (Seq<u8>, Result<(), Error<E>>), Error<E>>::Done(
            Line { chip: c, ..m },
            Ok((rsp, Err(Error::Nfc(e)))),
        ),
{
    crate::st25r3916::air::an_exchange_sends_one_frame(l, m.chip, tx, 260, timeout, r);
}

/// An APDU that fits the card's frames with three bytes to spare goes out as
/// one block of data with the link's number; a longer one is refused unsent.
pub proof fn an_apdu_goes_out_in_one_block<E>(m: Line, l: Trace<BusEvent<E>>, apdu: Seq<u8>)
    ensures
        apdu.len() + 3 > m.dep.ats.fsc ==> m.exchange(l, apdu) == Run::<
            Line,
            (Seq<u8>, Result<(), Error<E>>),
            Error<E>,
        >::Done(m, Ok((Seq::empty(), Err(Error::Protocol)))),
        apdu.len() + 3 <= m.dep.ats.fsc ==> m.exchange(l, apdu) == m.blocks(
            l,
            seq![
                if m.dep.block_num {
                    0x03u8
                } else {
                    0x02u8
                },
            ] + apdu,
            m.dep.ats.fwt_ms,
            Seq::empty(),
            32,
        ),
{
    crate::bits::register_codes(0);
}

/// A link ends with C2 and its CRC, which the card has to send back.
pub proof fn a_link_ends_with_deselect<E>(
    m: Line,
    l: Trace<BusEvent<E>>,
    r: crate::st25r3916::air::Radio,
)
    ensures
        m.deselect(l) matches Run::Done(d, Ok(_)) ==> {
            &&& d.dep == m.dep
            &&& r.listen(l, m.chip.at, d.chip.at).frames == r.frames.push(
                crate::st25r3916::air::Frame { how: 0xC4, data: seq![0xC2u8], bits: 8 },
            )
            &&& exists|answer: Seq<u8>|
                #[trigger] crate::st25r3916::air::came_from_the_fifo(l, d.chip.at, answer, 8)
                    && answer.len() >= 3 && answer[0] == 0xC2
        },
{
    let tx = seq![0xC2u8];
    crate::st25r3916::air::an_exchange_sends_one_frame(l, m.chip, tx, 8, m.dep.ats.fwt_ms, r);
    match m.chip.transceive(l, tx, 8, m.dep.ats.fwt_ms) {
        Run::Done(d, Ok(answer)) => {
            assert(tx.len() == 1);
            assert(crate::st25r3916::air::came_from_the_fifo(l, d.at, answer, 8));
        },
        _ => {},
    }
}

} // verus!
