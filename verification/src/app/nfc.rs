//! The application's two NFC roles: serving the emulated tag, and reading
//! tags.

use crate::app::scene::Item;
use crate::app::{elapsed_ms, App, Plate, FIELD_SETTLE_MS, FIELD_WATCHDOG_MS, TAG_FORGET_MS};
use crate::bus::{BusEvent, Delay, I2cPort};
use crate::isodep::{IsoDep, Line};
use crate::ndef::{read_type4, summarize, Error as NdefError};
use crate::st25r3916::model::{Chip, TagModel};
use crate::st25r3916::{Error as NfcError, NfcaTag, St25r3916};
use crate::t2t_emu::model::Emu;
use crate::t2t_emu::Event;
use crate::text::push_hex2;
use crate::trace::{Run, Trace};
use vstd::prelude::*;
use vstd::string::*;

verus! {

broadcast use crate::trace::extends_transitive;

// ----------------------------------------------------------------------
// emulation
// ----------------------------------------------------------------------

/// What a round of emulation asks for.
#[derive(Debug, Clone, Copy, PartialEq, Eq, Structural)]
pub enum Round {
    /// Nothing happened: sleep a millisecond before the next round.
    Rest,
    /// Go on at once.
    Again,
    /// A reader wrote to the tag and is gone: adopt the content.
    Adopt,
    /// The chip failed: end the slice, start over next time.
    Restart,
}

/// What an event of the emulator asks for.
pub open spec fn round_of<E>(r: Result<Event, E>) -> Round {
    match r {
        Ok(Event::Unchanged) => Round::Rest,
        Ok(Event::FieldOff { written }) => if written {
            Round::Adopt
        } else {
            Round::Again
        },
        Ok(_) => Round::Again,
        Err(_) => Round::Restart,
    }
}

impl Emu {
    /// Unless the tag is running: the field goes off, whatever that answers,
    /// then the tag starts.
    pub open spec fn ensured<E>(self, l: Trace<BusEvent<E>>, running: bool) -> Run<
        Emu,
        (),
        NfcError<E>,
    > {
        if running {
            self.done(())
        } else {
            self.on(self.chip.field_off::<E>(l)).always(|m: Emu, _r: Result<(), E>| m.start(l))
        }
    }

    /// The tag stops if it is running, then the chip becomes a reader;
    /// failures do not matter.
    pub open spec fn become_reader<E>(self, l: Trace<BusEvent<E>>, running: bool) -> Run<
        Emu,
        (),
        E,
    > {
        if running {
            self.stop::<E>(l).always(|m: Emu, _r: Result<(), E>| m.read_mode(l))
        } else {
            self.read_mode(l)
        }
    }

    pub open spec fn read_mode<E>(self, l: Trace<BusEvent<E>>) -> Run<Emu, (), E> {
        self.on(self.chip.configure_nfca::<E>(l)).always(
            |m: Emu, _r: Result<(), NfcError<E>>| m.done(()),
        )
    }
}

impl App {
    /// Leave emulation and configure the chip as a reader.
    pub fn become_reader<P: I2cPort, D: Delay>(&mut self, nfc: &mut St25r3916<P>, delay: &mut D)
        ensures
            final(self).emu_running == false,
            *final(self) == (App {
                plate: Plate { emu: final(self).plate.emu, ..old(self).plate },
                emu_running: false,
                ..*old(self)
            }),
            final(nfc).trace().extends(old(nfc).trace()),
            forall|l: Trace<BusEvent<P::Error>>| l.extends(final(nfc).trace()) ==> #[trigger]
                crate::t2t_emu::emu(old(self).plate.emu@, old(nfc).chip()).become_reader(
                    l,
                    old(self).emu_running,
                ) == Run::Done(
                    crate::t2t_emu::emu(final(self).plate.emu@, final(nfc).chip()),
                    Ok::<(), P::Error>(()),
                ),
    {
        self.stop_emulation(nfc);
        let _ = nfc.configure_nfca(delay);
    }

    /// Stop the emulated tag if it is running, whatever the chip answers.
    pub fn stop_emulation<P: I2cPort>(&mut self, nfc: &mut St25r3916<P>)
        ensures
            *final(self) == (App {
                plate: Plate { emu: final(self).plate.emu, ..old(self).plate },
                emu_running: false,
                ..*old(self)
            }),
            !old(self).emu_running ==> *final(self) == *old(self) && *final(nfc) == *old(nfc),
            final(nfc).trace().extends(old(nfc).trace()),
            old(self).emu_running ==> forall|l: Trace<BusEvent<P::Error>>|
                l.extends(final(nfc).trace()) ==> match #[trigger] crate::t2t_emu::emu(
                    old(self).plate.emu@,
                    old(nfc).chip(),
                ).stop(l) {
                    Run::Done(m, _) => m == crate::t2t_emu::emu(
                        final(self).plate.emu@,
                        final(nfc).chip(),
                    ),
                    Run::Off => false,
                },
    {
        if self.emu_running {
            let _ = self.plate.emu.stop(nfc);
            self.emu_running = false;
        }
    }

    /// Start the emulated tag unless it is running.
    pub fn ensure_emulation<P: I2cPort, D: Delay>(&mut self, nfc: &mut St25r3916<P>, delay: &mut D) -> (res:
        Result<(), NfcError<P::Error>>)
        ensures
            *final(self) == (App {
                plate: Plate { emu: final(self).plate.emu, ..old(self).plate },
                emu_running: res is Ok,
                ..*old(self)
            }),
            final(nfc).trace().extends(old(nfc).trace()),
            forall|l: Trace<BusEvent<P::Error>>| l.extends(final(nfc).trace()) ==> #[trigger]
                crate::t2t_emu::emu(old(self).plate.emu@, old(nfc).chip()).ensured(
                    l,
                    old(self).emu_running,
                ) == Run::Done(
                    crate::t2t_emu::emu(final(self).plate.emu@, final(nfc).chip()),
                    res,
                ),
    {
        if self.emu_running {
            return Ok(());
        }
        let _ = nfc.field_off();
        let res = self.plate.emu.start(nfc, delay);
        self.emu_running = res.is_ok();
        res
    }

    /// If the reader field has not been seen for a long time the chip may be
    /// wedged in a way we cannot observe; start it over.
    pub fn watchdog(&mut self, now: u64) -> (bites: bool)
        ensures
            bites == (crate::app::elapsed(old(self).emu_last_field, now) > FIELD_WATCHDOG_MS),
            *final(self) == if bites {
                App { emu_last_field: now, emu_running: false, ..*old(self) }
            } else {
                *old(self)
            },
    {
        if elapsed_ms(self.emu_last_field, now) > FIELD_WATCHDOG_MS {
            self.emu_last_field = now;
            self.emu_running = false;
            return true;
        }
        false
    }

    /// The memory after a round of emulation: any event shows that the field
    /// is alive; a field that appears and a selection are activity.
    pub open spec fn after_round<E>(self, r: Result<Event, E>, now: u64) -> App {
        App {
            emu_last_field: if r is Ok && r->Ok_0 != Event::Unchanged {
                now
            } else {
                self.emu_last_field
            },
            last_activity: if r is Ok && (r->Ok_0 is FieldOn || r->Ok_0 is Selected) {
                now
            } else {
                self.last_activity
            },
            emu_running: self.emu_running && r is Ok,
            ..self
        }
    }

    /// One round of the emulated tag.
    pub fn emulation_round<P: I2cPort, D: Delay>(
        &mut self,
        nfc: &mut St25r3916<P>,
        delay: &mut D,
        now: u64,
    ) -> (res: Result<Event, P::Error>)
        ensures
            *final(self) == (App {
                plate: Plate { emu: final(self).plate.emu, ..old(self).plate },
                ..(*old(self)).after_round(res, now)
            }),
            final(nfc).trace().extends(old(nfc).trace()),
            forall|l: Trace<BusEvent<P::Error>>| l.extends(final(nfc).trace()) ==> #[trigger]
                crate::t2t_emu::emu(old(self).plate.emu@, old(nfc).chip()).update(l) == Run::Done(
                    crate::t2t_emu::emu(final(self).plate.emu@, final(nfc).chip()),
                    res,
                ),
    {
        let res = self.plate.emu.update(nfc, delay);
        self.note_round(&res, now);
        res
    }

    fn note_round<E>(&mut self, res: &Result<Event, E>, now: u64)
        ensures
            *final(self) == (*old(self)).after_round(*res, now),
    {
        match res {
            Ok(Event::Unchanged) => {},
            Ok(Event::FieldOff { .. }) => {
                self.emu_last_field = now;
            },
            Ok(_) => {
                self.emu_last_field = now;
                self.last_activity = now;
            },
            Err(_) => {
                self.emu_running = false;
            },
        }
    }
}

/// What a round asks for.
pub fn next_round<E>(res: &Result<Event, E>) -> (round: Round)
    ensures
        round == round_of(*res),
{
    match res {
        Ok(Event::Unchanged) => Round::Rest,
        Ok(Event::FieldOff { written }) => if *written {
            Round::Adopt
        } else {
            Round::Again
        },
        Ok(_) => Round::Again,
        Err(_) => Round::Restart,
    }
}

// ----------------------------------------------------------------------
// reader
// ----------------------------------------------------------------------

/// The first bytes of the UID that count.
pub open spec fn uid_of(tag: TagModel) -> Seq<u8> {
    tag.uid.take(tag.uid_len)
}

/// A UID that changes with every activation.
pub open spec fn random_uid(tag: TagModel) -> bool {
    tag.uid_len == 4 && tag.uid[0] == 0x08
}

/// The same tag as before: the same UID, or a random one both times.
pub open spec fn same_tag(known: Option<TagModel>, tag: TagModel) -> bool {
    known matches Some(k) && (uid_of(k) == uid_of(tag) || (random_uid(k) && random_uid(tag)))
}

pub open spec fn known_tag(tag: Option<NfcaTag>) -> Option<TagModel> {
    match tag {
        Some(t) => Some(t@),
        None => None,
    }
}

/// What was found out about a tag.
pub struct Inspection {
    /// Blocks 0..4 of a Type 2 tag.
    pub t2: Option<[u8; 16]>,
    /// A line about the content of a Type 4 tag.
    pub detail: Option<String>,
}

/// The same, mathematically.
pub struct InspectionModel {
    pub t2: Option<Seq<u8>>,
    pub detail: Option<Seq<char>>,
}

impl View for Inspection {
    type V = InspectionModel;

    open spec fn view(&self) -> InspectionModel {
        InspectionModel {
            t2: match self.t2 {
                Some(d) => Some(d@),
                None => None,
            },
            detail: match self.detail {
                Some(s) => Some(s@),
                None => None,
            },
        }
    }
}

/// A line about what reading a Type 4 tag gave.
pub open spec fn detail_text<E>(r: Result<Seq<u8>, NdefError<E>>) -> Seq<char> {
    match r {
        Ok(msg) => crate::ndef::summary(msg),
        Err(NdefError::Status { step, sw }) => "no NDEF ("@ + step@ + ": SW="@
            + crate::app::ui::hex4(sw) + ")"@,
        Err(_) => "no NDEF (protocol error)"@,
    }
}

impl Chip {
    /// Field on and settled; a failure to switch it on ends the poll.
    pub open spec fn duty_on<E>(self, l: Trace<BusEvent<E>>, duty: bool) -> Run<
        Chip,
        (),
        NfcError<E>,
    > {
        if duty {
            self.field_on(l).i2c().chain(
                |c: Chip, _u: ()| c.pause_ms(l, FIELD_SETTLE_MS).i2c(),
            )
        } else {
            self.done(())
        }
    }

    /// Look for a tag, with the field on only meanwhile if `duty`: what was
    /// found, or nothing at all if the field could not be switched on.
    #[verifier::opaque]
    pub open spec fn look<E>(
        self,
        l: Trace<BusEvent<E>>,
        duty: bool,
        known: Option<TagModel>,
    ) -> Run<Chip, Option<Result<Option<TagModel>, NfcError<E>>>, E> {
        self.duty_on::<E>(l, duty).always(
            |c: Chip, on: Result<(), NfcError<E>>|
                if on is Err {
                    c.done(None)
                } else {
                    c.nfca_poll::<E>(l).always(
                        |c: Chip, r: Result<Option<TagModel>, NfcError<E>>|
                            c.after_look(l, duty, known, r),
                    )
                },
        )
    }

    /// Without a tag the field goes off again; a known tag is put to sleep;
    /// after a bus failure the chip is configured anew. Failures of these do
    /// not matter.
    pub open spec fn after_look<E>(
        self,
        l: Trace<BusEvent<E>>,
        duty: bool,
        known: Option<TagModel>,
        r: Result<Option<TagModel>, NfcError<E>>,
    ) -> Run<Chip, Option<Result<Option<TagModel>, NfcError<E>>>, E> {
        match r {
            Ok(None) => if duty {
                self.field_off::<E>(l).always(|c: Chip, _r: Result<(), E>| c.done(Some(r)))
            } else {
                self.done(Some(r))
            },
            Ok(Some(tag)) => if same_tag(known, tag) {
                self.nfca_halt::<E>(l).i2c().always(
                    |c: Chip, _r: Result<(), NfcError<E>>| c.done(Some(r)),
                )
            } else {
                self.done(Some(r))
            },
            Err(NfcError::I2c(_)) => self.field_off::<E>(l).always(
                |c: Chip, _r: Result<(), E>|
                    c.pause_ms::<E>(l, 20).always(
                        |c: Chip, _p: Result<(), E>|
                            c.configure_nfca::<E>(l).always(
                                |c: Chip, _s: Result<(), NfcError<E>>| c.done(Some(r)),
                            ),
                    ),
            ),
            Err(_) => self.done(Some(r)),
        }
    }

    /// Content of a tag: NDEF over ISO-DEP for phones/Type 4, raw blocks for
    /// Type 2. The tag is left asleep.
    #[verifier::opaque]
    pub open spec fn inspect<E>(self, l: Trace<BusEvent<E>>, sak: u8) -> Run<
        Chip,
        InspectionModel,
        E,
    > {
        if sak & 0x20 != 0 {
            match crate::isodep::activated::<E>(l, self) {
                Run::Done(c, Ok(dep)) => Line { dep, chip: c }.inspect4(l),
                Run::Done(c, Err(_)) => c.rest(l, InspectionModel { t2: None, detail: None }),
                Run::Off => Run::Off,
            }
        } else if sak == 0x00 {
            self.t2t_read::<E>(l, 0).always(
                |c: Chip, r: Result<Seq<u8>, NfcError<E>>|
                    c.rest(
                        l,
                        InspectionModel {
                            t2: match r {
                                Ok(d) => Some(d),
                                Err(_) => None,
                            },
                            detail: None,
                        },
                    ),
            )
        } else {
            self.rest(l, InspectionModel { t2: None, detail: None })
        }
    }

    /// Halt, whatever that answers.
    pub open spec fn rest<E>(self, l: Trace<BusEvent<E>>, found: InspectionModel) -> Run<
        Chip,
        InspectionModel,
        E,
    > {
        self.nfca_halt::<E>(l).i2c().always(
            |c: Chip, _r: Result<(), NfcError<E>>| c.done(found),
        )
    }
}

impl Line {
    /// Read a Type 4 tag and deselect it, whatever that answers.
    pub open spec fn inspect4<E>(self, l: Trace<BusEvent<E>>) -> Run<Chip, InspectionModel, E> {
        match self.read_type4::<E>(l) {
            Run::Done(m, r) => match m.deselect::<E>(l) {
                Run::Done(m, _) => m.chip.done(
                    InspectionModel { t2: None, detail: Some(detail_text(r)) },
                ),
                Run::Off => Run::Off,
            },
            Run::Off => Run::Off,
        }
    }
}

fn same_as(known: &Option<NfcaTag>, tag: &NfcaTag) -> (same: bool)
    requires
        known matches Some(k) ==> k.wf(),
        tag.wf(),
    ensures
        same == same_tag(known_tag(*known), tag@),
{
    match known {
        None => false,
        Some(k) => crate::bytes::same_bytes(k.uid(), tag.uid()) || (k.has_random_uid()
            && tag.has_random_uid()),
    }
}

fn detail_of<E>(r: Result<Vec<u8>, NdefError<E>>) -> (s: String)
    ensures
        s@ == detail_text(crate::ndef::message_result(r)),
{
    match r {
        Ok(msg) => summarize(msg.as_slice()),
        Err(NdefError::Status { step, sw }) => {
            let mut s = "no NDEF (".to_owned();
            s.append(step);
            s.append(": SW=");
            push_hex2(&mut s, (sw / 256) as u8);
            push_hex2(&mut s, (sw % 256) as u8);
            s.append(")");
            assert(s@ =~= "no NDEF ("@ + step@ + ": SW="@ + crate::app::ui::hex4(sw) + ")"@);
            s
        },
        Err(_) => "no NDEF (protocol error)".to_owned(),
    }
}

fn duty_on<P: I2cPort, D: Delay>(nfc: &mut St25r3916<P>, delay: &mut D, duty: bool) -> (on: bool)
    ensures
        final(nfc).trace().extends(old(nfc).trace()),
        forall|l: Trace<BusEvent<P::Error>>|
            l.extends(final(nfc).trace()) ==> match #[trigger] old(nfc).chip().duty_on(l, duty) {
                Run::Done(c, r) => c == final(nfc).chip() && on == (r is Ok),
                Run::Off => false,
            },
{
    if duty {
        match nfc.field_on(delay) {
            Ok(_) => {
                let _ = nfc.pause_ms(delay, FIELD_SETTLE_MS);
            },
            Err(_) => {
                return false;
            },
        }
    }
    true
}

fn after_look<P: I2cPort, D: Delay>(
    nfc: &mut St25r3916<P>,
    delay: &mut D,
    duty: bool,
    known: &Option<NfcaTag>,
    r: &Result<Option<NfcaTag>, NfcError<P::Error>>,
)
    requires
        known matches Some(k) ==> k.wf(),
        *r matches Ok(Some(tag)) ==> tag.wf(),
    ensures
        final(nfc).trace().extends(old(nfc).trace()),
        forall|l: Trace<BusEvent<P::Error>>| l.extends(final(nfc).trace()) ==> #[trigger]
            old(nfc).chip().after_look(
                l,
                duty,
                known_tag(*known),
                crate::st25r3916::poll_result(*r),
            ) == Run::Done(
                final(nfc).chip(),
                Ok::<_,
                P::Error>(Some(crate::st25r3916::poll_result(*r))),
            ),
{
    match r {
        Ok(None) => {
            if duty {
                let _ = nfc.field_off();
            }
        },
        Ok(Some(tag)) => {
            if same_as(known, tag) {
                let _ = nfc.nfca_halt(delay);
            }
        },
        Err(NfcError::I2c(_)) => {
            let _ = nfc.field_off();
            let _ = nfc.pause_ms(delay, 20);
            let _ = nfc.configure_nfca(delay);
        },
        Err(_) => {},
    }
}

/// Look for a tag: what was found, or nothing at all if the field could not
/// be switched on.
pub fn look<P: I2cPort, D: Delay>(
    nfc: &mut St25r3916<P>,
    delay: &mut D,
    duty: bool,
    known: &Option<NfcaTag>,
) -> (res: Option<Result<Option<NfcaTag>, NfcError<P::Error>>>)
    requires
        known matches Some(k) ==> k.wf(),
    ensures
        final(nfc).trace().extends(old(nfc).trace()),
        forall|l: Trace<BusEvent<P::Error>>| l.extends(final(nfc).trace()) ==> #[trigger]
            old(nfc).chip().look(l, duty, known_tag(*known)) == Run::Done(
                final(nfc).chip(),
                Ok::<_,
                P::Error>(look_result(res)),
            ),
        res matches Some(Ok(Some(tag))) ==> tag.wf(),
{
    proof {
        reveal(Chip::look);
    }
    if !duty_on(nfc, delay, duty) {
        return None;
    }
    let r = nfc.nfca_poll(delay);
    after_look(nfc, delay, duty, known, &r);
    Some(r)
}

pub open spec fn look_result<E>(r: Option<Result<Option<NfcaTag>, NfcError<E>>>) -> Option<
    Result<Option<TagModel>, NfcError<E>>,
> {
    match r {
        Some(r) => Some(crate::st25r3916::poll_result(r)),
        None => None,
    }
}

fn rest<P: I2cPort, D: Delay>(nfc: &mut St25r3916<P>, delay: &mut D, found: Inspection) -> (same:
    Inspection)
    ensures
        same == found,
        final(nfc).trace().extends(old(nfc).trace()),
        forall|l: Trace<BusEvent<P::Error>>| l.extends(final(nfc).trace()) ==> #[trigger]
            old(nfc).chip().rest(l, found@) == Run::Done(
                final(nfc).chip(),
                Ok::<_,
                P::Error>(found@),
            ),
{
    let _ = nfc.nfca_halt(delay);
    found
}

fn inspect4<P: I2cPort, D: Delay>(dep: &mut IsoDep, nfc: &mut St25r3916<P>, delay: &mut D) -> (found:
    Inspection)
    requires
        old(dep).wf(),
    ensures
        final(nfc).trace().extends(old(nfc).trace()),
        forall|l: Trace<BusEvent<P::Error>>| l.extends(final(nfc).trace()) ==> #[trigger]
            crate::isodep::line(old(dep)@, old(nfc).chip()).inspect4(l) == Run::Done(
                final(nfc).chip(),
                Ok::<_,
                P::Error>(found@),
            ),
{
    let r = read_type4(dep, nfc, delay);
    let _ = dep.deselect(nfc, delay);
    Inspection { t2: None, detail: Some(detail_of(r)) }
}

/// Find out what a tag holds that was just activated.
pub fn inspect<P: I2cPort, D: Delay>(nfc: &mut St25r3916<P>, delay: &mut D, tag: &NfcaTag) -> (found:
    Inspection)
    ensures
        final(nfc).trace().extends(old(nfc).trace()),
        forall|l: Trace<BusEvent<P::Error>>| l.extends(final(nfc).trace()) ==> #[trigger]
            old(nfc).chip().inspect(l, tag.sak) == Run::Done(
                final(nfc).chip(),
                Ok::<_,
                P::Error>(found@),
            ),
{
    proof {
        reveal(Chip::inspect);
    }
    if tag.is_iso14443_4() {
        match IsoDep::activate(nfc, delay) {
            Ok(mut dep) => inspect4(&mut dep, nfc, delay),
            Err(_) => rest(nfc, delay, Inspection { t2: None, detail: None }),
        }
    } else if tag.sak == 0x00 {
        let t2 = match nfc.t2t_read(delay, 0) {
            Ok(d) => Some(d),
            Err(_) => None,
        };
        rest(nfc, delay, Inspection { t2, detail: None })
    } else {
        rest(nfc, delay, Inspection { t2: None, detail: None })
    }
}

impl App {
    /// The last tag, if there is one, is well-formed.
    pub open spec fn wf(&self) -> bool {
        self.last_tag matches Some(t) ==> t.wf()
    }

    /// The field is on only for each poll while no tag is around.
    pub open spec fn duty_cycling(&self) -> bool {
        self.last_tag is None && !self.field_always_on
    }

    /// The memory after a poll.
    pub open spec fn after_poll<E>(
        self,
        found: Option<Result<Option<TagModel>, NfcError<E>>>,
        now: u64,
    ) -> App {
        match found {
            Some(Ok(Some(_))) => App { last_activity: now, ..self },
            Some(Ok(None)) => if crate::app::elapsed(self.last_activity, now) > TAG_FORGET_MS {
                App { last_tag: None, ..self }
            } else {
                self
            },
            _ => self,
        }
    }

    /// Look for a tag: what was found, if the field could be switched on.
    pub fn poll_nfc<P: I2cPort, D: Delay>(
        &mut self,
        nfc: &mut St25r3916<P>,
        delay: &mut D,
        now: u64,
    ) -> (found: Option<Result<Option<NfcaTag>, NfcError<P::Error>>>)
        requires
            old(self).wf(),
        ensures
            final(self).wf(),
            found matches Some(Ok(Some(tag))) ==> tag.wf(),
            *final(self) == (*old(self)).after_poll(look_result(found), now),
            final(nfc).trace().extends(old(nfc).trace()),
            forall|l: Trace<BusEvent<P::Error>>| l.extends(final(nfc).trace()) ==> #[trigger]
                old(nfc).chip().look(
                    l,
                    old(self).duty_cycling(),
                    known_tag(old(self).last_tag),
                ) == Run::Done(
                    final(nfc).chip(),
                    Ok::<_,
                    P::Error>(look_result(found)),
                ),
    {
        // Duty-cycle the RF field: while no tag is around the field is only
        // on during the poll itself (the ~100 mA TX driver dominates the
        // board's idle power draw).
        let duty = self.last_tag.is_none() && !self.field_always_on;
        let found = look(nfc, delay, duty, &self.last_tag);
        self.note_poll(&found, now);
        found
    }

    fn note_poll<E>(&mut self, found: &Option<Result<Option<NfcaTag>, NfcError<E>>>, now: u64)
        ensures
            *final(self) == (*old(self)).after_poll(look_result(*found), now),
    {
        match found {
            Some(Ok(Some(_))) => {
                self.last_activity = now;
            },
            Some(Ok(None)) => {
                if elapsed_ms(self.last_activity, now) > TAG_FORGET_MS {
                    self.last_tag = None;
                }
            },
            _ => {},
        }
    }

    /// Is this a tag that was not there before?
    pub fn is_new(&self, tag: &NfcaTag) -> (yes: bool)
        requires
            self.wf(),
            tag.wf(),
        ensures
            yes == !same_tag(known_tag(self.last_tag), tag@),
    {
        !same_as(&self.last_tag, tag)
    }

    fn note_tag(&mut self, tag: &NfcaTag)
        ensures
            *final(self) == (App {
                tag_count: ((old(self).tag_count + 1) % 0x1_0000_0000) as u32,
                last_tag: Some(*tag),
                ..*old(self)
            }),
    {
        self.tag_count = self.tag_count.wrapping_add(1);
        self.last_tag = Some(*tag);
    }

    /// Count a new tag, find out what it holds and remember it; what its panel
    /// shows.
    pub fn on_new_tag<P: I2cPort, D: Delay>(
        &mut self,
        nfc: &mut St25r3916<P>,
        delay: &mut D,
        tag: &NfcaTag,
    ) -> (panel: Vec<Item>)
        requires
            tag.wf(),
        ensures
            *final(self) == (App {
                tag_count: ((old(self).tag_count + 1) % 0x1_0000_0000) as u32,
                last_tag: Some(*tag),
                ..*old(self)
            }),
            final(self).wf(),
            final(nfc).trace().extends(old(nfc).trace()),
            forall|l: Trace<BusEvent<P::Error>>|
                l.extends(final(nfc).trace()) ==> match #[trigger] old(nfc).chip().inspect(
                    l,
                    tag.sak,
                ) {
                    Run::Done(c, Ok(found)) => {
                        &&& c == final(nfc).chip()
                        &&& crate::app::scene::scene(panel@) == tag_panel(
                            *tag,
                            final(self).tag_count,
                            found,
                        )
                    },
                    _ => false,
                },
    {
        self.note_tag(tag);
        // Content: NDEF over ISO-DEP for phones/Type 4, raw blocks for Type 2.
        let found = inspect(nfc, delay, tag);
        let mut panel = match &found.t2 {
            Some(d) => crate::app::ui::draw_tag_panel(tag, self.tag_count, Some(d)),
            None => crate::app::ui::draw_tag_panel(tag, self.tag_count, None),
        };
        if let Some(d) = &found.detail {
            crate::app::scene::add_item(&mut panel, crate::app::ui::draw_tag_detail(d.as_str()));
        }
        assert(crate::app::scene::scene(panel@) =~= tag_panel(*tag, self.tag_count, found@));
        panel
    }
}

/// A tag that was just shown is not new: whatever its UID, it is known until it
/// is forgotten.
pub proof fn a_shown_tag_is_not_new(tag: NfcaTag)
    ensures
        same_tag(known_tag(Some(tag)), tag@),
{
}

/// The panel of a tag, with the line about its content if there is one.
pub open spec fn tag_panel(tag: NfcaTag, count: u32, found: InspectionModel) -> Seq<
    crate::app::scene::ItemModel,
> {
    crate::app::ui::tag_scene(tag, count, found.t2) + (match found.detail {
        Some(d) => seq![
            crate::app::scene::at(
                d,
                24,
                364,
                crate::app::scene::Font::Fixed15,
                crate::app::scene::BLACK,
            ),
        ],
        None => Seq::empty(),
    })
}

// ----------------------------------------------------------------------
// what the decisions come to
// ----------------------------------------------------------------------

/// What a round of emulation leads to: a rest if nothing happened, adoption of
/// what was written once the reader is gone, a fresh start after a failure, and
/// otherwise the next round.
pub proof fn rounds_lead_on<E>(e: E)
    ensures
        round_of(Ok::<Event, E>(Event::Unchanged)) == Round::Rest,
        round_of(Ok::<Event, E>(Event::FieldOn)) == Round::Again,
        round_of(Ok::<Event, E>(Event::Selected)) == Round::Again,
        round_of(Ok::<Event, E>(Event::FieldOff { written: true })) == Round::Adopt,
        round_of(Ok::<Event, E>(Event::FieldOff { written: false })) == Round::Again,
        round_of(Err::<Event, E>(e)) == Round::Restart,
{
}

/// A reader that comes or selects the tag is activity and shows that the field
/// is alive, as does one that goes; a failure stops the emulation.
pub proof fn rounds_are_remembered<E>(app: App, e: E, written: bool, now: u64)
    ensures
        app.after_round(Ok::<Event, E>(Event::Unchanged), now) == app,
        app.after_round(Ok::<Event, E>(Event::FieldOn), now) == (App {
            emu_last_field: now,
            last_activity: now,
            ..app
        }),
        app.after_round(Ok::<Event, E>(Event::Selected), now) == (App {
            emu_last_field: now,
            last_activity: now,
            ..app
        }),
        app.after_round(Ok::<Event, E>(Event::FieldOff { written }), now) == (App {
            emu_last_field: now,
            ..app
        }),
        app.after_round(Err::<Event, E>(e), now) == (App { emu_running: false, ..app }),
{
}

/// A tag is the same as before if its UID is, as long as the tag says it is,
/// or if both are random ones; without a tag before there is none.
pub proof fn tags_are_told_apart(a: NfcaTag, b: NfcaTag)
    requires
        a.wf(),
        b.wf(),
    ensures
        !same_tag(None, b@),
        ({
            let n = a.uid_len as int;
            let equal = a.uid_len == b.uid_len && forall|i: int|
                0 <= i < n ==> #[trigger] a.uid@[i] == b.uid@[i];
            let random = a.uid_len == 4 && b.uid_len == 4 && a.uid@[0] == 8 && b.uid@[0] == 8;
            same_tag(known_tag(Some(a)), b@) <==> equal || random
        }),
{
    let n = a.uid_len as int;
    let equal = a.uid_len == b.uid_len && forall|i: int|
        0 <= i < n ==> #[trigger] a.uid@[i] == b.uid@[i];
    let x = a.uid@.take(n);
    let y = b.uid@.take(b.uid_len as int);
    assert(x == uid_of(a@) && y == uid_of(b@));
    assert(x.len() == n && y.len() == b.uid_len);
    if equal {
        assert(x =~= y);
    }
    if x == y {
        assert forall|i: int| 0 <= i < n implies #[trigger] a.uid@[i] == b.uid@[i] by {
            assert(x[i] == a.uid@[i] && y[i] == b.uid@[i]);
        }
    }
}

/// A tag that answers is activity; one that has not answered for a second and
/// a half is forgotten, and a failed look changes nothing.
pub proof fn tags_are_forgotten<E>(app: App, tag: TagModel, e: NfcError<E>, now: u64)
    requires
        app.last_activity <= now,
    ensures
        app.after_poll(Some(Ok::<Option<TagModel>, NfcError<E>>(Some(tag))), now) == (App {
            last_activity: now,
            ..app
        }),
        now - app.last_activity > 1500 ==> app.after_poll(
            Some(Ok::<Option<TagModel>, NfcError<E>>(None)),
            now,
        ) == (App { last_tag: None, ..app }),
        now - app.last_activity <= 1500 ==> app.after_poll(
            Some(Ok::<Option<TagModel>, NfcError<E>>(None)),
            now,
        ) == app,
        app.after_poll(Some(Err::<Option<TagModel>, NfcError<E>>(e)), now) == app,
        app.after_poll(None::<Result<Option<TagModel>, NfcError<E>>>, now) == app,
        app.duty_cycling() <==> app.last_tag is None && !app.field_always_on,
{
}

/// The line about a Type 4 tag: the summary of its message, the step that was
/// refused with the card's status word, or that the card did not keep to the
/// protocol.
pub proof fn details_say_what_happened<E>(msg: Seq<u8>, step: &'static str, sw: u16, e: NdefError<E>)
    ensures
        detail_text(Ok::<Seq<u8>, NdefError<E>>(msg)) == crate::ndef::summary(msg),
        detail_text(Err::<Seq<u8>, NdefError<E>>(NdefError::Status { step, sw })) == "no NDEF ("@
            + step@ + ": SW="@ + (crate::text::hex2((sw / 256) as u8) + crate::text::hex2(
            (sw % 256) as u8,
        )) + ")"@,
        !(e is Status) ==> detail_text(Err::<Seq<u8>, NdefError<E>>(e))
            == "no NDEF (protocol error)"@,
{
    crate::bytes::bytes_have_their_worth(sw, 0);
}

/// The panel of a new tag has a line about its content exactly if there is
/// one, below the rest.
pub proof fn details_are_shown(tag: NfcaTag, count: u32, found: InspectionModel)
    ensures
        found.detail is None ==> tag_panel(tag, count, found) == crate::app::ui::tag_scene(
            tag,
            count,
            found.t2,
        ),
        found.detail matches Some(d) ==> tag_panel(tag, count, found) == crate::app::ui::tag_scene(
            tag,
            count,
            found.t2,
        ).push(
            crate::app::scene::ItemModel::Text {
                text: d,
                x: 24,
                y: 364,
                font: crate::app::scene::Font::Fixed15,
                level: 0,
                centered: false,
            },
        ),
{
    let base = crate::app::ui::tag_scene(tag, count, found.t2);
    if let Some(d) = found.detail {
        let line = crate::app::scene::ItemModel::Text {
            text: d,
            x: 24,
            y: 364,
            font: crate::app::scene::Font::Fixed15,
            level: 0,
            centered: false,
        };
        assert(base + seq![line] =~= base.push(line));
    } else {
        assert(base + Seq::<crate::app::scene::ItemModel>::empty() =~= base);
    }
}

/// A look with the field off first switches it on and lets it settle for 80 ms;
/// if that fails nothing is looked for. What the call of tags gave is what is
/// reported, whatever is done afterwards.
pub proof fn a_look_reports_what_answered<E>(
    c: Chip,
    l: Trace<BusEvent<E>>,
    duty: bool,
    known: Option<TagModel>,
)
    ensures
        !duty ==> (c.nfca_poll(l) matches Run::Done(d, r) ==> c.look(l, duty, known) == d.after_look(
            l,
            duty,
            known,
            r,
        )),
        duty ==> (c.field_on(l) matches Run::Done(d, Err(_)) ==> c.look(l, duty, known) == Run::<
            Chip,
            Option<Result<Option<TagModel>, NfcError<E>>>,
            E,
        >::Done(d, Ok(None))),
        duty ==> (c.field_on(l) matches Run::Done(d, Ok(_)) ==> (l.at(d.at) == BusEvent::<E>::PauseMs(80)
            ==> ((Chip { at: d.at + 1, ..d }).nfca_poll(l) matches Run::Done(f, r) ==> c.look(
            l,
            duty,
            known,
        ) == f.after_look(l, duty, known, r)))),
{
    reveal(Chip::look);
}

/// After a look: the same result in any case. An empty field is switched off
/// if it was on for the look only; a known tag is halted, a new one is left
/// selected; after a bus failure the field is switched off and, 20 ms later,
/// the chip set up as a reader again; other failures change nothing.
pub proof fn a_look_is_followed_up<E>(
    c: Chip,
    l: Trace<BusEvent<E>>,
    duty: bool,
    known: Option<TagModel>,
    r: Result<Option<TagModel>, NfcError<E>>,
)
    ensures
        c.after_look(l, duty, known, r) matches Run::Done(_, x) ==> x == Ok::<
            Option<Result<Option<TagModel>, NfcError<E>>>,
            E,
        >(Some(r)),
        r matches Ok(None) ==> {
            &&& !duty ==> (c.after_look(l, duty, known, r) matches Run::Done(d, _) && d == c)
            &&& duty ==> (c.field_off::<E>(l) matches Run::Done(d, _) ==> (c.after_look(
                l,
                duty,
                known,
                r,
            ) matches Run::Done(f, _) && f == d))
        },
        r matches Ok(Some(tag)) ==> {
            &&& !same_tag(known, tag) ==> (c.after_look(l, duty, known, r) matches Run::Done(d, _)
                && d == c)
            &&& same_tag(known, tag) ==> (c.nfca_halt::<E>(l) matches Run::Done(d, _)
                ==> (c.after_look(l, duty, known, r) matches Run::Done(f, _) && f == d))
        },
        r matches Err(NfcError::I2c(_)) ==> (c.field_off::<E>(l) matches Run::Done(d, _) ==> (l.at(
            d.at,
        ) == BusEvent::<E>::PauseMs(20) ==> ((Chip { at: d.at + 1, ..d }).configure_nfca::<E>(l)
            matches Run::Done(f, _) ==> (c.after_look(l, duty, known, r) matches Run::Done(g, _) && g
            == f)))),
        r is Err && !(r->Err_0 is I2c) ==> (c.after_look(l, duty, known, r) matches Run::Done(d, _)
            && d == c),
{
}

/// What is found out about a tag, by what it says it can do: one that speaks
/// ISO-DEP is asked for its message and deselected; a plain Type 2 tag shows
/// its first four pages and is halted; any other is only halted.
pub proof fn an_inspection_goes_by_the_kind<E>(c: Chip, l: Trace<BusEvent<E>>, sak: u8)
    ensures
        sak / 32 % 2 == 1 ==> {
            &&& crate::isodep::activated::<E>(l, c) matches Run::Done(d, Ok(dep)) ==> ((Line {
                dep,
                chip: d,
            }).read_type4::<E>(l) matches Run::Done(m, r) ==> (m.deselect::<E>(l) matches Run::Done(
                n,
                _,
            ) ==> c.inspect(l, sak) == Run::<Chip, InspectionModel, E>::Done(
                n.chip,
                Ok(InspectionModel { t2: None, detail: Some(detail_text(r)) }),
            )))
            &&& crate::isodep::activated::<E>(l, c) matches Run::Done(d, Err(_)) ==> (d.nfca_halt::<
                E,
            >(l) matches Run::Done(f, _) ==> c.inspect(l, sak) == Run::<
                Chip,
                InspectionModel,
                E,
            >::Done(f, Ok(InspectionModel { t2: None, detail: None })))
        },
        sak == 0 ==> (c.t2t_read::<E>(l, 0) matches Run::Done(d, r) ==> (d.nfca_halt::<E>(l)
            matches Run::Done(f, _) ==> c.inspect(l, sak) == Run::<Chip, InspectionModel, E>::Done(
            f,
            Ok(
                InspectionModel {
                    t2: if r is Ok {
                        Some(r->Ok_0)
                    } else {
                        None
                    },
                    detail: None,
                },
            ),
        ))),
        sak != 0 && sak / 32 % 2 == 0 ==> (c.nfca_halt::<E>(l) matches Run::Done(f, _) ==> c.inspect(
            l,
            sak,
        ) == Run::<Chip, InspectionModel, E>::Done(
            f,
            Ok(InspectionModel { t2: None, detail: None }),
        )),
{
    reveal(Chip::inspect);
    crate::bits::single_bits(sak);
}

/// The chip changes its role: to a tag with the field off first, unless it is
/// one already; to a reader with the tag stopped first, if it runs.
pub proof fn roles_are_changed<E>(m: Emu, l: Trace<BusEvent<E>>)
    ensures
        m.ensured(l, true) == Run::<Emu, (), NfcError<E>>::Done(m, Ok(())),
        m.chip.field_off::<E>(l) matches Run::Done(c, _) ==> m.ensured(l, false) == (Emu {
            chip: c,
            ..m
        }).start(l),
        m.chip.configure_nfca::<E>(l) matches Run::Done(c, _) ==> m.become_reader(l, false) == Run::<
            Emu,
            (),
            E,
        >::Done(Emu { chip: c, ..m }, Ok(())),
        m.stop::<E>(l) matches Run::Done(a, _) ==> m.become_reader(l, true) == a.become_reader(
            l,
            false,
        ),
{
}

/// What was found out is kept as it was found.
pub proof fn findings_are_kept(found: Inspection)
    ensures
        found@.t2 is Some <==> found.t2 is Some,
        found.t2 matches Some(d) ==> found@.t2 == Some(d@),
        found@.detail is Some <==> found.detail is Some,
        found.detail matches Some(s) ==> found@.detail == Some(s@),
{
}

} // verus!
