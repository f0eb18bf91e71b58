//! What the plate's content keeps on its way through a tag and back.

use crate::app::plate::ContentModel;
use crate::app::scene::{painted, Dot, Font, ItemModel, WHITE};
use crate::ndef::{Record, Written};
use crate::ssd1677::FrameBuffer;
use crate::t2t_emu::USER_BYTES;
use vstd::prelude::*;
use vstd::string::*;

verus! {

/// A field that can stand on a line of its own: no line break, no separator,
/// and no carriage return that a line ending would take.
pub open spec fn fits_a_line(s: Seq<char>) -> bool {
    &&& crate::text::single_line(s)
    &&& !s.contains(';')
    &&& s.len() > 0 ==> s.last() != '\r'
}

/// The link does not begin with a scheme.
pub open spec fn bare(url: Seq<char>) -> bool {
    &&& !(8 <= url.len() && url.take(8) == "https://"@)
    &&& !(7 <= url.len() && url.take(7) == "http://"@)
}

/// Link and text fit records: their lengths have at most 32 bits.
pub open spec fn fits_records(c: ContentModel) -> bool {
    &&& c.text_payload().len() <= u32::MAX
    &&& c.uri_payload().len() <= u32::MAX
}

proof fn four_lines_come_apart(p: ContentModel, c: ContentModel, tail: Seq<char>)
    requires
        crate::text::single_line(c.name) && (c.name.len() > 0 ==> c.name.last() != '\r'),
        crate::text::single_line(c.title) && (c.title.len() > 0 ==> c.title.last() != '\r'),
        crate::text::single_line(c.org) && (c.org.len() > 0 ==> c.org.last() != '\r'),
    ensures
        ({
            let t = c.name.push('\n') + c.title.push('\n') + c.org.push('\n') + tail;
            &&& crate::text::line(t, 0) == c.name
            &&& crate::text::line(t, 1) == c.title
            &&& crate::text::line(t, 2) == c.org
            &&& crate::text::line(t, 3) == crate::text::first_line(tail)
            &&& crate::text::line(t, 4) == crate::text::first_line(crate::text::after_line(tail))
        }),
{
    reveal_with_fuel(crate::text::line, 6);
    let r3 = tail;
    let r2 = c.org.push('\n') + r3;
    let r1 = c.title.push('\n') + r2;
    let t = c.name.push('\n') + r1;
    assert(t =~= c.name.push('\n') + c.title.push('\n') + c.org.push('\n') + tail);
    crate::text::a_line_is_split_off(c.name, r1);
    crate::text::a_line_is_split_off(c.title, r2);
    crate::text::a_line_is_split_off(c.org, r3);
}

proof fn a_bare_link_stays(url: Seq<char>)
    requires
        bare(url),
    ensures
        crate::app::plate::without_scheme(url) == url,
        crate::app::plate::without_scheme("https://"@ + url) == url,
{
    reveal_strlit("https://");
    reveal_strlit("http://");
    let full = "https://"@ + url;
    reveal_with_fuel(crate::text::without_prefix, 3);
    assert(full.take(8) =~= "https://"@);
    assert(full.skip(8) =~= url);
}

proof fn a_record_is_found(
    flags: u8,
    rtype: u8,
    payload: Seq<u8>,
    before: Seq<u8>,
    rest: Seq<u8>,
)
    requires
        flags == 0x81 || flags == 0xC1 || flags == 0x41,
        payload.len() <= u32::MAX,
    ensures
        ({
            let r = crate::app::plate::record_head(flags, rtype, payload.len()) + payload;
            crate::ndef::record(before + r + rest, before.len() as int) == Some(
                Record {
                    tnf: 1,
                    rtype: seq![rtype],
                    payload,
                    next: (before + r).len() as int,
                },
            )
        }),
{
    let head = crate::app::plate::record_head(flags, rtype, payload.len());
    let msg = before + (head + payload) + rest;
    let i = before.len() as int;
    let h = head.len() as int;
    assert({
        let short = (flags + 0x10) as u8;
        flags == 0x81 || flags == 0xC1 || flags == 0x41 ==> flags & 0x10 == 0 && flags & 0x08 == 0
            && flags & 0x07 == 1 && short & 0x10 != 0 && short & 0x08 == 0 && short & 0x07 == 1
    }) by (bit_vector);
    assert forall|k: int| 0 <= k < h implies #[trigger] msg[i + k] == head[k] by {}
    if payload.len() <= 255 {
        assert(msg[i + 0] == flags + 0x10 && msg[i + 1] == 1 && msg[i + 2] == payload.len());
    } else {
        let d = payload.len() as u32;
        crate::bytes::dword_of_its_bytes(d);
        assert(msg[i + 0] == flags && msg[i + 1] == 1);
        assert(msg[i + 2] == crate::bytes::be32(d)[0]);
        assert(msg[i + 3] == crate::bytes::be32(d)[1]);
        assert(msg[i + 4] == crate::bytes::be32(d)[2]);
        assert(msg[i + 5] == crate::bytes::be32(d)[3]);
    }
    assert(msg[i + h - 1] == head[h - 1]);
    assert(msg.subrange(i + h - 1, i + h) =~= seq![rtype]);
    assert(msg.subrange(i + h, i + h + payload.len()) =~= payload);
}

proof fn the_text_record_sets_the_lines(p: ContentModel, c: ContentModel, next: int)
    requires
        fits_a_line(c.name),
        fits_a_line(c.title),
        fits_a_line(c.org),
        crate::text::single_line(c.note),
        !c.note.contains(';'),
    ensures
        p.with_record(
            Record { tnf: 1, rtype: seq![0x54u8], payload: c.text_payload(), next },
        ) == (ContentModel { url: p.url, ..c }),
{
    let text = crate::app::plate::utf8(c.text());
    let payload = c.text_payload();
    crate::bits::low_bits_are_remainders(0x02);
    assert(payload.skip(3) =~= text);
    crate::text::utf8_is_read_back(c.text());
    let t = c.text();
    assert forall|i: int| 0 <= i < t.len() implies #[trigger] t[i] != ';' by {
        let n = c.name.len() as int;
        let m = n + 1 + c.title.len() as int;
        let o = m + 1 + c.org.len() as int;
        if i < n {
            assert(t[i] == c.name[i]);
            assert(c.name.contains(t[i]));
        } else if n < i < m {
            assert(t[i] == c.title[i - n - 1]);
            assert(c.title.contains(t[i]));
        } else if m < i < o {
            assert(t[i] == c.org[i - m - 1]);
            assert(c.org.contains(t[i]));
        } else if o < i {
            assert(t[i] == c.note[i - o - 1]);
            assert(c.note.contains(t[i]));
        }
    }
    assert(crate::text::semicolons_split(t) =~= t);
    four_lines_come_apart(p, c, c.note);
    crate::text::a_single_line_is_whole(c.note);
}

/// The message a plate serves holds its content: whoever applies it ends up
/// with the same lines and, unless the link is empty, the same link.
pub proof fn a_served_message_reads_back(p: ContentModel, c: ContentModel)
    requires
        fits_records(c),
        fits_a_line(c.name),
        fits_a_line(c.title),
        fits_a_line(c.org),
        crate::text::single_line(c.note),
        !c.note.contains(';'),
        bare(c.url),
    ensures
        p.with_records(c.to_ndef(), 0) == (ContentModel {
            url: if c.url.len() == 0 {
                p.url
            } else {
                c.url
            },
            ..c
        }),
{
    reveal(ContentModel::to_ndef);
    let msg = c.to_ndef();
    reveal_with_fuel(ContentModel::with_records, 3);
    let none = Seq::<u8>::empty();
    if c.url.len() == 0 {
        a_record_is_found(0xC1, 0x54, c.text_payload(), none, none);
        assert(none + c.text_record(true) + none =~= msg);
        the_text_record_sets_the_lines(p, c, msg.len() as int);
    } else {
        let url = crate::app::plate::utf8(c.url);
        a_record_is_found(0x81, 0x55, c.uri_payload(), none, c.text_record(false));
        a_record_is_found(0x41, 0x54, c.text_payload(), c.uri_record(), none);
        assert(none + c.uri_record() + c.text_record(false) =~= msg);
        assert(none + c.uri_record() =~= c.uri_record());
        assert(c.uri_record() + c.text_record(false) + none =~= msg);
        assert(seq![0x55u8][0] != seq![0x54u8][0]);
        assert(c.uri_payload().skip(1) =~= url);
        crate::text::utf8_is_read_back(c.url);
        a_bare_link_stays(c.url);
        let q = ContentModel { url: c.url, ..p };
        the_text_record_sets_the_lines(q, c, msg.len() as int);
    }
}

/// A content of up to 865 bytes always fits the emulated tag.
pub proof fn a_served_message_fits_the_tag(c: ContentModel)
    requires
        crate::app::plate::utf8(c.text()).len() + crate::app::plate::utf8(c.url).len() <= 865,
    ensures
        crate::t2t_emu::model::ndef_tlv(c.to_ndef()).len() <= USER_BYTES,
{
    reveal(ContentModel::to_ndef);
}

proof fn a_message_holds_its_payloads(c: ContentModel)
    requires
        c.to_ndef().len() <= USER_BYTES,
    ensures
        fits_records(c),
{
    reveal(ContentModel::to_ndef);
    if c.url.len() == 0 {
        assert(crate::app::plate::utf8(c.url).len() == 0);
    }
}

/// Whatever a phone writes is what the next phone reads: once a content is
/// stored in the emulated tag, a reader of the tag ends up with it.
pub proof fn a_stored_content_is_what_readers_get(
    tag: crate::t2t_emu::model::Tag,
    p: ContentModel,
    c: ContentModel,
)
    requires
        tag.memory.len() == crate::t2t_emu::MEM_BYTES,
        crate::t2t_emu::model::ndef_tlv(c.to_ndef()).len() <= USER_BYTES,
        fits_a_line(c.name),
        fits_a_line(c.title),
        fits_a_line(c.org),
        crate::text::single_line(c.note),
        !c.note.contains(';'),
        bare(c.url),
    ensures
        tag.with_ndef(c.to_ndef()).ndef() matches Some(msg) && p.with_records(msg, 0) == (
        ContentModel {
            url: if c.url.len() == 0 {
                p.url
            } else {
                c.url
            },
            ..c
        }),
{
    a_message_holds_its_payloads(c);
    crate::t2t_emu::laws::stored_ndef_is_found(tag, c.to_ndef());
    a_served_message_reads_back(p, c);
}

/// The plain form holds the content.
pub proof fn the_plain_form_reads_back(p: ContentModel, c: ContentModel)
    requires
        crate::text::single_line(c.name) && (c.name.len() > 0 ==> c.name.last() != '\r'),
        crate::text::single_line(c.title) && (c.title.len() > 0 ==> c.title.last() != '\r'),
        crate::text::single_line(c.org) && (c.org.len() > 0 ==> c.org.last() != '\r'),
        crate::text::single_line(c.note) && (c.note.len() > 0 ==> c.note.last() != '\r'),
        crate::text::single_line(c.url),
        bare(c.url),
    ensures
        p.with_plain(crate::text::decoded(crate::app::plate::utf8(c.plain()))) == c,
{
    crate::text::utf8_is_read_back(c.plain());
    let tail = c.note.push('\n') + c.url;
    assert(c.plain() =~= c.name.push('\n') + c.title.push('\n') + c.org.push('\n') + tail);
    four_lines_come_apart(p, c, tail);
    crate::text::a_line_is_split_off(c.note, c.url);
    crate::text::a_single_line_is_whole(c.url);
    a_bare_link_stays(c.url);
}

/// Every line holds neither a line break nor a separator.
pub open spec fn lines_are_clean(c: ContentModel) -> bool {
    &&& crate::text::single_line(c.name) && !c.name.contains(';')
    &&& crate::text::single_line(c.title) && !c.title.contains(';')
    &&& crate::text::single_line(c.org) && !c.org.contains(';')
    &&& crate::text::single_line(c.note) && !c.note.contains(';')
}

proof fn split_lines_are_clean(t: Seq<char>, k: nat)
    ensures
        crate::text::single_line(crate::text::line(crate::text::semicolons_split(t), k)),
        !crate::text::line(crate::text::semicolons_split(t), k).contains(';'),
{
    let s = crate::text::semicolons_split(t);
    crate::text::lines_come_from_the_text(s, k);
    let l = crate::text::line(s, k);
    if l.contains(';') {
        let i = choose|i: int| 0 <= i < l.len() && l[i] == ';';
        assert(s.contains(l[i]));
        let j = choose|j: int| 0 <= j < s.len() && s[j] == l[i];
        assert(s[j] != ';');
    }
}

/// Whatever a phone writes, each line of the plate stays one line.
pub proof fn applied_lines_stay_clean(c: ContentModel, msg: Seq<u8>, i: int)
    requires
        lines_are_clean(c),
    ensures
        lines_are_clean(c.with_records(msg, i)),
    decreases msg.len() - i,
{
    match crate::ndef::record(msg, i) {
        None => {},
        Some(r) => {
            let lang = if r.payload.len() > 0 {
                (r.payload[0] & 0x3F) as int
            } else {
                0
            };
            let t = crate::text::decoded(r.payload.skip(1 + lang));
            split_lines_are_clean(t, 0);
            split_lines_are_clean(t, 1);
            split_lines_are_clean(t, 2);
            split_lines_are_clean(t, 3);
            if r.next > i && r.next < msg.len() {
                applied_lines_stay_clean(c.with_record(r), msg, r.next);
            }
        },
    }
}

/// A plate that took over what a phone wrote serves it on: the next phone ends
/// up with the lines and the link that the plate shows.
pub proof fn what_a_phone_writes_is_passed_on(
    tag: crate::t2t_emu::model::Tag,
    c: ContentModel,
    msg: Seq<u8>,
    p: ContentModel,
)
    requires
        tag.memory.len() == crate::t2t_emu::MEM_BYTES,
        lines_are_clean(c),
        ({
            let shown = c.with_records(msg, 0);
            &&& crate::t2t_emu::model::ndef_tlv(shown.to_ndef()).len() <= USER_BYTES
            &&& shown.name.len() > 0 ==> shown.name.last() != '\r'
            &&& shown.title.len() > 0 ==> shown.title.last() != '\r'
            &&& shown.org.len() > 0 ==> shown.org.last() != '\r'
            &&& bare(shown.url)
        }),
    ensures
        ({
            let shown = c.with_records(msg, 0);
            tag.with_ndef(shown.to_ndef()).ndef() matches Some(served) && p.with_records(served, 0)
                == (ContentModel {
                url: if shown.url.len() == 0 {
                    p.url
                } else {
                    shown.url
                },
                ..shown
            })
        }),
{
    applied_lines_stay_clean(c, msg, 0);
    a_stored_content_is_what_readers_get(tag, p, c.with_records(msg, 0));
}

/// A drawn plate begins with a white screen.
pub proof fn a_plate_begins_white(c: ContentModel)
    ensures
        crate::app::plate::plate_scene(c).len() > 0,
        crate::app::plate::plate_scene(c)[0] == ItemModel::Clear(WHITE),
{
}

/// The full screen is rendered from the content alone, no earlier pixel shows
/// through: on any two framebuffers of one orientation, a plate gives the same
/// planes. `ink` is what fonts and shapes give for the items of the plate.
pub proof fn a_drawn_plate_hides_the_past(
    before1: FrameBuffer,
    before2: FrameBuffer,
    c: ContentModel,
    ink: Seq<Seq<Dot>>,
    after1: FrameBuffer,
    after2: FrameBuffer,
)
    requires
        before1.orientation == before2.orientation,
        painted(before1, crate::app::plate::plate_scene(c), ink, after1),
        painted(before2, crate::app::plate::plate_scene(c), ink, after2),
    ensures
        after1.lsb@ == after2.lsb@,
        after1.msb@ == after2.msb@,
        after1.orientation == before1.orientation,
        after2.orientation == before2.orientation,
{
    a_plate_begins_white(c);
    crate::app::scene::a_cleared_scene_hides_the_past(
        before1,
        before2,
        crate::app::plate::plate_scene(c),
        ink,
        after1,
        after2,
    );
}

// ----------------------------------------------------------------------
// messages
// ----------------------------------------------------------------------

/// Records one after the other.
pub open spec fn message(records: Seq<Written>) -> Seq<u8>
    decreases records.len(),
{
    if records.len() == 0 {
        Seq::empty()
    } else {
        records[0].bytes() + message(records.drop_first())
    }
}

/// The content after records one after the other.
pub open spec fn taken(c: ContentModel, records: Seq<Written>) -> ContentModel
    decreases records.len(),
{
    if records.len() == 0 {
        c
    } else {
        let w = records[0];
        taken(
            c.with_record(Record { tnf: w.tnf, rtype: w.rtype, payload: w.payload, next: 0 }),
            records.drop_first(),
        )
    }
}

proof fn all_records_are_taken(c: ContentModel, before: Seq<u8>, records: Seq<Written>)
    requires
        forall|i: int| 0 <= i < records.len() ==> (#[trigger] records[i]).wf(),
    ensures
        c.with_records(before + message(records), before.len() as int) == taken(c, records),
    decreases records.len(),
{
    let msg = before + message(records);
    if records.len() > 0 {
        let w = records[0];
        let rest = records.drop_first();
        assert(records[0].wf());
        assert(w.bytes().len() > 0);
        crate::ndef::written_records_are_found(w, before, message(rest));
        assert(before + w.bytes() + message(rest) =~= msg);
        assert forall|i: int| 0 <= i < rest.len() implies (#[trigger] rest[i]).wf() by {
            assert(rest[i] == records[i + 1]);
        }
        let plain = Record { tnf: w.tnf, rtype: w.rtype, payload: w.payload, next: 0 };
        let found = crate::ndef::record(msg, before.len() as int)->Some_0;
        assert(c.with_record(found) == c.with_record(plain));
        all_records_are_taken(c.with_record(plain), before + w.bytes(), rest);
        if rest.len() > 0 {
            assert(rest[0].wf());
            assert(message(rest).len() > 0);
        } else {
            assert(message(rest) =~= Seq::empty());
        }
    }
}

proof fn one_more_is_taken(c: ContentModel, records: Seq<Written>, w: Written)
    ensures
        taken(c, records.push(w)) == taken(taken(c, records), seq![w]),
    decreases records.len(),
{
    let all = records.push(w);
    if records.len() == 0 {
        assert(all =~= seq![w]);
    } else {
        let first = records[0];
        let plain = Record { tnf: first.tnf, rtype: first.rtype, payload: first.payload, next: 0 };
        assert(all.drop_first() =~= records.drop_first().push(w));
        one_more_is_taken(c.with_record(plain), records.drop_first(), w);
    }
}

/// A message of any number of records, in any order and of any kind, does what
/// its records do when they come as messages of their own, one after the other.
/// An empty message does nothing.
pub proof fn every_record_is_applied_in_turn(c: ContentModel, records: Seq<Written>, w: Written)
    requires
        forall|i: int| 0 <= i < records.len() ==> (#[trigger] records[i]).wf(),
        w.wf(),
    ensures
        c.with_records(Seq::empty(), 0) == c,
        c.with_records(message(records.push(w)), 0) == c.with_records(
            message(records),
            0,
        ).with_records(w.bytes(), 0),
{
    let none = Seq::<u8>::empty();
    let all = records.push(w);
    assert forall|i: int| 0 <= i < all.len() implies (#[trigger] all[i]).wf() by {
        if i < records.len() {
            assert(all[i] == records[i]);
        }
    }
    all_records_are_taken(c, none, all);
    all_records_are_taken(c, none, records);
    assert(none + message(all) =~= message(all));
    assert(none + message(records) =~= message(records));
    one_more_is_taken(c, records, w);
    let one = seq![w];
    all_records_are_taken(taken(c, records), none, one);
    assert(one.drop_first() =~= Seq::empty());
    assert(message(one.drop_first()) =~= none);
    assert(message(one) =~= w.bytes());
    assert(none + message(one) =~= w.bytes());
}

proof fn one_record_is_taken(c: ContentModel, w: Written)
    requires
        w.wf(),
    ensures
        c.with_records(w.bytes(), 0) == c.with_record(
            Record { tnf: w.tnf, rtype: w.rtype, payload: w.payload, next: 0 },
        ),
{
    let none = Seq::<u8>::empty();
    let one = seq![w];
    all_records_are_taken(c, none, one);
    assert(one.drop_first() =~= Seq::empty());
    assert(message(one.drop_first()) =~= none);
    assert(none + message(one) =~= w.bytes());
    assert(taken(c, one) == taken(
        c.with_record(Record { tnf: w.tnf, rtype: w.rtype, payload: w.payload, next: 0 }),
        one.drop_first(),
    ));
}

/// A Text record, whatever its language, replaces the four lines by those of
/// its text, which end at a newline or a semicolon, and keeps the link.
pub proof fn a_text_record_sets_the_lines(
    c: ContentModel,
    w: Written,
    status: u8,
    lang: Seq<u8>,
    text: Seq<u8>,
)
    requires
        w.wf(),
        w.tnf == 1,
        w.rtype == seq!['T' as u8],
        w.payload == seq![status] + lang + text,
        status % 64 == lang.len(),
    ensures
        ({
            let after = c.with_records(w.bytes(), 0);
            let t = crate::text::semicolons_split(crate::text::decoded(text));
            &&& after.name == crate::text::line(t, 0)
            &&& after.title == crate::text::line(t, 1)
            &&& after.org == crate::text::line(t, 2)
            &&& after.note == crate::text::line(t, 3)
            &&& after.url == c.url
        }),
{
    one_record_is_taken(c, w);
    crate::bits::low_bits_are_remainders(status);
    assert(w.payload.skip(1 + lang.len() as int) =~= text);
}

/// A URI record replaces the link by the one it spells out, without `https://`
/// and `http://` before it, and keeps the lines.
pub proof fn a_uri_record_sets_the_link(c: ContentModel, w: Written, code: u8, rest: Seq<u8>)
    requires
        w.wf(),
        w.tnf == 1,
        w.rtype == seq!['U' as u8],
        w.payload == seq![code] + rest,
    ensures
        ({
            let full = crate::ndef::uri_prefix_chars(code) + crate::text::decoded(rest);
            c.with_records(w.bytes(), 0) == (ContentModel {
                url: crate::text::without_prefix(
                    crate::text::without_prefix(full, "https://"@),
                    "http://"@,
                ),
                ..c
            })
        }),
{
    one_record_is_taken(c, w);
    assert(seq![0x55u8][0] != seq![0x54u8][0]);
    assert(w.payload.skip(1) =~= rest);
}

/// Records of other kinds, and Text and URI records without a text or a link,
/// change nothing.
pub proof fn other_records_are_passed_over(c: ContentModel, w: Written)
    requires
        w.wf(),
        w.tnf != 1 || w.payload.len() == 0 || (w.rtype != seq!['T' as u8] && w.rtype
            != seq!['U' as u8]) || (w.rtype == seq!['T' as u8] && w.payload.len() <= w.payload[0]
            % 64),
    ensures
        c.with_records(w.bytes(), 0) == c,
{
    one_record_is_taken(c, w);
    if w.payload.len() > 0 {
        crate::bits::low_bits_are_remainders(w.payload[0]);
    }
    assert(seq![0x55u8][0] != seq![0x54u8][0]);
}

/// The message that is served: the link first, if there is one, with the code
/// of `https://`, then the lines as English UTF-8 text, each in a record that
/// is as short as it can be; the first and the last record are marked.
pub proof fn a_served_message_has_its_records(c: ContentModel)
    requires
        fits_records(c),
    ensures
        ({
            let link = seq![4u8] + crate::app::plate::utf8(c.url);
            let lines = c.name + seq!['\n'] + c.title + seq!['\n'] + c.org + seq!['\n'] + c.note;
            let text = seq![2u8, 'e' as u8, 'n' as u8] + crate::app::plate::utf8(lines);
            let uri = Written {
                flags: 0x80,
                tnf: 1,
                long: link.len() > 255,
                id: None,
                rtype: seq!['U' as u8],
                payload: link,
            };
            let last = Written {
                flags: if c.url.len() == 0 {
                    0xC0
                } else {
                    0x40
                },
                tnf: 1,
                long: text.len() > 255,
                id: None,
                rtype: seq!['T' as u8],
                payload: text,
            };
            c.to_ndef() == if c.url.len() == 0 {
                last.bytes()
            } else {
                uri.bytes() + last.bytes()
            }
        }),
{
    reveal(ContentModel::to_ndef);
    let link = seq![4u8] + crate::app::plate::utf8(c.url);
    let lines = c.name + seq!['\n'] + c.title + seq!['\n'] + c.org + seq!['\n'] + c.note;
    assert(lines =~= c.text());
    let text = seq![2u8, 'e' as u8, 'n' as u8] + crate::app::plate::utf8(lines);
    let uri = Written {
        flags: 0x80,
        tnf: 1,
        long: link.len() > 255,
        id: None,
        rtype: seq!['U' as u8],
        payload: link,
    };
    let last = Written {
        flags: if c.url.len() == 0 {
            0xC0
        } else {
            0x40
        },
        tnf: 1,
        long: text.len() > 255,
        id: None,
        rtype: seq!['T' as u8],
        payload: text,
    };
    assert(text =~= c.text_payload());
    assert(uri.bytes() =~= c.uri_record());
    assert(last.bytes() =~= c.text_record(c.url.len() == 0));
}

/// The plain form is the four lines and the link; applied, its first five
/// lines are taken, whatever else there is, and the link without its scheme.
pub proof fn a_plain_form_sets_everything(c: ContentModel, t: Seq<char>)
    ensures
        c.plain() == c.name + seq!['\n'] + c.title + seq!['\n'] + c.org + seq!['\n'] + c.note
            + seq!['\n'] + c.url,
        ({
            let after = c.with_plain(t);
            &&& after.name == crate::text::line(t, 0)
            &&& after.title == crate::text::line(t, 1)
            &&& after.org == crate::text::line(t, 2)
            &&& after.note == crate::text::line(t, 3)
            &&& after.url == crate::text::without_prefix(
                crate::text::without_prefix(crate::text::line(t, 4), "https://"@),
                "http://"@,
            )
        }),
{
    assert(c.plain() =~= c.name + seq!['\n'] + c.title + seq!['\n'] + c.org + seq!['\n'] + c.note
        + seq!['\n'] + c.url);
}

// ----------------------------------------------------------------------
// the screen
// ----------------------------------------------------------------------

/// The scene holds this centered text.
pub open spec fn has_text(
    scene: Seq<ItemModel>,
    text: Seq<char>,
    x: int,
    y: int,
    font: Font,
    level: int,
) -> bool {
    exists|i: int|
        0 <= i < scene.len() && (#[trigger] scene[i] matches ItemModel::Text {
            text: t,
            x: px,
            y: py,
            font: f,
            level: l,
            centered,
        } && t == text && px == x && py == y && f == font && l == level && centered)
}

/// The scene holds this filled rectangle.
pub open spec fn has_fill(scene: Seq<ItemModel>, x: int, y: int, w: int, h: int, level: int) -> bool {
    exists|i: int|
        0 <= i < scene.len() && (#[trigger] scene[i] matches ItemModel::Fill { area, level: l }
            && area.x == x && area.y == y && area.w == w && area.h == h && l == level)
}

/// The font of a line: its own if the text can be set in it, else the
/// Japanese one.
pub open spec fn font_for(text: Seq<char>, own: Font) -> Font {
    if crate::text::plain_ascii(vstd::utf8::encode_utf8(text)) {
        own
    } else {
        Font::Japanese
    }
}

/// Every field of the content is drawn at its own place, whatever the other
/// fields hold: the name in any case, the others unless they are empty. So are
/// the header in its black band, the divider and the hint at the bottom.
pub proof fn every_field_is_drawn(c: ContentModel)
    ensures
        ({
            let s = crate::app::plate::plate_scene(c);
            let plain = crate::text::plain_ascii(vstd::utf8::encode_utf8(c.name));
            &&& plain ==> has_text(s, c.name, 240, 260, Font::Big, 0)
            &&& !plain ==> has_text(s, c.name, 120, 130, Font::JapaneseDouble, 0)
            &&& c.title.len() > 0 ==> has_text(s, c.title, 240, 330, font_for(c.title, Font::Mid), 1)
            &&& c.org.len() > 0 ==> has_text(s, c.org, 240, 375, font_for(c.org, Font::Mid), 1)
            &&& c.url.len() > 0 ==> has_text(s, c.url, 240, 490, Font::Small, 0)
            &&& c.note.len() > 0 ==> has_text(s, c.note, 240, 540, font_for(c.note, Font::Small), 1)
            &&& has_text(s, "PAPER NAME PLATE"@, 240, 38, Font::Small, 3)
            &&& has_text(s, "NFC: tap to receive / write to update"@, 240, 770, Font::Small, 1)
            &&& has_fill(s, 0, 0, 480, 60, 0)
            &&& has_fill(s, 60, 430, 360, 3, 2)
        }),
{
    let s = crate::app::plate::plate_scene(c);
    let t = crate::app::plate::plate_line(c.title, 330, Font::Mid, 1).len() as int;
    let o = t + crate::app::plate::plate_line(c.org, 375, Font::Mid, 1).len();
    let u = o + 1 + crate::app::plate::plate_url(c.url).len();
    let n = u + crate::app::plate::plate_line(c.note, 540, Font::Small, 1).len();
    assert(s[1] is Fill && s[2] is Text && s[3] is Text);
    assert(has_fill(s, 0, 0, 480, 60, 0));
    assert(s[4 + o] is Fill);
    assert(has_fill(s, 60, 430, 360, 3, 2));
    assert(s[4 + n] is Text);
    if c.title.len() > 0 {
        assert(s[4] is Text);
    }
    if c.org.len() > 0 {
        assert(s[4 + t] is Text);
    }
    if c.url.len() > 0 {
        assert(s[4 + o + 1] is Text);
    }
    if c.note.len() > 0 {
        assert(s[4 + u] is Text);
    }
}

/// Nothing else is drawn: a screen is cleared once, before anything else, two
/// rectangles are filled, the band before its header, and each text is the
/// header, the hint or a field that is not empty, at its own height.
pub proof fn nothing_else_is_drawn(c: ContentModel, i: int)
    requires
        0 <= i < crate::app::plate::plate_scene(c).len(),
    ensures
        ({
            let s = crate::app::plate::plate_scene(c);
            &&& s[i] is Clear <==> i == 0
            &&& s[i] is Fill <==> i == 1 || (s[i] is Fill && s[i]->Fill_area.y == 430)
            &&& s[i] matches ItemModel::Text { text, y, .. } ==> {
                ||| y == 38 && i == 2
                ||| (y == 260 || y == 130) && text == c.name
                ||| y == 330 && text == c.title && c.title.len() > 0
                ||| y == 375 && text == c.org && c.org.len() > 0
                ||| y == 490 && text == c.url && c.url.len() > 0
                ||| y == 540 && text == c.note && c.note.len() > 0
                ||| y == 770
            }
            &&& s.len() == 6 + (if c.title.len() > 0 {
                1int
            } else {
                0
            }) + (if c.org.len() > 0 {
                1int
            } else {
                0
            }) + (if c.url.len() > 0 {
                1int
            } else {
                0
            }) + (if c.note.len() > 0 {
                1int
            } else {
                0
            })
        }),
{
}

/// A plate is its five texts.
pub proof fn plates_are_their_texts(content: crate::app::plate::PlateContent)
    ensures
        content@.name == content.name@,
        content@.title == content.title@,
        content@.org == content.org@,
        content@.note == content.note@,
        content@.url == content.url@,
{
}

} // verus!
