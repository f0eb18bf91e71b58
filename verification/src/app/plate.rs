//! The name plate itself: content model, NDEF mapping and layout.
//!
//! Content convention (writable from a phone with any NFC tag writer):
//! * a Text record ("T") holds up to four lines: name / title / organisation
//!   / extra note (separated by `\n`)
//! * a URI record ("U") holds the link that is also served to readers
//!
//! The same NDEF message is what the emulated tag serves, so whatever a
//! phone writes is what the next phone reads.

use crate::app::scene::{add_item, add_centered, Font, Item, ItemModel, BLACK, DARK, LIGHT, WHITE};
use crate::ndef::{is_type, record_at, uri_prefix, Record};
use crate::ssd1677::area::Area;
use crate::ssd1677::WIDTH;
use crate::text::{chars, is_plain_ascii, lossy, split_line, split_semicolons, string, trim_prefix};
use vstd::prelude::*;
use vstd::string::*;

pub mod laws;

verus! {

/// What the plate shows and serves. The link is kept without its scheme.
#[derive(Debug, Clone, Default, PartialEq, Eq)]
pub struct PlateContent {
    pub name: String,
    pub title: String,
    pub org: String,
    pub note: String,
    pub url: String,
}

/// The content, mathematically.
pub struct ContentModel {
    pub name: Seq<char>,
    pub title: Seq<char>,
    pub org: Seq<char>,
    pub note: Seq<char>,
    pub url: Seq<char>,
}

impl View for PlateContent {
    type V = ContentModel;

    open spec fn view(&self) -> ContentModel {
        ContentModel {
            name: self.name@,
            title: self.title@,
            org: self.org@,
            note: self.note@,
            url: self.url@,
        }
    }
}

/// UTF-8.
pub open spec fn utf8(s: Seq<char>) -> Seq<u8> {
    vstd::utf8::encode_utf8(s)
}

/// A link without its scheme.
pub open spec fn without_scheme(url: Seq<char>) -> Seq<char> {
    crate::text::without_prefix(
        crate::text::without_prefix(url, "https://"@),
        "http://"@,
    )
}

/// How a record with a one-byte type begins: flags, type length, payload
/// length, type. Up to 255 bytes make a short record, marked in its flags, with
/// one byte of length; longer ones have four.
pub open spec fn record_head(flags: u8, rtype: u8, payload: nat) -> Seq<u8> {
    if payload <= 255 {
        seq![(flags + 0x10) as u8, 0x01u8, payload as u8, rtype]
    } else {
        seq![flags, 0x01u8] + crate::bytes::be32((payload % 0x1_0000_0000) as u32) + seq![rtype]
    }
}

impl ContentModel {
    pub open spec fn demo() -> ContentModel {
        ContentModel {
            name: "Kenta IDA"@,
            title: "Embedded Engineer"@,
            org: "bare-metal Rust / esp-hal"@,
            note: "Tap your phone to get the link"@,
            url: "github.com/esp-rs/esp-hal"@,
        }
    }

    /// The four lines.
    pub open spec fn text(self) -> Seq<char> {
        self.name.push('\n') + self.title.push('\n') + self.org.push('\n') + self.note
    }

    /// The payload of the URI record: the code of `https://` and the link.
    pub open spec fn uri_payload(self) -> Seq<u8> {
        seq![0x04u8] + utf8(self.url)
    }

    /// The payload of the Text record: UTF-8, in English, the four lines.
    pub open spec fn text_payload(self) -> Seq<u8> {
        seq![0x02u8, 0x65u8, 0x6Eu8] + utf8(self.text())
    }

    /// The URI record, the first of two.
    pub open spec fn uri_record(self) -> Seq<u8> {
        record_head(0x81, 0x55, self.uri_payload().len()) + self.uri_payload()
    }

    /// The Text record, the last one.
    pub open spec fn text_record(self, first: bool) -> Seq<u8> {
        record_head(
            if first {
                0xC1
            } else {
                0x41
            },
            0x54,
            self.text_payload().len(),
        ) + self.text_payload()
    }

    /// The message that the emulated tag serves: the link first, if there is
    /// one (phones act on the first record), then the text.
    #[verifier::opaque]
    pub open spec fn to_ndef(self) -> Seq<u8> {
        if self.url.len() == 0 {
            self.text_record(true)
        } else {
            self.uri_record() + self.text_record(false)
        }
    }

    /// The four lines of a text; missing lines are empty.
    pub open spec fn with_lines(self, t: Seq<char>) -> ContentModel {
        ContentModel {
            name: crate::text::line(t, 0),
            title: crate::text::line(t, 1),
            org: crate::text::line(t, 2),
            note: crate::text::line(t, 3),
            ..self
        }
    }

    /// The content after one record: Text records replace the lines (`;`
    /// separates them as well as a newline), URI records the link.
    pub open spec fn with_record(self, r: Record) -> ContentModel {
        if r.tnf == 1 && r.rtype == seq![0x54u8] {
            let lang = if r.payload.len() > 0 {
                (r.payload[0] & 0x3F) as int
            } else {
                0
            };
            if 1 + lang <= r.payload.len() {
                self.with_lines(
                    crate::text::semicolons_split(
                        crate::text::decoded(r.payload.skip(1 + lang)),
                    ),
                )
            } else {
                self
            }
        } else if r.tnf == 1 && r.rtype == seq![0x55u8] {
            if r.payload.len() > 0 {
                ContentModel {
                    url: without_scheme(
                        crate::ndef::uri_prefix_chars(r.payload[0]) + crate::text::decoded(
                            r.payload.skip(1),
                        ),
                    ),
                    ..self
                }
            } else {
                self
            }
        } else {
            self
        }
    }

    /// The content after the records of a message from byte `i` on.
    pub open spec fn with_records(self, msg: Seq<u8>, i: int) -> ContentModel
        decreases msg.len() - i,
    {
        match crate::ndef::record(msg, i) {
            None => self,
            Some(r) => if r.next <= i || r.next >= msg.len() {
                self.with_record(r)
            } else {
                self.with_record(r).with_records(msg, r.next)
            },
        }
    }

    /// `name\ntitle\norg\nnote\nurl`.
    pub open spec fn plain(self) -> Seq<char> {
        self.text().push('\n') + self.url
    }

    /// The content of a plain text.
    pub open spec fn with_plain(self, t: Seq<char>) -> ContentModel {
        ContentModel { url: without_scheme(crate::text::line(t, 4)), ..self.with_lines(t) }
    }
}

impl PlateContent {
    pub fn demo() -> (c: Self)
        ensures
            c@ == ContentModel::demo(),
    {
        PlateContent {
            name: "Kenta IDA".to_owned(),
            title: "Embedded Engineer".to_owned(),
            org: "bare-metal Rust / esp-hal".to_owned(),
            note: "Tap your phone to get the link".to_owned(),
            url: "github.com/esp-rs/esp-hal".to_owned(),
        }
    }

    fn text(&self) -> (t: String)
        ensures
            t@ == self@.text(),
    {
        let mut t = String::new();
        t.append(self.name.as_str());
        t.push('\n');
        t.append(self.title.as_str());
        t.push('\n');
        t.append(self.org.as_str());
        t.push('\n');
        t.append(self.note.as_str());
        assert(t@ =~= self@.text());
        t
    }

    fn uri_record(&self) -> (r: Vec<u8>)
        ensures
            r@ == self@.uri_record(),
    {
        let url = self.url.as_str().as_bytes();
        // MB, well-known; type "U"; https://
        let mut r = head(0x81, 0x55, url.len(), 1);
        r.push(0x04);
        r.extend_from_slice(url);
        assert(r@ =~= self@.uri_record());
        r
    }

    fn text_record(&self, first: bool) -> (r: Vec<u8>)
        ensures
            r@ == self@.text_record(first),
    {
        let text = self.text_payload();
        // ME, well-known, MB if it is the only record; type "T"
        let flags: u8 = if first {
            0xC1
        } else {
            0x41
        };
        let mut r = head(flags, 0x54, text.len(), 3);
        // UTF-8, lang length 2
        r.push(0x02);
        r.push(0x65);
        r.push(0x6E);
        r.extend_from_slice(text.as_slice());
        assert(r@ =~= self@.text_record(first));
        r
    }

    /// Build the NDEF message served by the emulated tag:
    /// URI record first (phones act on the first record), then the text.
    /// What does not fit a short record goes into a long one.
    pub fn to_ndef(&self) -> (msg: Vec<u8>)
        ensures
            msg@ == self@.to_ndef(),
    {
        proof {
            reveal(ContentModel::to_ndef);
        }
        if self.url.as_str().is_empty() {
            return self.text_record(true);
        }
        let mut msg = self.uri_record();
        let text = self.text_record(false);
        msg.extend_from_slice(text.as_slice());
        assert(msg@ =~= self@.to_ndef());
        msg
    }

    fn text_payload(&self) -> (t: Vec<u8>)
        ensures
            t@ == utf8(self@.text()),
    {
        crate::bytes::owned(self.text().as_str().as_bytes())
    }

    fn set_lines(&mut self, t: &[char])
        ensures
            final(self)@ == old(self)@.with_lines(t@),
    {
        let (name, rest) = split_line(t);
        let (title, rest2) = split_line(rest);
        let (org, rest3) = split_line(rest2);
        let (note, _) = split_line(rest3);
        proof {
            reveal_with_fuel(crate::text::line, 4);
        }
        self.name = string(name);
        self.title = string(title);
        self.org = string(org);
        self.note = string(note);
    }

    fn apply_text(&mut self, text: &[u8])
        ensures
            final(self)@ == old(self)@.with_lines(
                crate::text::semicolons_split(crate::text::decoded(text@)),
            ),
    {
        // Some NFC writer apps make newlines hard to type: accept ';' as an
        // alternative separator.
        let t = lossy(text);
        let cs = chars(t.as_str());
        let split = split_semicolons(cs.as_slice());
        self.set_lines(split.as_slice());
    }

    fn apply_uri(&mut self, payload: &[u8])
        requires
            payload@.len() > 0,
        ensures
            final(self)@ == (ContentModel {
                url: without_scheme(
                    crate::ndef::uri_prefix_chars(payload@[0]) + crate::text::decoded(
                        payload@.skip(1),
                    ),
                ),
                ..old(self)@
            }),
    {
        let rest = vstd::slice::slice_subrange(payload, 1, payload.len());
        assert(rest@ =~= payload@.skip(1));
        let mut url = String::new();
        url.append(uri_prefix(payload[0]));
        let tail = lossy(rest);
        url.append(tail.as_str());
        assert(url@ =~= crate::ndef::uri_prefix_chars(payload@[0]) + crate::text::decoded(
            payload@.skip(1),
        ));
        // Store without scheme for display compactness.
        self.url = strip_scheme(url.as_str());
    }

    /// Update the content from an NDEF message (all records scanned).
    pub fn apply_ndef(&mut self, msg: &[u8])
        ensures
            final(self)@ == old(self)@.with_records(msg@, 0),
    {
        let mut i: usize = 0;
        loop
            invariant
                i <= msg@.len(),
                old(self)@.with_records(msg@, 0) == self@.with_records(msg@, i as int),
            decreases msg@.len() - i,
        {
            match record_at(msg, i) {
                None => {
                    return;
                },
                Some(r) => {
                    if is_type(r.tnf, r.rtype, 0x54) {
                        let lang = if r.payload.len() > 0 {
                            (r.payload[0] & 0x3F) as usize
                        } else {
                            0
                        };
                        if r.payload.len() >= 1 && r.payload.len() - 1 >= lang {
                            let text = vstd::slice::slice_subrange(
                                r.payload,
                                1 + lang,
                                r.payload.len(),
                            );
                            assert(text@ =~= r.payload@.skip(1 + lang as int));
                            self.apply_text(text);
                        }
                    } else if is_type(r.tnf, r.rtype, 0x55) {
                        if r.payload.len() > 0 {
                            self.apply_uri(r.payload);
                        }
                    }
                    if r.next <= i || r.next >= msg.len() {
                        return;
                    }
                    i = r.next;
                },
            }
        }
    }

    /// The content in the plain form: five lines.
    pub fn to_plain(&self) -> (t: String)
        ensures
            t@ == self@.plain(),
    {
        let mut t = self.text();
        t.push('\n');
        t.append(self.url.as_str());
        assert(t@ =~= self@.plain());
        t
    }

    /// Update the content from the plain form.
    pub fn apply_plain(&mut self, bytes: &[u8])
        ensures
            final(self)@ == old(self)@.with_plain(crate::text::decoded(bytes@)),
    {
        let t = lossy(bytes);
        let cs = chars(t.as_str());
        self.set_lines(cs.as_slice());
        let (_, r1) = split_line(cs.as_slice());
        let (_, r2) = split_line(r1);
        let (_, r3) = split_line(r2);
        let (_, r4) = split_line(r3);
        let (url, _) = split_line(r4);
        proof {
            reveal_with_fuel(crate::text::line, 5);
        }
        let url = string(url);
        self.url = strip_scheme(url.as_str());
    }
}

/// How a record begins whose payload has `n` and some more bytes.
fn head(flags: u8, rtype: u8, n: usize, more: u8) -> (h: Vec<u8>)
    requires
        flags < 0xF0,
    ensures
        h@ == record_head(flags, rtype, (n + more) as nat),
{
    let mut h: Vec<u8> = Vec::new();
    if n <= (255 - more) as usize {
        h.push(flags + 0x10);
        h.push(0x01);
        h.push(n as u8 + more);
    } else {
        let len = (n as u64 % 0x1_0000_0000 + more as u64) % 0x1_0000_0000;
        h.push(flags);
        h.push(0x01);
        h.extend_from_slice(&crate::bytes::be32_bytes(len as u32));
    }
    h.push(rtype);
    assert(h@ =~= record_head(flags, rtype, (n + more) as nat));
    h
}

fn strip_scheme(url: &str) -> (r: String)
    ensures
        r@ == without_scheme(url@),
{
    proof {
        reveal_strlit("https://");
        reveal_strlit("http://");
    }
    let cs = chars(url);
    let https = chars("https://");
    let http = chars("http://");
    let s = trim_prefix(cs.as_slice(), https.as_slice());
    string(trim_prefix(s, http.as_slice()))
}

// ----------------------------------------------------------------------
// layout
// ----------------------------------------------------------------------

/// A line of the plate: plain text in one font, everything else in the
/// Japanese one; nothing for an empty line.
pub open spec fn plate_line(text: Seq<char>, y: i32, font: Font, level: u8) -> Seq<ItemModel> {
    if text.len() == 0 {
        Seq::empty()
    } else {
        seq![
            crate::app::scene::centered(
                text,
                240,
                y,
                if crate::text::plain_ascii(utf8(text)) {
                    font
                } else {
                    Font::Japanese
                },
                level,
            ),
        ]
    }
}

/// The name: large, or the 16 px Japanese font at twice its size.
pub open spec fn plate_name(name: Seq<char>) -> ItemModel {
    if crate::text::plain_ascii(utf8(name)) {
        crate::app::scene::centered(name, 240, 260, Font::Big, BLACK)
    } else {
        crate::app::scene::centered(name, 120, 130, Font::JapaneseDouble, BLACK)
    }
}

/// The link is always set in the small font.
pub open spec fn plate_url(url: Seq<char>) -> Seq<ItemModel> {
    if url.len() == 0 {
        Seq::empty()
    } else {
        seq![crate::app::scene::centered(url, 240, 490, Font::Small, BLACK)]
    }
}

/// The full name-plate screen: header band, name, title, organisation,
/// divider, link, note, footer.
pub open spec fn plate_scene(c: ContentModel) -> Seq<ItemModel> {
    seq![
        ItemModel::Clear(WHITE),
        ItemModel::Fill { area: crate::app::scene::area(0, 0, WIDTH, 60), level: BLACK },
        crate::app::scene::centered("PAPER NAME PLATE"@, 240, 38, Font::Small, WHITE),
        plate_name(c.name),
    ] + plate_line(c.title, 330, Font::Mid, DARK) + plate_line(c.org, 375, Font::Mid, DARK) + seq![
        ItemModel::Fill { area: crate::app::scene::area(60, 430, 360, 3), level: LIGHT },
    ] + plate_url(c.url) + plate_line(c.note, 540, Font::Small, DARK) + seq![
        crate::app::scene::centered(
            "NFC: tap to receive / write to update"@,
            240,
            770,
            Font::Small,
            DARK,
        ),
    ]
}

fn push_line(items: &mut Vec<Item>, text: &str, y: i32, font: Font, level: u8)
    ensures
        crate::app::scene::scene(final(items)@) == crate::app::scene::scene(old(items)@)
            + plate_line(text@, y, font, level),
{
    if !text.is_empty() {
        let f = if is_plain_ascii(text) {
            font
        } else {
            Font::Japanese
        };
        add_centered(items, text, 240, y, f, level);
    }
    assert(crate::app::scene::scene(items@) =~= crate::app::scene::scene(old(items)@) + plate_line(
        text@,
        y,
        font,
        level,
    ));
}

/// Lay out the full name-plate screen.
pub fn draw(c: &PlateContent) -> (items: Vec<Item>)
    ensures
        crate::app::scene::scene(items@) == plate_scene(c@),
{
    let mut items: Vec<Item> = Vec::new();
    assert(crate::app::scene::scene(items@) =~= Seq::empty());
    add_item(&mut items, Item::Clear(WHITE));

    // Header band.
    add_item(&mut items, Item::Fill { area: Area { x: 0, y: 0, w: WIDTH, h: 60 }, level: BLACK });
    add_centered(&mut items, "PAPER NAME PLATE", 240, 38, Font::Small, WHITE);

    if is_plain_ascii(c.name.as_str()) {
        add_centered(&mut items, c.name.as_str(), 240, 260, Font::Big, BLACK);
    } else {
        // Japanese name: 16 px font at 2x = 32 px, in scaled coordinates.
        add_centered(&mut items, c.name.as_str(), 120, 130, Font::JapaneseDouble, BLACK);
    }
    push_line(&mut items, c.title.as_str(), 330, Font::Mid, DARK);
    push_line(&mut items, c.org.as_str(), 375, Font::Mid, DARK);

    // Divider.
    add_item(&mut items, Item::Fill { area: Area { x: 60, y: 430, w: 360, h: 3 }, level: LIGHT });

    if !c.url.as_str().is_empty() {
        add_centered(&mut items, c.url.as_str(), 240, 490, Font::Small, BLACK);
    }
    push_line(&mut items, c.note.as_str(), 540, Font::Small, DARK);

    // Footer: NFC hint.
    add_centered(
        &mut items,
        "NFC: tap to receive / write to update",
        240,
        770,
        Font::Small,
        DARK,
    );
    assert(crate::app::scene::scene(items@) =~= plate_scene(c@));
    items
}

} // verus!
