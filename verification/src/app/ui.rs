//! Screens for the reader mode.

use crate::app::scene::{
    add_at, add_item, Font, Item, ItemModel, BLACK, DARK, LIGHT, WHITE,
};
use crate::ssd1677::area::Area;
use crate::ssd1677::{HEIGHT, WIDTH};
use crate::st25r3916::NfcaTag;
use crate::text::{push_decimal, push_hex, push_hex2};
use vstd::prelude::*;
use vstd::string::*;

verus! {

/// Tag panel area in logical (portrait) coordinates.
pub const PANEL_X: u32 = 12;

pub const PANEL_Y: u32 = 200;

pub const PANEL_W: u32 = 456;

pub const PANEL_H: u32 = 380;

pub fn hex(bytes: &[u8]) -> (s: String)
    ensures
        s@ == crate::text::hex_text(bytes@),
{
    let mut s = String::new();
    push_hex(&mut s, bytes);
    assert(s@ =~= crate::text::hex_text(bytes@));
    s
}

/// Static part of the screen: gray ramp, frame, title, status, decoration.
pub open spec fn base_scene(nfc_ok: bool) -> Seq<ItemModel> {
    seq![
        ItemModel::Clear(WHITE),
        ItemModel::Fill { area: crate::app::scene::area(0, 0, 120, 40), level: BLACK },
        ItemModel::Fill { area: crate::app::scene::area(120, 0, 120, 40), level: DARK },
        ItemModel::Fill { area: crate::app::scene::area(240, 0, 120, 40), level: LIGHT },
        ItemModel::Fill { area: crate::app::scene::area(360, 0, 120, 40), level: WHITE },
        ItemModel::Frame {
            area: crate::app::scene::area(0, 0, WIDTH, HEIGHT),
            level: BLACK,
            width: 4,
        },
        crate::app::scene::at("M5Stack PaperMono"@, 120, 90, Font::Fixed20, BLACK),
        crate::app::scene::at("bare-metal Rust / esp-hal"@, 90, 120, Font::Fixed20, BLACK),
        crate::app::scene::at(
            if nfc_ok {
                "NFC reader ready - tap a card"@
            } else {
                "NFC reader not available"@
            },
            20,
            170,
            Font::Fixed15,
            DARK,
        ),
        ItemModel::Triangle { a: (240, 620), b: (200, 680), c: (280, 680), level: DARK },
        ItemModel::Circle { x: 60, y: 690, diameter: 90, level: DARK },
        ItemModel::Circle { x: 330, y: 690, diameter: 90, level: LIGHT },
    ]
}

/// Static part of the screen: title, gray ramp, status.
pub fn draw_base_screen(nfc_ok: bool) -> (items: Vec<Item>)
    ensures
        crate::app::scene::scene(items@) == base_scene(nfc_ok),
{
    let mut items: Vec<Item> = Vec::new();
    assert(crate::app::scene::scene(items@) =~= Seq::empty());
    add_item(&mut items, Item::Clear(WHITE));
    let bar = WIDTH / 4;
    let mut level: u8 = 0;
    while level < 4
        invariant
            level <= 4,
            bar == 120,
            crate::app::scene::scene(items@) =~= base_scene(nfc_ok).take(1 + level as int),
        decreases 4 - level,
    {
        let area = Area { x: (level as u32 * bar) as i32, y: 0, w: bar, h: 40 };
        add_item(&mut items, Item::Fill { area, level });
        level += 1;
    }
    add_item(
        &mut items,
        Item::Frame { area: Area { x: 0, y: 0, w: WIDTH, h: HEIGHT }, level: BLACK, width: 4 },
    );
    add_at(&mut items, "M5Stack PaperMono", 120, 90, Font::Fixed20, BLACK);
    add_at(&mut items, "bare-metal Rust / esp-hal", 90, 120, Font::Fixed20, BLACK);
    add_at(
        &mut items,
        if nfc_ok {
            "NFC reader ready - tap a card"
        } else {
            "NFC reader not available"
        },
        20,
        170,
        Font::Fixed15,
        DARK,
    );
    // Decorative: arrow + two gray circles at the bottom.
    add_item(
        &mut items,
        Item::Triangle { a: (240, 620), b: (200, 680), c: (280, 680), level: DARK },
    );
    add_item(&mut items, Item::Circle { x: 60, y: 690, diameter: 90, level: DARK });
    add_item(&mut items, Item::Circle { x: 330, y: 690, diameter: 90, level: LIGHT });
    assert(crate::app::scene::scene(items@) =~= base_scene(nfc_ok));
    items
}

/// What kind of tag a SAK announces.
pub open spec fn kind_text(sak: u8) -> Seq<char> {
    if sak & 0x20 != 0 {
        "ISO14443-4 (DESFire/phone)"@
    } else if sak == 0x00 {
        "Type 2 (NTAG/Ultralight)"@
    } else if sak & 0x18 != 0 {
        "MIFARE Classic"@
    } else {
        "NFC-A"@
    }
}

/// Four hexadecimal digits.
pub open spec fn hex4(w: u16) -> Seq<char> {
    crate::text::hex2(crate::bytes::high_byte(w)) + crate::text::hex2(crate::bytes::low_byte(w))
}

/// The line of a block of four bytes.
pub open spec fn block_item(t2: Seq<u8>, i: int) -> ItemModel {
    crate::app::scene::at(
        crate::text::decimal(i as nat) + ": "@ + crate::text::hex_text(
            t2.subrange(i * 4, i * 4 + 4),
        ),
        40,
        (388 + i * 22) as i32,
        Font::Fixed15,
        BLACK,
    )
}

/// The lines of the first four blocks of a Type 2 tag.
pub open spec fn blocks_scene(t2: Option<Seq<u8>>) -> Seq<ItemModel> {
    match t2 {
        None => Seq::empty(),
        Some(d) => seq![
            crate::app::scene::at("Blocks 0-3:"@, 24, 364, Font::Fixed15, BLACK),
            block_item(d, 0),
            block_item(d, 1),
            block_item(d, 2),
            block_item(d, 3),
        ],
    }
}

/// Middle panel showing the last tag.
pub open spec fn tag_scene(tag: NfcaTag, count: u32, t2: Option<Seq<u8>>) -> Seq<ItemModel> {
    let panel = crate::app::scene::area(PANEL_X as i32, PANEL_Y as i32, PANEL_W, PANEL_H);
    seq![
        ItemModel::Fill { area: panel, level: WHITE },
        ItemModel::Frame { area: panel, level: DARK, width: 2 },
        crate::app::scene::at(
            "Tag #"@ + crate::text::decimal(count as nat),
            24,
            236,
            Font::Fixed20,
            BLACK,
        ),
        crate::app::scene::at(
            "UID: "@ + crate::text::hex_text(tag.uid@.take(tag.uid_len as int)),
            24,
            276,
            Font::Fixed15,
            BLACK,
        ),
        crate::app::scene::at(
            "ATQA: "@ + hex4(tag.atqa) + "  SAK: "@ + crate::text::hex2(tag.sak),
            24,
            300,
            Font::Fixed15,
            BLACK,
        ),
        crate::app::scene::at(
            "Type: "@ + kind_text(tag.sak),
            24,
            324,
            Font::Fixed15,
            BLACK,
        ),
    ] + blocks_scene(t2)
}

fn line_text(label: &str, rest: &str) -> (s: String)
    ensures
        s@ == label@ + rest@,
{
    let mut s = label.to_owned();
    s.append(rest);
    s
}

fn kind(tag: &NfcaTag) -> (s: &'static str)
    ensures
        s@ == kind_text(tag.sak),
{
    if tag.is_iso14443_4() {
        "ISO14443-4 (DESFire/phone)"
    } else if tag.sak == 0x00 {
        "Type 2 (NTAG/Ultralight)"
    } else if tag.sak & 0x18 != 0 {
        "MIFARE Classic"
    } else {
        "NFC-A"
    }
}

fn add_blocks(items: &mut Vec<Item>, d: &[u8; 16])
    ensures
        crate::app::scene::scene(final(items)@) == crate::app::scene::scene(old(items)@)
            + blocks_scene(Some(d@)),
{
    add_at(items, "Blocks 0-3:", 24, 364, Font::Fixed15, BLACK);
    let mut i: usize = 0;
    while i < 4
        invariant
            i <= 4,
            d@.len() == 16,
            crate::app::scene::scene(items@) =~= crate::app::scene::scene(old(items)@)
                + blocks_scene(Some(d@)).take(1 + i as int),
        decreases 4 - i,
    {
        let chunk = vstd::slice::slice_subrange(d.as_slice(), i * 4, i * 4 + 4);
        let mut line = String::new();
        push_decimal(&mut line, i as u64);
        line.append(": ");
        push_hex(&mut line, chunk);
        assert(line@ =~= crate::text::decimal(i as nat) + ": "@ + crate::text::hex_text(chunk@));
        assert(blocks_scene(Some(d@))[1 + i as int] == block_item(d@, i as int));
        add_at(items, line.as_str(), 40, (388 + i * 22) as i32, Font::Fixed15, BLACK);
        i += 1;
    }
}

/// Middle panel showing the last tag.
pub fn draw_tag_panel(tag: &NfcaTag, count: u32, t2: Option<&[u8; 16]>) -> (items: Vec<Item>)
    requires
        tag.wf(),
    ensures
        crate::app::scene::scene(items@) == tag_scene(
            *tag,
            count,
            match t2 {
                Some(d) => Some(d@),
                None => None,
            },
        ),
{
    let mut items: Vec<Item> = Vec::new();
    assert(crate::app::scene::scene(items@) =~= Seq::empty());
    let area = Area { x: PANEL_X as i32, y: PANEL_Y as i32, w: PANEL_W, h: PANEL_H };
    add_item(&mut items, Item::Fill { area, level: WHITE });
    add_item(&mut items, Item::Frame { area, level: DARK, width: 2 });

    let mut line = "Tag #".to_owned();
    push_decimal(&mut line, count as u64);
    add_at(&mut items, line.as_str(), 24, 236, Font::Fixed20, BLACK);

    let uid = hex(tag.uid());
    let line = line_text("UID: ", uid.as_str());
    add_at(&mut items, line.as_str(), 24, 276, Font::Fixed15, BLACK);

    let mut line = "ATQA: ".to_owned();
    push_hex2(&mut line, (tag.atqa / 256) as u8);
    push_hex2(&mut line, (tag.atqa % 256) as u8);
    line.append("  SAK: ");
    push_hex2(&mut line, tag.sak);
    assert(line@ =~= "ATQA: "@ + hex4(tag.atqa) + "  SAK: "@ + crate::text::hex2(tag.sak));
    add_at(&mut items, line.as_str(), 24, 300, Font::Fixed15, BLACK);

    let line = line_text("Type: ", kind(tag));
    add_at(&mut items, line.as_str(), 24, 324, Font::Fixed15, BLACK);

    if let Some(d) = t2 {
        add_blocks(&mut items, d);
    }
    let ghost blocks = match t2 {
        Some(d) => Some(d@),
        None => None,
    };
    assert(crate::app::scene::scene(items@) =~= tag_scene(*tag, count, blocks));
    items
}

/// A line of detail about the last tag, below its type.
pub fn draw_tag_detail(detail: &str) -> (item: Item)
    ensures
        item@ == crate::app::scene::at(detail@, 24, 364, Font::Fixed15, BLACK),
{
    let text = detail.to_owned();
    Item::Text { text, x: 24, y: 364, font: Font::Fixed15, level: BLACK, centered: false }
}

// ----------------------------------------------------------------------
// what the screens show
// ----------------------------------------------------------------------

/// The scene holds this text from a point on.
pub open spec fn has_text_at(
    scene: Seq<ItemModel>,
    text: Seq<char>,
    x: int,
    y: int,
    font: Font,
    level: int,
) -> bool {
    exists|i: int|
        0 <= i < scene.len() && (#[trigger] scene[i] matches ItemModel::Text {
            text: t,
            x: px,
            y: py,
            font: f,
            level: l,
            centered,
        } && t == text && px == x && py == y && f == font && l == level && !centered)
}

/// The reader screen: white, with a ramp of the four levels at the top, a
/// frame, the titles, what the reader is doing, and decoration.
pub proof fn the_reader_screen_shows_its_parts(nfc_ok: bool, level: int)
    requires
        0 <= level < 4,
    ensures
        ({
            let s = base_scene(nfc_ok);
            &&& s.len() == 12
            &&& s[0] == ItemModel::Clear(3)
            &&& s[1 + level] == (ItemModel::Fill {
                area: Area { x: (120 * level) as i32, y: 0, w: 120, h: 40 },
                level: level as u8,
            })
            &&& s[5] == (ItemModel::Frame {
                area: Area { x: 0, y: 0, w: 480, h: 800 },
                level: 0,
                width: 4,
            })
            &&& has_text_at(s, "M5Stack PaperMono"@, 120, 90, Font::Fixed20, 0)
            &&& has_text_at(s, "bare-metal Rust / esp-hal"@, 90, 120, Font::Fixed20, 0)
            &&& nfc_ok ==> has_text_at(s, "NFC reader ready - tap a card"@, 20, 170, Font::Fixed15, 1)
            &&& !nfc_ok ==> has_text_at(s, "NFC reader not available"@, 20, 170, Font::Fixed15, 1)
            &&& s[9] == (ItemModel::Triangle {
                a: (240, 620),
                b: (200, 680),
                c: (280, 680),
                level: 1,
            })
            &&& s[10] == (ItemModel::Circle { x: 60, y: 690, diameter: 90, level: 1 })
            &&& s[11] == (ItemModel::Circle { x: 330, y: 690, diameter: 90, level: 2 })
        }),
{
    let s = base_scene(nfc_ok);
    assert(s[6] is Text && s[7] is Text && s[8] is Text);
}

/// What a SAK announces: bit five a Type 4 tag, zero a Type 2 tag, bits three
/// or four a MIFARE Classic.
pub proof fn kinds_have_their_names(sak: u8)
    ensures
        sak / 32 % 2 == 1 ==> kind_text(sak) == "ISO14443-4 (DESFire/phone)"@,
        sak == 0 ==> kind_text(sak) == "Type 2 (NTAG/Ultralight)"@,
        sak / 32 % 2 == 0 && (sak / 8 % 2 == 1 || sak / 16 % 2 == 1) ==> kind_text(sak)
            == "MIFARE Classic"@,
        sak != 0 && sak / 32 % 2 == 0 && sak / 8 % 2 == 0 && sak / 16 % 2 == 0 ==> kind_text(sak)
            == "NFC-A"@,
{
    crate::bits::single_bits(sak);
}

/// The panel of a tag: cleared and framed first, then its number, the bytes of
/// its UID, ATQA and SAK in hexadecimal, its kind, and four bytes to a line of
/// what was read from it.
pub proof fn the_tag_panel_shows_the_tag(tag: NfcaTag, count: u32, t2: Option<Seq<u8>>, i: int)
    requires
        tag.wf(),
        t2 matches Some(d) ==> d.len() == 16,
        0 <= i < 4,
    ensures
        ({
            let s = tag_scene(tag, count, t2);
            let panel = Area { x: 12, y: 200, w: 456, h: 380 };
            let high = (tag.atqa / 256) as u8;
            let low = (tag.atqa % 256) as u8;
            &&& s.len() == if t2 is Some {
                11int
            } else {
                6
            }
            &&& s[0] == (ItemModel::Fill { area: panel, level: 3 })
            &&& s[1] == (ItemModel::Frame { area: panel, level: 1, width: 2 })
            &&& has_text_at(
                s,
                "Tag #"@ + crate::text::decimal(count as nat),
                24,
                236,
                Font::Fixed20,
                0,
            )
            &&& has_text_at(
                s,
                "UID: "@ + crate::text::hex_text(tag.uid@.take(tag.uid_len as int)),
                24,
                276,
                Font::Fixed15,
                0,
            )
            &&& has_text_at(
                s,
                "ATQA: "@ + crate::text::hex2(high) + crate::text::hex2(low) + "  SAK: "@
                    + crate::text::hex2(tag.sak),
                24,
                300,
                Font::Fixed15,
                0,
            )
            &&& has_text_at(s, "Type: "@ + kind_text(tag.sak), 24, 324, Font::Fixed15, 0)
            &&& t2 matches Some(d) ==> {
                &&& has_text_at(s, "Blocks 0-3:"@, 24, 364, Font::Fixed15, 0)
                &&& has_text_at(
                    s,
                    crate::text::decimal(i as nat) + ": "@ + crate::text::hex_text(
                        d.subrange(4 * i, 4 * i + 4),
                    ),
                    40,
                    388 + 22 * i,
                    Font::Fixed15,
                    0,
                )
            }
        }),
{
    let s = tag_scene(tag, count, t2);
    let high = (tag.atqa / 256) as u8;
    let low = (tag.atqa % 256) as u8;
    crate::bytes::bytes_have_their_worth(tag.atqa, 0);
    assert(s[2] is Text && s[3] is Text && s[4] is Text && s[5] is Text);
    assert("ATQA: "@ + crate::text::hex2(high) + crate::text::hex2(low) + "  SAK: "@
        + crate::text::hex2(tag.sak) =~= "ATQA: "@ + hex4(tag.atqa) + "  SAK: "@
        + crate::text::hex2(tag.sak));
    if t2 is Some {
        let b = blocks_scene(t2);
        assert(s[6] == b[0] && s[7 + i] == b[1 + i]);
        assert(b[1 + i] == block_item(t2->Some_0, i));
        assert(s[6] is Text && s[7 + i] is Text);
    }
}

} // verus!
