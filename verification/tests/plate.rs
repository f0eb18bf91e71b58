use std::collections::HashMap;

use paper_name_plate::app::image::{image_bytes, MonoImage};
use paper_name_plate::app::plate::{draw, PlateContent};
use paper_name_plate::app::scene::{paint, Dot, Font, Item};
use paper_name_plate::app::ui::{draw_base_screen, draw_tag_detail, draw_tag_panel, hex};
use paper_name_plate::bytes;
use paper_name_plate::config_store::{
    self, crc16, encode_rec, header_len, Flash, FlashPort, IMAGE_OFFSET, MAX_DATA, MAX_IMAGE, REGION_OFFSET,
};
use paper_name_plate::ssd1677::area::Area;
use paper_name_plate::ssd1677::FrameBuffer;
use paper_name_plate::st25r3916::NfcaTag;
use paper_name_plate::t2t_emu::T2tEmulator;
use paper_name_plate::text;

fn content(name: &str, title: &str, org: &str, note: &str, url: &str) -> PlateContent {
    PlateContent {
        name: name.to_string(),
        title: title.to_string(),
        org: org.to_string(),
        note: note.to_string(),
        url: url.to_string(),
    }
}

#[test]
fn the_served_message_has_its_layout() {
    let c = content("A", "B", "C", "D", "x.y");
    assert_eq!(
        c.to_ndef(),
        [
            &[0x91, 0x01, 0x04, b'U', 0x04][..],
            b"x.y",
            &[0x51, 0x01, 0x0A, b'T', 0x02],
            b"enA\nB\nC\nD"
        ]
        .concat()
    );
    let c = content("A", "", "", "", "");
    assert_eq!(c.to_ndef(), [&[0xD1, 0x01, 0x07, b'T', 0x02][..], b"enA\n\n\n"].concat());
}

#[test]
fn served_messages_read_back() {
    for c in [
        PlateContent::demo(),
        content("井田 健太", "技術者", "", "ノート", "example.com/あ"),
        content("", "", "", "", "a"),
        content("Ünï", "a b", "c\rd", "e\r", "tel:12"),
    ] {
        let mut d = content("x", "x", "x", "x", "x");
        d.apply_ndef(&c.to_ndef());
        assert_eq!(d, c);
    }
    // an empty link is not served
    let c = content("n", "", "", "", "");
    let mut d = content("x", "x", "x", "x", "old");
    d.apply_ndef(&c.to_ndef());
    assert_eq!(d, content("n", "", "", "", "old"));
}

#[test]
fn long_contents_are_served_in_long_records() {
    // the largest short records
    let c = content(&"n".repeat(249), "", "", "", &"u".repeat(254));
    let msg = c.to_ndef();
    assert_eq!(msg[..5], [0x91, 0x01, 0xFF, b'U', 0x04]);
    assert_eq!(msg[259..264], [0x51, 0x01, 0xFF, b'T', 0x02]);
    // one byte more
    let c = content(&"n".repeat(250), "", "", "", &"u".repeat(255));
    let msg = c.to_ndef();
    assert_eq!(msg[..8], [0x81, 0x01, 0, 0, 1, 0, b'U', 0x04]);
    assert_eq!(msg[263..271], [0x41, 0x01, 0, 0, 1, 0, b'T', 0x02]);
    let mut d = content("x", "x", "x", "x", "x");
    d.apply_ndef(&msg);
    assert_eq!(d, c);
    let c = content(&"n".repeat(300), "t", "", "", "");
    assert_eq!(c.to_ndef()[..7], [0xC1, 0x01, 0, 0, 1, 0x33, b'T']);
}

#[test]
fn up_to_865_bytes_fit_the_tag() {
    let mut tag = T2tEmulator::new([4, 1, 2, 3, 4, 5, 6]);
    let c = content(&"n".repeat(500), "", "", "", &"u".repeat(362));
    assert!(tag.set_ndef(&c.to_ndef()));
    let mut d = PlateContent::demo();
    d.apply_ndef(tag.ndef().unwrap());
    assert_eq!(d, c);
    let c = content(&"n".repeat(500), "", "", "", &"u".repeat(363));
    assert!(!tag.set_ndef(&c.to_ndef()));
}

fn draw_on(fb: &mut FrameBuffer, c: &PlateContent) {
    for (i, item) in draw(c).iter().enumerate() {
        let i = i as i32;
        paint(fb, item, &[Dot { x: 10 * i, y: 100 }, Dot { x: 10 * i + 1, y: 70 + i }, Dot { x: -1, y: 900 }]);
    }
}

#[test]
fn a_plate_hides_what_was_there() {
    let c = content("井", "b", "", "d", "e");
    let mut a = FrameBuffer::new();
    let mut b = FrameBuffer::new();
    b.clear_black();
    b.set_pixel(3, 700, 2);
    draw_on(&mut a, &c);
    draw_on(&mut b, &c);
    assert!(a.lsb == b.lsb && a.msb == b.msb);
    assert_eq!(a.get_pixel(3, 700), 3);
    assert_eq!(a.get_pixel(0, 0), 0);
}

#[test]
fn items_cover_their_pixels() {
    let mut fb = FrameBuffer::new();
    paint(&mut fb, &Item::Clear(2), &[]);
    assert_eq!(fb.get_pixel(479, 799), 2);
    paint(&mut fb, &Item::Fill { area: Area { x: 4, y: 5, w: 2, h: 1 }, level: 1 }, &[]);
    assert_eq!([3, 4, 5, 6].map(|x| fb.get_pixel(x, 5)), [2, 1, 1, 2]);
    let text = |font| Item::Text { text: String::new(), x: 0, y: 0, font, level: 0, centered: true };
    paint(&mut fb, &text(Font::Big), &[Dot { x: 20, y: 30 }, Dot { x: 480, y: 30 }]);
    assert_eq!([19, 20, 21].map(|x| fb.get_pixel(x, 30)), [2, 0, 2]);
    paint(&mut fb, &text(Font::JapaneseDouble), &[Dot { x: 20, y: 30 }]);
    assert_eq!([39, 40, 41, 42].map(|x| fb.get_pixel(x, 61)), [2, 0, 0, 2]);
    let ring = Item::Circle { x: 0, y: 0, diameter: 1, level: 3 };
    paint(&mut fb, &ring, &[Dot { x: 40, y: 61 }]);
    assert_eq!([40, 41].map(|x| fb.get_pixel(x, 61)), [3, 0]);
}

#[test]
fn the_demo_content_is_known() {
    let c = PlateContent::demo();
    assert_eq!(c.name, "Kenta IDA");
    assert_eq!(c.title, "Embedded Engineer");
    assert_eq!(c.org, "bare-metal Rust / esp-hal");
    assert_eq!(c.note, "Tap your phone to get the link");
    assert_eq!(c.url, "github.com/esp-rs/esp-hal");
}

fn text_record(text: &[u8]) -> Vec<u8> {
    let mut m = vec![0xD1, 0x01, text.len() as u8 + 3, b'T', 0x02, b'e', b'n'];
    m.extend_from_slice(text);
    m
}

#[test]
fn lines_are_split() {
    let mut c = PlateContent::default();
    c.apply_ndef(&text_record(b"a;b\r\nc\nd\ne"));
    assert_eq!(c, content("a", "b", "c", "d", ""));
    c.apply_ndef(&text_record(b"only"));
    assert_eq!(c, content("only", "", "", "", ""));
    c.apply_ndef(&text_record(b"\n\n\r"));
    assert_eq!(c, content("", "", "\r", "", ""));
}

#[test]
fn broken_text_is_replaced() {
    let mut c = PlateContent::default();
    c.apply_ndef(&text_record(&[b'a', 0xFF, b'b', 0xE3, 0x81]));
    assert_eq!(c.name, "a\u{FFFD}b\u{FFFD}");
}

#[test]
fn links_lose_their_scheme() {
    let uri = |code: u8, rest: &[u8]| {
        let mut m = vec![0xD1, 0x01, rest.len() as u8 + 1, b'U', code];
        m.extend_from_slice(rest);
        m
    };
    let mut c = PlateContent::default();
    for (code, rest, url) in [
        (0x00, &b"https://a"[..], "a"),
        (0x00, b"http://a", "a"),
        (0x02, b"a", "www.a"),
        (0x04, b"https://http://a", "a"),
        (0x03, b"https://a", "https://a"),
        (0x05, b"12", "tel:12"),
    ] {
        c.apply_ndef(&uri(code, rest));
        assert_eq!(c.url, url);
    }
    // other records and broken ones change nothing
    let before = c.clone();
    c.apply_ndef(&[0xD2, 0x01, 0x01, b'U', 0x00]);
    c.apply_ndef(&[0xD1, 0x01, 0x00, b'U']);
    c.apply_ndef(&[0xD1, 0x01, 0x01, b'T', 0x02]);
    c.apply_ndef(&[0xD1, 0x01]);
    assert_eq!(c, before);
}

#[test]
fn the_plain_form_reads_back() {
    let c = content("a", "b", "c", "d;e", "x.y");
    assert_eq!(c.to_plain(), "a\nb\nc\nd;e\nx.y");
    let mut d = PlateContent::default();
    d.apply_plain(c.to_plain().as_bytes());
    assert_eq!(d, c);
    d.apply_plain(b"name");
    assert_eq!(d, content("name", "", "", "", ""));
}

fn texts(items: &[Item]) -> Vec<(String, i32, i32, Font, u8)> {
    items
        .iter()
        .filter_map(|i| match i {
            Item::Text { text, x, y, font, level, .. } => Some((text.clone(), *x, *y, *font, *level)),
            _ => None,
        })
        .collect()
}

#[test]
fn the_plate_is_laid_out() {
    let items = draw(&content("A", "B", "C", "D", "E"));
    assert_eq!(items[0], Item::Clear(3));
    assert_eq!(items[1], Item::Fill { area: Area { x: 0, y: 0, w: 480, h: 60 }, level: 0 });
    assert!(items.contains(&Item::Fill { area: Area { x: 60, y: 430, w: 360, h: 3 }, level: 2 }));
    assert_eq!(
        texts(&items),
        vec![
            ("PAPER NAME PLATE".to_string(), 240, 38, Font::Small, 3),
            ("A".to_string(), 240, 260, Font::Big, 0),
            ("B".to_string(), 240, 330, Font::Mid, 1),
            ("C".to_string(), 240, 375, Font::Mid, 1),
            ("E".to_string(), 240, 490, Font::Small, 0),
            ("D".to_string(), 240, 540, Font::Small, 1),
            ("NFC: tap to receive / write to update".to_string(), 240, 770, Font::Small, 1),
        ]
    );
}

#[test]
fn japanese_gets_its_font() {
    let items = draw(&content("名", "題", "", "ノ", ""));
    let t = texts(&items);
    assert_eq!(t[1], ("名".to_string(), 120, 130, Font::JapaneseDouble, 0));
    assert_eq!(t[2], ("題".to_string(), 240, 330, Font::Japanese, 1));
    assert_eq!(t[3], ("ノ".to_string(), 240, 540, Font::Japanese, 1));
    assert_eq!(t.len(), 5);
}

#[test]
fn the_reader_screens_are_laid_out() {
    let items = draw_base_screen(true);
    assert_eq!(items.len(), 12);
    assert_eq!(items[4], Item::Fill { area: Area { x: 360, y: 0, w: 120, h: 40 }, level: 3 });
    assert_eq!(items[5], Item::Frame { area: Area { x: 0, y: 0, w: 480, h: 800 }, level: 0, width: 4 });
    assert_eq!(texts(&items)[2].0, "NFC reader ready - tap a card");
    assert_eq!(texts(&draw_base_screen(false))[2].0, "NFC reader not available");
    assert_eq!(items[9], Item::Triangle { a: (240, 620), b: (200, 680), c: (280, 680), level: 1 });
    assert_eq!(items[11], Item::Circle { x: 330, y: 690, diameter: 90, level: 2 });

    let mut tag = NfcaTag { atqa: 0x0344, uid_len: 4, sak: 0x20, ..Default::default() };
    tag.uid[..4].copy_from_slice(&[0x08, 0xAB, 0x00, 0xFF]);
    let t = texts(&draw_tag_panel(&tag, 4_294_967_295, None));
    assert_eq!(
        t.iter().map(|t| t.0.as_str()).collect::<Vec<_>>(),
        ["Tag #4294967295", "UID: 08:AB:00:FF", "ATQA: 0344  SAK: 20", "Type: ISO14443-4 (DESFire/phone)"]
    );
    tag.sak = 0x00;
    let d: [u8; 16] = core::array::from_fn(|i| i as u8 * 16);
    let t = texts(&draw_tag_panel(&tag, 1, Some(&d)));
    assert_eq!(t[3].0, "Type: Type 2 (NTAG/Ultralight)");
    assert_eq!(t[4], ("Blocks 0-3:".to_string(), 24, 364, Font::Fixed15, 0));
    assert_eq!(t[8], ("3: C0:D0:E0:F0".to_string(), 40, 454, Font::Fixed15, 0));
    tag.sak = 0x08;
    assert_eq!(texts(&draw_tag_panel(&tag, 1, None))[3].0, "Type: MIFARE Classic");
    tag.sak = 0x44;
    assert_eq!(texts(&draw_tag_panel(&tag, 1, None))[3].0, "Type: NFC-A");
    assert_eq!(texts(&[draw_tag_detail("hi")])[0], ("hi".to_string(), 24, 364, Font::Fixed15, 0));
}

#[test]
fn numbers_are_formatted() {
    assert_eq!(hex(&[]), "");
    assert_eq!(hex(&[0x0F]), "0F");
    assert_eq!(hex(&[0x0F, 0xA0]), "0F:A0");
    let mut s = String::from("n=");
    text::push_decimal(&mut s, u64::MAX);
    assert_eq!(s, "n=18446744073709551615");
    let mut s = String::new();
    text::push_decimal(&mut s, 0);
    assert_eq!(s, "0");
    assert!(text::is_plain_ascii("az ~"));
    assert!(!text::is_plain_ascii("a\n"));
    assert!(!text::is_plain_ascii("é"));
    assert!(text::is_plain_ascii(""));
    assert_eq!(text::chars("aé"), ['a', 'é']);
    assert_eq!(text::string(&['a', 'é']), "aé");
}

#[test]
fn words_and_bytes_convert() {
    assert_eq!(bytes::join16(0x12, 0x34), 0x1234);
    assert_eq!(bytes::join32(1, 2, 3, 4), 0x0102_0304);
    assert_eq!(bytes::be16_bytes(0x1234), [0x12, 0x34]);
    assert_eq!(bytes::le16_bytes(0x1234), [0x34, 0x12]);
    assert_eq!(bytes::be32_bytes(0x0102_0304), [1, 2, 3, 4]);
    assert_eq!(bytes::le32_bytes(0x0102_0304), [4, 3, 2, 1]);
    assert!(bytes::same_bytes(&[1, 2], &[1, 2]));
    assert!(!bytes::same_bytes(&[1, 2], &[1, 3]));
    assert!(!bytes::same_bytes(&[1, 2], &[1]));
}

// ----------------------------------------------------------------------
// images and storage
// ----------------------------------------------------------------------

#[test]
fn images_are_encoded() {
    let image = MonoImage { width: 13, height: 2, bits: vec![1, 2, 3, 4] };
    let bytes = image.encode();
    assert_eq!(bytes, [13, 0, 2, 0, 1, 2, 3, 4]);
    assert_eq!(MonoImage::decode_owned(bytes), Some(image));
    for bad in [&[13, 0, 2][..], &[13, 0, 2, 0, 1], &[0, 0, 0, 0], &[0xE1, 1, 1, 0]] {
        assert_eq!(MonoImage::decode_owned(bad.to_vec()), None);
    }
    assert_eq!(image_bytes(480, 800), Some(48_000));
    assert_eq!(image_bytes(481, 1), None);
}

/// Flash that starts erased.
#[derive(Default)]
struct Memory {
    bytes: HashMap<u32, u8>,
    broken: bool,
}

impl FlashPort for &mut Memory {
    type Error = ();

    fn read(&mut self, offset: u32, len: usize) -> Result<Vec<u8>, ()> {
        if self.broken {
            return Err(());
        }
        Ok((0..len as u32).map(|i| *self.bytes.get(&(offset + i)).unwrap_or(&0xFF)).collect())
    }

    fn write(&mut self, offset: u32, bytes: &[u8]) -> Result<(), ()> {
        if self.broken {
            return Err(());
        }
        for (i, b) in bytes.iter().enumerate() {
            self.bytes.insert(offset + i as u32, *b);
        }
        Ok(())
    }
}

#[test]
fn crc16_has_its_check_value() {
    assert_eq!(crc16(b"123456789"), 0x29B1);
    assert_eq!(crc16(b""), 0xFFFF);
}

#[test]
fn records_have_their_layout() {
    let rec = encode_rec(b"123456789", MAX_DATA);
    assert_eq!(rec, [&b"PNP1"[..], &[9, 0, 0xB1, 0x29], b"123456789"].concat());
    assert_eq!(encode_rec(b"123456789", 3)[4], 3);
    assert_eq!(header_len(&rec[..8], MAX_DATA, 100), Some(9));
    assert_eq!(header_len(&rec[..8], 8, 100), None);
    assert_eq!(header_len(&rec[..8], MAX_DATA, 16), None);
    assert_eq!(header_len(b"PNP1\0\0\0\0", MAX_DATA, 100), None);
    assert_eq!(header_len(b"PNP2\x01\0\0\0", MAX_DATA, 100), None);
}

#[test]
fn saved_data_is_loaded() {
    let mut memory = Memory::default();
    {
        let mut flash = Flash::new(&mut memory);
        assert_eq!(config_store::load(&mut flash), None);
        config_store::save(&mut flash, b"hello").unwrap();
        assert_eq!(config_store::load(&mut flash).as_deref(), Some(&b"hello"[..]));
        let image = vec![7u8; MAX_IMAGE];
        config_store::save_image(&mut flash, &image).unwrap();
        assert_eq!(config_store::load_image(&mut flash), Some(image));
        assert_eq!(config_store::load(&mut flash).as_deref(), Some(&b"hello"[..]));
        // too much is cut
        config_store::save(&mut flash, &[1; 3000]).unwrap();
        assert_eq!(config_store::load(&mut flash).unwrap().len(), MAX_DATA);
        config_store::save(&mut flash, &[]).unwrap();
        assert_eq!(config_store::load(&mut flash), None);
        config_store::save(&mut flash, b"hello").unwrap();
    }
    assert_eq!(memory.bytes[&REGION_OFFSET], b'P');
    assert_eq!(memory.bytes[&(IMAGE_OFFSET + 4)], (MAX_IMAGE % 256) as u8);
    // one wrong bit
    *memory.bytes.get_mut(&(REGION_OFFSET + 10)).unwrap() ^= 1;
    assert_eq!(config_store::load(&mut Flash::new(&mut memory)), None);
    memory.broken = true;
    assert_eq!(config_store::load_image(&mut Flash::new(&mut memory)), None);
    assert_eq!(config_store::save(&mut Flash::new(&mut memory), b"x"), Err(()));
}
