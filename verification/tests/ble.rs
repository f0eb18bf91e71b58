use paper_name_plate::app::ble::hci::{BufferedHci, Fill};
use paper_name_plate::app::ble::session::{Action, Answer, Session, SessionEnd, Work};
use paper_name_plate::app::ble::{
    char_decl, crc32, read_value, uuid_le, write_cccd, ImgRx, DEVICE_NAME, ST_COMMITTED, ST_CRC_ERROR,
    ST_IDLE, ST_INCOMPLETE, ST_RECEIVING,
};
use paper_name_plate::app::image::MonoImage;

#[test]
fn crc32_has_its_check_value() {
    assert_eq!(crc32(b"123456789"), 0xCBF4_3926);
    assert_eq!(crc32(b""), 0);
}

#[test]
fn declarations_are_laid_out() {
    assert_eq!(DEVICE_NAME, "PaperPlate");
    let id = uuid_le(0x02);
    assert_eq!(
        id,
        [0x02, 0, 0, 0, 0, 0, 0x45, 0x54, 0x41, 0x4C, 0x50, 0x52, 0x45, 0x50, 0x41, 0x50]
    );
    let d = char_decl(0x0C, 0x0103, id);
    assert_eq!(d[..3], [0x0C, 0x03, 0x01]);
    assert_eq!(d[3..], id);
}

#[test]
fn values_are_read_from_an_offset() {
    let mut out = [0xEE; 4];
    assert_eq!(read_value(&[1, 2, 3, 4, 5], 2, &mut out), 3);
    assert_eq!(out, [3, 4, 5, 0xEE]);
    assert_eq!(read_value(&[1, 2, 3, 4, 5], 0, &mut out), 4);
    assert_eq!(out, [1, 2, 3, 4]);
    assert_eq!(read_value(&[1, 2], 2, &mut out), 0);
    assert_eq!(out, [1, 2, 3, 4]);
    let mut cccd = [0u8; 2];
    write_cccd(&mut cccd, 0, &[1, 0, 9]);
    assert_eq!(cccd, [1, 0]);
    write_cccd(&mut cccd, 1, &[7]);
    write_cccd(&mut cccd, 2, &[9]);
    assert_eq!(cccd, [1, 7]);
}

fn start_image(w: u16, h: u16, payload: &[u8], ack: u8) -> Vec<u8> {
    let mut d = vec![0x10];
    d.extend_from_slice(&w.to_le_bytes());
    d.extend_from_slice(&h.to_le_bytes());
    d.extend_from_slice(&(payload.len() as u32).to_le_bytes());
    d.extend_from_slice(&crc32(payload).to_le_bytes());
    d.push(ack);
    d
}

fn start_text(payload: &[u8], ack: u8) -> Vec<u8> {
    let mut d = vec![0x11];
    d.extend_from_slice(&(payload.len() as u32).to_le_bytes());
    d.extend_from_slice(&crc32(payload).to_le_bytes());
    d.push(ack);
    d
}

fn packet(off: u16, payload: &[u8]) -> Vec<u8> {
    let mut d = off.to_le_bytes().to_vec();
    d.extend_from_slice(payload);
    d
}

fn subscribed() -> ImgRx {
    let mut rx = ImgRx::new();
    rx.notify_on = true;
    rx
}

#[test]
fn an_image_arrives() {
    let mut rx = subscribed();
    let bits: Vec<u8> = (0..20).collect();
    rx.ctrl(&start_image(13, 10, &bits, 2), 5);
    assert!(rx.receiving());
    assert_eq!(rx.last_ms, 5);
    assert_eq!(rx.take_notification(), Some([1, 0, 0, 0, 0, 20, 0, 0, 0]));
    assert_eq!(rx.take_notification(), None);
    rx.push(&packet(0, &bits[..7]), 6);
    assert_eq!(rx.take_notification(), None);
    rx.push(&packet(7, &bits[7..14]), 7);
    assert_eq!(rx.take_notification(), Some([1, 14, 0, 0, 0, 20, 0, 0, 0]));
    rx.push(&packet(14, &bits[14..]), 8);
    assert_eq!(rx.take_notification(), Some([1, 20, 0, 0, 0, 20, 0, 0, 0]));
    rx.ctrl(&[0x02], 9);
    assert_eq!(rx.state, ST_COMMITTED);
    assert_eq!(rx.done, Some(MonoImage { width: 13, height: 10, bits }));
    assert_eq!(rx.take_notification(), Some([2, 0, 0, 0, 0, 20, 0, 0, 0]));
}

#[test]
fn a_window_is_acknowledged_once() {
    let mut rx = subscribed();
    let text = [7u8; 40];
    rx.ctrl(&start_text(&text, 5), 0);
    rx.take_notification();
    for i in 0..12u16 {
        rx.push(&packet(3 * i, &text[..3]), 0);
        let n = 3 * (i as u8 + 1);
        let ack = if i % 5 == 4 { Some([1, n, 0, 0, 0, 40, 0, 0, 0]) } else { None };
        assert_eq!(rx.take_notification(), ack);
    }
    rx.push(&packet(36, &text[..4]), 0);
    assert_eq!(rx.take_notification(), Some([1, 40, 0, 0, 0, 40, 0, 0, 0]));
}

#[test]
fn a_text_arrives() {
    let mut rx = subscribed();
    rx.ctrl(&start_text(b"hello", 0), 0);
    assert_eq!(rx.ack_every, 8);
    rx.push(&packet(0, b"hello"), 0);
    rx.ctrl(&[0x02], 0);
    assert_eq!(rx.done_content.as_deref(), Some(&b"hello"[..]));
    assert_eq!(rx.done, None);
}

#[test]
fn lost_packets_are_reported_once_per_streak() {
    let mut rx = subscribed();
    rx.ctrl(&start_text(b"abcdef", 8), 0);
    rx.take_notification();
    rx.push(&packet(0, b"ab"), 0);
    rx.push(&packet(4, b"ef"), 0);
    assert_eq!(rx.take_notification(), Some([1, 2, 0, 0, 0, 6, 0, 0, 0]));
    rx.push(&packet(4, b"ef"), 0);
    assert_eq!(rx.take_notification(), None);
    rx.push(&packet(2, b"cd"), 0);
    rx.push(&packet(2, b"cd"), 0);
    assert_eq!(rx.take_notification(), Some([1, 4, 0, 0, 0, 6, 0, 0, 0]));
    // too much
    rx.push(&packet(4, b"efg"), 0);
    assert_eq!(rx.data, b"abcd");
    rx.push(&packet(4, b"ef"), 0);
    assert_eq!(rx.data, b"abcdef");
    // no payload
    rx.push(&[6, 0], 77);
    assert_eq!(rx.last_ms, 77);
}

#[test]
fn bad_commits_say_what_is_wrong() {
    let mut rx = subscribed();
    rx.ctrl(&start_text(b"abc", 8), 0);
    rx.push(&packet(0, b"ab"), 0);
    rx.ctrl(&[0x02], 0);
    assert_eq!(rx.state, ST_INCOMPLETE);
    rx.ctrl(&start_text(b"abc", 8), 0);
    rx.push(&packet(0, b"abd"), 0);
    rx.ctrl(&[0x02], 0);
    assert_eq!(rx.state, ST_CRC_ERROR);
    assert_eq!(rx.done_content, None);
    rx.take_notification();
    rx.ctrl(&[0x02], 0);
    assert_eq!(rx.state, ST_CRC_ERROR);
    assert!(rx.pending_ntf);
}

#[test]
fn bad_starts_are_refused() {
    let bits = [0u8; 20];
    for bad in [
        start_image(0, 10, &[], 0),
        start_image(481, 1, &[0; 61], 0),
        start_image(8, 801, &[0; 801], 0),
        start_image(13, 11, &bits, 0),
        start_text(&[], 0),
        start_text(&[0; 1025], 0),
    ] {
        let mut rx = subscribed();
        rx.ctrl(&start_text(b"abc", 1), 0);
        rx.take_notification();
        rx.ctrl(&bad, 3);
        assert_eq!(rx.state, ST_IDLE);
        assert_eq!(rx.take_notification(), Some([0; 9]));
        assert!(rx.notify_on);
    }
    let mut rx = subscribed();
    rx.ctrl(&start_image(480, 800, &[0; 48_000], 0), 0);
    assert_eq!(rx.state, ST_RECEIVING);
}

#[test]
fn the_other_commands_work() {
    let mut rx = subscribed();
    rx.ctrl(&start_text(b"abc", 1), 0);
    rx.take_notification();
    rx.ctrl(&[0x04], 1);
    assert_eq!(rx.take_notification(), Some([1, 0, 0, 0, 0, 3, 0, 0, 0]));
    rx.ctrl(&[0x05], 2);
    assert!(rx.doze_test_req);
    rx.ctrl(&[0x03], 3);
    assert_eq!((rx.state, rx.expected, rx.doze_test_req), (ST_IDLE, 0, false));
    rx.ctrl(&[0x77], 4);
    rx.ctrl(&[], 5);
    rx.ctrl(&[0x10, 1], 6);
    assert_eq!((rx.state, rx.last_ms), (ST_IDLE, 6));
    let mut out = [0xEE; 10];
    assert_eq!(rx.status(&mut out, 7), 9);
    assert_eq!((out[0], out[9], rx.last_ms), (0, 0xEE, 7));
    assert_eq!(rx.status(&mut out[..8], 8), 0);
}

#[test]
fn without_a_subscription_nothing_is_sent() {
    let mut rx = ImgRx::default();
    rx.ctrl(&[0x04], 0);
    assert!(rx.pending_ntf);
    assert_eq!(rx.take_notification(), None);
    assert!(!rx.pending_ntf);
}

// ----------------------------------------------------------------------
// HCI
// ----------------------------------------------------------------------

fn acl(flags: u8, payload: &[u8]) -> Vec<u8> {
    let mut p = vec![0x02, 0x40, flags << 4];
    p.extend_from_slice(&(payload.len() as u16).to_le_bytes());
    p.extend_from_slice(payload);
    p
}

fn drain(hci: &mut BufferedHci) -> Vec<u8> {
    let mut all = Vec::new();
    let mut one = [0u8; 1];
    while hci.read(&mut one) == 1 {
        all.push(one[0]);
    }
    assert!(hci.is_empty());
    all
}

#[test]
fn whole_packets_are_served_bytewise() {
    let mut hci = BufferedHci::new();
    assert!(hci.is_empty());
    assert_eq!(hci.begin(&[0x04, 0x0E, 0x01, 0x00], 0), Fill::Ready);
    let mut out = [0u8; 3];
    assert_eq!(hci.read(&mut out), 3);
    assert_eq!(out, [0x04, 0x0E, 0x01]);
    assert_eq!(drain(&mut hci), [0x00]);
    assert_eq!(hci.begin(&[], 0), Fill::Ready);
    assert!(hci.is_empty());
    let whole = acl(0b10, &[2, 0, 4, 0, 0xAA, 0xBB]);
    assert_eq!(hci.begin(&whole, 0), Fill::Ready);
    assert_eq!(drain(&mut hci), whole);
}

#[test]
fn fragments_are_merged() {
    let mut hci = BufferedHci::new();
    assert_eq!(hci.begin(&acl(0b10, &[6, 0, 4, 0, 1, 2]), 100), Fill::Gather);
    assert_eq!(hci.offer(&[], 300), Fill::Gather);
    assert_eq!(hci.offer(&[0x04, 0x13, 0x00], 300), Fill::Gather);
    assert_eq!(hci.offer(&acl(0b01, &[3, 4]), 300), Fill::Gather);
    assert_eq!(hci.offer(&acl(0b01, &[5, 6]), 300), Fill::Ready);
    let mut want = acl(0b10, &[6, 0, 4, 0, 1, 2, 3, 4, 5, 6]);
    want.extend_from_slice(&[0x04, 0x13, 0x00]);
    assert_eq!(drain(&mut hci), want);
}

#[test]
fn a_missing_fragment_times_out() {
    let mut hci = BufferedHci::new();
    assert_eq!(hci.begin(&acl(0b10, &[6, 0, 4, 0, 1, 2]), 100), Fill::Gather);
    assert_eq!(hci.offer(&acl(0b01, &[3]), 200), Fill::Gather);
    assert_eq!(hci.offer(&[], 301), Fill::Ready);
    assert_eq!(drain(&mut hci), acl(0b10, &[6, 0, 4, 0, 1, 2, 3]));
}

#[test]
fn the_buffers_have_limits() {
    let mut hci = BufferedHci::new();
    assert_eq!(hci.begin(&acl(0b10, &[0xFF, 0x0F, 4, 0, 1]), 0), Fill::Gather);
    assert_eq!(hci.offer(&[0x04; 400], 0), Fill::Gather);
    // does not fit behind the other one
    assert_eq!(hci.offer(&[0x04; 200], 0), Fill::Gather);
    for _ in 0..3 {
        assert_eq!(hci.offer(&acl(0b01, &[9; 500]), 0), Fill::Gather);
    }
    assert_eq!(hci.offer(&[], 201), Fill::Ready);
    let all = drain(&mut hci);
    assert_eq!(all.len(), 1024);
    assert_eq!(all[3..5], 1019u16.to_le_bytes());
}

// ----------------------------------------------------------------------
// session
// ----------------------------------------------------------------------

/// A session that advertises, asked whether the controller has something.
fn advertising(now: u64) -> Session {
    let (mut s, first) = Session::begin(b"text".to_vec());
    assert!(matches!(first, Action::InitStack));
    assert!(matches!(s.step(Answer::Outcome(true), now), Action::SetParameters));
    assert!(matches!(s.step(Answer::Outcome(true), now), Action::SetData));
    assert!(matches!(s.step(Answer::Outcome(true), now), Action::EnableAdvertising));
    assert!(matches!(s.step(Answer::Done, now), Action::AskPending));
    s
}

#[test]
fn a_session_that_cannot_start_restarts() {
    let (mut s, _) = Session::begin(Vec::new());
    assert!(matches!(s.step(Answer::Outcome(false), 0), Action::Pause(1000)));
    assert!(matches!(s.step(Answer::Done, 0), Action::End(SessionEnd::Restart)));
    let (mut s, _) = Session::begin(Vec::new());
    s.step(Answer::Outcome(true), 0);
    assert!(matches!(s.step(Answer::Outcome(false), 0), Action::DefaultParameters));
    assert!(matches!(s.step(Answer::Done, 0), Action::SetData));
    assert!(matches!(s.step(Answer::Outcome(false), 0), Action::End(SessionEnd::Restart)));
}

#[test]
fn quiet_sessions_tick() {
    let mut s = advertising(10_000);
    assert!(matches!(s.step(Answer::Outcome(false), 10_001), Action::Tick));
    assert!(matches!(s.step(Answer::Done, 10_002), Action::AskPending));
    // long without traffic
    assert!(matches!(s.step(Answer::Outcome(false), 130_001), Action::AskQuiet));
    assert!(matches!(s.step(Answer::Outcome(false), 130_001), Action::Tick));
    s.step(Answer::Done, 130_002);
    assert!(matches!(s.step(Answer::Outcome(false), 130_003), Action::AskQuiet));
    assert!(matches!(s.step(Answer::Outcome(true), 130_003), Action::DisableAdvertising));
    assert!(matches!(s.step(Answer::Done, 130_003), Action::End(SessionEnd::Doze)));
}

#[test]
fn a_transfer_keeps_the_pump_running() {
    let mut s = advertising(10_000);
    s.rx.notify_on = true;
    assert!(matches!(s.step(Answer::Outcome(true), 10_000), Action::Work(None)));
    s.rx.ctrl(&start_text(b"abc", 1), 10_000);
    match s.step(Answer::Worked(Work::Did), 10_000) {
        Action::Work(Some(b)) => assert_eq!(b, [1, 0, 0, 0, 0, 3, 0, 0, 0]),
        _ => panic!("a notification is due"),
    }
    assert!(matches!(s.step(Answer::Worked(Work::Did), 10_000), Action::AskPending));
    assert!(matches!(s.step(Answer::Outcome(false), 10_000), Action::AskPending));
    assert!(matches!(s.step(Answer::Outcome(true), 10_000), Action::Work(None)));
    s.rx.push(&packet(0, b"abc"), 10_000);
    s.rx.ctrl(&[0x02], 10_000);
    // the commit is reported before it is applied
    assert!(matches!(s.step(Answer::Worked(Work::Did), 10_000), Action::Work(Some(_))));
    assert!(matches!(s.step(Answer::Worked(Work::Did), 10_000), Action::AskPending));
    match s.step(Answer::Outcome(false), 10_000) {
        Action::ApplyContent(text) => assert_eq!(text, b"abc"),
        _ => panic!("the text is due"),
    }
    assert!(matches!(s.step(Answer::Content(b"new".to_vec()), 10_000), Action::TickLight));
    assert_eq!(s.content, b"new");
    assert_eq!(s.rx.state, ST_IDLE);
    assert!(matches!(s.step(Answer::Done, 13_000), Action::AskPending));
    assert!(matches!(s.step(Answer::Outcome(false), 13_000), Action::Tick));
}

#[test]
fn images_are_applied() {
    let mut s = advertising(0);
    let bits = vec![0xFF; 2];
    s.step(Answer::Outcome(true), 0);
    s.rx.ctrl(&start_image(8, 2, &bits, 1), 0);
    s.rx.push(&packet(0, &bits), 0);
    s.rx.ctrl(&[0x02], 0);
    // nobody subscribed: the notification is dropped by the next pump
    assert!(matches!(s.step(Answer::Worked(Work::Did), 0), Action::AskPending));
    match s.step(Answer::Outcome(false), 0) {
        Action::ApplyImage(image) => assert_eq!(image, MonoImage { width: 8, height: 2, bits }),
        _ => panic!("the image is due"),
    }
    assert!(matches!(s.step(Answer::Done, 0), Action::TickLight));
}

#[test]
fn other_work_gets_its_turn() {
    let mut s = advertising(10_000);
    for _ in 0..95 {
        assert!(matches!(s.step(Answer::Outcome(true), 10_000), Action::Work(None)));
        assert!(matches!(s.step(Answer::Worked(Work::Did), 10_000), Action::AskPending));
    }
    s.step(Answer::Outcome(true), 10_000);
    assert!(matches!(s.step(Answer::Worked(Work::Did), 10_000), Action::Tick));
}

#[test]
fn errors_and_disconnects_restart() {
    let mut s = advertising(10_000);
    for _ in 0..7 {
        s.step(Answer::Outcome(true), 10_000);
        assert!(matches!(s.step(Answer::Worked(Work::Failed), 10_000), Action::Tick));
        s.step(Answer::Done, 10_000);
    }
    s.step(Answer::Outcome(true), 10_000);
    assert!(matches!(s.step(Answer::Worked(Work::Failed), 10_000), Action::End(SessionEnd::Restart)));
    let mut s = advertising(10_000);
    s.step(Answer::Outcome(true), 10_000);
    assert!(matches!(
        s.step(Answer::Worked(Work::Disconnected), 10_000),
        Action::End(SessionEnd::Restart)
    ));
    let mut s = advertising(10_000);
    assert!(matches!(s.step(Answer::Done, 10_000), Action::End(SessionEnd::Restart)));
}

#[test]
fn a_doze_test_is_honoured() {
    let mut s = advertising(10_000);
    s.step(Answer::Outcome(true), 10_000);
    s.rx.ctrl(&[0x05], 10_000);
    assert!(matches!(s.step(Answer::Worked(Work::Disconnected), 10_000), Action::DisableAdvertising));
    assert!(s.doze_test);
    assert!(matches!(s.step(Answer::Done, 10_000), Action::End(SessionEnd::Doze)));
}
