use paso_websocket::frame::{classify_read, OutgoingFrame, Received};
use paso_websocket::frame::{WS_OPCODE_PONG_FIN, WS_OPCODE_TEXT_FIN};

#[test]
fn text_frame_gives_its_text() {
    let buffer = "hola ñ rest".as_bytes();
    match classify_read(7, 0x01, buffer) {
        Received::Text(text) => assert_eq!(text, "hola ñ"),
        other => panic!("{:?}", other),
    }
}

#[test]
fn text_frame_may_fill_the_buffer() {
    assert!(matches!(classify_read(3, 0x01, b"abc"), Received::Text(text) if text == "abc"));
}

#[test]
fn text_frame_that_is_not_utf8_is_told_apart() {
    assert!(matches!(classify_read(2, 0x01, &[0xC3, 0x28, 0x00]), Received::NotUtf8));
    assert!(matches!(classify_read(1, 0x01, "ñ".as_bytes()), Received::NotUtf8));
}

#[test]
fn control_frames_are_told_by_their_opcode() {
    assert!(matches!(classify_read(1, 0x09, &[0xFF]), Received::Ping));
    assert!(matches!(classify_read(2, 0x08, &[3, 232]), Received::Close));
    assert!(matches!(classify_read(1, 0x0A, &[0]), Received::Ignored(0x0A)));
    assert!(matches!(classify_read(1, 0x02, &[0]), Received::Ignored(0x02)));
    assert!(matches!(classify_read(1, 0x81, &[0]), Received::Ignored(0x81)));
}

#[test]
fn reads_without_a_frame_are_told_by_their_code() {
    assert!(matches!(classify_read(0, 0x01, &[]), Received::PeerClosed));
    assert!(matches!(classify_read(-1, 0x09, &[]), Received::Timeout));
    assert!(matches!(classify_read(-2, 0x08, &[]), Received::ReadError(-2)));
    assert!(matches!(classify_read(i32::MIN, 0x01, &[]), Received::ReadError(i32::MIN)));
}

#[test]
fn outgoing_frames_are_whole_messages() {
    assert_eq!(WS_OPCODE_TEXT_FIN, 0x81);
    assert_eq!(WS_OPCODE_PONG_FIN, 0x8A);
    let text = OutgoingFrame::text("hi".to_string());
    assert_eq!((text.opcode, text.payload.as_str()), (0x81, "hi"));
    let pong = OutgoingFrame::pong();
    assert_eq!((pong.opcode, pong.payload.as_str()), (0x8A, ""));
}

#[test]
fn a_text_survives_the_wire() {
    let frame = OutgoingFrame::text("línea 😀".to_string());
    let bytes = frame.payload.as_bytes();
    let received = classify_read(bytes.len() as i32, 0x01, bytes);
    assert!(matches!(received, Received::Text(text) if text == "línea 😀"));
}
