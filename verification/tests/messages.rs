use paso_websocket::message::OutgoingMessage;

fn hello(device_id: &str) -> String {
    OutgoingMessage::Hello { device_id: device_id.to_string() }.to_json()
}

fn echo(text: &str) -> String {
    OutgoingMessage::Echo { text: text.to_string() }.to_json()
}

#[test]
fn hello_names_its_type_and_device() {
    assert_eq!(hello("test"), r#"{"type":"Hello","device_id":"test"}"#);
}

#[test]
fn echo_carries_its_text() {
    assert_eq!(echo("hola"), r#"{"type":"Echo","text":"hola"}"#);
}

#[test]
fn empty_text_stays_empty() {
    assert_eq!(echo(""), r#"{"type":"Echo","text":""}"#);
}

#[test]
fn quotes_and_backslashes_are_escaped() {
    assert_eq!(hello(r#"a"b\c"#), r#"{"type":"Hello","device_id":"a\"b\\c"}"#);
}

#[test]
fn control_characters_are_escaped() {
    assert_eq!(
        echo("\u{8}\t\n\u{c}\r\u{0}\u{1f}\u{b}"),
        r#"{"type":"Echo","text":"\b\t\n\f\r\u0000\u001f\u000b"}"#
    );
}

#[test]
fn other_characters_stand_as_they_are() {
    assert_eq!(echo("á/~\u{7f}😀"), "{\"type\":\"Echo\",\"text\":\"á/~\u{7f}😀\"}");
}

#[test]
fn a_json_reader_gives_back_what_was_written() {
    for text in ["", "lamp-7", "a\"b\\c/d", "\u{0}\u{1}\u{1f}\n\t", "ñandú 😀"] {
        let value: serde_json::Value = serde_json::from_str(&hello(text)).unwrap();
        let object = value.as_object().unwrap();
        assert_eq!(object.len(), 2);
        assert_eq!(object["type"], "Hello");
        assert_eq!(object["device_id"], text);
    }
}

#[test]
fn different_messages_have_different_texts() {
    let texts = [hello("a"), hello("a\\"), hello("\\a"), hello("\""), echo("a"), echo("\""), echo("")];
    for (i, a) in texts.iter().enumerate() {
        for (j, b) in texts.iter().enumerate() {
            assert_eq!(i == j, a == b);
        }
    }
}
