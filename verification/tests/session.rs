use paso_websocket::frame::{classify_read, Received};
use paso_websocket::light::LightControl;
use paso_websocket::message::{IncomingMessage, OutgoingMessage};
use paso_websocket::session::{handle_text_frame, Outcome, SessionError, Step};
use paso_websocket::session::{RECONNECT_DELAY_SECS, WS_HOST, WS_PATH, WS_PORT};
use paso_websocket::ws_client::WsClient;

/// A connection that is about to read for the first time.
fn connected() -> Step {
    let step = Step::first();
    assert!(matches!(step, Step::InitSsl));
    let step = step.next(Outcome::Created(true));
    assert!(matches!(step, Step::EnableGlobalCaStore));
    let step = step.next(Outcome::Done);
    assert!(matches!(step, Step::AttachCrtBundle));
    let step = step.next(Outcome::Done);
    assert!(matches!(step, Step::InitWs));
    let step = step.next(Outcome::Created(true));
    assert!(matches!(step, Step::SetPath));
    let step = step.next(Outcome::Done);
    assert!(matches!(step, Step::Connect));
    let step = step.next(Outcome::Returned(0));
    assert!(matches!(step, Step::Read));
    step
}

/// A connection that has read a text frame and is about to parse it.
fn text_received(text: &str) -> Step {
    let received = classify_read(text.len() as i32, 0x01, text.as_bytes());
    let step = connected().next(Outcome::Received(received));
    assert!(matches!(&step, Step::Parse(asked) if asked == text));
    step
}

/// From the close of the transport to the next connection.
fn ends(step: Step, end: Result<(), SessionError>) {
    assert!(matches!(step, Step::Close(e) if e == end));
    let step = step.next(Outcome::Done);
    assert!(matches!(step, Step::Destroy(e) if e == end));
    let step = step.next(Outcome::Done);
    assert!(matches!(step, Step::Report(e) if e == end));
    let step = step.next(Outcome::Done);
    assert!(matches!(step, Step::Backoff));
    assert!(matches!(step.next(Outcome::Done), Step::InitSsl));
}

#[test]
fn endpoint_is_the_echo_server() {
    assert_eq!((WS_HOST, WS_PORT, WS_PATH), ("ws.postman-echo.com", 443, "/raw"));
    assert_eq!(RECONNECT_DELAY_SECS, 5);
    assert!(!WS_HOST.contains('\0') && !WS_PATH.contains('\0'));
}

#[test]
fn missing_tls_transport_ends_the_connection() {
    let step = Step::first().next(Outcome::Created(false));
    assert!(matches!(step, Step::Report(Err(SessionError::SslTransport))));
    assert!(matches!(step.next(Outcome::Done), Step::Backoff));
}

#[test]
fn missing_ws_transport_destroys_the_tls_transport() {
    let step = Step::first().next(Outcome::Created(true)).next(Outcome::Done).next(Outcome::Done);
    let step = step.next(Outcome::Created(false));
    assert!(matches!(step, Step::DestroySsl));
    let step = step.next(Outcome::Done);
    assert!(matches!(step, Step::Report(Err(SessionError::WsTransport))));
}

#[test]
fn failed_connect_closes_and_destroys_the_transport() {
    let step = Step::first().next(Outcome::Created(true)).next(Outcome::Done).next(Outcome::Done);
    let step = step.next(Outcome::Created(true)).next(Outcome::Done);
    ends(step.next(Outcome::Returned(-3)), Err(SessionError::Connect(-3)));
}

#[test]
fn ping_is_answered_by_an_empty_pong() {
    let step = connected().next(Outcome::Received(Received::Ping));
    assert!(matches!(
        &step,
        Step::SendPong(frame) if frame.opcode == 0x8A && frame.payload.is_empty()
    ));
    assert!(matches!(step.next(Outcome::Done), Step::TakeOutbound));
}

#[test]
fn end_of_the_connection_sends_nothing_more() {
    ends(connected().next(Outcome::Received(Received::Close)), Ok(()));
    ends(connected().next(Outcome::Received(Received::PeerClosed)), Ok(()));
    ends(connected().next(Outcome::Received(Received::ReadError(-2))), Ok(()));
}

#[test]
fn quiet_reads_go_on_to_the_queue() {
    for received in [Received::Timeout, Received::NotUtf8, Received::Ignored(0x02)] {
        let step = connected().next(Outcome::Received(received));
        assert!(matches!(step, Step::TakeOutbound));
    }
}

#[test]
fn queue_is_drained_in_order_before_the_next_read() {
    let mut client = WsClient::new();
    client.send(OutgoingMessage::Hello { device_id: "lamp".to_string() }).unwrap();
    client.send(OutgoingMessage::Echo { text: "hola".to_string() }).unwrap();
    let mut step = connected().next(Outcome::Received(Received::Timeout));
    let mut sent: Vec<(u8, String)> = Vec::new();
    loop {
        step = match step {
            Step::TakeOutbound => step.next(Outcome::Outbound(client.try_recv())),
            Step::SendText(ref frame) => {
                sent.push((frame.opcode, frame.payload.clone()));
                step.next(Outcome::Returned(-1))
            }
            _ => break,
        };
    }
    assert_eq!(
        sent,
        [
            (0x81, r#"{"type":"Hello","device_id":"lamp"}"#.to_string()),
            (0x81, r#"{"type":"Echo","text":"hola"}"#.to_string()),
        ]
    );
    assert!(matches!(step, Step::Pause));
    assert!(matches!(step.next(Outcome::Done), Step::Read));
}

#[test]
fn command_sets_the_led_and_holds_it() {
    let step = text_received(r#"{"type": "SetBrightness", "percent": 90}"#);
    let message = IncomingMessage::SetBrightness { percent: 90 };
    let step = step.next(Outcome::Parsed(Some(message)));
    assert!(matches!(step, Step::Override { percent: 90 }));
    let mut light = LightControl::new();
    light.hold_after_write(true, 7);
    assert_eq!(light.tick(3_000_000_006), None);
    assert_eq!(light.tick(3_000_000_007), Some(0));
    assert!(matches!(step.next(Outcome::Written(true)), Step::TakeOutbound));
}

#[test]
fn failed_led_write_does_not_end_the_connection() {
    let message = IncomingMessage::SetBrightness { percent: 40 };
    let step = text_received("{}").next(Outcome::Parsed(Some(message)));
    assert!(matches!(step, Step::Override { percent: 40 }));
    assert!(matches!(step.next(Outcome::Written(false)), Step::TakeOutbound));
}

#[test]
fn errors_say_what_failed() {
    let texts = [
        (SessionError::SslTransport, "Failed to create SSL transport"),
        (SessionError::WsTransport, "Failed to create WS transport"),
        (SessionError::Connect(-1), "esp_transport_connect failed: -1"),
        (SessionError::Connect(0), "esp_transport_connect failed: 0"),
        (SessionError::Connect(10), "esp_transport_connect failed: 10"),
        (SessionError::Connect(i32::MAX), "esp_transport_connect failed: 2147483647"),
        (SessionError::Connect(i32::MIN), "esp_transport_connect failed: -2147483648"),
    ];
    for (error, text) in texts {
        assert_eq!(error.message(), text);
    }
}

#[test]
fn an_echoed_message_comes_back_to_the_parser() {
    let sent = OutgoingMessage::Echo { text: "hola \"ñ\"".to_string() }.to_json();
    let echoed = IncomingMessage::Echo { text: "hola \"ñ\"".to_string() };
    let step = text_received(&sent).next(Outcome::Parsed(Some(echoed)));
    assert!(matches!(step, Step::TakeOutbound));
}

#[test]
fn greetings_echoes_and_garbage_leave_the_led_alone() {
    let messages = [
        Some(IncomingMessage::Hello { device_id: "test".to_string() }),
        Some(IncomingMessage::Echo { text: "hola".to_string() }),
        None,
    ];
    for message in messages {
        assert_eq!(handle_text_frame(&message), None);
        let step = text_received("{}").next(Outcome::Parsed(message));
        assert!(matches!(step, Step::TakeOutbound));
    }
}

#[test]
fn commanded_brightness_is_not_clamped() {
    for percent in [0u8, 100, 101, 255] {
        let message = Some(IncomingMessage::SetBrightness { percent });
        assert_eq!(handle_text_frame(&message), Some(percent));
    }
}

#[test]
fn an_outcome_that_does_not_belong_leaves_the_step() {
    assert!(matches!(Step::first().next(Outcome::Done), Step::InitSsl));
    assert!(matches!(connected().next(Outcome::Returned(0)), Step::Read));
}

#[test]
fn waits_last_as_long_as_they_should() {
    assert_eq!(Step::Pause.wait_ms(), Some(10));
    assert_eq!(Step::Backoff.wait_ms(), Some(5_000));
    assert_eq!(Step::Read.wait_ms(), None);
    assert_eq!(Step::first().wait_ms(), None);
}

#[test]
fn transport_has_its_time_limits() {
    assert_eq!(Step::Read.timeout_ms(), Some(100));
    assert_eq!(Step::Connect.timeout_ms(), Some(10_000));
    let pong = connected().next(Outcome::Received(Received::Ping));
    assert_eq!(pong.timeout_ms(), Some(10_000));
    let message = OutgoingMessage::Echo { text: "hola".to_string() };
    let text = Step::TakeOutbound.next(Outcome::Outbound(Some(message)));
    assert_eq!(text.timeout_ms(), Some(10_000));
    assert_eq!(Step::Pause.timeout_ms(), None);
}

#[test]
fn path_and_connect_address_the_backend() {
    for step in [Step::SetPath, Step::Connect] {
        let endpoint = step.endpoint().unwrap();
        assert_eq!(endpoint.host, "ws.postman-echo.com");
        assert_eq!(endpoint.port, 443);
        assert_eq!(endpoint.path, "/raw");
    }
    assert!(Step::Read.endpoint().is_none());
}

#[test]
fn a_received_command_holds_the_lamp() {
    let message = IncomingMessage::SetBrightness { percent: 60 };
    let step = text_received("{}").next(Outcome::Parsed(Some(message)));
    let mut light = LightControl::new();
    assert_eq!(light.tick(0), Some(0));
    let mut led = 0u8;
    if let Step::Override { percent } = step {
        led = percent;
        light.hold_after_write(true, 1);
    }
    for now in [2, 1_500_000_000, 3_000_000_000] {
        assert_eq!(light.tick(now), None);
    }
    assert_eq!(led, 60);
    assert_eq!(light.tick(3_000_000_001), Some(25));
}
