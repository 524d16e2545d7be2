use paso_websocket::message::OutgoingMessage;
use paso_websocket::ws_client::{SendError, WsClient};

fn echo(text: &str) -> OutgoingMessage {
    OutgoingMessage::Echo { text: text.to_string() }
}

fn taken(client: &mut WsClient) -> Option<String> {
    client.try_recv().map(|message| match message {
        OutgoingMessage::Echo { text } => text,
        OutgoingMessage::Hello { device_id } => panic!("{}", device_id),
    })
}

#[test]
fn a_new_client_has_nothing_to_send() {
    assert_eq!(taken(&mut WsClient::new()), None);
}

#[test]
fn messages_keep_their_order() {
    let mut client = WsClient::new();
    assert_eq!(client.send(echo("a")), Ok(()));
    assert_eq!(client.send(echo("b")), Ok(()));
    assert_eq!(taken(&mut client).as_deref(), Some("a"));
    assert_eq!(client.send(echo("c")), Ok(()));
    assert_eq!(taken(&mut client).as_deref(), Some("b"));
    assert_eq!(taken(&mut client).as_deref(), Some("c"));
    assert_eq!(taken(&mut client), None);
}

#[test]
fn nothing_is_queued_once_nobody_takes_it() {
    let mut client = WsClient::new();
    assert_eq!(client.send(echo("a")), Ok(()));
    client.hang_up();
    assert_eq!(taken(&mut client), None);
    let error = client.send(echo("hola")).unwrap_err();
    assert_eq!(error, SendError::Disconnected);
    assert_eq!(error.message(), "ws send failed: sending on a closed channel");
    assert_eq!(taken(&mut client), None);
}
