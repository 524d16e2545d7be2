//! The life of a connection: it is set up, serves frames both ways, is torn down,
//! and after a pause is set up again.
//!
//! A `Step` is what has to be done next on the transport, the queue or the LED. The
//! outcome of doing it decides on the step after it.

use crate::decimal::{decimal, push_decimal};
use crate::frame::{pong_frame, text_frame, FrameView, OutgoingFrame, Received, ReceivedView};
use crate::message::{wire_text, IncomingMessage, OutgoingMessage, OutgoingView};
use vstd::prelude::*;
use vstd::string::*;

verus! {

/// The backend's host.
pub const WS_HOST: &'static str = "ws.postman-echo.com";

/// The backend's port.
pub const WS_PORT: i32 = 443;

/// The backend's path.
pub const WS_PATH: &'static str = "/raw";

/// How long connecting and sending may take, in milliseconds.
pub const CONNECT_TIMEOUT_MS: i32 = 10_000;

/// How long a read waits for a frame, in milliseconds.
pub const READ_TIMEOUT_MS: i32 = 100;

/// How long the connection rests between two rounds, in milliseconds.
pub const ROUND_PAUSE_MS: u64 = 10;

/// How long to wait before connecting again, in seconds.
pub const RECONNECT_DELAY_SECS: u64 = 5;

/// The most bytes that one read takes.
pub const READ_BUFFER_BYTES: usize = 4096;

/// Where the backend is.
#[derive(Debug, Clone, Copy)]
pub struct Endpoint {
    pub host: &'static str,
    pub port: i32,
    pub path: &'static str,
}

/// Why a connection was not established.
#[derive(Debug, Clone, Copy, PartialEq, Eq, Structural)]
pub enum SessionError {
    /// The TLS transport could not be created.
    SslTransport,
    /// The WebSocket transport could not be created.
    WsTransport,
    /// Connecting failed, with this code.
    Connect(i32),
}

/// The text of an error.
pub open spec fn error_text(error: SessionError) -> Seq<char> {
    match error {
        SessionError::SslTransport => "Failed to create SSL transport"@,
        SessionError::WsTransport => "Failed to create WS transport"@,
        SessionError::Connect(code) => "esp_transport_connect failed: "@ + decimal(code as int),
    }
}

impl SessionError {
    /// The text of the error.
    pub fn message(&self) -> (text: String)
        ensures
            text@ == error_text(*self),
    {
        match *self {
            SessionError::SslTransport => "Failed to create SSL transport".to_owned(),
            SessionError::WsTransport => "Failed to create WS transport".to_owned(),
            SessionError::Connect(code) => {
                let mut text = "esp_transport_connect failed: ".to_owned();
                push_decimal(&mut text, code);
                text
            },
        }
    }
}

/// What is done next.
#[derive(Debug)]
pub enum Step {
    /// Create the TLS transport.
    InitSsl,
    /// Let the TLS transport use the global CA store.
    EnableGlobalCaStore,
    /// Let the TLS transport verify the server against the certificate bundle.
    AttachCrtBundle,
    /// Create the WebSocket transport on top of the TLS transport.
    InitWs,
    /// Destroy the TLS transport.
    DestroySsl,
    /// Set the path of the endpoint.
    SetPath,
    /// Connect.
    Connect,
    /// Read a frame.
    Read,
    /// Parse the text of a frame as a message.
    Parse(String),
    /// Set the LED to a brightness and hold it there, also where it could not be set.
    Override { percent: u8 },
    /// Send the answer to a ping.
    SendPong(OutgoingFrame),
    /// Take a message from the queue.
    TakeOutbound,
    /// Send a message.
    SendText(OutgoingFrame),
    /// Rest before the next round.
    Pause,
    /// Close the WebSocket transport.
    Close(Result<(), SessionError>),
    /// Destroy the WebSocket transport.
    Destroy(Result<(), SessionError>),
    /// The connection is over; this is how it ended.
    Report(Result<(), SessionError>),
    /// Wait before connecting again.
    Backoff,
}

/// What came of a step.
#[derive(Debug)]
pub enum Outcome {
    /// It was done.
    Done,
    /// A transport was created, or not.
    Created(bool),
    /// The transport returned this code.
    Returned(i32),
    /// The LED was written, or not.
    Written(bool),
    /// A read brought this.
    Received(Received),
    /// The text is this message, or none.
    Parsed(Option<IncomingMessage>),
    /// The queue gave this message, or none.
    Outbound(Option<OutgoingMessage>),
}

/// A step, with texts as sequences of characters.
pub enum StepView {
    InitSsl,
    EnableGlobalCaStore,
    AttachCrtBundle,
    InitWs,
    DestroySsl,
    SetPath,
    Connect,
    Read,
    Parse(Seq<char>),
    Override { percent: u8 },
    SendPong(FrameView),
    TakeOutbound,
    SendText(FrameView),
    Pause,
    Close(Result<(), SessionError>),
    Destroy(Result<(), SessionError>),
    Report(Result<(), SessionError>),
    Backoff,
}

/// An outcome, with texts as sequences of characters.
pub enum OutcomeView {
    Done,
    Created(bool),
    Returned(i32),
    Written(bool),
    Received(ReceivedView),
    Parsed(Option<IncomingMessage>),
    Outbound(Option<OutgoingView>),
}

impl View for Step {
    type V = StepView;

    open spec fn view(&self) -> StepView {
        match *self {
            Step::InitSsl => StepView::InitSsl,
            Step::EnableGlobalCaStore => StepView::EnableGlobalCaStore,
            Step::AttachCrtBundle => StepView::AttachCrtBundle,
            Step::InitWs => StepView::InitWs,
            Step::DestroySsl => StepView::DestroySsl,
            Step::SetPath => StepView::SetPath,
            Step::Connect => StepView::Connect,
            Step::Read => StepView::Read,
            Step::Parse(text) => StepView::Parse(text@),
            Step::Override { percent } => StepView::Override { percent },
            Step::SendPong(frame) => StepView::SendPong(frame@),
            Step::TakeOutbound => StepView::TakeOutbound,
            Step::SendText(frame) => StepView::SendText(frame@),
            Step::Pause => StepView::Pause,
            Step::Close(end) => StepView::Close(end),
            Step::Destroy(end) => StepView::Destroy(end),
            Step::Report(end) => StepView::Report(end),
            Step::Backoff => StepView::Backoff,
        }
    }
}

impl View for Outcome {
    type V = OutcomeView;

    open spec fn view(&self) -> OutcomeView {
        match *self {
            Outcome::Done => OutcomeView::Done,
            Outcome::Created(created) => OutcomeView::Created(created),
            Outcome::Returned(code) => OutcomeView::Returned(code),
            Outcome::Written(written) => OutcomeView::Written(written),
            Outcome::Received(received) => OutcomeView::Received(received@),
            Outcome::Parsed(message) => OutcomeView::Parsed(message),
            Outcome::Outbound(Some(message)) => OutcomeView::Outbound(Some(message@)),
            Outcome::Outbound(None) => OutcomeView::Outbound(None),
        }
    }
}

impl StepView {
    /// How long the step waits, in milliseconds: the rest between two rounds, or the
    /// wait before connecting again.
    pub open spec fn wait_ms(self) -> Option<u64> {
        match self {
            StepView::Pause => Some(ROUND_PAUSE_MS),
            StepView::Backoff => Some((RECONNECT_DELAY_SECS * 1000) as u64),
            _ => None,
        }
    }

    /// How long the transport may take for the step, in milliseconds.
    pub open spec fn timeout_ms(self) -> Option<i32> {
        match self {
            StepView::Read => Some(READ_TIMEOUT_MS),
            StepView::Connect | StepView::SendPong(_) | StepView::SendText(_) => Some(
                CONNECT_TIMEOUT_MS,
            ),
            _ => None,
        }
    }

    /// The step needs to know where the backend is.
    pub open spec fn addresses_backend(self) -> bool {
        self is SetPath || self is Connect
    }

    /// The outcome is one that the step can have.
    pub open spec fn admits(self, outcome: OutcomeView) -> bool {
        match self {
            StepView::InitSsl | StepView::InitWs => outcome is Created,
            StepView::Connect | StepView::SendText(_) => outcome is Returned,
            StepView::Read => outcome is Received,
            StepView::Override { .. } => outcome is Written,
            StepView::Parse(_) => outcome is Parsed,
            StepView::TakeOutbound => outcome is Outbound,
            _ => outcome is Done,
        }
    }
}

/// The brightness that a text frame commands. A text that is no message, a greeting
/// and an echo command nothing.
pub open spec fn commanded_brightness(message: Option<IncomingMessage>) -> Option<u8> {
    match message {
        Some(IncomingMessage::SetBrightness { percent }) => Some(percent),
        _ => None,
    }
}

/// The step after a read.
pub open spec fn after_read(received: ReceivedView) -> StepView {
    match received {
        ReceivedView::Text(text) => StepView::Parse(text),
        ReceivedView::Ping => StepView::SendPong(pong_frame()),
        ReceivedView::NotUtf8 | ReceivedView::Ignored(_) | ReceivedView::Timeout =>
            StepView::TakeOutbound,
        ReceivedView::Close | ReceivedView::PeerClosed | ReceivedView::ReadError(_) =>
            StepView::Close(Ok(())),
    }
}

/// The step after `step`, which had this outcome. An outcome that the step cannot
/// have leaves the step to be done.
pub open spec fn next_step(step: StepView, outcome: OutcomeView) -> StepView {
    match (step, outcome) {
        (StepView::InitSsl, OutcomeView::Created(created)) => if created {
            StepView::EnableGlobalCaStore
        } else {
            StepView::Report(Err(SessionError::SslTransport))
        },
        (StepView::EnableGlobalCaStore, OutcomeView::Done) => StepView::AttachCrtBundle,
        (StepView::AttachCrtBundle, OutcomeView::Done) => StepView::InitWs,
        (StepView::InitWs, OutcomeView::Created(created)) => if created {
            StepView::SetPath
        } else {
            StepView::DestroySsl
        },
        (StepView::DestroySsl, OutcomeView::Done) => StepView::Report(
            Err(SessionError::WsTransport),
        ),
        (StepView::SetPath, OutcomeView::Done) => StepView::Connect,
        (StepView::Connect, OutcomeView::Returned(code)) => if code == 0 {
            StepView::Read
        } else {
            StepView::Close(Err(SessionError::Connect(code)))
        },
        (StepView::Read, OutcomeView::Received(received)) => after_read(received),
        (StepView::Parse(_), OutcomeView::Parsed(message)) => match commanded_brightness(message) {
            Some(percent) => StepView::Override { percent },
            None => StepView::TakeOutbound,
        },
        (StepView::Override { .. }, OutcomeView::Written(_)) => StepView::TakeOutbound,
        (StepView::SendPong(_), OutcomeView::Done) => StepView::TakeOutbound,
        (StepView::TakeOutbound, OutcomeView::Outbound(message)) => match message {
            Some(message) => StepView::SendText(text_frame(wire_text(message))),
            None => StepView::Pause,
        },
        (StepView::SendText(_), OutcomeView::Returned(_)) => StepView::TakeOutbound,
        (StepView::Pause, OutcomeView::Done) => StepView::Read,
        (StepView::Close(end), OutcomeView::Done) => StepView::Destroy(end),
        (StepView::Destroy(end), OutcomeView::Done) => StepView::Report(end),
        (StepView::Report(_), OutcomeView::Done) => StepView::Backoff,
        (StepView::Backoff, OutcomeView::Done) => StepView::InitSsl,
        _ => step,
    }
}

/// Tells what brightness a text frame commands, given what its text was parsed to.
pub fn handle_text_frame(message: &Option<IncomingMessage>) -> (brightness: Option<u8>)
    ensures
        brightness == commanded_brightness(*message),
        *message matches Some(IncomingMessage::SetBrightness { percent }) ==> brightness == Some(
            percent,
        ),
        !(*message matches Some(IncomingMessage::SetBrightness { .. })) ==> brightness is None,
{
    match message {
        Some(IncomingMessage::SetBrightness { percent }) => Some(*percent),
        _ => None,
    }
}

/// Tells what to do about what a read brought.
fn handle_received(received: Received) -> (step: Step)
    ensures
        step@ == after_read(received@),
{
    match received {
        Received::Text(text) => Step::Parse(text),
        Received::Ping => Step::SendPong(OutgoingFrame::pong()),
        Received::NotUtf8 | Received::Ignored(_) | Received::Timeout => Step::TakeOutbound,
        Received::Close | Received::PeerClosed | Received::ReadError(_) => Step::Close(Ok(())),
    }
}

impl Step {
    /// The first step of a connection.
    pub fn first() -> (step: Step)
        ensures
            step@ == StepView::InitSsl,
    {
        Step::InitSsl
    }

    /// How long the step waits, in milliseconds, where it is a wait.
    pub fn wait_ms(&self) -> (ms: Option<u64>)
        ensures
            ms == self@.wait_ms(),
    {
        match self {
            Step::Pause => Some(ROUND_PAUSE_MS),
            Step::Backoff => Some(RECONNECT_DELAY_SECS * 1000),
            _ => None,
        }
    }

    /// How long the transport may take for the step, in milliseconds, where the step
    /// has a limit.
    pub fn timeout_ms(&self) -> (ms: Option<i32>)
        ensures
            ms == self@.timeout_ms(),
    {
        match self {
            Step::Read => Some(READ_TIMEOUT_MS),
            Step::Connect | Step::SendPong(_) | Step::SendText(_) => Some(CONNECT_TIMEOUT_MS),
            _ => None,
        }
    }

    /// Where the backend is, for the steps that address it.
    pub fn endpoint(&self) -> (endpoint: Option<Endpoint>)
        ensures
            endpoint is Some <==> self@.addresses_backend(),
            endpoint is Some ==> {
                &&& endpoint->0.host@ == WS_HOST@
                &&& endpoint->0.port == WS_PORT
                &&& endpoint->0.path@ == WS_PATH@
                &&& endpoint->0.host@ == "ws.postman-echo.com"@
                &&& endpoint->0.port == 443
                &&& endpoint->0.path@ == "/raw"@
            },
            endpoint is Some <==> *self is SetPath || *self is Connect,
    {
        match self {
            Step::SetPath | Step::Connect => Some(
                Endpoint { host: WS_HOST, port: WS_PORT, path: WS_PATH },
            ),
            _ => None,
        }
    }

    /// The step after this one, which had this outcome.
    pub fn next(self, outcome: Outcome) -> (step: Step)
        ensures
            step@ == next_step(self@, outcome@),
    {
        match (self, outcome) {
            (Step::InitSsl, Outcome::Created(created)) => if created {
                Step::EnableGlobalCaStore
            } else {
                Step::Report(Err(SessionError::SslTransport))
            },
            (Step::EnableGlobalCaStore, Outcome::Done) => Step::AttachCrtBundle,
            (Step::AttachCrtBundle, Outcome::Done) => Step::InitWs,
            (Step::InitWs, Outcome::Created(created)) => if created {
                Step::SetPath
            } else {
                Step::DestroySsl
            },
            (Step::DestroySsl, Outcome::Done) => Step::Report(Err(SessionError::WsTransport)),
            (Step::SetPath, Outcome::Done) => Step::Connect,
            (Step::Connect, Outcome::Returned(code)) => if code == 0 {
                Step::Read
            } else {
                Step::Close(Err(SessionError::Connect(code)))
            },
            (Step::Read, Outcome::Received(received)) => handle_received(received),
            (Step::Parse(_), Outcome::Parsed(message)) => match handle_text_frame(&message) {
                Some(percent) => Step::Override { percent },
                None => Step::TakeOutbound,
            },
            (Step::Override { .. }, Outcome::Written(_)) => Step::TakeOutbound,
            (Step::SendPong(_), Outcome::Done) => Step::TakeOutbound,
            (Step::TakeOutbound, Outcome::Outbound(message)) => match message {
                Some(message) => Step::SendText(OutgoingFrame::text(message.to_json())),
                None => Step::Pause,
            },
            (Step::SendText(_), Outcome::Returned(_)) => Step::TakeOutbound,
            (Step::Pause, Outcome::Done) => Step::Read,
            (Step::Close(end), Outcome::Done) => Step::Destroy(end),
            (Step::Destroy(end), Outcome::Done) => Step::Report(end),
            (Step::Report(_), Outcome::Done) => Step::Backoff,
            (Step::Backoff, Outcome::Done) => Step::InitSsl,
            (step, _) => step,
        }
    }
}

} // verus!
