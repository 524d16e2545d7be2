//! What holds of every run of the connection, however its steps turn out.

use crate::decimal::{decimal_reads_back, read_decimal};
use crate::frame::{frame_received, pong_frame, text_frame, text_survives_the_wire};
use crate::frame::{frames_are_whole_messages, read_received, reads_are_told_apart};
use crate::frame::{text_is_read_whole, FrameView, ReceivedView, WS_OPCODE_TEXT};
use crate::json::{json_string, read_object};
use crate::light::{command_holds_the_led, Lamp, LampEvent, OVERRIDE_DURATION_NANOS};
use crate::message::{message_reads_back, wire_text, wire_text_is_written_out};
use crate::message::{IncomingMessage, OutgoingView};
use crate::session::{commanded_brightness, error_text, next_step};
use crate::session::{Outcome, OutcomeView, SessionError, Step, StepView};
use crate::session::{WS_HOST, WS_PATH};
use crate::ws_client::{queue_after, queue_keeps_order, sent_by, taken_by, QueueOperation};
use vstd::prelude::*;
use vstd::utf8::{encode_utf8, valid_utf8};

verus! {

/// The step that a run has come to, whose steps so far had these outcomes.
pub open spec fn step_after(run: Seq<OutcomeView>) -> StepView
    decreases run.len(),
{
    if run.len() == 0 {
        StepView::InitSsl
    } else {
        next_step(step_after(run.drop_last()), run.last())
    }
}

/// Each step of the run had an outcome that it can have.
pub open spec fn is_run(run: Seq<OutcomeView>) -> bool
    decreases run.len(),
{
    run.len() > 0 ==> is_run(run.drop_last()) && step_after(run.drop_last()).admits(run.last())
}

// ---- The transports ----

/// The outermost transport that exists. The WebSocket transport takes over the TLS
/// transport that it is created on.
pub enum Transport {
    Nothing,
    Ssl,
    Ws,
    ClosedWs,
}

/// What has been done to the transports of a connection.
pub struct Standing {
    pub transport: Transport,
    pub ca_store_enabled: bool,
    pub crt_bundle_attached: bool,
    pub path_set: bool,
    pub connected: bool,
}

/// No transport exists.
pub open spec fn no_transport() -> Standing {
    Standing {
        transport: Transport::Nothing,
        ca_store_enabled: false,
        crt_bundle_attached: false,
        path_set: false,
        connected: false,
    }
}

impl Standing {
    /// What a step with this outcome does to the transports.
    pub open spec fn after(self, step: StepView, outcome: OutcomeView) -> Standing {
        match step {
            StepView::InitSsl => if outcome == OutcomeView::Created(true) {
                Standing { transport: Transport::Ssl, ..self }
            } else {
                self
            },
            StepView::EnableGlobalCaStore => Standing { ca_store_enabled: true, ..self },
            StepView::AttachCrtBundle => Standing { crt_bundle_attached: true, ..self },
            StepView::InitWs => if outcome == OutcomeView::Created(true) {
                Standing { transport: Transport::Ws, ..self }
            } else {
                self
            },
            StepView::SetPath => Standing { path_set: true, ..self },
            StepView::Connect => Standing {
                connected: outcome == OutcomeView::Returned(0),
                ..self
            },
            StepView::Close(_) => Standing {
                transport: Transport::ClosedWs,
                connected: false,
                ..self
            },
            StepView::DestroySsl | StepView::Destroy(_) => no_transport(),
            _ => self,
        }
    }

    /// The step may be done: it works on a transport that exists and is ready for
    /// it, it connects only where the server's certificate will be verified, and
    /// it abandons no transport.
    pub open spec fn allows(self, step: StepView) -> bool {
        match step {
            StepView::InitSsl | StepView::Report(_) | StepView::Backoff => self == no_transport(),
            StepView::EnableGlobalCaStore
            | StepView::AttachCrtBundle
            | StepView::InitWs
            | StepView::DestroySsl => self.transport == Transport::Ssl,
            StepView::SetPath => self.transport == Transport::Ws,
            StepView::Connect => {
                &&& self.transport == Transport::Ws
                &&& self.ca_store_enabled
                &&& self.crt_bundle_attached
                &&& self.path_set
                &&& !self.connected
            },
            StepView::Close(end) => {
                &&& self.transport == Transport::Ws
                &&& self.connected == (end is Ok)
            },
            StepView::Destroy(_) => self.transport == Transport::ClosedWs,
            _ => self.transport == Transport::Ws && self.connected,
        }
    }
}

/// What has been done to the transports in the run.
pub open spec fn standing_after(run: Seq<OutcomeView>) -> Standing
    decreases run.len(),
{
    if run.len() == 0 {
        no_transport()
    } else {
        standing_after(run.drop_last()).after(step_after(run.drop_last()), run.last())
    }
}

/// What has been done to the transports whenever the run comes to the step.
spec fn standing_at(step: StepView) -> Standing {
    let secured = Standing {
        transport: Transport::Ssl,
        ca_store_enabled: true,
        crt_bundle_attached: true,
        path_set: false,
        connected: false,
    };
    match step {
        StepView::InitSsl | StepView::Report(_) | StepView::Backoff => no_transport(),
        StepView::EnableGlobalCaStore => Standing { transport: Transport::Ssl, ..no_transport() },
        StepView::AttachCrtBundle => Standing { crt_bundle_attached: false, ..secured },
        StepView::InitWs | StepView::DestroySsl => secured,
        StepView::SetPath => Standing { transport: Transport::Ws, ..secured },
        StepView::Connect => Standing { transport: Transport::Ws, path_set: true, ..secured },
        StepView::Close(end) => Standing {
            transport: Transport::Ws,
            path_set: true,
            connected: end is Ok,
            ..secured
        },
        StepView::Destroy(_) => Standing {
            transport: Transport::ClosedWs,
            path_set: true,
            ..secured
        },
        _ => Standing { transport: Transport::Ws, path_set: true, connected: true, ..secured },
    }
}

proof fn lemma_standing(run: Seq<OutcomeView>)
    requires
        is_run(run),
    ensures
        standing_after(run) == standing_at(step_after(run)),
    decreases run.len(),
{
    if run.len() > 0 {
        lemma_standing(run.drop_last());
    }
}

/// In every run, each step finds the transports ready for it. So the lamp connects
/// only after the server's certificate will be verified, reads and sends only on an
/// established connection, closes a WebSocket transport before it destroys it,
/// destroys the outermost transport that it created exactly once, and begins anew,
/// or waits to, with none left.
pub proof fn transports_are_used_in_order(run: Seq<OutcomeView>)
    requires
        is_run(run),
    ensures
        standing_after(run).allows(step_after(run)),
{
    lemma_standing(run);
}

/// A new connection is begun after a wait and at no other time, and a wait comes
/// after the end of a connection and at no other time.
pub proof fn connections_are_apart(step: StepView, outcome: OutcomeView)
    requires
        step.admits(outcome),
    ensures
        next_step(step, outcome) is InitSsl <==> step is Backoff,
        next_step(step, outcome) is Backoff <==> step is Report,
{
}

/// A connection ends for one of few reasons, and its end tells which. One that was
/// established is closed where the backend closed it or a read failed, and at no
/// other time, and ends without error. One that was not ends with the error that
/// says what failed. The end is reported as it was.
pub proof fn connection_ends_for_a_reason(step: StepView, outcome: OutcomeView)
    requires
        step.admits(outcome),
    ensures
        next_step(step, outcome) is Close <==> {
            ||| step is Connect && outcome->Returned_0 != 0
            ||| step is Read && outcome->Received_0 is Close
            ||| step is Read && outcome->Received_0 is PeerClosed
            ||| step is Read && outcome->Received_0 is ReadError
        },
        step is Read && next_step(step, outcome) is Close ==> next_step(step, outcome)
            == StepView::Close(Ok(())),
        step is Connect && next_step(step, outcome) is Close ==> next_step(step, outcome)
            == StepView::Close(Err(SessionError::Connect(outcome->Returned_0))),
        step is Close ==> next_step(step, outcome) == StepView::Destroy(step->Close_0),
        step is Destroy ==> next_step(step, outcome) == StepView::Report(step->Destroy_0),
        next_step(step, outcome) is Report <==> {
            ||| step is InitSsl && outcome == OutcomeView::Created(false)
            ||| step is DestroySsl
            ||| step is Destroy
        },
        step is InitSsl && next_step(step, outcome) is Report ==> next_step(step, outcome)
            == StepView::Report(Err(SessionError::SslTransport)),
        next_step(step, outcome) is DestroySsl <==> step is InitWs && outcome
            == OutcomeView::Created(false),
        step is DestroySsl ==> next_step(step, outcome) == StepView::Report(
            Err(SessionError::WsTransport),
        ),
{
}

/// The queue is drained before the next read: after a round the connection rests
/// where the queue had no message left and at no other time, and it reads when it
/// has rested or has just connected and at no other time.
pub proof fn queue_is_drained_each_round(step: StepView, outcome: OutcomeView)
    requires
        step.admits(outcome),
    ensures
        next_step(step, outcome) is Pause <==> step is TakeOutbound && outcome
            == OutcomeView::Outbound(None),
        next_step(step, outcome) is Read <==> {
            ||| step is Pause
            ||| step is Connect && outcome == OutcomeView::Returned(0)
        },
{
}

// ---- Frames out ----

/// The frames that the run owes to the backend, in order: a pong for each ping, and
/// a text frame for each message from the queue.
pub open spec fn owed_frames(run: Seq<OutcomeView>) -> Seq<FrameView>
    decreases run.len(),
{
    if run.len() == 0 {
        Seq::empty()
    } else {
        let before = owed_frames(run.drop_last());
        match run.last() {
            OutcomeView::Received(ReceivedView::Ping) => before.push(pong_frame()),
            OutcomeView::Outbound(Some(message)) => before.push(text_frame(wire_text(message))),
            _ => before,
        }
    }
}

/// The frame that the step sends, if it sends one.
pub open spec fn frame_of(step: StepView) -> Seq<FrameView> {
    match step {
        StepView::SendPong(frame) => seq![frame],
        StepView::SendText(frame) => seq![frame],
        _ => Seq::empty(),
    }
}

/// The frames that the run has handed to the transport, in order.
pub open spec fn sent_frames(run: Seq<OutcomeView>) -> Seq<FrameView>
    decreases run.len(),
{
    if run.len() == 0 {
        Seq::empty()
    } else {
        sent_frames(run.drop_last()) + frame_of(step_after(run.drop_last()))
    }
}

/// The lamp sends what it owes, in order, once, and nothing else; where a frame is
/// still owed, sending it is the next step.
pub proof fn owed_frames_are_sent(run: Seq<OutcomeView>)
    requires
        is_run(run),
    ensures
        owed_frames(run) == sent_frames(run) + frame_of(step_after(run)),
    decreases run.len(),
{
    if run.len() > 0 {
        owed_frames_are_sent(run.drop_last());
    }
    assert(owed_frames(run) =~= sent_frames(run) + frame_of(step_after(run)));
}

/// The messages that the run has taken from the queue, in order.
pub open spec fn messages_taken(run: Seq<OutcomeView>) -> Seq<OutgoingView>
    decreases run.len(),
{
    if run.len() == 0 {
        Seq::empty()
    } else {
        let before = messages_taken(run.drop_last());
        match run.last() {
            OutcomeView::Outbound(Some(message)) => before.push(message),
            _ => before,
        }
    }
}

/// The text frame that the step sends, if it sends one.
pub open spec fn text_of(step: StepView) -> Seq<FrameView> {
    match step {
        StepView::SendText(frame) => seq![frame],
        _ => Seq::empty(),
    }
}

/// The text frames that the run has handed to the transport, in order.
pub open spec fn sent_texts(run: Seq<OutcomeView>) -> Seq<FrameView>
    decreases run.len(),
{
    if run.len() == 0 {
        Seq::empty()
    } else {
        sent_texts(run.drop_last()) + text_of(step_after(run.drop_last()))
    }
}

/// The text frames of messages.
pub open spec fn frames_of(messages: Seq<OutgoingView>) -> Seq<FrameView> {
    messages.map_values(|message: OutgoingView| text_frame(wire_text(message)))
}

proof fn lemma_taken_messages_are_sent(run: Seq<OutcomeView>)
    requires
        is_run(run),
    ensures
        frames_of(messages_taken(run)) == sent_texts(run) + text_of(step_after(run)),
    decreases run.len(),
{
    if run.len() > 0 {
        lemma_taken_messages_are_sent(run.drop_last());
    }
    assert(frames_of(messages_taken(run)) =~= sent_texts(run) + text_of(step_after(run)));
}

/// From the firmware to the wire: where the run took its messages from a queue that
/// was empty at first, the text frames that were sent, then the one about to be
/// sent, then those of the messages that wait, are those of all the messages that
/// the firmware sent, in the order in which it sent them. This holds across
/// connections: what is sent while there is none goes out on the next.
pub proof fn messages_reach_the_wire_in_order(
    run: Seq<OutcomeView>,
    operations: Seq<QueueOperation>,
)
    requires
        is_run(run),
        messages_taken(run) == taken_by(Seq::empty(), operations),
    ensures
        sent_texts(run) + text_of(step_after(run)) + frames_of(
            queue_after(Seq::empty(), operations),
        ) == frames_of(sent_by(operations)),
{
    lemma_taken_messages_are_sent(run);
    queue_keeps_order(Seq::empty(), operations);
    let taken = taken_by(Seq::empty(), operations);
    let waiting = queue_after(Seq::empty(), operations);
    assert(Seq::<OutgoingView>::empty() + sent_by(operations) =~= sent_by(operations));
    assert(frames_of(taken) + frames_of(waiting) =~= frames_of(taken + waiting));
}

// ---- Commands in ----

/// The texts that the run has received, in order.
pub open spec fn texts_received(run: Seq<OutcomeView>) -> Seq<Seq<char>>
    decreases run.len(),
{
    if run.len() == 0 {
        Seq::empty()
    } else {
        let before = texts_received(run.drop_last());
        match run.last() {
            OutcomeView::Received(ReceivedView::Text(text)) => before.push(text),
            _ => before,
        }
    }
}

/// The text that the step parses, if it parses one.
pub open spec fn parse_of(step: StepView) -> Seq<Seq<char>> {
    match step {
        StepView::Parse(text) => seq![text],
        _ => Seq::empty(),
    }
}

/// The texts that the run has parsed, in order.
pub open spec fn texts_parsed(run: Seq<OutcomeView>) -> Seq<Seq<char>>
    decreases run.len(),
{
    if run.len() == 0 {
        Seq::empty()
    } else {
        texts_parsed(run.drop_last()) + parse_of(step_after(run.drop_last()))
    }
}

/// Each text that comes in is parsed, once, as it came in, before anything else is
/// done.
pub proof fn texts_are_parsed(run: Seq<OutcomeView>)
    requires
        is_run(run),
    ensures
        texts_received(run) == texts_parsed(run) + parse_of(step_after(run)),
    decreases run.len(),
{
    if run.len() > 0 {
        texts_are_parsed(run.drop_last());
    }
    assert(texts_received(run) =~= texts_parsed(run) + parse_of(step_after(run)));
}

/// The brightnesses that the backend has commanded in the run, in order.
pub open spec fn commands(run: Seq<OutcomeView>) -> Seq<u8>
    decreases run.len(),
{
    if run.len() == 0 {
        Seq::empty()
    } else {
        let before = commands(run.drop_last());
        match run.last() {
            OutcomeView::Parsed(message) => match commanded_brightness(message) {
                Some(percent) => before.push(percent),
                None => before,
            },
            _ => before,
        }
    }
}

/// The brightness that the step sets, if it sets one.
pub open spec fn brightness_of(step: StepView) -> Seq<u8> {
    match step {
        StepView::Override { percent } => seq![percent],
        _ => Seq::empty(),
    }
}

/// The brightnesses that the run has set, in order.
pub open spec fn brightnesses_set(run: Seq<OutcomeView>) -> Seq<u8>
    decreases run.len(),
{
    if run.len() == 0 {
        Seq::empty()
    } else {
        brightnesses_set(run.drop_last()) + brightness_of(step_after(run.drop_last()))
    }
}

/// The connection touches the LED for each command, once, in order, with the
/// brightness that was commanded, and for nothing else.
pub proof fn commands_reach_the_led(run: Seq<OutcomeView>)
    requires
        is_run(run),
    ensures
        commands(run) == brightnesses_set(run) + brightness_of(step_after(run)),
    decreases run.len(),
{
    if run.len() > 0 {
        commands_reach_the_led(run.drop_last());
    }
    assert(commands(run) =~= brightnesses_set(run) + brightness_of(step_after(run)));
}

/// What a step with this outcome, done at the time `now`, is to the lamp: setting
/// the LED is a command, all else is nothing.
pub open spec fn lamp_event(step: StepView, outcome: OutcomeView, now: u64) -> Seq<LampEvent> {
    match (step, outcome) {
        (StepView::Override { percent }, OutcomeView::Written(written)) => seq![
            LampEvent::Command { percent, written, now },
        ],
        _ => Seq::empty(),
    }
}

/// What the run is to the lamp, in order, where its steps were done at these times.
pub open spec fn lamp_events(run: Seq<OutcomeView>, times: Seq<u64>) -> Seq<LampEvent>
    decreases run.len(),
{
    if run.len() == 0 {
        Seq::empty()
    } else {
        lamp_events(run.drop_last(), times.drop_last()) + lamp_event(
            step_after(run.drop_last()),
            run.last(),
            times.last(),
        )
    }
}

/// The events are commands of these brightnesses, one for one.
pub open spec fn are_commands(events: Seq<LampEvent>, percents: Seq<u8>) -> bool {
    &&& events.len() == percents.len()
    &&& forall|i: int|
        0 <= i < events.len() ==> {
            &&& #[trigger] events[i] is Command
            &&& events[i]->percent == percents[i]
        }
}

/// The run is to the lamp the commands that the backend gave, in order, each once,
/// with the brightness that was commanded, and nothing else; where a command is
/// still to be carried out, that is the next step.
pub proof fn commands_become_lamp_events(run: Seq<OutcomeView>, times: Seq<u64>)
    requires
        is_run(run),
        times.len() == run.len(),
    ensures
        are_commands(lamp_events(run, times), brightnesses_set(run)),
        commands(run) == brightnesses_set(run) + brightness_of(step_after(run)),
    decreases run.len(),
{
    commands_reach_the_led(run);
    if run.len() > 0 {
        commands_become_lamp_events(run.drop_last(), times.drop_last());
    }
}

/// From the wire to the LED: where a text was parsed to a command, setting the LED
/// is the next step, and when it has been done at the time `at`, the LED shows the
/// commanded brightness, where it could be written, and no tick changes it or the
/// breathing cycle until the duration of the command is over.
pub proof fn parsed_command_holds_the_led(
    text: Seq<char>,
    percent: u8,
    written: bool,
    at: u64,
    lamp: Lamp,
    ticks: Seq<u64>,
)
    requires
        at + OVERRIDE_DURATION_NANOS <= u64::MAX,
        forall|i: int| 0 <= i < ticks.len() ==> #[trigger] ticks[i] < at + OVERRIDE_DURATION_NANOS,
    ensures
        ({
            let parsed = OutcomeView::Parsed(Some(IncomingMessage::SetBrightness { percent }));
            let step = next_step(StepView::Parse(text), parsed);
            let events = lamp_event(step, OutcomeView::Written(written), at);
            let commanded = lamp.after(events[0]);
            &&& step == StepView::Override { percent }
            &&& events.len() == 1
            &&& written ==> commanded.led == Some(percent)
            &&& !written ==> commanded.led == lamp.led
            &&& commanded.control.step == lamp.control.step
            &&& commanded.after_ticks(ticks) == commanded
        }),
{
    command_holds_the_led(lamp, percent, written, at, ticks);
}

/// The incoming message says what the outgoing message said.
pub open spec fn is_echo(incoming: IncomingMessage, outgoing: OutgoingView) -> bool {
    match (incoming, outgoing) {
        (
            IncomingMessage::Hello { device_id },
            OutgoingView::Hello { device_id: sent },
        ) => device_id@ == sent,
        (IncomingMessage::Echo { text }, OutgoingView::Echo { text: sent }) => text@ == sent,
        _ => false,
    }
}

/// Where the backend sends back the payload of a message's frame, the very text of
/// the message on the wire is parsed next.
pub proof fn echo_comes_back_as_it_was_sent(outgoing: OutgoingView)
    ensures
        next_step(
            StepView::Read,
            OutcomeView::Received(
                frame_received(
                    WS_OPCODE_TEXT,
                    encode_utf8(text_frame(wire_text(outgoing)).payload),
                ),
            ),
        ) == StepView::Parse(wire_text(outgoing)),
{
    text_survives_the_wire(wire_text(outgoing));
}

/// A text that is parsed to what an outgoing message said leaves the LED alone: the
/// connection goes on to the queue.
pub proof fn echo_leaves_the_led_alone(
    text: Seq<char>,
    incoming: IncomingMessage,
    outgoing: OutgoingView,
)
    requires
        is_echo(incoming, outgoing),
    ensures
        commanded_brightness(Some(incoming)) is None,
        next_step(StepView::Parse(text), OutcomeView::Parsed(Some(incoming)))
            == StepView::TakeOutbound,
{
}

/// A command goes on to the queue whether the LED could be written or not: a failed
/// write neither ends the connection nor is tried again.
pub proof fn failed_write_goes_no_further(percent: u8, written: bool)
    ensures
        next_step(StepView::Override { percent }, OutcomeView::Written(written))
            == StepView::TakeOutbound,
{
}

/// The host and the path hold no NUL, so they can be handed to the transport as C
/// strings.
pub proof fn endpoint_holds_no_nul()
    ensures
        !WS_HOST@.contains('\0'),
        !WS_PATH@.contains('\0'),
{
    reveal_strlit("ws.postman-echo.com");
    reveal_strlit("/raw");
}

// ---- From what the transport returns ----

/// What a read leads to, told by what the transport returned. A ping of whatever
/// length is answered by a pong, which is a whole message without payload. A text is
/// parsed, with exactly the bytes that came. A close frame, the peer's end and a read
/// error close the connection, without error. All else goes on to the queue.
pub proof fn reads_lead_where_they_should(bytes_read: i32, opcode: u8, buffer: Seq<u8>)
    ensures
        ({
            let bytes = buffer.take(bytes_read as int);
            let received = OutcomeView::Received(read_received(bytes_read, opcode, buffer));
            let step = next_step(StepView::Read, received);
            let is_text = bytes_read > 0 && opcode == 0x01 && valid_utf8(bytes);
            let is_ping = bytes_read > 0 && opcode == 0x09;
            let is_end = bytes_read > 0 && opcode == 0x08 || bytes_read == 0 || bytes_read < -1;
            &&& step is SendPong <==> is_ping
            &&& is_ping ==> step->SendPong_0.opcode == 0x8A
            &&& is_ping ==> step->SendPong_0.payload.len() == 0
            &&& step is Parse <==> is_text
            &&& is_text ==> encode_utf8(step->Parse_0) == bytes
            &&& step is Close <==> is_end
            &&& is_end ==> step == StepView::Close(Ok(()))
            &&& step is TakeOutbound <==> !is_ping && !is_text && !is_end
        }),
{
    reads_are_told_apart(bytes_read, opcode, buffer);
    frames_are_whole_messages(Seq::empty());
}

/// A text frame is parsed whole, whatever its length: where the buffer begins with
/// the UTF-8 bytes of a text and the read returned their number, that text is parsed.
pub proof fn text_frame_is_parsed_whole(text: Seq<char>, bytes_read: i32, buffer: Seq<u8>)
    requires
        bytes_read > 0,
        bytes_read == encode_utf8(text).len(),
        encode_utf8(text).is_prefix_of(buffer),
    ensures
        next_step(
            StepView::Read,
            OutcomeView::Received(read_received(bytes_read, 0x01, buffer)),
        ) == StepView::Parse(text),
{
    text_is_read_whole(text, bytes_read, buffer);
}

/// Only a command to set the brightness commands one, and it commands the brightness
/// that it names, whatever that is.
pub proof fn only_commands_command(message: Option<IncomingMessage>, text: Seq<char>)
    ensures
        message matches Some(IncomingMessage::SetBrightness { percent }) ==> {
            &&& commanded_brightness(message) == Some(percent)
            &&& next_step(StepView::Parse(text), OutcomeView::Parsed(message))
                == (StepView::Override { percent })
        },
        !(message matches Some(IncomingMessage::SetBrightness { .. })) ==> {
            &&& commanded_brightness(message) is None
            &&& next_step(StepView::Parse(text), OutcomeView::Parsed(message))
                == StepView::TakeOutbound
        },
{
}

// ---- What stands in the frames ----

proof fn lemma_frame_about_to_be_sent(run: Seq<OutcomeView>)
    requires
        is_run(run),
    ensures
        step_after(run) matches StepView::SendText(frame) ==> frame.opcode == 0x81,
        step_after(run) matches StepView::SendPong(frame) ==> frame.opcode == 0x8A
            && frame.payload.len() == 0,
    decreases run.len(),
{
    if run.len() > 0 {
        lemma_frame_about_to_be_sent(run.drop_last());
        frames_are_whole_messages(Seq::empty());
        if let OutcomeView::Outbound(Some(message)) = run.last() {
            frames_are_whole_messages(wire_text(message));
        }
    }
}

/// Every frame that is sent is a whole message, whatever it carries: a text frame with
/// the final bit, or a pong with the final bit and without payload.
pub proof fn sent_frames_are_whole_messages(run: Seq<OutcomeView>, i: int)
    requires
        is_run(run),
        0 <= i < sent_frames(run).len(),
    ensures
        ({
            let frame = sent_frames(run)[i];
            &&& frame.opcode & 0x80 == 0x80
            &&& frame.opcode == 0x81 || frame.opcode == 0x8A
            &&& frame.opcode == 0x8A ==> frame.payload.len() == 0
        }),
    decreases run.len(),
{
    assert(0x81u8 & 0x80u8 == 0x80u8 && 0x8Au8 & 0x80u8 == 0x80u8) by (bit_vector);
    let earlier = run.drop_last();
    lemma_frame_about_to_be_sent(earlier);
    if i < sent_frames(earlier).len() {
        sent_frames_are_whole_messages(earlier, i);
    }
}

/// What goes out for the messages from the queue: for each message that was taken, in
/// order, one text frame with the final bit, whose payload is the message's text,
/// written out; a reader of JSON reads the message back from it. The last one may be
/// still to be sent.
pub proof fn sent_texts_carry_the_messages(run: Seq<OutcomeView>, i: int)
    requires
        is_run(run),
        0 <= i < sent_texts(run).len(),
    ensures
        i < messages_taken(run).len() <= sent_texts(run).len() + 1,
        ({
            let frame = sent_texts(run)[i];
            let message = messages_taken(run)[i];
            &&& frame.opcode == 0x81
            &&& frame.opcode & 0x0F == 0x01
            &&& frame.opcode & 0x80 == 0x80
            &&& message matches OutgoingView::Hello { device_id } ==> frame.payload
                == "{\"type\":\"Hello\",\"device_id\":"@ + json_string(device_id) + "}"@
            &&& message matches OutgoingView::Hello { device_id } ==> read_object(frame.payload)
                == Some(seq![("type"@, "Hello"@), ("device_id"@, device_id)])
            &&& message matches OutgoingView::Echo { text } ==> frame.payload
                == "{\"type\":\"Echo\",\"text\":"@ + json_string(text) + "}"@
            &&& message matches OutgoingView::Echo { text } ==> read_object(frame.payload) == Some(
                seq![("type"@, "Echo"@), ("text"@, text)],
            )
        }),
{
    lemma_taken_messages_are_sent(run);
    let all = sent_texts(run) + text_of(step_after(run));
    assert(frames_of(messages_taken(run)).len() == messages_taken(run).len());
    assert(all[i] == sent_texts(run)[i]);
    let message = messages_taken(run)[i];
    assert(frames_of(messages_taken(run))[i] == text_frame(wire_text(message)));
    frames_are_whole_messages(wire_text(message));
    wire_text_is_written_out(message);
    message_reads_back(message);
}

// ---- Which step comes when ----

/// Each step comes exactly where it should, whatever the frames, texts, codes and
/// messages that are carried along, and an outcome that a step cannot have changes
/// nothing.
pub proof fn steps_come_when_they_should(step: StepView, outcome: OutcomeView)
    ensures
        !step.admits(outcome) ==> next_step(step, outcome) == step,
        step.admits(outcome) ==> {
            let next = next_step(step, outcome);
            &&& next is InitSsl <==> step is Backoff
            &&& next is EnableGlobalCaStore <==> step is InitSsl && outcome
                == OutcomeView::Created(true)
            &&& next is AttachCrtBundle <==> step is EnableGlobalCaStore
            &&& next is InitWs <==> step is AttachCrtBundle
            &&& next is DestroySsl <==> step is InitWs && outcome == OutcomeView::Created(false)
            &&& next is SetPath <==> step is InitWs && outcome == OutcomeView::Created(true)
            &&& next is Connect <==> step is SetPath
            &&& next is Read <==> step is Pause || (step is Connect && outcome
                == OutcomeView::Returned(0))
            &&& next is Parse <==> step is Read && outcome->Received_0 is Text
            &&& next is Parse ==> next->Parse_0 == outcome->Received_0->Text_0
            &&& next is SendPong <==> step is Read && outcome->Received_0 is Ping
            &&& next is SendText <==> step is TakeOutbound && outcome->Outbound_0 is Some
            &&& next is Pause <==> step is TakeOutbound && outcome->Outbound_0 is None
            &&& next is Destroy <==> step is Close
            &&& next is Backoff <==> step is Report
            &&& step is Override || step is SendPong || step is SendText ==> next is TakeOutbound
        },
{
}

/// The outcomes that a step can have, whatever the step carries.
pub proof fn outcomes_belong_to_steps(step: StepView, outcome: OutcomeView)
    ensures
        step is InitSsl || step is InitWs ==> (step.admits(outcome) <==> outcome is Created),
        step is Connect || step is SendText ==> (step.admits(outcome) <==> outcome is Returned),
        step is Read ==> (step.admits(outcome) <==> outcome is Received),
        step is Parse ==> (step.admits(outcome) <==> outcome is Parsed),
        step is Override ==> (step.admits(outcome) <==> outcome is Written),
        step is TakeOutbound ==> (step.admits(outcome) <==> outcome is Outbound),
        step is EnableGlobalCaStore || step is AttachCrtBundle || step is DestroySsl
            || step is SetPath || step is SendPong || step is Pause || step is Close
            || step is Destroy || step is Report || step is Backoff ==> (step.admits(outcome)
            <==> outcome is Done),
{
}

/// How long the waits last and what time limits hold, in milliseconds, whatever the
/// step carries.
pub proof fn waits_and_limits(step: StepView)
    ensures
        step is Pause ==> step.wait_ms() == Some(10u64),
        step is Backoff ==> step.wait_ms() == Some(5_000u64),
        !(step is Pause) && !(step is Backoff) ==> step.wait_ms() is None,
        step is Read ==> step.timeout_ms() == Some(100i32),
        step is Connect || step is SendPong || step is SendText ==> step.timeout_ms() == Some(
            10_000i32,
        ),
        !(step is Read || step is Connect || step is SendPong || step is SendText)
            ==> step.timeout_ms() is None,
        step.addresses_backend() <==> step is SetPath || step is Connect,
{
}

/// The text of an error, written out; from that of a failed connect the code reads
/// back.
pub proof fn errors_say_what_failed(code: i32)
    ensures
        error_text(SessionError::SslTransport) == "Failed to create SSL transport"@,
        error_text(SessionError::WsTransport) == "Failed to create WS transport"@,
        "esp_transport_connect failed: "@.is_prefix_of(error_text(SessionError::Connect(code))),
        read_decimal(
            error_text(SessionError::Connect(code)).skip(
                "esp_transport_connect failed: "@.len() as int,
            ),
        ) == code,
{
    decimal_reads_back(code as int);
    let text = error_text(SessionError::Connect(code));
    let beginning = "esp_transport_connect failed: "@;
    assert(text.skip(beginning.len() as int) =~= crate::decimal::decimal(code as int));
}

/// The view of a step keeps all that it carries.
pub proof fn step_view_keeps_all(step: Step)
    ensures
        step matches Step::Parse(text) ==> step@ == StepView::Parse(text@),
        step matches Step::Override { percent } ==> step@ == (StepView::Override { percent }),
        step matches Step::SendPong(frame) ==> step@ == StepView::SendPong(
            FrameView { opcode: frame.opcode, payload: frame.payload@ },
        ),
        step matches Step::SendText(frame) ==> step@ == StepView::SendText(
            FrameView { opcode: frame.opcode, payload: frame.payload@ },
        ),
        step matches Step::Close(end) ==> step@ == StepView::Close(end),
        step matches Step::Destroy(end) ==> step@ == StepView::Destroy(end),
        step matches Step::Report(end) ==> step@ == StepView::Report(end),
{
}

/// The view of an outcome keeps all that it carries.
pub proof fn outcome_view_keeps_all(outcome: Outcome)
    ensures
        outcome matches Outcome::Created(created) ==> outcome@ == OutcomeView::Created(created),
        outcome matches Outcome::Returned(code) ==> outcome@ == OutcomeView::Returned(code),
        outcome matches Outcome::Written(written) ==> outcome@ == OutcomeView::Written(written),
        outcome matches Outcome::Received(received) ==> outcome@ == OutcomeView::Received(
            received@,
        ),
        outcome matches Outcome::Parsed(message) ==> outcome@ == OutcomeView::Parsed(message),
        outcome matches Outcome::Outbound(Some(message)) ==> outcome@ == OutcomeView::Outbound(
            Some(message@),
        ),
        outcome matches Outcome::Outbound(None) ==> outcome@ == OutcomeView::Outbound(None),
{
}

} // verus!
