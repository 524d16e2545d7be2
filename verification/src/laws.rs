//! What the results of the library's functions satisfy, told by the arguments of the
//! calls: nothing here speaks of how a result is defined.

use crate::boot::{BootOutcome, BootStep};
use crate::decimal::{decimal, decimal_reads_back, push_decimal, read_decimal};
use crate::frame::{classify_read, reads_are_told_apart, text_is_read_whole};
use crate::frame::{frames_are_whole_messages, OutgoingFrame, Received};
use crate::json::{json_string, read_object};
use crate::light::{breath, commanded_lately, commands_fit, control_after, free_ticks};
use crate::light::{lamp_follows_its_events, LampEvent, LightControl, LightView};
use crate::message::{message_reads_back, wire_text, wire_text_is_written_out};
use crate::message::{IncomingMessage, OutgoingMessage, OutgoingView};
use crate::session::{handle_text_frame, Endpoint, Outcome, SessionError, Step};
use crate::session_laws::errors_say_what_failed;
use crate::ws_client::{sent_by, QueueOperation, SendError, WsClient};
use vstd::prelude::*;
use vstd::utf8::{encode_utf8, valid_utf8};

verus! {

// ---- Reading ----

/// A text frame is read whole, whatever its length: where the buffer begins with the
/// UTF-8 bytes of a text and the read returned their number, the text is read.
pub proof fn text_is_received_whole(
    text: Seq<char>,
    bytes_read: i32,
    buffer: &[u8],
    received: Received,
)
    requires
        bytes_read > 0,
        bytes_read == encode_utf8(text).len(),
        encode_utf8(text).is_prefix_of(buffer@),
        call_ensures(classify_read, (bytes_read, 0x01u8, buffer), received),
    ensures
        received is Text,
        received->Text_0@ == text,
{
    text_is_read_whole(text, bytes_read, buffer@);
}

/// Every read is taken for what it is, told by what the transport returned.
pub proof fn reads_are_received_as_they_are(
    bytes_read: i32,
    opcode: u8,
    buffer: &[u8],
    received: Received,
)
    requires
        call_ensures(classify_read, (bytes_read, opcode, buffer), received),
    ensures
        ({
            let bytes = buffer@.take(bytes_read as int);
            &&& received is Text <==> bytes_read > 0 && opcode == 0x01 && valid_utf8(bytes)
            &&& received is Text ==> encode_utf8(received->Text_0@) == bytes
            &&& received is NotUtf8 <==> bytes_read > 0 && opcode == 0x01 && !valid_utf8(bytes)
            &&& received is Ping <==> bytes_read > 0 && opcode == 0x09
            &&& received is Close <==> bytes_read > 0 && opcode == 0x08
            &&& received is Ignored <==> bytes_read > 0 && opcode != 0x01 && opcode != 0x08
                && opcode != 0x09
            &&& received is Ignored ==> received->Ignored_0 == opcode
            &&& received is PeerClosed <==> bytes_read == 0
            &&& received is Timeout <==> bytes_read == -1
            &&& received is ReadError <==> bytes_read < -1
            &&& received is ReadError ==> received->ReadError_0 == bytes_read
        }),
{
    reads_are_told_apart(bytes_read, opcode, buffer@);
}

/// A ping, whatever it carries, leads to the sending of a pong without payload.
pub proof fn ping_leads_to_pong(bytes_read: i32, buffer: &[u8], received: Received, step: Step)
    requires
        bytes_read > 0,
        call_ensures(classify_read, (bytes_read, 0x09u8, buffer), received),
        call_ensures(Step::next, (Step::Read, Outcome::Received(received)), step),
    ensures
        step is SendPong,
        step->SendPong_0.opcode == 0x8A,
        step->SendPong_0.payload@.len() == 0,
{
    reads_are_received_as_they_are(bytes_read, 0x09u8, buffer, received);
    frames_are_whole_messages(Seq::empty());
}

/// A text frame leads to the parsing of its text, and where the text is a command, to
/// the setting of the LED to the commanded brightness, whatever that is.
pub proof fn command_leads_to_the_led(
    text: Seq<char>,
    bytes_read: i32,
    buffer: &[u8],
    received: Received,
    parse: Step,
    percent: u8,
    step: Step,
)
    requires
        bytes_read > 0,
        bytes_read == encode_utf8(text).len(),
        encode_utf8(text).is_prefix_of(buffer@),
        call_ensures(classify_read, (bytes_read, 0x01u8, buffer), received),
        call_ensures(Step::next, (Step::Read, Outcome::Received(received)), parse),
        call_ensures(
            Step::next,
            (parse, Outcome::Parsed(Some(IncomingMessage::SetBrightness { percent }))),
            step,
        ),
    ensures
        parse is Parse,
        parse->Parse_0@ == text,
        step == (Step::Override { percent }),
{
    text_is_received_whole(text, bytes_read, buffer, received);
}

/// A text frame commands a brightness exactly where it is a command, and then the one
/// that it names.
pub proof fn only_commands_are_obeyed(message: &Option<IncomingMessage>, brightness: Option<u8>)
    requires
        call_ensures(handle_text_frame, (message,), brightness),
    ensures
        *message matches Some(IncomingMessage::SetBrightness { percent }) ==> brightness == Some(
            percent,
        ),
        brightness is Some ==> *message matches Some(IncomingMessage::SetBrightness { .. }),
{
}

// ---- Writing ----

/// The text of a message on the wire, written out. A reader of JSON reads from it the
/// type, which is the name of the message, and the message's own member.
pub proof fn messages_are_written_out(message: &OutgoingMessage, text: String)
    requires
        call_ensures(OutgoingMessage::to_json, (message,), text),
    ensures
        *message matches OutgoingMessage::Hello { device_id } ==> {
            &&& text@ == "{\"type\":\"Hello\",\"device_id\":"@ + json_string(device_id@) + "}"@
            &&& read_object(text@) == Some(
                seq![("type"@, "Hello"@), ("device_id"@, device_id@)],
            )
        },
        *message matches OutgoingMessage::Echo { text: said } ==> {
            &&& text@ == "{\"type\":\"Echo\",\"text\":"@ + json_string(said@) + "}"@
            &&& read_object(text@) == Some(seq![("type"@, "Echo"@), ("text"@, said@)])
        },
{
    wire_text_is_written_out(message@);
    message_reads_back(message@);
}

/// A frame that carries a text is a whole text message with that text, whatever the
/// text; a pong is a whole pong without payload.
pub proof fn frames_are_made_whole(payload: String, text: OutgoingFrame, pong: OutgoingFrame)
    requires
        call_ensures(OutgoingFrame::text, (payload,), text),
        call_ensures(OutgoingFrame::pong, (), pong),
    ensures
        text.opcode == 0x81,
        text.opcode & 0x0F == 0x01,
        text.opcode & 0x80 == 0x80,
        text.payload@ == payload@,
        pong.opcode == 0x8A,
        pong.payload@.len() == 0,
{
    frames_are_whole_messages(payload@);
}

/// A message from the queue goes out as a whole text frame that holds its text, from
/// which a reader of JSON reads the message back, and then the queue is asked again,
/// whatever the transport said to it.
pub proof fn message_goes_out_whole(message: OutgoingMessage, code: i32, send: Step, step: Step)
    requires
        call_ensures(Step::next, (Step::TakeOutbound, Outcome::Outbound(Some(message))), send),
        call_ensures(Step::next, (send, Outcome::Returned(code)), step),
    ensures
        send is SendText,
        send->SendText_0.opcode == 0x81,
        send->SendText_0.opcode & 0x0F == 0x01,
        send->SendText_0.opcode & 0x80 == 0x80,
        message matches OutgoingMessage::Hello { device_id } ==> {
            let payload = send->SendText_0.payload@;
            &&& payload == "{\"type\":\"Hello\",\"device_id\":"@ + json_string(device_id@) + "}"@
            &&& read_object(payload) == Some(
                seq![("type"@, "Hello"@), ("device_id"@, device_id@)],
            )
        },
        message matches OutgoingMessage::Echo { text } ==> {
            let payload = send->SendText_0.payload@;
            &&& payload == "{\"type\":\"Echo\",\"text\":"@ + json_string(text@) + "}"@
            &&& read_object(payload) == Some(seq![("type"@, "Echo"@), ("text"@, text@)])
        },
        step is TakeOutbound,
{
    frames_are_whole_messages(wire_text(message@));
    wire_text_is_written_out(message@);
    message_reads_back(message@);
}

// ---- Steps ----

/// The connection's steps come when they should, whatever they carry.
pub proof fn connection_takes_its_steps(step: Step, outcome: Outcome, next: Step)
    requires
        call_ensures(Step::next, (step, outcome), next),
    ensures
        step is InitSsl && outcome is Created && outcome->Created_0 ==> next is EnableGlobalCaStore,
        step is InitSsl && outcome is Created && !outcome->Created_0 ==> next == Step::Report(
            Err(SessionError::SslTransport),
        ),
        step is EnableGlobalCaStore && outcome is Done ==> next is AttachCrtBundle,
        step is AttachCrtBundle && outcome is Done ==> next is InitWs,
        step is InitWs && outcome is Created && outcome->Created_0 ==> next is SetPath,
        step is InitWs && outcome is Created && !outcome->Created_0 ==> next is DestroySsl,
        step is DestroySsl && outcome is Done ==> next == Step::Report(
            Err(SessionError::WsTransport),
        ),
        step is SetPath && outcome is Done ==> next is Connect,
        step is Connect && outcome is Returned && outcome->Returned_0 == 0 ==> next is Read,
        step is Connect && outcome is Returned && outcome->Returned_0 != 0 ==> next == Step::Close(
            Err(SessionError::Connect(outcome->Returned_0)),
        ),
        step is Read && outcome is Received ==> {
            let received = outcome->Received_0;
            &&& received is Close || received is PeerClosed || received is ReadError ==> next
                == Step::Close(Ok(()))
            &&& received is NotUtf8 || received is Ignored || received is Timeout
                ==> next is TakeOutbound
        },
        step is Parse && outcome is Parsed && !(outcome->Parsed_0 matches Some(
            IncomingMessage::SetBrightness { .. },
        )) ==> next is TakeOutbound,
        step is Override && outcome is Written ==> next is TakeOutbound,
        step is SendPong && outcome is Done ==> next is TakeOutbound,
        step is TakeOutbound && outcome is Outbound && outcome->Outbound_0 is None
            ==> next is Pause,
        step is Pause && outcome is Done ==> next is Read,
        step is Close && outcome is Done ==> next == Step::Destroy(step->Close_0),
        step is Destroy && outcome is Done ==> next == Step::Report(step->Destroy_0),
        step is Report && outcome is Done ==> next is Backoff,
        step is Backoff && outcome is Done ==> next is InitSsl,
{
}

/// The waits and the time limits of a step, in milliseconds, and the endpoint that it
/// addresses, whatever it carries.
pub proof fn steps_know_their_limits(
    step: &Step,
    wait: Option<u64>,
    timeout: Option<i32>,
    endpoint: Option<Endpoint>,
)
    requires
        call_ensures(Step::wait_ms, (step,), wait),
        call_ensures(Step::timeout_ms, (step,), timeout),
        call_ensures(Step::endpoint, (step,), endpoint),
    ensures
        *step is Pause ==> wait == Some(10u64),
        *step is Backoff ==> wait == Some(5_000u64),
        wait is Some ==> *step is Pause || *step is Backoff,
        *step is Read ==> timeout == Some(100i32),
        *step is Connect || *step is SendPong || *step is SendText ==> timeout == Some(10_000i32),
        timeout is Some ==> *step is Read || *step is Connect || *step is SendPong
            || *step is SendText,
        endpoint is Some <==> *step is SetPath || *step is Connect,
        endpoint is Some ==> {
            &&& endpoint->0.host@ == "ws.postman-echo.com"@
            &&& endpoint->0.port == 443
            &&& endpoint->0.path@ == "/raw"@
        },
{
}

/// The boot's steps come when they should, whatever the device's id, which goes along
/// unchanged from the credentials to the greeting.
pub proof fn boot_takes_its_steps(step: BootStep, outcome: BootOutcome, next: BootStep)
    requires
        call_ensures(BootStep::next, (step, outcome), next),
    ensures
        step is TakePeripherals && outcome is Done ==> next is TakeEventLoop,
        step is TakeEventLoop && outcome is Done ==> next is TakeNvsPartition,
        step is TakeNvsPartition && outcome is Done ==> next is ConfigureLed,
        step is ConfigureLed && outcome is Done ==> next is OpenStorage,
        step is OpenStorage && outcome is Done ==> next is CheckProvisioned,
        step is CheckProvisioned && outcome is Provisioned && outcome->Provisioned_0
            ==> next is LoadCredentials,
        step is CheckProvisioned && outcome is Provisioned && !outcome->Provisioned_0
            ==> next is StartProvisioning,
        step is StartProvisioning && outcome is Done ==> next is Finish,
        step is LoadCredentials && outcome is Loaded ==> {
            &&& next is ConnectWifi
            &&& next->ConnectWifi_device_id@ == outcome->Loaded_device_id@
        },
        step is ConnectWifi && outcome is Done ==> {
            &&& next is WipeCredentials
            &&& next->WipeCredentials_device_id@ == step->ConnectWifi_device_id@
        },
        step is WipeCredentials && outcome is Done ==> {
            &&& next is StartWsClient
            &&& next->StartWsClient_device_id@ == step->WipeCredentials_device_id@
        },
        step is StartWsClient && outcome is Done ==> {
            &&& next is Greet
            &&& next->Greet_0 is Hello
            &&& next->Greet_0->Hello_device_id@ == step->StartWsClient_device_id@
        },
        step is Greet && outcome is Done ==> next is Breathe,
        step is Breathe && outcome is Done ==> next is Rest,
        step is Rest && outcome is Done ==> next is Breathe,
        step is Release && outcome is Done ==> next is AwaitRestart,
        step is AwaitRestart && outcome is Done ==> next is Restart,
        outcome is Failed && !(step is WipeCredentials || step is Rest || step is Finish
            || step is Release || step is AwaitRestart || step is Restart) ==> next is Release,
{
}

/// The waits of the boot, in milliseconds.
pub proof fn boot_knows_its_waits(step: &BootStep, wait: Option<u64>)
    requires
        call_ensures(BootStep::wait_ms, (step,), wait),
    ensures
        *step is Rest ==> wait == Some(500u64),
        *step is AwaitRestart ==> wait == Some(10_000u64),
        wait is Some ==> *step is Rest || *step is AwaitRestart,
{
}

/// The texts of the errors, written out; from that of a failed connect the code reads
/// back.
pub proof fn errors_are_written_out(
    error: &SessionError,
    text: String,
    send_error: &SendError,
    send_text: String,
)
    requires
        call_ensures(SessionError::message, (error,), text),
        call_ensures(SendError::message, (send_error,), send_text),
    ensures
        *error is SslTransport ==> text@ == "Failed to create SSL transport"@,
        *error is WsTransport ==> text@ == "Failed to create WS transport"@,
        *error matches SessionError::Connect(code) ==> {
            let beginning = "esp_transport_connect failed: "@;
            &&& beginning.is_prefix_of(text@)
            &&& read_decimal(text@.skip(beginning.len() as int)) == code
        },
        send_text@ == "ws send failed: sending on a closed channel"@,
{
    if let SessionError::Connect(code) = *error {
        errors_say_what_failed(code);
    }
}

// ---- The lamp ----

/// A new lamp does what follows from what happened to it. Take any ticks and commands,
/// at whatever times, each with the call that the firmware makes for it: the `i`-th
/// call, on the lamp `calls[i]`, and the next on the lamp as that call left it. Then
/// each tick shows nothing exactly where the last command before it came less than
/// three seconds before, and else the next breath, counted by the ticks that nothing
/// held. So a lamp that no command ever reached is held at no time.
pub proof fn new_lamp_follows_its_events(
    new: LightControl,
    events: Seq<LampEvent>,
    calls: Seq<&mut LightControl>,
    shown: Seq<Option<u8>>,
    i: int,
)
    requires
        commands_fit(events),
        calls.len() == events.len(),
        shown.len() == events.len(),
        call_ensures(LightControl::new, (), new),
        calls.len() > 0 ==> *calls[0] == new,
        forall|k: int| 0 <= k < calls.len() - 1 ==> *final(#[trigger] calls[k]) == *calls[k + 1],
        forall|k: int|
            0 <= k < events.len() ==> match #[trigger] events[k] {
                LampEvent::Tick { now } => call_ensures(
                    LightControl::tick,
                    (calls[k], now),
                    shown[k],
                ),
                LampEvent::Command { written, now, .. } => call_ensures(
                    LightControl::hold_after_write,
                    (calls[k], written, now),
                    (),
                ),
            },
        0 <= i < events.len(),
    ensures
        events[i] matches LampEvent::Tick { now } ==> {
            let before = events.take(i);
            &&& shown[i] is None <==> commanded_lately(before, now)
            &&& shown[i] is Some ==> shown[i]->0 == breath(free_ticks(before) as int)
        },
{
    lemma_lamp_states(new, events, calls, shown, i);
    let before = events.take(i);
    assert forall|k: int| 0 <= k < before.len() && #[trigger] before[k] is Command implies
        before[k]->Command_now + 3_000_000_000 <= u64::MAX by {
        assert(before[k] == events[k]);
    }
    if let LampEvent::Tick { now } = events[i] {
        lamp_follows_its_events(before, now);
    }
}

proof fn lemma_lamp_states(
    new: LightControl,
    events: Seq<LampEvent>,
    calls: Seq<&mut LightControl>,
    shown: Seq<Option<u8>>,
    i: int,
)
    requires
        calls.len() == events.len(),
        shown.len() == events.len(),
        call_ensures(LightControl::new, (), new),
        calls.len() > 0 ==> *calls[0] == new,
        forall|k: int| 0 <= k < calls.len() - 1 ==> *final(#[trigger] calls[k]) == *calls[k + 1],
        forall|k: int|
            0 <= k < events.len() ==> match #[trigger] events[k] {
                LampEvent::Tick { now } => call_ensures(
                    LightControl::tick,
                    (calls[k], now),
                    shown[k],
                ),
                LampEvent::Command { written, now, .. } => call_ensures(
                    LightControl::hold_after_write,
                    (calls[k], written, now),
                    (),
                ),
            },
        0 <= i < events.len(),
    ensures
        (*calls[i])@ == control_after(LightView { step: 0, until: None }, events.take(i)),
    decreases i,
{
    if i == 0 {
        assert(events.take(0) =~= Seq::<LampEvent>::empty());
    } else {
        lemma_lamp_states(new, events, calls, shown, i - 1);
        assert(*final(calls[i - 1]) == *calls[i]);
        assert(events.take(i).drop_last() =~= events.take(i - 1));
        assert(events.take(i).last() == events[i - 1]);
        match events[i - 1] {
            LampEvent::Tick { now } => {},
            LampEvent::Command { written, now, .. } => {},
        }
    }
}

/// Whether a lamp says that it is held and whether a tick then shows nothing are one.
pub proof fn held_lamp_shows_nothing(light: LightControl, now: u64, held: bool)
    requires
        call_ensures(LightControl::in_override, (&light, now), held),
    ensures
        forall|call: &mut LightControl, shown: Option<u8>|
            *call == light && #[trigger] call_ensures(LightControl::tick, (call, now), shown) ==> (
            shown is None <==> held),
{
}

// ---- The queue ----

/// First in, first out, from a new client on. Take any messages that the firmware sends
/// and any times that one is asked for, each with its call: the `k`-th call, on the
/// client `calls[k]`, and the next on the client as that call left it. Then every
/// message is queued, a message is given exactly where more were sent than were given,
/// and the messages that are given are those that were sent, in order.
pub proof fn new_client_keeps_order(
    new: WsClient,
    operations: Seq<QueueOperation>,
    calls: Seq<&mut WsClient>,
    messages: Seq<OutgoingMessage>,
    results: Seq<Result<(), SendError>>,
    given: Seq<Option<OutgoingMessage>>,
    i: int,
)
    requires
        calls.len() == operations.len(),
        messages.len() == operations.len(),
        results.len() == operations.len(),
        given.len() == operations.len(),
        call_ensures(WsClient::new, (), new),
        calls.len() > 0 ==> *calls[0] == new,
        forall|k: int| 0 <= k < calls.len() - 1 ==> *final(#[trigger] calls[k]) == *calls[k + 1],
        forall|k: int|
            0 <= k < operations.len() ==> match #[trigger] operations[k] {
                QueueOperation::Send(message) => {
                    &&& messages[k]@ == message
                    &&& call_ensures(WsClient::send, (calls[k], messages[k]), results[k])
                },
                QueueOperation::TryRecv => call_ensures(WsClient::try_recv, (calls[k],), given[k]),
            },
        0 <= i < operations.len(),
    ensures
        ({
            let sent = sent_by(operations.take(i));
            let count = given_before(operations, given, i);
            &&& operations[i] is Send ==> results[i] is Ok
            &&& operations[i] is TryRecv ==> (given[i] is Some <==> count < sent.len())
            &&& operations[i] is TryRecv && given[i] is Some ==> given[i]->0@ == sent[count as int]
        }),
{
    lemma_client_states(new, operations, calls, messages, results, given, i);
}

/// How many messages were given before the `i`-th call.
pub open spec fn given_before(
    operations: Seq<QueueOperation>,
    given: Seq<Option<OutgoingMessage>>,
    i: int,
) -> nat
    decreases i,
{
    if i <= 0 {
        0
    } else if operations[i - 1] is TryRecv && given[i - 1] is Some {
        given_before(operations, given, i - 1) + 1
    } else {
        given_before(operations, given, i - 1)
    }
}

proof fn lemma_client_states(
    new: WsClient,
    operations: Seq<QueueOperation>,
    calls: Seq<&mut WsClient>,
    messages: Seq<OutgoingMessage>,
    results: Seq<Result<(), SendError>>,
    given: Seq<Option<OutgoingMessage>>,
    i: int,
)
    requires
        calls.len() == operations.len(),
        messages.len() == operations.len(),
        results.len() == operations.len(),
        given.len() == operations.len(),
        call_ensures(WsClient::new, (), new),
        calls.len() > 0 ==> *calls[0] == new,
        forall|k: int| 0 <= k < calls.len() - 1 ==> *final(#[trigger] calls[k]) == *calls[k + 1],
        forall|k: int|
            0 <= k < operations.len() ==> match #[trigger] operations[k] {
                QueueOperation::Send(message) => {
                    &&& messages[k]@ == message
                    &&& call_ensures(WsClient::send, (calls[k], messages[k]), results[k])
                },
                QueueOperation::TryRecv => call_ensures(WsClient::try_recv, (calls[k],), given[k]),
            },
        0 <= i < operations.len(),
    ensures
        given_before(operations, given, i) <= sent_by(operations.take(i)).len(),
        (*calls[i])@ == Some(
            sent_by(operations.take(i)).skip(given_before(operations, given, i) as int),
        ),
    decreases i,
{
    if i == 0 {
        assert(operations.take(0) =~= Seq::<QueueOperation>::empty());
        assert(sent_by(operations.take(0)).skip(0) =~= Seq::<OutgoingView>::empty());
    } else {
        lemma_client_states(new, operations, calls, messages, results, given, i - 1);
        assert(*final(calls[i - 1]) == *calls[i]);
        assert(operations.take(i).drop_last() =~= operations.take(i - 1));
        assert(operations.take(i).last() == operations[i - 1]);
        let count = given_before(operations, given, i - 1) as int;
        let sent = sent_by(operations.take(i - 1));
        match operations[i - 1] {
            QueueOperation::Send(message) => {
                assert(sent.skip(count).push(message) =~= sent.push(message).skip(count));
            },
            QueueOperation::TryRecv => {
                if count < sent.len() {
                    assert(sent.skip(count).drop_first() =~= sent.skip(count + 1));
                }
            },
        }
    }
}

/// Once the queue is ended, every message is refused, and none is given.
pub proof fn ended_queue_stays_ended()
    ensures
        forall|call: &mut WsClient|
            #[trigger] call_ensures(WsClient::hang_up, (call,), ()) ==> (*final(call))@ is None,
        forall|call: &mut WsClient, message: OutgoingMessage, result: Result<(), SendError>|
            (*call)@ is None && #[trigger] call_ensures(WsClient::send, (call, message), result)
                ==> result is Err && (*final(call))@ is None,
        forall|call: &mut WsClient, given: Option<OutgoingMessage>|
            (*call)@ is None && #[trigger] call_ensures(WsClient::try_recv, (call,), given)
                ==> given is None && (*final(call))@ is None,
{
}

// ---- Beginnings, numbers and what may be asked ----

/// A connection begins with the TLS transport, and a boot with the peripherals.
pub proof fn everything_begins_at_the_beginning(step: Step, boot_step: BootStep)
    requires
        call_ensures(Step::first, (), step),
        call_ensures(BootStep::first, (), boot_step),
    ensures
        step is InitSsl,
        boot_step is TakePeripherals,
{
}

/// A number is appended in decimal: what stood before stays, and the number reads back
/// from what follows.
pub proof fn numbers_are_appended_in_decimal(n: i32)
    ensures
        forall|out: &mut String|
            #[trigger] call_ensures(push_decimal, (out, n), ()) ==> {
                &&& (*out)@.is_prefix_of((*final(out))@)
                &&& read_decimal((*final(out))@.skip((*out)@.len() as int)) == n
            },
{
    decimal_reads_back(n as int);
    assert forall|out: &mut String|
        #[trigger] call_ensures(push_decimal, (out, n), ()) implies (*out)@.is_prefix_of(
        (*final(out))@,
    ) && read_decimal((*final(out))@.skip((*out)@.len() as int)) == n by {
        assert((*final(out))@.skip((*out)@.len() as int) =~= decimal(n as int));
    }
}

/// Every read that fits its buffer is told, every step takes every outcome, every text
/// and message is taken, and the lamp and the queue take every call, a command as long
/// as its end can be counted.
pub proof fn every_call_is_taken(
    bytes_read: i32,
    opcode: u8,
    buffer: &[u8],
    message: &Option<IncomingMessage>,
    outgoing: &OutgoingMessage,
    payload: String,
    step: Step,
    outcome: Outcome,
    boot_step: BootStep,
    boot_outcome: BootOutcome,
    light: &LightControl,
    now: u64,
)
    ensures
        bytes_read <= buffer@.len() ==> call_requires(classify_read, (bytes_read, opcode, buffer)),
        call_requires(handle_text_frame, (message,)),
        call_requires(OutgoingMessage::to_json, (outgoing,)),
        call_requires(OutgoingFrame::text, (payload,)),
        call_requires(Step::next, (step, outcome)),
        call_requires(BootStep::next, (boot_step, boot_outcome)),
        call_requires(LightControl::in_override, (light, now)),
        forall|call: &mut LightControl| #[trigger] call_requires(LightControl::tick, (call, now)),
        now + 3_000_000_000 <= u64::MAX ==> forall|call: &mut LightControl, written: bool|
            #[trigger] call_requires(LightControl::hold_after_write, (call, written, now)),
        forall|call: &mut WsClient, sent: OutgoingMessage|
            #[trigger] call_requires(WsClient::send, (call, sent)),
        forall|call: &mut WsClient| #[trigger] call_requires(WsClient::try_recv, (call,)),
{
}

} // verus!
