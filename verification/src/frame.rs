//! WebSocket frames (RFC 6455, section 5.2), as far as the lamp reads and writes them.

use vstd::prelude::*;
use vstd::string::*;
use vstd::utf8::*;

verus! {

/// The bit of a frame's first byte that marks the last fragment of a message.
pub const WS_OPCODE_FIN: u8 = 0x80;

/// The opcode of a text frame.
pub const WS_OPCODE_TEXT: u8 = 0x01;

/// The opcode of a close frame.
pub const WS_OPCODE_CLOSE: u8 = 0x08;

/// The opcode of a ping.
pub const WS_OPCODE_PING: u8 = 0x09;

/// The opcode of a pong.
pub const WS_OPCODE_PONG: u8 = 0x0A;

/// The first byte of a text message of one frame.
pub const WS_OPCODE_TEXT_FIN: u8 = WS_OPCODE_TEXT | WS_OPCODE_FIN;

/// The first byte of a pong of one frame.
pub const WS_OPCODE_PONG_FIN: u8 = WS_OPCODE_PONG | WS_OPCODE_FIN;

/// What a read on the transport brought.
#[derive(Debug)]
pub enum Received {
    /// A text frame.
    Text(String),
    /// A text frame that is not UTF-8.
    NotUtf8,
    /// A ping.
    Ping,
    /// A close frame.
    Close,
    /// A frame with another opcode.
    Ignored(u8),
    /// The peer has closed the connection.
    PeerClosed,
    /// Nothing came in time.
    Timeout,
    /// The transport reported an error.
    ReadError(i32),
}

/// What a read brought, with a text as a sequence of characters.
pub enum ReceivedView {
    Text(Seq<char>),
    NotUtf8,
    Ping,
    Close,
    Ignored(u8),
    PeerClosed,
    Timeout,
    ReadError(i32),
}

impl View for Received {
    type V = ReceivedView;

    open spec fn view(&self) -> ReceivedView {
        match *self {
            Received::Text(text) => ReceivedView::Text(text@),
            Received::NotUtf8 => ReceivedView::NotUtf8,
            Received::Ping => ReceivedView::Ping,
            Received::Close => ReceivedView::Close,
            Received::Ignored(opcode) => ReceivedView::Ignored(opcode),
            Received::PeerClosed => ReceivedView::PeerClosed,
            Received::Timeout => ReceivedView::Timeout,
            Received::ReadError(code) => ReceivedView::ReadError(code),
        }
    }
}

/// A frame to be sent.
#[derive(Debug)]
pub struct OutgoingFrame {
    /// The first byte: the opcode and the final bit.
    pub opcode: u8,
    /// What the frame carries.
    pub payload: String,
}

/// A frame to be sent, with its payload as a sequence of characters.
pub struct FrameView {
    pub opcode: u8,
    pub payload: Seq<char>,
}

impl View for OutgoingFrame {
    type V = FrameView;

    open spec fn view(&self) -> FrameView {
        FrameView { opcode: self.opcode, payload: self.payload@ }
    }
}

/// The frame that carries a text message.
pub open spec fn text_frame(text: Seq<char>) -> FrameView {
    FrameView { opcode: WS_OPCODE_TEXT_FIN, payload: text }
}

/// The frame that answers a ping: a pong without payload.
pub open spec fn pong_frame() -> FrameView {
    FrameView { opcode: WS_OPCODE_PONG_FIN, payload: Seq::empty() }
}

impl OutgoingFrame {
    /// The frame that carries a text message.
    pub fn text(payload: String) -> (frame: OutgoingFrame)
        ensures
            frame@ == text_frame(payload@),
            frame.opcode == 0x81,
            frame.payload@ == payload@,
    {
        assert(0x01u8 | 0x80u8 == 0x81u8) by (bit_vector);
        OutgoingFrame { opcode: WS_OPCODE_TEXT_FIN, payload }
    }

    /// The frame that answers a ping.
    pub fn pong() -> (frame: OutgoingFrame)
        ensures
            frame@ == pong_frame(),
            frame.opcode == 0x8A,
            frame.payload@.len() == 0,
    {
        assert(0x0Au8 | 0x80u8 == 0x8Au8) by (bit_vector);
        OutgoingFrame { opcode: WS_OPCODE_PONG_FIN, payload: String::new() }
    }
}

/// Calls `std::str::from_utf8`. It is trusted to accept exactly the bytes that are
/// UTF-8, and to give the characters that they encode.
#[verifier::external_body]
fn utf8_text(bytes: &[u8]) -> (text: Option<&str>)
    ensures
        text is Some <==> valid_utf8(bytes@),
        text is Some ==> text->0@ == decode_utf8(bytes@),
{
    std::str::from_utf8(bytes).ok()
}

/// What a frame with this opcode and these bytes is.
pub open spec fn frame_received(opcode: u8, bytes: Seq<u8>) -> ReceivedView {
    if opcode == WS_OPCODE_TEXT {
        if valid_utf8(bytes) {
            ReceivedView::Text(decode_utf8(bytes))
        } else {
            ReceivedView::NotUtf8
        }
    } else if opcode == WS_OPCODE_PING {
        ReceivedView::Ping
    } else if opcode == WS_OPCODE_CLOSE {
        ReceivedView::Close
    } else {
        ReceivedView::Ignored(opcode)
    }
}

/// What a read brought that returned `bytes_read` and left the frame's bytes at
/// the front of `buffer`.
pub open spec fn read_received(bytes_read: i32, opcode: u8, buffer: Seq<u8>) -> ReceivedView {
    if bytes_read > 0 {
        frame_received(opcode, buffer.take(bytes_read as int))
    } else if bytes_read == 0 {
        ReceivedView::PeerClosed
    } else if bytes_read == -1 {
        ReceivedView::Timeout
    } else {
        ReceivedView::ReadError(bytes_read)
    }
}

/// Tells what a read on the transport brought. A positive `bytes_read` is the
/// length of the frame at the front of `buffer`, and `opcode` is that frame's;
/// where `bytes_read` is not positive, `opcode` plays no part.
pub fn classify_read(bytes_read: i32, opcode: u8, buffer: &[u8]) -> (received: Received)
    requires
        opcode == WS_OPCODE_TEXT ==> bytes_read <= buffer@.len(),
    ensures
        received@ == read_received(bytes_read, opcode, buffer@),
        received matches Received::Text(text) ==> encode_utf8(text@) == buffer@.take(
            bytes_read as int,
        ),
{
    if bytes_read > 0 {
        if opcode == WS_OPCODE_TEXT {
            let frame = vstd::slice::slice_subrange(buffer, 0, bytes_read as usize);
            match utf8_text(frame) {
                Some(text) => {
                    proof {
                        decode_utf8_encode_utf8(frame@);
                    }
                    Received::Text(text.to_owned())
                },
                None => Received::NotUtf8,
            }
        } else if opcode == WS_OPCODE_PING {
            Received::Ping
        } else if opcode == WS_OPCODE_CLOSE {
            Received::Close
        } else {
            Received::Ignored(opcode)
        }
    } else if bytes_read == 0 {
        Received::PeerClosed
    } else if bytes_read == -1 {
        Received::Timeout
    } else {
        Received::ReadError(bytes_read)
    }
}

/// A text that was sent is read as it was sent: a text frame that holds the UTF-8
/// bytes of a text gives that text.
pub proof fn text_survives_the_wire(text: Seq<char>)
    ensures
        frame_received(WS_OPCODE_TEXT, encode_utf8(text)) == ReceivedView::Text(text),
{
    encode_utf8_valid_utf8(text);
    encode_utf8_decode_utf8(text);
}

/// A text is read whole: where the buffer begins with the UTF-8 bytes of a text and
/// the read returned their number, a text frame gives that text, whatever stands
/// behind it in the buffer.
pub proof fn text_is_read_whole(text: Seq<char>, bytes_read: i32, buffer: Seq<u8>)
    requires
        bytes_read > 0,
        bytes_read == encode_utf8(text).len(),
        encode_utf8(text).is_prefix_of(buffer),
    ensures
        read_received(bytes_read, 0x01, buffer) == ReceivedView::Text(text),
{
    assert(buffer.take(bytes_read as int) =~= encode_utf8(text));
    encode_utf8_valid_utf8(text);
    encode_utf8_decode_utf8(text);
}

/// What a read brought, told by its code, its opcode and its bytes: each case comes
/// exactly where it should, whatever the length of the frame, and a text that comes
/// in has the bytes of its frame.
pub proof fn reads_are_told_apart(bytes_read: i32, opcode: u8, buffer: Seq<u8>)
    ensures
        ({
            let received = read_received(bytes_read, opcode, buffer);
            let bytes = buffer.take(bytes_read as int);
            &&& received is Text <==> bytes_read > 0 && opcode == 0x01 && valid_utf8(bytes)
            &&& received is Text ==> encode_utf8(received->Text_0) == bytes
            &&& received is NotUtf8 <==> bytes_read > 0 && opcode == 0x01 && !valid_utf8(bytes)
            &&& received is Ping <==> bytes_read > 0 && opcode == 0x09
            &&& received is Close <==> bytes_read > 0 && opcode == 0x08
            &&& received is Ignored <==> bytes_read > 0 && opcode != 0x01 && opcode != 0x08
                && opcode != 0x09
            &&& received is Ignored ==> received->Ignored_0 == opcode
            &&& received is PeerClosed <==> bytes_read == 0
            &&& received is Timeout <==> bytes_read == -1
            &&& received is ReadError <==> bytes_read < -1
            &&& received is ReadError ==> received->ReadError_0 == bytes_read
        }),
{
    let bytes = buffer.take(bytes_read as int);
    if bytes_read > 0 && valid_utf8(bytes) {
        decode_utf8_encode_utf8(bytes);
    }
}

/// A frame that carries a text carries all of it, and is a whole message: its opcode
/// is that of a text and has the final bit, whatever the text. A pong is a whole
/// message without payload.
pub proof fn frames_are_whole_messages(text: Seq<char>)
    ensures
        text_frame(text).payload == text,
        text_frame(text).opcode == 0x81,
        text_frame(text).opcode & 0x0F == 0x01,
        text_frame(text).opcode & 0x80 == 0x80,
        pong_frame().payload.len() == 0,
        pong_frame().opcode == 0x8A,
        pong_frame().opcode & 0x0F == 0x0A,
        pong_frame().opcode & 0x80 == 0x80,
{
    assert(0x01u8 | 0x80u8 == 0x81u8) by (bit_vector);
    assert(0x0Au8 | 0x80u8 == 0x8Au8) by (bit_vector);
    assert(0x81u8 & 0x0Fu8 == 0x01u8 && 0x81u8 & 0x80u8 == 0x80u8) by (bit_vector);
    assert(0x8Au8 & 0x0Fu8 == 0x0Au8 && 0x8Au8 & 0x80u8 == 0x80u8) by (bit_vector);
}

/// The view of what a read brought keeps all that it holds.
pub proof fn received_view_keeps_all(received: Received)
    ensures
        received matches Received::Text(text) ==> received@ == ReceivedView::Text(text@),
        received matches Received::Ignored(opcode) ==> received@ == ReceivedView::Ignored(opcode),
        received matches Received::ReadError(code) ==> received@ == ReceivedView::ReadError(code),
{
}

/// The view of a frame keeps all that it holds.
pub proof fn frame_view_keeps_all(frame: OutgoingFrame)
    ensures
        frame@.opcode == frame.opcode,
        frame@.payload == frame.payload@,
{
}

} // verus!
