//! The messages that the lamp exchanges with its backend.

use crate::json::{json_string, literal_delimits_itself, literal_reads_back, string_literal};
use crate::json::{plain_string_stands_as_it_is, read_member, read_members, read_object};
use vstd::prelude::*;
use vstd::string::*;

verus! {

/// What the lamp says to the backend.
#[derive(Debug, Clone)]
pub enum OutgoingMessage {
    /// The greeting after boot.
    Hello { device_id: String },
    /// A text to be echoed.
    Echo { text: String },
}

/// What the backend says to the lamp.
#[derive(Debug)]
pub enum IncomingMessage {
    /// The greeting, as an echo server gives it back.
    Hello { device_id: String },
    /// A text.
    Echo { text: String },
    /// The command to hold the LED at a brightness.
    SetBrightness { percent: u8 },
}

/// An outgoing message, with its texts as sequences of characters.
pub enum OutgoingView {
    Hello { device_id: Seq<char> },
    Echo { text: Seq<char> },
}

impl View for OutgoingMessage {
    type V = OutgoingView;

    open spec fn view(&self) -> OutgoingView {
        match *self {
            OutgoingMessage::Hello { device_id } => OutgoingView::Hello { device_id: device_id@ },
            OutgoingMessage::Echo { text } => OutgoingView::Echo { text: text@ },
        }
    }
}

/// A member of a JSON object whose value is a string.
pub open spec fn member(key: Seq<char>, value: Seq<char>) -> Seq<char> {
    json_string(key) + ":"@ + json_string(value)
}

/// A JSON object that names its type under the key `type` and has one more member.
pub open spec fn tagged_object(tag: Seq<char>, key: Seq<char>, value: Seq<char>) -> Seq<char> {
    "{"@ + member("type"@, tag) + ","@ + member(key, value) + "}"@
}

/// The text of a message on the wire.
pub open spec fn wire_text(message: OutgoingView) -> Seq<char> {
    match message {
        OutgoingView::Hello { device_id } => tagged_object("Hello"@, "device_id"@, device_id),
        OutgoingView::Echo { text } => tagged_object("Echo"@, "text"@, text),
    }
}

/// Appends the JSON string literal of `text` to `out`.
fn push_literal(out: &mut String, text: &str)
    ensures
        final(out)@ == old(out)@ + json_string(text@),
{
    match string_literal(text) {
        Ok(literal) => out.append(literal.as_str()),
        // A string slice always has a literal.
        Err(_) => {},
    }
}

/// Appends the member `key`: `value` to `out`.
fn push_member(out: &mut String, key: &str, value: &str)
    ensures
        final(out)@ == old(out)@ + member(key@, value@),
{
    push_literal(out, key);
    out.append(":");
    push_literal(out, value);
    assert(out@ =~= old(out)@ + member(key@, value@));
}

/// Writes a tagged object.
fn write_tagged_object(tag: &str, key: &str, value: &str) -> (text: String)
    ensures
        text@ == tagged_object(tag@, key@, value@),
{
    let mut out = String::new();
    out.append("{");
    push_member(&mut out, "type", tag);
    out.append(",");
    push_member(&mut out, key, value);
    out.append("}");
    assert(out@ =~= tagged_object(tag@, key@, value@));
    out
}

impl OutgoingMessage {
    /// The text of the message on the wire.
    pub fn to_json(&self) -> (text: String)
        ensures
            text@ == wire_text(self@),
            *self matches OutgoingMessage::Hello { device_id } ==> text@
                == "{\"type\":\"Hello\",\"device_id\":"@ + json_string(device_id@) + "}"@,
            *self matches OutgoingMessage::Echo { text: said } ==> text@
                == "{\"type\":\"Echo\",\"text\":"@ + json_string(said@) + "}"@,
    {
        proof {
            wire_text_is_written_out(self@);
        }
        match self {
            OutgoingMessage::Hello { device_id } => {
                write_tagged_object("Hello", "device_id", device_id.as_str())
            },
            OutgoingMessage::Echo { text } => write_tagged_object("Echo", "text", text.as_str()),
        }
    }
}

/// Where two texts with the same beginning are equal, the rest is equal.
proof fn lemma_same_beginning(beginning: Seq<char>, a: Seq<char>, b: Seq<char>)
    requires
        beginning + a == beginning + b,
    ensures
        a == b,
{
    assert(a =~= (beginning + a).skip(beginning.len() as int));
    assert(b =~= (beginning + b).skip(beginning.len() as int));
}

/// A tagged object, read from the left, literal by literal.
proof fn lemma_tagged_object_from_left(tag: Seq<char>, key: Seq<char>, value: Seq<char>)
    ensures
        tagged_object(tag, key, value) == ("{"@ + json_string("type"@) + ":"@) + (json_string(tag)
            + (","@ + (json_string(key) + (":"@ + (json_string(value) + "}"@))))),
{
    broadcast use vstd::seq_lib::group_seq_properties;

    let (t, k, v) = (json_string(tag), json_string(key), json_string(value));
    let end = v + "}"@;
    assert((k + ":"@ + v) + "}"@ =~= k + (":"@ + end));
    assert(tagged_object(tag, key, value) =~= "{"@ + (json_string("type"@) + ":"@ + t) + ","@ + (k
        + (":"@ + end)));
    assert("{"@ + (json_string("type"@) + ":"@ + t) =~= ("{"@ + json_string("type"@) + ":"@) + t);
}

proof fn lemma_tagged_object_unique(
    tag_a: Seq<char>,
    key_a: Seq<char>,
    value_a: Seq<char>,
    tag_b: Seq<char>,
    key_b: Seq<char>,
    value_b: Seq<char>,
)
    requires
        tagged_object(tag_a, key_a, value_a) == tagged_object(tag_b, key_b, value_b),
    ensures
        tag_a == tag_b,
        key_a == key_b,
        value_a == value_b,
{
    let after_key_a = ":"@ + (json_string(value_a) + "}"@);
    let after_key_b = ":"@ + (json_string(value_b) + "}"@);
    let after_tag_a = ","@ + (json_string(key_a) + after_key_a);
    let after_tag_b = ","@ + (json_string(key_b) + after_key_b);
    lemma_tagged_object_from_left(tag_a, key_a, value_a);
    lemma_tagged_object_from_left(tag_b, key_b, value_b);
    lemma_same_beginning(
        "{"@ + json_string("type"@) + ":"@,
        json_string(tag_a) + after_tag_a,
        json_string(tag_b) + after_tag_b,
    );
    literal_delimits_itself(tag_a, tag_b, after_tag_a, after_tag_b);
    lemma_same_beginning(
        ","@,
        json_string(key_a) + after_key_a,
        json_string(key_b) + after_key_b,
    );
    literal_delimits_itself(key_a, key_b, after_key_a, after_key_b);
    lemma_same_beginning(":"@, json_string(value_a) + "}"@, json_string(value_b) + "}"@);
    literal_delimits_itself(value_a, value_b, "}"@, "}"@);
}

/// The wire loses nothing: messages with the same text on the wire are the same
/// message.
pub proof fn wire_text_is_lossless(a: OutgoingView, b: OutgoingView)
    requires
        wire_text(a) == wire_text(b),
    ensures
        a == b,
{
    reveal_strlit("Hello");
    reveal_strlit("Echo");
    assert("Hello"@.len() != "Echo"@.len());
    match (a, b) {
        (OutgoingView::Hello { device_id: x }, OutgoingView::Hello { device_id: y }) => {
            lemma_tagged_object_unique("Hello"@, "device_id"@, x, "Hello"@, "device_id"@, y);
        },
        (OutgoingView::Hello { device_id: x }, OutgoingView::Echo { text: y }) => {
            lemma_tagged_object_unique("Hello"@, "device_id"@, x, "Echo"@, "text"@, y);
        },
        (OutgoingView::Echo { text: x }, OutgoingView::Hello { device_id: y }) => {
            lemma_tagged_object_unique("Echo"@, "text"@, x, "Hello"@, "device_id"@, y);
        },
        (OutgoingView::Echo { text: x }, OutgoingView::Echo { text: y }) => {
            lemma_tagged_object_unique("Echo"@, "text"@, x, "Echo"@, "text"@, y);
        },
    }
}

proof fn lemma_keys_are_plain()
    ensures
        json_string("type"@) == "\"type\""@,
        json_string("Hello"@) == "\"Hello\""@,
        json_string("device_id"@) == "\"device_id\""@,
        json_string("Echo"@) == "\"Echo\""@,
        json_string("text"@) == "\"text\""@,
{
    reveal_strlit("type");
    reveal_strlit("Hello");
    reveal_strlit("device_id");
    reveal_strlit("Echo");
    reveal_strlit("text");
    reveal_strlit("\"type\"");
    reveal_strlit("\"Hello\"");
    reveal_strlit("\"device_id\"");
    reveal_strlit("\"Echo\"");
    reveal_strlit("\"text\"");
    plain_string_stands_as_it_is("type"@);
    plain_string_stands_as_it_is("Hello"@);
    plain_string_stands_as_it_is("device_id"@);
    plain_string_stands_as_it_is("Echo"@);
    plain_string_stands_as_it_is("text"@);
    assert(json_string("type"@) =~= "\"type\""@);
    assert(json_string("Hello"@) =~= "\"Hello\""@);
    assert(json_string("device_id"@) =~= "\"device_id\""@);
    assert(json_string("Echo"@) =~= "\"Echo\""@);
    assert(json_string("text"@) =~= "\"text\""@);
}

proof fn lemma_beginnings()
    ensures
        "{"@ + ("\"type\""@ + ":"@ + "\"Hello\""@) + ","@ + ("\"device_id\""@ + ":"@)
            == "{\"type\":\"Hello\",\"device_id\":"@,
        "{"@ + ("\"type\""@ + ":"@ + "\"Echo\""@) + ","@ + ("\"text\""@ + ":"@)
            == "{\"type\":\"Echo\",\"text\":"@,
{
    reveal_strlit("{");
    reveal_strlit(":");
    reveal_strlit(",");
    reveal_strlit("\"type\"");
    reveal_strlit("\"Hello\"");
    reveal_strlit("\"device_id\"");
    reveal_strlit("\"Echo\"");
    reveal_strlit("\"text\"");
    reveal_strlit("{\"type\":\"Hello\",\"device_id\":");
    reveal_strlit("{\"type\":\"Echo\",\"text\":");
    assert("{"@ + ("\"type\""@ + ":"@ + "\"Hello\""@) + ","@ + ("\"device_id\""@ + ":"@)
        =~= "{\"type\":\"Hello\",\"device_id\":"@);
    assert("{"@ + ("\"type\""@ + ":"@ + "\"Echo\""@) + ","@ + ("\"text\""@ + ":"@)
        =~= "{\"type\":\"Echo\",\"text\":"@);
}

/// The text of every message on the wire, written out.
pub proof fn wire_text_is_written_out(message: OutgoingView)
    ensures
        message matches OutgoingView::Hello { device_id } ==> wire_text(message)
            == "{\"type\":\"Hello\",\"device_id\":"@ + json_string(device_id) + "}"@,
        message matches OutgoingView::Echo { text } ==> wire_text(message)
            == "{\"type\":\"Echo\",\"text\":"@ + json_string(text) + "}"@,
{
    lemma_keys_are_plain();
    lemma_beginnings();
    match message {
        OutgoingView::Hello { device_id } => {
            let beginning = "{"@ + ("\"type\""@ + ":"@ + "\"Hello\""@) + ","@ + ("\"device_id\""@
                + ":"@);
            assert(wire_text(message) =~= beginning + json_string(device_id) + "}"@);
        },
        OutgoingView::Echo { text } => {
            let beginning = "{"@ + ("\"type\""@ + ":"@ + "\"Echo\""@) + ","@ + ("\"text\""@ + ":"@);
            assert(wire_text(message) =~= beginning + json_string(text) + "}"@);
        },
    }
}

proof fn lemma_member_reads_back(key: Seq<char>, value: Seq<char>, after: Seq<char>)
    ensures
        read_member(json_string(key) + (":"@ + (json_string(value) + after))) == Some(
            ((key, value), after),
        ),
{
    reveal_strlit(":");
    let rest = ":"@ + (json_string(value) + after);
    literal_reads_back(key, rest);
    assert(rest.skip(1) =~= json_string(value) + after);
    literal_reads_back(value, after);
}

proof fn lemma_tagged_object_reads_back(tag: Seq<char>, key: Seq<char>, value: Seq<char>)
    ensures
        read_object(tagged_object(tag, key, value)) == Some(seq![("type"@, tag), (key, value)]),
{
    reveal_strlit("{");
    reveal_strlit(",");
    reveal_strlit("}");
    let second = json_string(key) + (":"@ + (json_string(value) + "}"@));
    let first = json_string("type"@) + (":"@ + (json_string(tag) + (","@ + second)));
    lemma_tagged_object_from_left(tag, key, value);
    let text = tagged_object(tag, key, value);
    assert(text =~= "{"@ + first);
    assert(text.skip(1) =~= first);
    lemma_member_reads_back("type"@, tag, ","@ + second);
    lemma_member_reads_back(key, value, "}"@);
    assert("}"@ =~= seq!['}']);
    assert(read_members(second) == Some(seq![(key, value)]));
    assert((","@ + second).skip(1) =~= second);
    assert((","@ + second)[0] == ',');
    assert(seq!['}'][0] == '}');
    assert(seq![("type"@, tag)] + seq![(key, value)] =~= seq![("type"@, tag), (key, value)]);
}

/// A reader of JSON reads every message back: from its text on the wire it reads an
/// object whose members are the type, which is the name of the message, and the
/// message's own member under its name, and no more.
pub proof fn message_reads_back(message: OutgoingView)
    ensures
        message matches OutgoingView::Hello { device_id } ==> read_object(wire_text(message))
            == Some(seq![("type"@, "Hello"@), ("device_id"@, device_id)]),
        message matches OutgoingView::Echo { text } ==> read_object(wire_text(message)) == Some(
            seq![("type"@, "Echo"@), ("text"@, text)],
        ),
{
    match message {
        OutgoingView::Hello { device_id } => {
            lemma_tagged_object_reads_back("Hello"@, "device_id"@, device_id);
        },
        OutgoingView::Echo { text } => {
            lemma_tagged_object_reads_back("Echo"@, "text"@, text);
        },
    }
}

/// The view of a message keeps all that it holds.
pub proof fn message_view_keeps_all(message: OutgoingMessage)
    ensures
        message matches OutgoingMessage::Hello { device_id } ==> message@ == (OutgoingView::Hello {
            device_id: device_id@,
        }),
        message matches OutgoingMessage::Echo { text } ==> message@ == (OutgoingView::Echo {
            text: text@,
        }),
{
}

} // verus!
