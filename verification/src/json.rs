//! String literals of JSON, as they go out on the wire.

use vstd::prelude::*;

verus! {

/// The lower-case hexadecimal digit of `d`.
pub open spec fn hex_digit(d: int) -> char {
    if d < 10 {
        (d + '0' as int) as char
    } else {
        (d - 10 + 'a' as int) as char
    }
}

/// How one character stands inside a JSON string literal: the quote, the
/// backslash and the control characters are escaped, all others stand as they are.
pub open spec fn escaped(c: char) -> Seq<char> {
    let code = c as int;
    if c == '"' || c == '\\' {
        seq!['\\', c]
    } else if code == 0x08 {
        seq!['\\', 'b']
    } else if code == 0x09 {
        seq!['\\', 't']
    } else if code == 0x0A {
        seq!['\\', 'n']
    } else if code == 0x0C {
        seq!['\\', 'f']
    } else if code == 0x0D {
        seq!['\\', 'r']
    } else if code < 0x20 {
        seq!['\\', 'u', '0', '0', hex_digit(code / 16), hex_digit(code % 16)]
    } else {
        seq![c]
    }
}

/// The characters of `text`, each escaped, one after the other.
pub open spec fn escaped_text(text: Seq<char>) -> Seq<char>
    decreases text.len(),
{
    if text.len() == 0 {
        Seq::empty()
    } else {
        escaped(text[0]) + escaped_text(text.drop_first())
    }
}

/// The JSON string literal of `text`, quotes included.
pub open spec fn json_string(text: Seq<char>) -> Seq<char> {
    seq!['"'] + escaped_text(text) + seq!['"']
}

/// The error of `serde_json`, which is only carried.
#[verifier::external_type_specification]
#[verifier::external_body]
pub struct ExJsonError(serde_json::Error);

/// Calls `serde_json::to_string` on a string slice. It is trusted to succeed and
/// to give the JSON string literal of the slice: a quote, each character escaped
/// as `escaped` says, and a quote.
#[verifier::external_body]
pub(crate) fn string_literal(text: &str) -> (literal: Result<String, serde_json::Error>)
    ensures
        literal is Ok,
        literal->Ok_0@ == json_string(text@),
{
    serde_json::to_string(text)
}

/// Two escaped characters that begin the same text are the same character, and
/// the same text follows them.
proof fn lemma_escaped_unique(c: char, d: char, after_c: Seq<char>, after_d: Seq<char>)
    requires
        escaped(c) + after_c == escaped(d) + after_d,
    ensures
        c == d,
        after_c == after_d,
{
    let left = escaped(c) + after_c;
    let right = escaped(d) + after_d;
    assert(left[0] == right[0]);
    if escaped(c).len() > 1 && escaped(d).len() > 1 {
        assert(left[1] == right[1]);
        if escaped(c).len() == 6 && escaped(d).len() == 6 {
            assert(left[4] == right[4]);
            assert(left[5] == right[5]);
        }
    }
    assert(c == d);
    assert(after_c =~= left.skip(escaped(c).len() as int));
    assert(after_d =~= right.skip(escaped(d).len() as int));
}

proof fn lemma_escaped_text_unique(a: Seq<char>, b: Seq<char>, after_a: Seq<char>, after_b: Seq<char>)
    requires
        escaped_text(a) + seq!['"'] + after_a == escaped_text(b) + seq!['"'] + after_b,
    ensures
        a == b,
        after_a == after_b,
    decreases a.len(),
{
    let left = escaped_text(a) + seq!['"'] + after_a;
    let right = escaped_text(b) + seq!['"'] + after_b;
    assert(left[0] == right[0]);
    if a.len() > 0 && b.len() > 0 {
        let rest_a = escaped_text(a.drop_first()) + seq!['"'] + after_a;
        let rest_b = escaped_text(b.drop_first()) + seq!['"'] + after_b;
        assert(left =~= escaped(a[0]) + rest_a);
        assert(right =~= escaped(b[0]) + rest_b);
        lemma_escaped_unique(a[0], b[0], rest_a, rest_b);
        lemma_escaped_text_unique(a.drop_first(), b.drop_first(), after_a, after_b);
        assert(a =~= seq![a[0]] + a.drop_first());
        assert(b =~= seq![b[0]] + b.drop_first());
    } else {
        assert(a =~= b);
        assert(after_a =~= left.skip(1));
        assert(after_b =~= right.skip(1));
    }
}

/// A string literal delimits itself: where two texts begin with a literal and are
/// equal, the literals are of the same string and the same text follows them.
pub proof fn literal_delimits_itself(
    a: Seq<char>,
    b: Seq<char>,
    after_a: Seq<char>,
    after_b: Seq<char>,
)
    requires
        json_string(a) + after_a == json_string(b) + after_b,
    ensures
        a == b,
        after_a == after_b,
{
    assert((json_string(a) + after_a).skip(1) =~= escaped_text(a) + seq!['"'] + after_a);
    assert((json_string(b) + after_b).skip(1) =~= escaped_text(b) + seq!['"'] + after_b);
    lemma_escaped_text_unique(a, b, after_a, after_b);
}

// ---- A reader of JSON texts (RFC 8259, sections 4 and 7) ----

/// The value of a hexadecimal digit of either case.
pub open spec fn hex_value(c: char) -> Option<int> {
    if '0' <= c <= '9' {
        Some(c as int - '0' as int)
    } else if 'a' <= c <= 'f' {
        Some(c as int - 'a' as int + 10)
    } else if 'A' <= c <= 'F' {
        Some(c as int - 'A' as int + 10)
    } else {
        None
    }
}

/// The character that four hexadecimal digits name, where they name one.
pub open spec fn read_code(text: Seq<char>) -> Option<char> {
    match (hex_value(text[0]), hex_value(text[1]), hex_value(text[2]), hex_value(text[3])) {
        (Some(a), Some(b), Some(c), Some(d)) => {
            let code = ((a * 16 + b) * 16 + c) * 16 + d;
            if 0xD800 <= code <= 0xDFFF {
                None
            } else {
                Some(code as char)
            }
        },
        _ => None,
    }
}

/// Reads one character inside a string literal, escaped or not, and gives it with
/// the text behind it.
pub open spec fn read_char(text: Seq<char>) -> Option<(char, Seq<char>)> {
    if text.len() == 0 || text[0] == '"' || (text[0] as int) < 0x20 {
        None
    } else if text[0] != '\\' {
        Some((text[0], text.skip(1)))
    } else if text.len() < 2 {
        None
    } else if text[1] == '"' || text[1] == '\\' || text[1] == '/' {
        Some((text[1], text.skip(2)))
    } else if text[1] == 'b' {
        Some((0x08int as char, text.skip(2)))
    } else if text[1] == 'f' {
        Some((0x0Cint as char, text.skip(2)))
    } else if text[1] == 'n' {
        Some((0x0Aint as char, text.skip(2)))
    } else if text[1] == 'r' {
        Some((0x0Dint as char, text.skip(2)))
    } else if text[1] == 't' {
        Some((0x09int as char, text.skip(2)))
    } else if text[1] == 'u' && text.len() >= 6 {
        match read_code(text.subrange(2, 6)) {
            Some(c) => Some((c, text.skip(6))),
            None => None,
        }
    } else {
        None
    }
}

/// Reads the characters of a string literal up to its closing quote, and gives them
/// with the text behind the quote.
pub open spec fn read_chars(text: Seq<char>) -> Option<(Seq<char>, Seq<char>)>
    decreases text.len(),
{
    if text.len() > 0 && text[0] == '"' {
        Some((Seq::empty(), text.skip(1)))
    } else {
        match read_char(text) {
            Some((c, rest)) => if rest.len() < text.len() {
                match read_chars(rest) {
                    Some((chars, after)) => Some((seq![c] + chars, after)),
                    None => None,
                }
            } else {
                None
            },
            None => None,
        }
    }
}

/// Reads a string literal, and gives its string with the text behind it.
pub open spec fn read_string(text: Seq<char>) -> Option<(Seq<char>, Seq<char>)> {
    if text.len() > 0 && text[0] == '"' {
        read_chars(text.skip(1))
    } else {
        None
    }
}

/// Reads a member whose value is a string, and gives it with the text behind it.
pub open spec fn read_member(text: Seq<char>) -> Option<((Seq<char>, Seq<char>), Seq<char>)> {
    match read_string(text) {
        Some((key, rest)) => if rest.len() > 0 && rest[0] == ':' {
            match read_string(rest.skip(1)) {
                Some((value, after)) => Some(((key, value), after)),
                None => None,
            }
        } else {
            None
        },
        None => None,
    }
}

/// Reads members up to the brace that closes the object and the text.
pub open spec fn read_members(text: Seq<char>) -> Option<Seq<(Seq<char>, Seq<char>)>>
    decreases text.len(),
{
    match read_member(text) {
        Some((first, after)) => if after == seq!['}'] {
            Some(seq![first])
        } else if 0 < after.len() <= text.len() && after[0] == ',' {
            match read_members(after.skip(1)) {
                Some(others) => Some(seq![first] + others),
                None => None,
            }
        } else {
            None
        },
        None => None,
    }
}

/// Reads an object whose members are strings, written without spaces: its keys and
/// values, in order.
pub open spec fn read_object(text: Seq<char>) -> Option<Seq<(Seq<char>, Seq<char>)>> {
    if text.len() > 0 && text[0] == '{' {
        read_members(text.skip(1))
    } else {
        None
    }
}

proof fn lemma_hex_value(d: int)
    requires
        0 <= d < 16,
    ensures
        hex_value(hex_digit(d)) == Some(d),
{
}

proof fn lemma_escaped_reads_back(c: char, after: Seq<char>)
    ensures
        read_char(escaped(c) + after) == Some((c, after)),
        escaped(c).len() > 0,
        escaped(c)[0] != '"',
{
    let text = escaped(c) + after;
    let n = escaped(c).len() as int;
    assert(text.skip(n) =~= after);
    if n == 6 {
        let code = c as int;
        lemma_hex_value(code / 16);
        lemma_hex_value(code % 16);
        lemma_hex_value(0);
        let hex = text.subrange(2, 6);
        assert(hex[0] == '0' && hex[1] == '0');
        assert(hex[2] == hex_digit(code / 16));
        assert(hex[3] == hex_digit(code % 16));
        assert(read_code(hex) == Some(c));
    }
}

proof fn lemma_escaped_text_reads_back(string: Seq<char>, after: Seq<char>)
    ensures
        read_chars(escaped_text(string) + seq!['"'] + after) == Some((string, after)),
    decreases string.len(),
{
    let text = escaped_text(string) + seq!['"'] + after;
    if string.len() == 0 {
        assert(text.skip(1) =~= after);
        assert(string =~= Seq::<char>::empty());
    } else {
        let others = string.drop_first();
        let rest = escaped_text(others) + seq!['"'] + after;
        assert(text =~= escaped(string[0]) + rest);
        lemma_escaped_reads_back(string[0], rest);
        lemma_escaped_text_reads_back(others, after);
        assert(seq![string[0]] + others =~= string);
    }
}

/// A string literal reads back: a reader of JSON reads from the literal of a string
/// that string, whatever its characters, and goes on behind the literal.
pub proof fn literal_reads_back(string: Seq<char>, after: Seq<char>)
    ensures
        read_string(json_string(string) + after) == Some((string, after)),
{
    let text = json_string(string) + after;
    assert(text.skip(1) =~= escaped_text(string) + seq!['"'] + after);
    lemma_escaped_text_reads_back(string, after);
}

/// A string of characters that need no escape stands in its literal as it is.
pub proof fn plain_string_stands_as_it_is(string: Seq<char>)
    requires
        forall|i: int|
            0 <= i < string.len() ==> #[trigger] string[i] as int >= 0x20 && string[i] != '"'
                && string[i] != '\\',
    ensures
        json_string(string) == seq!['"'] + string + seq!['"'],
{
    lemma_plain_text(string);
}

proof fn lemma_plain_text(string: Seq<char>)
    requires
        forall|i: int|
            0 <= i < string.len() ==> #[trigger] string[i] as int >= 0x20 && string[i] != '"'
                && string[i] != '\\',
    ensures
        escaped_text(string) == string,
    decreases string.len(),
{
    if string.len() == 0 {
        assert(escaped_text(string) =~= string);
    } else {
        let others = string.drop_first();
        assert forall|i: int| 0 <= i < others.len() implies #[trigger] others[i] as int >= 0x20
            && others[i] != '"' && others[i] != '\\' by {
            assert(others[i] == string[i + 1]);
        }
        lemma_plain_text(others);
        assert(escaped_text(string) =~= string);
    }
}

} // verus!
