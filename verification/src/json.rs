//! JSON texts of a single string member.

use vstd::prelude::*;

verus! {

/// The lower-case hexadecimal digit of a value below sixteen.
pub open spec fn hex_digit(value: nat) -> char {
    if value < 10 {
        ('0' as nat + value) as char
    } else {
        ('a' as nat + value - 10) as char
    }
}

/// How a character is written inside a JSON string.
pub open spec fn escaped(c: char) -> Seq<char> {
    if c == '"' || c == '\\' {
        seq!['\\', c]
    } else if c == '\u{8}' {
        seq!['\\', 'b']
    } else if c == '\t' {
        seq!['\\', 't']
    } else if c == '\n' {
        seq!['\\', 'n']
    } else if c == '\u{c}' {
        seq!['\\', 'f']
    } else if c == '\r' {
        seq!['\\', 'r']
    } else if c as nat <= 0x1f {
        seq!['\\', 'u', '0', '0', hex_digit(c as nat / 16), hex_digit(c as nat % 16)]
    } else {
        seq![c]
    }
}

/// The inside of the JSON string for a text.
pub open spec fn escaped_text(text: Seq<char>) -> Seq<char>
    decreases text.len(),
{
    if text.len() == 0 {
        seq![]
    } else {
        escaped(text[0]) + escaped_text(text.drop_first())
    }
}

/// A text as a JSON string.
pub open spec fn quoted(text: Seq<char>) -> Seq<char> {
    seq!['"'] + escaped_text(text) + seq!['"']
}

/// A JSON object with one member, whose value is a string.
pub open spec fn object_text(key: Seq<char>, value: Seq<char>) -> Seq<char> {
    seq!['{'] + quoted(key) + seq![':'] + quoted(value) + seq!['}']
}

/// Writes a JSON object with one member by way of `serde_json::Value`, whose `Display`
/// gives the compact form.
///
/// Trusted: the text has no white space between its tokens, and the key and the value
/// stand in double quotes, with the quote, the backslash and the characters below the
/// space escaped and every other character as it is.
#[verifier::external_body]
pub(crate) fn object(key: &str, value: &str) -> (result: String)
    ensures
        result@ == object_text(key@, value@),
{
    let mut members = serde_json::Map::new();
    members.insert(key.to_string(), serde_json::Value::String(value.to_string()));
    serde_json::Value::Object(members).to_string()
}

} // verus!
