//! What HTTP takes as a method, a status code, a header name and a header value.

use crate::text;
use vstd::prelude::*;

verus! {

/// The most header names that a header map takes in.
pub const MOST_NAMES: usize = 24576;

/// The number of header names that a header map holds before it may refuse another header. It
/// does so from here on when the names collide, and at [`MOST_NAMES`] in any case.
pub const ROOM_FOR_NAMES: usize = 6554;

/// A header map of the `http` crate.
#[verifier::external_type_specification]
#[verifier::external_body]
#[verifier::reject_recursive_types(T)]
pub struct ExHeaderMap<T>(http::HeaderMap<T>);

/// The names in a header map of the `http` crate, in lower case.
pub uninterp spec fn names_in(map: http::HeaderMap<()>) -> Set<Seq<char>>;

/// Whether a character may stand in a token of HTTP.
pub open spec fn is_token_char(c: char) -> bool {
    ||| 'a' <= c <= 'z'
    ||| 'A' <= c <= 'Z'
    ||| '0' <= c <= '9'
    ||| c == '!' || c == '#' || c == '$' || c == '%' || c == '&' || c == '\'' || c == '*'
    ||| c == '+' || c == '-' || c == '.' || c == '^' || c == '_' || c == '`' || c == '|' || c == '~'
}

/// Whether a text is a token of HTTP.
pub open spec fn is_token(text: Seq<char>) -> bool {
    text.len() > 0 && forall|i: int| 0 <= i < text.len() ==> is_token_char(#[trigger] text[i])
}

/// Whether a number is a status code.
pub open spec fn is_status(code: u16) -> bool {
    100 <= code <= 999
}

/// Whether a text is a header name.
pub open spec fn is_header_name(text: Seq<char>) -> bool {
    is_token(text) && text.len() <= 65535
}

/// Whether a text can be sent as a header value: no ASCII control character but the tab.
pub open spec fn is_header_value(text: Seq<char>) -> bool {
    forall|i: int|
        0 <= i < text.len() ==> {
            let c = #[trigger] text[i];
            c == '\t' || (c >= ' ' && c != '\u{7f}')
        }
}

/// Whether a header value that came in is visible ASCII, spaces and tabs throughout.
pub open spec fn is_visible(value: Seq<u8>) -> bool {
    forall|i: int|
        0 <= i < value.len() ==> {
            let b = #[trigger] value[i];
            b == 9 || 32 <= b < 127
        }
}

/// The text of a header value that is visible ASCII.
pub open spec fn visible_text(value: Seq<u8>) -> Seq<char> {
    value.map_values(|b: u8| b as char)
}

/// Reads a method with the `FromStr` of `http::Method`, and gives back its name.
///
/// Trusted: a text is a method exactly when it is a token, and a method is named by the
/// text that it was read from.
#[verifier::external_body]
pub(crate) fn method_name(text: &str) -> (result: Option<String>)
    ensures
        match result {
            Some(name) => is_token(text@) && name@ == text@,
            None => !is_token(text@),
        },
{
    match text.parse::<http::Method>() {
        Ok(method) => Some(method.as_str().to_string()),
        Err(_) => None,
    }
}

/// Tries a number with `http::StatusCode::from_u16`.
///
/// Trusted: the numbers of three digits are status codes, and no others.
#[verifier::external_body]
pub(crate) fn status_accepted(code: u16) -> (result: bool)
    ensures
        result == is_status(code),
{
    http::StatusCode::from_u16(code).is_ok()
}

/// Tries a text with `http::HeaderName::from_bytes`.
///
/// Trusted: the tokens of at most 65535 characters are header names, and nothing else.
#[verifier::external_body]
pub(crate) fn header_name_accepted(name: &str) -> (result: bool)
    ensures
        result == is_header_name(name@),
{
    http::HeaderName::from_bytes(name.as_bytes()).is_ok()
}

/// Tries a text with `http::HeaderValue::from_str`.
///
/// Trusted: a text without ASCII control characters is a header value, a tab being allowed,
/// and nothing else. Characters beyond ASCII are all allowed.
#[verifier::external_body]
pub(crate) fn header_value_accepted(value: &str) -> (result: bool)
    ensures
        result == is_header_value(value@),
{
    http::HeaderValue::from_str(value).is_ok()
}

/// Makes an empty header map with the `Default` of `http::HeaderMap`.
///
/// Trusted: it holds no name.
#[verifier::external_body]
pub(crate) fn no_names() -> (result: http::HeaderMap<()>)
    ensures
        names_in(result) == Set::<Seq<char>>::empty(),
{
    http::HeaderMap::default()
}

/// Puts a header under a name with `http::HeaderMap::try_append`.
///
/// Trusted: a header that is taken in leaves its name in the map, in lower case, next to those
/// that were there; one that is refused leaves the map's names as they were. A map of
/// [`MOST_NAMES`] names takes in no header, not even under a name that it holds, and a map of
/// fewer than [`ROOM_FOR_NAMES`] takes in every one. What a map in between does is left
/// unsaid: it hangs on how the hashes of the names collide, which differs from machine to
/// machine.
#[verifier::external_body]
pub(crate) fn add_name(map: &mut http::HeaderMap<()>, name: &str) -> (result: bool)
    requires
        is_header_name(name@),
    ensures
        result ==> names_in(*old(map)).len() < MOST_NAMES,
        !result ==> names_in(*old(map)).len() >= ROOM_FOR_NAMES,
        names_in(*final(map)) == (if result {
            names_in(*old(map)).insert(text::lowercase(name@))
        } else {
            names_in(*old(map))
        }),
{
    match http::HeaderName::from_bytes(name.as_bytes()) {
        Ok(name) => map.try_append(name, ()).is_ok(),
        Err(_) => false,
    }
}

/// Reads the bytes of a header value as text with `http::HeaderValue::to_str`.
///
/// Trusted: it succeeds exactly when every byte is visible ASCII, a space or a tab, and
/// each byte becomes the character of the same value.
#[verifier::external_body]
pub(crate) fn header_text(value: &[u8]) -> (result: Option<String>)
    ensures
        match result {
            Some(text) => is_visible(value@) && text@ == visible_text(value@),
            None => !is_visible(value@),
        },
{
    match http::HeaderValue::from_bytes(value) {
        Ok(value) => match value.to_str() {
            Ok(text) => Some(text.to_string()),
            Err(_) => None,
        },
        Err(_) => None,
    }
}

} // verus!
