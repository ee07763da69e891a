//! Query strings.

use crate::fields;
use crate::text;
use vstd::prelude::*;

verus! {

/// The value of a hexadecimal digit.
pub open spec fn hex_value(b: u8) -> Option<u8> {
    if '0' as u8 <= b <= '9' as u8 {
        Some((b - '0' as u8) as u8)
    } else if 'A' as u8 <= b <= 'F' as u8 {
        Some((b - 'A' as u8 + 10) as u8)
    } else if 'a' as u8 <= b <= 'f' as u8 {
        Some((b - 'a' as u8 + 10) as u8)
    } else {
        None
    }
}

/// Bytes with each escape, a percent sign and two hexadecimal digits, replaced by the byte
/// that it stands for. A percent sign that starts no escape is kept.
pub open spec fn percent_decoded(bytes: Seq<u8>) -> Seq<u8>
    decreases bytes.len(),
{
    if bytes.len() == 0 {
        seq![]
    } else if bytes.len() >= 3 && bytes[0] == '%' as u8 && hex_value(bytes[1]) is Some && hex_value(
        bytes[2],
    ) is Some {
        seq![(hex_value(bytes[1])->0 * 16 + hex_value(bytes[2])->0) as u8] + percent_decoded(
            bytes.skip(3),
        )
    } else {
        seq![bytes[0]] + percent_decoded(bytes.skip(1))
    }
}

/// A query component as the handler sees it: decoded, or as it came when its escapes do
/// not decode to UTF-8.
pub open spec fn component(raw: Seq<char>) -> Seq<char> {
    let bytes = percent_decoded(vstd::utf8::encode_utf8(raw));
    if vstd::utf8::valid_utf8(bytes) {
        vstd::utf8::decode_utf8(bytes)
    } else {
        raw
    }
}

/// Whether a byte stands for itself in percent-encoded text.
pub open spec fn is_unreserved(b: u8) -> bool {
    ||| '0' as u8 <= b <= '9' as u8
    ||| 'A' as u8 <= b <= 'Z' as u8
    ||| 'a' as u8 <= b <= 'z' as u8
    ||| b == '-' as u8 || b == '.' as u8 || b == '_' as u8 || b == '~' as u8
}

/// The hexadecimal digit of a value, in upper case.
pub open spec fn hex_digit(value: u8) -> u8 {
    if value < 10 {
        ('0' as u8 + value) as u8
    } else {
        ('A' as u8 + (value - 10)) as u8
    }
}

/// Bytes with each one that does not stand for itself replaced by its escape.
pub open spec fn escaped(bytes: Seq<u8>) -> Seq<u8>
    decreases bytes.len(),
{
    if bytes.len() == 0 {
        seq![]
    } else if is_unreserved(bytes[0]) {
        seq![bytes[0]] + escaped(bytes.skip(1))
    } else {
        seq!['%' as u8, hex_digit(bytes[0] / 16), hex_digit(bytes[0] % 16)] + escaped(bytes.skip(1))
    }
}

/// The percent-encoded form of a text.
pub open spec fn encoded(text: Seq<char>) -> Seq<char> {
    escaped(vstd::utf8::encode_utf8(text)).map_values(|b: u8| b as char)
}

/// The place of the first occurrence of a character, or the length of the text.
pub open spec fn place_of(c: char, text: Seq<char>) -> nat
    decreases text.len(),
{
    if text.len() == 0 || text[0] == c {
        0
    } else {
        1 + place_of(c, text.drop_first())
    }
}

/// The pieces of a text between the occurrences of a separator.
pub open spec fn pieces(text: Seq<char>, separator: char) -> Seq<Seq<char>>
    decreases text.len(),
{
    let at = place_of(separator, text);
    if at < text.len() {
        seq![text.take(at as int)] + pieces(text.skip(at as int + 1), separator)
    } else {
        seq![text]
    }
}

/// The parameter that a piece of a query string stands for, as it was sent. What stands
/// before the first `=` is its key and what follows is its value, which is empty where there
/// is no `=`. A piece without a key stands for none.
pub open spec fn raw_parameter() -> spec_fn(Seq<char>) -> Option<fields::Field> {
    |piece: Seq<char>|
        {
            let at = place_of('=', piece);
            if at == 0 {
                None
            } else if at < piece.len() {
                Some((piece.take(at as int), piece.skip(at as int + 1)))
            } else {
                Some((piece, seq![]))
            }
        }
}

/// The parameters of a query string as they were sent, in order.
pub open spec fn raw_parameters(raw: Seq<char>) -> Seq<fields::Field> {
    pieces(raw, '&').filter_map(raw_parameter())
}

/// The parameters of a query string as the handler sees them, in order.
pub open spec fn parameters(raw: Seq<char>) -> Seq<fields::Field> {
    raw_parameters(raw).map_values(|field: fields::Field| (component(field.0), component(field.1)))
}

/// Decodes a text with `urlencoding::decode`.
///
/// Trusted: every escape in the UTF-8 encoding of the text is replaced by its byte and all
/// else is kept, a plus sign too. It succeeds exactly when the bytes that come out are valid
/// UTF-8, and gives the text that they encode.
#[verifier::external_body]
pub(crate) fn percent_decode(raw: &str) -> (result: Option<String>)
    ensures
        match result {
            Some(text) => vstd::utf8::encode_utf8(text@) == percent_decoded(
                vstd::utf8::encode_utf8(raw@),
            ),
            None => !vstd::utf8::valid_utf8(percent_decoded(vstd::utf8::encode_utf8(raw@))),
        },
{
    match urlencoding::decode(raw) {
        Ok(text) => Some(text.into_owned()),
        Err(_) => None,
    }
}

/// Percent-decodes one query component.
///
/// A component whose escapes decode to bytes that are not UTF-8 is passed through verbatim,
/// so the handler sees what the client sent and can decide for itself.
pub fn decode_component(raw: &str) -> (result: String)
    ensures
        result@ == component(raw@),
{
    match percent_decode(raw) {
        Some(decoded) => {
            proof {
                vstd::utf8::encode_utf8_valid_utf8(decoded@);
                vstd::utf8::encode_utf8_decode_utf8(decoded@);
            }
            decoded
        },
        None => raw.to_owned(),
    }
}

pub(crate) proof fn lemma_place_bounds(c: char, text: Seq<char>)
    ensures
        0 <= place_of(c, text) <= text.len(),
        place_of(c, text) == text.len() <==> !text.contains(c),
    decreases text.len(),
{
    if text.len() > 0 && text[0] != c {
        lemma_place_bounds(c, text.drop_first());
        if text.contains(c) {
            let i = choose|i: int| 0 <= i < text.len() && text[i] == c;
            assert(text.drop_first()[i - 1] == c);
        }
        if text.drop_first().contains(c) {
            let i = choose|i: int|
                0 <= i < text.drop_first().len() && text.drop_first()[i] == c;
            assert(text[i + 1] == c);
        }
    } else if text.len() > 0 {
        assert(text[0] == c);
    }
}

/// Where a text is cut at the first occurrence of a character.
pub(crate) proof fn lemma_place_after(c: char, before: Seq<char>, after: Seq<char>)
    requires
        !before.contains(c),
    ensures
        place_of(c, before + seq![c] + after) == before.len(),
    decreases before.len(),
{
    let whole = before + seq![c] + after;
    if before.len() > 0 {
        assert(before.contains(before[0]));
        assert(whole.drop_first() =~= before.drop_first() + seq![c] + after);
        assert forall|i: int| 0 <= i < before.drop_first().len() implies before.drop_first()[i]
            != c by {
            assert(before.contains(before[i + 1]));
        }
        lemma_place_after(c, before.drop_first(), after);
    }
}

proof fn lemma_pieces_step(before: Seq<char>, after: Seq<char>, separator: char)
    requires
        !before.contains(separator),
    ensures
        pieces(before + seq![separator] + after, separator) == seq![before] + pieces(
            after,
            separator,
        ),
{
    let whole = before + seq![separator] + after;
    lemma_place_after(separator, before, after);
    assert(whole.take(before.len() as int) =~= before);
    assert(whole.skip(before.len() as int + 1) =~= after);
}

/// Bytes without a percent sign decode to themselves.
pub(crate) proof fn lemma_no_escape(bytes: Seq<u8>)
    requires
        forall|i: int| 0 <= i < bytes.len() ==> #[trigger] bytes[i] != '%' as u8,
    ensures
        percent_decoded(bytes) == bytes,
    decreases bytes.len(),
{
    if bytes.len() > 0 {
        assert(bytes.skip(1) =~= bytes.drop_first());
        lemma_no_escape(bytes.skip(1));
        assert(seq![bytes[0]] + bytes.skip(1) =~= bytes);
    } else {
        assert(percent_decoded(bytes) =~= bytes);
    }
}

/// A component without a percent sign is what it was sent as, plus signs included.
pub proof fn law_plain_component(raw: Seq<char>)
    requires
        !raw.contains('%'),
    ensures
        component(raw) == raw,
{
    let bytes = vstd::utf8::encode_utf8(raw);
    assert forall|i: int| 0 <= i < bytes.len() implies #[trigger] bytes[i] != '%' as u8 by {
        if bytes[i] == '%' as u8 {
            let k = text::lemma_ascii_byte(raw, i);
            assert('%' as u8 as char == '%');
            assert(raw.contains(raw[k]));
        }
    }
    lemma_no_escape(bytes);
    vstd::utf8::encode_utf8_valid_utf8(raw);
    vstd::utf8::encode_utf8_decode_utf8(raw);
}

pub(crate) proof fn lemma_escaped(bytes: Seq<u8>)
    ensures
        percent_decoded(escaped(bytes)) == bytes,
        forall|i: int|
            0 <= i < escaped(bytes).len() ==> {
                let b = #[trigger] escaped(bytes)[i];
                b == '%' as u8 || is_unreserved(b)
            },
    decreases bytes.len(),
{
    if bytes.len() > 0 {
        let rest = escaped(bytes.skip(1));
        lemma_escaped(bytes.skip(1));
        assert(seq![bytes[0]] + bytes.skip(1) =~= bytes);
        if is_unreserved(bytes[0]) {
            assert(escaped(bytes).skip(1) =~= rest);
        } else {
            assert(escaped(bytes).skip(3) =~= rest);
            assert(hex_value(hex_digit(bytes[0] / 16)) == Some(bytes[0] / 16));
            assert(hex_value(hex_digit(bytes[0] % 16)) == Some(bytes[0] % 16));
            assert(bytes[0] / 16 * 16 + bytes[0] % 16 == bytes[0]);
        }
    } else {
        assert(percent_decoded(escaped(bytes)) =~= bytes);
    }
}

pub(crate) proof fn lemma_encoded(text: Seq<char>)
    ensures
        vstd::utf8::encode_utf8(encoded(text)) == escaped(vstd::utf8::encode_utf8(text)),
        forall|i: int|
            0 <= i < encoded(text).len() ==> {
                let c = #[trigger] encoded(text)[i];
                c != '&' && c != '='
            },
{
    let bytes = escaped(vstd::utf8::encode_utf8(text));
    lemma_escaped(vstd::utf8::encode_utf8(text));
    assert forall|i: int| 0 <= i < encoded(text).len() implies {
        let c = #[trigger] encoded(text)[i];
        c as u32 == bytes[i] as u32 && c < '\u{80}' && c != '&' && c != '='
    } by {
        let b = bytes[i];
        assert(b == '%' as u8 || is_unreserved(b));
    }
    vstd::utf8::is_ascii_chars_encode_utf8(encoded(text));
    assert(vstd::utf8::encode_utf8(encoded(text)) =~= bytes);
}

/// Decoding undoes percent-encoding.
pub proof fn law_decoding_undoes_encoding(text: Seq<char>)
    ensures
        component(encoded(text)) == text,
{
    lemma_encoded(text);
    lemma_escaped(vstd::utf8::encode_utf8(text));
    vstd::utf8::encode_utf8_valid_utf8(text);
    vstd::utf8::encode_utf8_decode_utf8(text);
}

/// A key and a value that are percent-encoded and joined by `=` reach the handler as they
/// were, whatever they hold.
pub proof fn law_encoded_parameter(key: Seq<char>, value: Seq<char>)
    requires
        key.len() > 0,
    ensures
        parameters(encoded(key) + seq!['='] + encoded(value)) == seq![(key, value)],
{
    lemma_encoded(key);
    lemma_encoded(value);
    law_decoding_undoes_encoding(key);
    law_decoding_undoes_encoding(value);
    if encoded(key).len() == 0 {
        law_plain_component(encoded(key));
    }
    law_key_and_value(encoded(key), encoded(value));
}

/// Two query strings joined by `&` hold the parameters of the first and then those of the
/// second: order and repeats survive, wherever they stand.
pub proof fn law_joined_queries(a: Seq<char>, b: Seq<char>)
    ensures
        parameters(a + seq!['&'] + b) == parameters(a) + parameters(b),
{
    lemma_pieces_concat(a, b, '&');
    fields::lemma_filter_map_concat(pieces(a, '&'), pieces(b, '&'), raw_parameter());
    assert(parameters(a + seq!['&'] + b) =~= parameters(a) + parameters(b));
}

/// Every value under a key is reached, in order, wherever in the query string it stands.
pub proof fn law_repeated_keys(a: Seq<char>, b: Seq<char>, name: Seq<char>)
    ensures
        fields::parameter_values(parameters(a + seq!['&'] + b), name) == fields::parameter_values(
            parameters(a),
            name,
        ) + fields::parameter_values(parameters(b), name),
{
    law_joined_queries(a, b);
    fields::lemma_filter_map_concat(parameters(a), parameters(b), fields::if_exactly_named(name));
}

pub(crate) proof fn lemma_pieces_concat(a: Seq<char>, b: Seq<char>, separator: char)
    ensures
        pieces(a + seq![separator] + b, separator) == pieces(a, separator) + pieces(b, separator),
    decreases a.len(),
{
    let at = place_of(separator, a);
    lemma_place_bounds(separator, a);
    if at < a.len() {
        let before = a.take(at as int);
        let after = a.skip(at as int + 1);
        lemma_place_hits(separator, a);
        lemma_pieces_concat(after, b, separator);
        assert(a + seq![separator] + b =~= before + seq![separator] + (after + seq![separator]
            + b));
        lemma_pieces_step(before, after + seq![separator] + b, separator);
        assert(pieces(a, separator) == seq![before] + pieces(after, separator));
        assert(seq![before] + (pieces(after, separator) + pieces(b, separator)) =~= (seq![before]
            + pieces(after, separator)) + pieces(b, separator));
    } else {
        lemma_pieces_step(a, b, separator);
    }
}

/// What stands before the first occurrence of a character, and at it.
proof fn lemma_place_hits(c: char, text: Seq<char>)
    requires
        place_of(c, text) < text.len(),
    ensures
        text[place_of(c, text) as int] == c,
        !text.take(place_of(c, text) as int).contains(c),
    decreases text.len(),
{
    let at = place_of(c, text) as int;
    if text[0] != c {
        lemma_place_hits(c, text.drop_first());
        assert forall|i: int| 0 <= i < at implies #[trigger] text.take(at)[i] != c by {
            if i > 0 {
                assert(text.drop_first().take(at - 1)[i - 1] == text[i]);
                assert(text.drop_first().take(at - 1).contains(text[i]));
            }
        }
    }
}

/// A key alone is a parameter with an empty value.
pub proof fn law_bare_key(key: Seq<char>)
    requires
        key.len() > 0,
        !key.contains('&'),
        !key.contains('='),
    ensures
        parameters(key) == seq![(component(key), Seq::<char>::empty())],
{
    lemma_place_bounds('&', key);
    lemma_place_bounds('=', key);
    lemma_single_piece(key);
    law_plain_component(Seq::<char>::empty());
    assert(parameters(key) =~= seq![(component(key), Seq::<char>::empty())]);
}

/// A key and a value joined by `=` are one parameter. The value may hold further `=`.
pub proof fn law_key_and_value(key: Seq<char>, value: Seq<char>)
    requires
        key.len() > 0,
        !key.contains('&'),
        !key.contains('='),
        !value.contains('&'),
    ensures
        parameters(key + seq!['='] + value) == seq![(component(key), component(value))],
{
    let piece = key + seq!['='] + value;
    lemma_place_after('=', key, value);
    assert(piece.take(key.len() as int) =~= key);
    assert(piece.skip(key.len() as int + 1) =~= value);
    if piece.contains('&') {
        let i = choose|i: int| 0 <= i < piece.len() && piece[i] == '&';
        if i < key.len() {
            assert(key.contains(key[i]));
        } else if i > key.len() {
            assert(value.contains(value[i - key.len() - 1]));
        }
    }
    lemma_single_piece(piece);
    assert(parameters(piece) =~= seq![(component(key), component(value))]);
}

/// A pair without a key is dropped, and an empty query string holds nothing.
pub proof fn law_empty_key(value: Seq<char>)
    requires
        !value.contains('&'),
    ensures
        parameters(seq!['='] + value) == Seq::<fields::Field>::empty(),
        parameters(seq![]) == Seq::<fields::Field>::empty(),
{
    let piece = seq!['='] + value;
    if piece.contains('&') {
        let i = choose|i: int| 0 <= i < piece.len() && piece[i] == '&';
        assert(value.contains(value[i - 1]));
    }
    lemma_single_piece(piece);
    lemma_single_piece(seq![]);
}

pub(crate) proof fn lemma_single_piece(piece: Seq<char>)
    requires
        !piece.contains('&'),
    ensures
        raw_parameters(piece) == (match raw_parameter()(piece) {
            Some(field) => seq![field],
            None => seq![],
        }),
{
    lemma_place_bounds('&', piece);
    fields::lemma_filter_map_push(Seq::<Seq<char>>::empty(), piece, raw_parameter());
    assert(Seq::<Seq<char>>::empty().push(piece) =~= seq![piece]);
    match raw_parameter()(piece) {
        Some(field) => {
            assert(Seq::<fields::Field>::empty().push(field) =~= seq![field]);
        },
        None => {},
    }
}

fn split_pair(pair: &str) -> (result: Option<(&str, &str)>)
    ensures
        match result {
            Some(field) => raw_parameter()(pair@) == Some((field.0@, field.1@)),
            None => raw_parameter()(pair@) is None,
        },
{
    let (key, value) = match text::split_once(pair, '=') {
        Some((key, value)) => {
            proof {
                lemma_place_after('=', key@, value@);
                assert(pair@.take(key@.len() as int) =~= key@);
                assert(pair@.skip(key@.len() as int + 1) =~= value@);
            }
            (key, value)
        },
        None => {
            proof {
                lemma_place_bounds('=', pair@);
                reveal_strlit("");
                assert(""@ =~= Seq::<char>::empty());
            }
            (pair, "")
        },
    };
    if key.is_empty() {
        return None;
    }
    Some((key, value))
}

/// Splits a raw query string into ordered key and value pairs, without decoding them.
///
/// Wire order and repeated keys are both preserved. A pair with no `=` keeps its key with
/// an empty value; a pair with an empty key is dropped, since there is nothing to look it
/// up by.
pub fn split_query(raw: &str) -> (result: Vec<(&str, &str)>)
    ensures
        fields::borrowed(result@) == raw_parameters(raw@),
{
    let mut result: Vec<(&str, &str)> = Vec::new();
    let mut rest = raw;
    let mut more = true;
    while more
        invariant
            raw_parameters(raw@) == fields::borrowed(result@) + (if more {
                raw_parameters(rest@)
            } else {
                seq![]
            }),
        decreases rest@.len() + (if more { 1int } else { 0 }),
    {
        let pair = match text::split_once(rest, '&') {
            Some((pair, after)) => {
                proof {
                    lemma_pieces_step(pair@, after@, '&');
                    fields::lemma_filter_map_concat(
                        seq![pair@],
                        pieces(after@, '&'),
                        raw_parameter(),
                    );
                }
                rest = after;
                pair
            },
            None => {
                proof {
                    lemma_place_bounds('&', rest@);
                }
                more = false;
                rest
            },
        };
        let ghost found = fields::borrowed(result@);
        proof {
            fields::lemma_filter_map_push(Seq::<Seq<char>>::empty(), pair@, raw_parameter());
            assert(Seq::<Seq<char>>::empty().push(pair@) =~= seq![pair@]);
        }
        if let Some(field) = split_pair(pair) {
            result.push(field);
            assert(fields::borrowed(result@) =~= found.push((field.0@, field.1@)));
        }
    }
    result
}

/// Parses a raw query string into ordered key and value pairs.
///
/// The pairs are those of [`split_query`], with each key and each value percent-decoded.
pub fn parse_query(raw: &str) -> (result: Vec<(String, String)>)
    ensures
        fields::listed(result@) == parameters(raw@),
{
    let pairs = split_query(raw);
    let mut result: Vec<(String, String)> = Vec::new();
    let mut i: usize = 0;
    while i < pairs.len()
        invariant
            i <= pairs.len(),
            fields::borrowed(pairs@) == raw_parameters(raw@),
            fields::listed(result@) == parameters(raw@).take(i as int),
        decreases pairs.len() - i,
    {
        let (key, value) = pairs[i];
        let ghost found = fields::listed(result@);
        let field = (decode_component(key), decode_component(value));
        result.push(field);
        proof {
            assert(fields::borrowed(pairs@)[i as int] == (key@, value@));
            assert(fields::listed(result@) =~= found.push((field.0@, field.1@)));
            assert(parameters(raw@).take(i as int + 1) =~= parameters(raw@).take(i as int).push(
                parameters(raw@)[i as int],
            ));
        }
        i += 1;
    }
    assert(parameters(raw@).take(i as int) =~= parameters(raw@));
    result
}

} // verus!
