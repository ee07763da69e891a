//! Texts, numbers, query strings and Base64.

use crate::body_serde;
use crate::error::AzureFunctionsError;
use crate::number;
use crate::payload;
use crate::query;
use crate::text;
use crate::text::IntoText;
use crate::text_map;
use crate::text_map::TextMap;
use bytes::Bytes;
use vstd::prelude::*;

verus! {

/// Two texts are equal without regard to case exactly when they are of one length and agree in
/// each place, or hold there the two cases of one ASCII letter.
pub proof fn law_case_folding(a: &str, b: &str, equal: bool)
    requires
        call_ensures(text::eq_ignore_ascii_case, (a, b), equal),
    ensures
        equal == super::alike(a@, b@),
{
    super::lemma_alike(a@, b@);
}

/// What is left when a prefix is taken off gives the text back behind the prefix. Nothing is
/// taken off only where the text is not the prefix and some rest.
pub proof fn law_strip_prefix(whole: &str, prefix: &str, left: Option<&str>)
    requires
        call_ensures(text::strip_prefix, (whole, prefix), left),
    ensures
        left is Some ==> whole@ == prefix@ + left->0@,
        left is None ==> forall|rest: Seq<char>| whole@ != #[trigger] (prefix@ + rest),
{
    if left is Some {
        assert(whole@ =~= prefix@ + left->0@);
    } else {
        assert forall|rest: Seq<char>| whole@ != #[trigger] (prefix@ + rest) by {
            assert(prefix@.is_prefix_of(prefix@ + rest));
        }
    }
}

/// A text contains another exactly when it is something, the other, and something more.
pub proof fn law_contains(whole: &str, needle: &str, found: bool)
    requires
        call_ensures(text::contains, (whole, needle), found),
    ensures
        found <==> exists|before: Seq<char>, after: Seq<char>|
            whole@ == #[trigger] (before + needle@ + after),
{
    lemma_occurs(whole@, needle@);
}

pub(crate) proof fn lemma_occurs(whole: Seq<char>, needle: Seq<char>)
    ensures
        text::occurs_in(needle, whole) <==> exists|before: Seq<char>, after: Seq<char>|
            whole == #[trigger] (before + needle + after),
{
    if text::occurs_in(needle, whole) {
        let i = choose|i: int| #[trigger] text::occurs_at(needle, whole, i);
        assert(whole =~= whole.take(i) + needle + whole.skip(i + needle.len()));
    }
    if exists|before: Seq<char>, after: Seq<char>| whole == #[trigger] (before + needle + after) {
        let (before, after) = choose|before: Seq<char>, after: Seq<char>|
            whole == #[trigger] (before + needle + after);
        assert(whole.subrange(before.len() as int, (before.len() + needle.len()) as int) =~= needle);
        assert(text::occurs_at(needle, whole, before.len() as int));
    }
}

/// Cutting a text in two loses nothing but the first separator.
pub proof fn law_split_once(whole: &str, separator: char, cut: Option<(&str, &str)>)
    requires
        call_ensures(text::split_once, (whole, separator), cut),
    ensures
        cut is Some ==> whole@ == (cut->0).0@ + seq![separator] + (cut->0).1@
            && !(cut->0).0@.contains(separator),
        cut is None ==> !whole@.contains(separator),
{
}

/// A value that is handed over as text is taken as it is.
pub proof fn law_text_is_kept(
    owned: String,
    borrowed: &str,
    kept: String,
    copied: String,
    cloned: String,
)
    requires
        call_ensures(<String as IntoText>::into_text, (owned,), kept),
        call_ensures(<&str as IntoText>::into_text, (borrowed,), copied),
        call_ensures(<&String as IntoText>::into_text, (&owned,), cloned),
    ensures
        kept@ == owned@,
        copied@ == borrowed@,
        cloned@ == owned@,
        owned.text() == owned@,
        borrowed.text() == borrowed@,
        (&owned).text() == owned@,
{
}

/// Only digits make a number, but for one plus sign in front, and there has to be one.
pub proof fn law_number_form(digits: &str, max: u64, value: Option<u64>, i: int)
    requires
        call_ensures(number::parse_unsigned, (digits, max), value),
    ensures
        value is Some ==> value->0 <= max,
        digits@.len() == 0 ==> value is None,
        digits@ == seq!['+'] ==> value is None,
        0 <= i < digits@.len() && !('0' <= digits@[i] <= '9') && !(i == 0 && digits@[0] == '+')
            ==> value is None,
{
    let bare = number::without_plus(digits@);
    if value is Some && 0 <= i < digits@.len() {
        if digits@[0] == '+' {
            if i > 0 {
                assert(bare[i - 1] == digits@[i]);
                assert(number::is_digit(bare[i - 1]));
            }
        } else {
            assert(number::is_digit(bare[i]));
        }
    }
}

/// A single digit is a number below ten, and a plus sign before a digit changes nothing.
pub proof fn law_first_digit(
    digits: &str,
    max: u64,
    value: Option<u64>,
    signed: &str,
    signed_value: Option<u64>,
)
    requires
        call_ensures(number::parse_unsigned, (digits, max), value),
        call_ensures(number::parse_unsigned, (signed, max), signed_value),
        digits@.len() > 0,
        '0' <= digits@[0] <= '9',
        signed@ == seq!['+'] + digits@,
    ensures
        digits@.len() == 1 ==> value == (if digits@[0] as int - '0' as int <= max {
            Some((digits@[0] as int - '0' as int) as u64)
        } else {
            None
        }),
        signed_value == value,
{
    assert(signed@.skip(1) =~= digits@);
    assert(number::without_plus(digits@) =~= digits@);
    assert(number::without_plus(signed@) =~= digits@);
    if digits@.len() == 1 {
        assert(digits@.drop_last() =~= Seq::<char>::empty());
        assert(number::digits_value(digits@.drop_last()) == 0);
        assert(number::digits_value(digits@) == digits@[0] as nat - '0' as nat);
        assert(number::is_digit(digits@[0]));
    }
}

/// One more digit makes a number ten times as large and adds the digit. A number that was too
/// large stays so.
pub proof fn law_next_digit(
    digits: &str,
    next: char,
    longer: &str,
    max: u64,
    value: Option<u64>,
    grown: Option<u64>,
)
    requires
        call_ensures(number::parse_unsigned, (digits, max), value),
        call_ensures(number::parse_unsigned, (longer, max), grown),
        digits@.len() > 0,
        digits@ != seq!['+'],
        '0' <= next <= '9',
        longer@ == digits@.push(next),
    ensures
        value is None ==> grown is None,
        value is Some ==> grown == (if value->0 * 10 + (next as int - '0' as int) <= max {
            Some((value->0 * 10 + (next as int - '0' as int)) as u64)
        } else {
            None
        }),
{
    let short = number::without_plus(digits@);
    let long = number::without_plus(longer@);
    if digits@[0] == '+' {
        if digits@.len() == 1 {
            assert(digits@ =~= seq!['+']);
        }
        assert(long =~= short.push(next));
    } else {
        assert(long =~= short.push(next));
    }
    assert(long.drop_last() =~= short);
    assert(number::digits_value(long) == number::digits_value(short) * 10 + (next as nat
        - '0' as nat) as nat);
    if forall|i: int| 0 <= i < long.len() ==> number::is_digit(#[trigger] long[i]) {
        assert forall|i: int| 0 <= i < short.len() implies number::is_digit(#[trigger] short[i]) by {
            assert(short[i] == long[i]);
        }
    }
    if forall|i: int| 0 <= i < short.len() ==> number::is_digit(#[trigger] short[i]) {
        assert forall|i: int| 0 <= i < long.len() implies number::is_digit(#[trigger] long[i]) by {
            if i < short.len() {
                assert(short[i] == long[i]);
            }
        }
    }
}

/// A number that is written down is read back as the same number, and has no leading zero.
pub proof fn law_written_number(value: u64, written: String, max: u64, again: &str, read: Option<u64>)
    requires
        call_ensures(number::decimal, (value,), written),
        again@ == written@,
        call_ensures(number::parse_unsigned, (again, max), read),
    ensures
        read == (if value <= max {
            Some(value)
        } else {
            None
        }),
        written@.len() > 0,
        value > 0 ==> written@[0] != '0',
        written@[0] != '+',
{
    number::law_number_reads_back(value as nat, max as nat);
    lemma_no_leading_zero(value as nat);
}

proof fn lemma_no_leading_zero(value: nat)
    ensures
        number::decimal_text(value).len() > 0,
        value > 0 ==> number::decimal_text(value)[0] != '0',
        number::decimal_text(value)[0] != '+',
    decreases value,
{
    if value >= 10 {
        lemma_no_leading_zero(value / 10);
    }
}

/// A component whose escapes decode to UTF-8 is the text of the decoded bytes, whichever
/// characters it holds. Any other component is left as it is.
pub proof fn law_component(raw: &str, decoded: String)
    requires
        call_ensures(query::decode_component, (raw,), decoded),
    ensures
        ({
            let bytes = query::percent_decoded(vstd::utf8::encode_utf8(raw@));
            &&& vstd::utf8::valid_utf8(bytes) ==> vstd::utf8::encode_utf8(decoded@) == bytes
            &&& !vstd::utf8::valid_utf8(bytes) ==> decoded@ == raw@
        }),
{
    let bytes = query::percent_decoded(vstd::utf8::encode_utf8(raw@));
    if vstd::utf8::valid_utf8(bytes) {
        vstd::utf8::decode_utf8_encode_utf8(bytes);
    }
}

/// The value of a hexadecimal digit of either case, or none.
pub open spec fn nibble(b: u8) -> Option<int> {
    if 48 <= b <= 57 {
        Some(b - 48)
    } else if 65 <= b <= 70 {
        Some(b - 55)
    } else if 97 <= b <= 102 {
        Some(b - 87)
    } else {
        None
    }
}

/// Whether an escape lies across the place where two rows of bytes meet.
pub open spec fn escape_across(a: Seq<u8>, b: Seq<u8>) -> bool {
    ||| a.len() >= 1 && b.len() >= 2 && a.last() == 37 && nibble(b[0]) is Some && nibble(
        b[1],
    ) is Some
    ||| a.len() >= 2 && b.len() >= 1 && a[a.len() - 2] == 37 && nibble(a.last()) is Some && nibble(
        b[0],
    ) is Some
}

/// Decoding bytes goes piece by piece: what no escape lies across decodes apart, an escape of
/// either case decodes to its one byte, and a byte alone stands for itself.
pub proof fn law_decoding_bytes(a: Seq<u8>, b: Seq<u8>, high: u8, low: u8)
    ensures
        !escape_across(a, b) ==> query::percent_decoded(a + b) == query::percent_decoded(a)
            + query::percent_decoded(b),
        nibble(high) is Some && nibble(low) is Some ==> query::percent_decoded(
            seq![37u8, high, low],
        ) == seq![(nibble(high)->0 * 16 + nibble(low)->0) as u8],
        query::percent_decoded(seq![high]) == seq![high],
        query::percent_decoded(seq![]) == Seq::<u8>::empty(),
{
    if !escape_across(a, b) {
        lemma_decoding_concat(a, b);
    }
    let escape = seq![37u8, high, low];
    assert(escape.skip(3) =~= seq![]);
    assert(query::percent_decoded(escape.skip(3)) =~= seq![]);
    assert(seq![high].skip(1) =~= seq![]);
    assert(query::percent_decoded(seq![high].skip(1)) =~= seq![]);
    assert(query::percent_decoded(seq![high]) =~= seq![high]);
    if nibble(high) is Some && nibble(low) is Some {
        assert(query::percent_decoded(escape) =~= seq![
            (nibble(high)->0 * 16 + nibble(low)->0) as u8,
        ]);
    }
}

proof fn lemma_decoding_concat(a: Seq<u8>, b: Seq<u8>)
    requires
        !escape_across(a, b),
    ensures
        query::percent_decoded(a + b) == query::percent_decoded(a) + query::percent_decoded(b),
    decreases a.len(),
{
    let whole = a + b;
    if a.len() == 0 {
        assert(whole =~= b);
        assert(query::percent_decoded(a) =~= seq![]);
        assert(query::percent_decoded(a) + query::percent_decoded(b) =~= query::percent_decoded(b));
    } else if a.len() >= 3 && a[0] == 37 && nibble(a[1]) is Some && nibble(a[2]) is Some {
        let rest = a.skip(3);
        assert(whole.skip(3) =~= rest + b);
        if rest.len() > 0 {
            assert(rest.last() == a.last());
        }
        if rest.len() > 1 {
            assert(rest[rest.len() - 2] == a[a.len() - 2]);
        }
        lemma_decoding_concat(rest, b);
        assert(query::percent_decoded(whole) =~= query::percent_decoded(a)
            + query::percent_decoded(b));
    } else {
        let rest = a.skip(1);
        assert(whole.skip(1) =~= rest + b);
        if rest.len() > 0 {
            assert(rest.last() == a.last());
        }
        if rest.len() > 1 {
            assert(rest[rest.len() - 2] == a[a.len() - 2]);
        }
        lemma_decoding_concat(rest, b);
        assert(whole[0] == a[0]);
        assert(!(whole.len() >= 3 && whole[0] == 37 && nibble(whole[1]) is Some && nibble(
            whole[2],
        ) is Some));
        assert(query::percent_decoded(whole) =~= query::percent_decoded(a)
            + query::percent_decoded(b));
    }
}

/// Decoding goes piece by piece: where two texts decode and no escape lies across the place
/// where they meet, together they decode to what each decodes to, one after the other.
pub proof fn law_decoding_is_piecewise(
    a: &str,
    b: &str,
    joined: &str,
    decoded_a: String,
    decoded_b: String,
    decoded: String,
)
    requires
        call_ensures(query::decode_component, (a,), decoded_a),
        call_ensures(query::decode_component, (b,), decoded_b),
        call_ensures(query::decode_component, (joined,), decoded),
        joined@ == a@ + b@,
        !escape_across(vstd::utf8::encode_utf8(a@), vstd::utf8::encode_utf8(b@)),
        vstd::utf8::valid_utf8(query::percent_decoded(vstd::utf8::encode_utf8(a@))),
        vstd::utf8::valid_utf8(query::percent_decoded(vstd::utf8::encode_utf8(b@))),
    ensures
        decoded@ == decoded_a@ + decoded_b@,
{
    law_component(a, decoded_a);
    law_component(b, decoded_b);
    law_component(joined, decoded);
    text::lemma_encode_concat(a@, b@);
    lemma_decoding_concat(vstd::utf8::encode_utf8(a@), vstd::utf8::encode_utf8(b@));
    text::lemma_encode_concat(decoded_a@, decoded_b@);
    vstd::utf8::encode_utf8_valid_utf8(decoded_a@ + decoded_b@);
    text::lemma_encode_injective(decoded@, decoded_a@ + decoded_b@);
}

/// An encoded text behind a text without a percent sign decodes to the two as they were,
/// whichever characters they hold.
pub proof fn law_plain_then_encoded(plain: Seq<char>, encoded: Seq<char>, raw: &str, decoded: String)
    requires
        !plain.contains('%'),
        raw@ == plain + query::encoded(encoded),
        call_ensures(query::decode_component, (raw,), decoded),
    ensures
        decoded@ == plain + encoded,
{
    let bytes = vstd::utf8::encode_utf8(plain);
    assert forall|i: int| 0 <= i < bytes.len() implies #[trigger] bytes[i] != 37 by {
        if bytes[i] == 37 {
            let k = text::lemma_ascii_byte(plain, i);
            assert('%' as u8 as char == '%');
            assert(plain.contains(plain[k]));
        }
    }
    query::lemma_no_escape(bytes);
    query::lemma_encoded(encoded);
    query::lemma_escaped(vstd::utf8::encode_utf8(encoded));
    text::lemma_encode_concat(plain, query::encoded(encoded));
    lemma_decoding_concat(bytes, vstd::utf8::encode_utf8(query::encoded(encoded)));
    text::lemma_encode_concat(plain, encoded);
    vstd::utf8::encode_utf8_valid_utf8(plain + encoded);
    vstd::utf8::encode_utf8_decode_utf8(plain + encoded);
}

/// Two query strings joined by `&` hold the pairs of the first and then those of the second.
pub proof fn law_split_joined(
    a: &str,
    b: &str,
    joined: &str,
    in_a: Vec<(&str, &str)>,
    in_b: Vec<(&str, &str)>,
    in_joined: Vec<(&str, &str)>,
)
    requires
        call_ensures(query::split_query, (a,), in_a),
        call_ensures(query::split_query, (b,), in_b),
        call_ensures(query::split_query, (joined,), in_joined),
        joined@ == a@ + seq!['&'] + b@,
    ensures
        split_pairs(in_joined@) == split_pairs(in_a@) + split_pairs(in_b@),
{
    query::lemma_pieces_concat(a@, b@, '&');
    crate::fields::lemma_filter_map_concat(
        query::pieces(a@, '&'),
        query::pieces(b@, '&'),
        query::raw_parameter(),
    );
    lemma_split_pairs(in_a@);
    lemma_split_pairs(in_b@);
    lemma_split_pairs(in_joined@);
}

/// The keys and values in a list of pairs.
pub open spec fn split_pairs(list: Seq<(&str, &str)>) -> Seq<(Seq<char>, Seq<char>)> {
    Seq::new(list.len(), |i: int| (list[i].0@, list[i].1@))
}

proof fn lemma_split_pairs(list: Seq<(&str, &str)>)
    ensures
        crate::fields::borrowed(list) == split_pairs(list),
{
    assert(crate::fields::borrowed(list) =~= split_pairs(list));
}

/// A piece without `&` is one pair: what stands before its first `=` and what follows, or all
/// of it and nothing. It is no pair when nothing stands before.
pub proof fn law_split_piece(key: Seq<char>, value: Seq<char>, raw: &str, list: Vec<(&str, &str)>)
    requires
        !key.contains('&'),
        !key.contains('='),
        !value.contains('&'),
        raw@ == key + seq!['='] + value || (raw@ == key && value.len() == 0),
        call_ensures(query::split_query, (raw,), list),
    ensures
        split_pairs(list@) == (if key.len() > 0 {
            seq![(key, value)]
        } else {
            seq![]
        }),
{
    lemma_split_pairs(list@);
    if raw@ == key {
        query::lemma_place_bounds('&', key);
        query::lemma_place_bounds('=', key);
        assert(value =~= seq![]);
    } else {
        query::lemma_place_after('=', key, value);
        assert(raw@.take(key.len() as int) =~= key);
        assert(raw@.skip(key.len() as int + 1) =~= value);
        if raw@.contains('&') {
            let i = choose|i: int| 0 <= i < raw@.len() && raw@[i] == '&';
            if i < key.len() {
                assert(key.contains(key[i]));
            } else if i > key.len() {
                assert(value.contains(value[i - key.len() - 1]));
            }
        }
    }
    query::lemma_single_piece(raw@);
}

/// The parameters of a query string are its pairs, each key and each value decoded.
pub proof fn law_parsed_query(
    raw: &str,
    split: Vec<(&str, &str)>,
    list: Vec<(String, String)>,
    i: int,
    key: String,
    value: String,
)
    requires
        call_ensures(query::split_query, (raw,), split),
        call_ensures(query::parse_query, (raw,), list),
        0 <= i < list@.len(),
        call_ensures(query::decode_component, (split@[i].0,), key),
        call_ensures(query::decode_component, (split@[i].1,), value),
    ensures
        list@.len() == split@.len(),
        list@[i].0@ == key@,
        list@[i].1@ == value@,
{
    super::lemma_pairs(list@);
    lemma_split_pairs(split@);
    assert(super::pairs(list@).len() == split_pairs(split@).len());
    assert(super::pairs(list@)[i] == (list@[i].0@, list@[i].1@));
    assert(split_pairs(split@)[i] == (split@[i].0@, split@[i].1@));
}

/// A query string without pairs has no parameters.
pub proof fn law_as_many_parameters_as_pairs(
    raw: &str,
    split: Vec<(&str, &str)>,
    list: Vec<(String, String)>,
)
    requires
        call_ensures(query::split_query, (raw,), split),
        call_ensures(query::parse_query, (raw,), list),
    ensures
        list@.len() == split@.len(),
{
    super::lemma_pairs(list@);
    lemma_split_pairs(split@);
    assert(super::pairs(list@).len() == split_pairs(split@).len());
}

/// A key and a value that were percent-encoded are what the handler gets, whatever they hold.
pub proof fn law_encoded_pair(
    key: Seq<char>,
    value: Seq<char>,
    raw: &str,
    list: Vec<(String, String)>,
)
    requires
        key.len() > 0,
        raw@ == query::encoded(key) + seq!['='] + query::encoded(value),
        call_ensures(query::parse_query, (raw,), list),
    ensures
        super::pairs(list@) == seq![(key, value)],
{
    query::law_encoded_parameter(key, value);
    super::lemma_pairs(list@);
}

/// The value under a name is there exactly when the name is, and is the one put there. A new
/// map holds no name, and a copy holds what the map holds.
pub proof fn law_value_of(
    map: TextMap,
    name: &str,
    value: Option<String>,
    found: Option<&String>,
    empty: TextMap,
    copy: TextMap,
)
    requires
        call_ensures(TextMap::value, (&map, name), value),
        call_ensures(TextMap::get, (&map, name), found),
        call_ensures(TextMap::new, (), empty),
        call_ensures(<TextMap as Clone>::clone, (&map,), copy),
    ensures
        value is Some <==> map@.contains_key(name@),
        value is Some ==> value->0@ == map@[name@],
        found is Some <==> map@.contains_key(name@),
        found is Some ==> found->0@ == map@[name@],
        !empty@.contains_key(name@),
        copy@ == map@,
{
    assert(text::optional(value) == text_map::lookup(map@, name@));
}

/// The entries of a map are its names with their values, each name once.
pub proof fn law_entries(map: TextMap, entries: &Vec<(String, String)>, name: Seq<char>)
    requires
        call_ensures(TextMap::entries, (&map,), entries),
    ensures
        map@.contains_key(name) <==> exists|i: int|
            0 <= i < entries@.len() && (#[trigger] entries@[i]).0@ == name,
        forall|i: int|
            0 <= i < entries@.len() ==> map@.contains_key((#[trigger] entries@[i]).0@)
                && map@[entries@[i].0@] == entries@[i].1@,
        forall|i: int, j: int|
            0 <= i < j < entries@.len() ==> (#[trigger] entries@[i]).0@ != (
            #[trigger] entries@[j]).0@,
{
    let list = crate::fields::listed(entries@);
    text_map::lemma_map_of(list, name);
    assert forall|i: int| 0 <= i < entries@.len() implies map@.contains_key(
        (#[trigger] entries@[i]).0@,
    ) && map@[entries@[i].0@] == entries@[i].1@ by {
        assert(list[i] == (entries@[i].0@, entries@[i].1@));
        text_map::lemma_map_of(list, entries@[i].0@);
    }
    if map@.contains_key(name) {
        let i = choose|i: int| 0 <= i < list.len() && (#[trigger] list[i]).0 == name;
        assert(entries@[i].0@ == name);
    }
    assert forall|i: int, j: int| 0 <= i < j < entries@.len() implies (#[trigger] entries@[i]).0@
        != (#[trigger] entries@[j]).0@ by {
        assert(list[i].0 != list[j].0);
    }
}

/// An error message is the kind of the error and then what went wrong.
pub proof fn law_error_message(detail: String, error: AzureFunctionsError, message: String)
    requires
        call_ensures(AzureFunctionsError::to_string, (&error,), message),
    ensures
        error == AzureFunctionsError::Application(detail) ==> message@ == "Application error: "@
            + detail@,
        error == AzureFunctionsError::Request(detail) ==> message@ == "Request conversion error: "@
            + detail@,
        error == AzureFunctionsError::Response(detail) ==> message@
            == "Response conversion error: "@ + detail@,
        error == AzureFunctionsError::Config(detail) ==> message@ == "Configuration error: "@
            + detail@,
        error == AzureFunctionsError::Runtime(detail) ==> message@ == "Runtime error: "@ + detail@,
        error == AzureFunctionsError::Binding(detail) ==> message@ == "Binding error: "@ + detail@,
{
}

/// A body that is written as text is read back as the same bytes, the empty one too.
pub proof fn law_body_round_trip(
    body: Bytes,
    written: String,
    again: &str,
    read: Result<Bytes, payload::Base64Error>,
)
    requires
        payload::held(body).len() <= payload::MAX_ENCODABLE,
        call_ensures(body_serde::serialize, (&body,), written),
        again@ == written@,
        call_ensures(body_serde::deserialize, (again,), read),
    ensures
        read is Ok,
        payload::held(read->Ok_0) == payload::held(body),
        written@ == payload::base64_text(payload::held(body)),
        written@.len() == 0 <==> payload::held(body).len() == 0,
{
    assert(payload::base64_text(payload::held(body)) == again@);
    match read {
        Ok(data) => {
            payload::law_base64_is_unambiguous(payload::held(data), payload::held(body));
        },
        Err(_) => {},
    }
}

/// A text is read as the bytes that it is the Base64 text of, and is refused when there are
/// none.
pub proof fn law_body_of_text(
    written: &str,
    read: Result<Bytes, payload::Base64Error>,
    data: Seq<u8>,
)
    requires
        call_ensures(body_serde::deserialize, (written,), read),
    ensures
        written@ == payload::base64_text(data) ==> read is Ok && payload::held(read->Ok_0) == data,
        (forall|some: Seq<u8>| #[trigger] payload::base64_text(some) != written@) ==> read is Err,
{
    if written@ == payload::base64_text(data) && read is Ok {
        payload::law_base64_is_unambiguous(payload::held(read->Ok_0), data);
    }
}

} // verus!
