//! Text that is compared, searched and cut the way HTTP fields are.

use vstd::prelude::*;

verus! {

/// A value that can be handed over as text: a `String`, or a borrowed `str`.
pub trait IntoText: Sized {
    /// The characters of the text.
    spec fn text(&self) -> Seq<char>;

    /// Gives up the value for its text.
    fn into_text(self) -> (result: String)
        ensures
            result@ == self.text(),
    ;
}

impl IntoText for String {
    open spec fn text(&self) -> Seq<char> {
        self@
    }

    fn into_text(self) -> (result: String) {
        self
    }
}

impl IntoText for &str {
    open spec fn text(&self) -> Seq<char> {
        self@
    }

    fn into_text(self) -> (result: String) {
        self.to_owned()
    }
}

impl IntoText for &String {
    open spec fn text(&self) -> Seq<char> {
        self@
    }

    fn into_text(self) -> (result: String) {
        self.clone()
    }
}

/// The text of a string that may be missing.
pub open spec fn optional(value: Option<String>) -> Option<Seq<char>> {
    match value {
        Some(value) => Some(value@),
        None => None,
    }
}

/// The text of a borrowed string that may be missing.
pub open spec fn optional_str(value: Option<&str>) -> Option<Seq<char>> {
    match value {
        Some(value) => Some(value@),
        None => None,
    }
}

/// Copies a string that may be missing.
pub fn copy_optional(value: &Option<String>) -> (result: Option<String>)
    ensures
        optional(result) == optional(*value),
{
    match value {
        Some(value) => Some(value.clone()),
        None => None,
    }
}

/// A character with the letters `A` to `Z` turned into `a` to `z`.
pub open spec fn lowered(c: char) -> char {
    if 'A' <= c <= 'Z' {
        (c as u32 + 32) as char
    } else {
        c
    }
}

/// A text with the letters `A` to `Z` turned into `a` to `z`.
pub open spec fn lowercase(text: Seq<char>) -> Seq<char> {
    text.map_values(|c: char| lowered(c))
}

/// Whether two texts differ at most in the case of ASCII letters.
pub open spec fn same_ignoring_case(a: Seq<char>, b: Seq<char>) -> bool {
    a.len() == b.len() && forall|i: int|
        0 <= i < a.len() ==> lowered(#[trigger] a[i]) == lowered(b[i])
}

fn lower(c: char) -> (result: char)
    ensures
        result == lowered(c),
{
    if 'A' <= c && c <= 'Z' {
        (c as u8 + 32) as char
    } else {
        c
    }
}

/// Texts that differ at most in case are interchangeable in such comparisons.
pub proof fn law_case_is_ignored(a: Seq<char>, b: Seq<char>, c: Seq<char>)
    ensures
        same_ignoring_case(a, a),
        same_ignoring_case(a, b) == same_ignoring_case(b, a),
        same_ignoring_case(a, b) ==> same_ignoring_case(a, c) == same_ignoring_case(b, c),
{
    assert forall|x: Seq<char>, y: Seq<char>, z: Seq<char>|
        same_ignoring_case(x, y) && same_ignoring_case(y, z) implies same_ignoring_case(x, z) by {
        assert forall|i: int| 0 <= i < x.len() implies lowered(#[trigger] x[i]) == lowered(
            z[i],
        ) by {
            assert(lowered(x[i]) == lowered(y[i]));
            assert(lowered(y[i]) == lowered(z[i]));
        }
    }
    assert forall|x: Seq<char>, y: Seq<char>| same_ignoring_case(x, y) implies same_ignoring_case(
        y,
        x,
    ) by {
        assert forall|i: int| 0 <= i < y.len() implies lowered(#[trigger] y[i]) == lowered(
            x[i],
        ) by {
            assert(lowered(x[i]) == lowered(y[i]));
        }
    }
}

/// Compares two texts without regard to the case of ASCII letters.
pub fn eq_ignore_ascii_case(a: &str, b: &str) -> (result: bool)
    ensures
        result == same_ignoring_case(a@, b@),
{
    let mut left = a.chars();
    let mut right = b.chars();
    let ghost mut i: int = 0;
    loop
        invariant
            0 <= i <= a@.len(),
            i <= b@.len(),
            vstd::std_specs::iter::IteratorSpec::remaining(&left) == a@.skip(i),
            vstd::std_specs::iter::IteratorSpec::remaining(&right) == b@.skip(i),
            forall|j: int| 0 <= j < i ==> lowered(#[trigger] a@[j]) == lowered(b@[j]),
        decreases a@.len() - i,
    {
        match (left.next(), right.next()) {
            (Some(x), Some(y)) => {
                if lower(x) != lower(y) {
                    return false;
                }
            },
            (None, None) => {
                return true;
            },
            _ => {
                return false;
            },
        }
        proof {
            i = i + 1;
        }
    }
}

pub(crate) proof fn lemma_encode_concat(a: Seq<char>, b: Seq<char>)
    ensures
        vstd::utf8::encode_utf8(a + b) == vstd::utf8::encode_utf8(a) + vstd::utf8::encode_utf8(b),
    decreases a.len(),
{
    if a.len() == 0 {
        assert(a + b =~= b);
        assert(vstd::utf8::encode_utf8(a) =~= Seq::<u8>::empty());
    } else {
        lemma_encode_concat(a.drop_first(), b);
        assert((a + b).drop_first() =~= a.drop_first() + b);
        assert(vstd::utf8::encode_utf8(a + b) =~= vstd::utf8::encode_utf8(a)
            + vstd::utf8::encode_utf8(b));
    }
}

pub(crate) proof fn lemma_encode_injective(a: Seq<char>, b: Seq<char>)
    requires
        vstd::utf8::encode_utf8(a) == vstd::utf8::encode_utf8(b),
    ensures
        a == b,
{
    vstd::utf8::encode_utf8_decode_utf8(a);
    vstd::utf8::encode_utf8_decode_utf8(b);
}

/// Where the encoding of a leading piece ends, a character ends.
proof fn lemma_boundary_after(a: Seq<char>, b: Seq<char>)
    ensures
        vstd::utf8::is_char_boundary(
            vstd::utf8::encode_utf8(a + b),
            vstd::utf8::encode_utf8(a).len() as int,
        ),
    decreases a.len(),
{
    let bytes = vstd::utf8::encode_utf8(a + b);
    vstd::utf8::encode_utf8_valid_utf8(a + b);
    lemma_encode_concat(a, b);
    if a.len() > 0 {
        vstd::utf8::encode_utf8_first_scalar(a + b);
        assert((a + b).drop_first() =~= a.drop_first() + b);
        assert(vstd::utf8::pop_first_scalar(bytes) =~= vstd::utf8::encode_utf8(
            a.drop_first() + b,
        ));
        lemma_boundary_after(a.drop_first(), b);
    }
}

/// The encoding of an ASCII character is the byte of the same value.
proof fn lemma_encode_ascii(c: char)
    requires
        c < '\u{80}',
    ensures
        vstd::utf8::encode_utf8(seq![c]) == seq![c as u8],
{
    vstd::utf8::is_ascii_chars_encode_utf8(seq![c]);
    assert(vstd::utf8::encode_utf8(seq![c])[0] == seq![c][0] as u8);
    assert(vstd::utf8::encode_utf8(seq![c]) =~= seq![c as u8]);
}

/// The character that an ASCII byte of an encoding stands for.
pub proof fn lemma_ascii_byte(s: Seq<char>, i: int) -> (k: int)
    requires
        0 <= i < vstd::utf8::encode_utf8(s).len(),
        vstd::utf8::encode_utf8(s)[i] < 0x80,
    ensures
        0 <= k < s.len(),
        s[k] == vstd::utf8::encode_utf8(s)[i] as char,
        vstd::utf8::encode_utf8(s.take(k)).len() == i,
    decreases s.len(),
{
    let bytes = vstd::utf8::encode_utf8(s);
    vstd::utf8::encode_utf8_first_scalar(s);
    let n = vstd::utf8::length_of_first_scalar(bytes);
    if i < n {
        let b = bytes[0];
        assert((b & 0x7f) == b) by (bit_vector)
            requires
                b < 0x80,
        ;
        vstd::utf8::char_u32_cast(s[0], b as u32);
        assert(s.take(0) =~= Seq::<char>::empty());
        0
    } else {
        let rest = s.drop_first();
        assert(vstd::utf8::encode_utf8(rest) =~= bytes.skip(n));
        let k = lemma_ascii_byte(rest, i - n);
        assert(s.take(k + 1) =~= seq![s[0]] + rest.take(k));
        assert(s.take(k + 1).drop_first() =~= rest.take(k));
        k + 1
    }
}

/// The byte that an ASCII character becomes in an encoding.
proof fn lemma_ascii_char(s: Seq<char>, k: int)
    requires
        0 <= k < s.len(),
        s[k] < '\u{80}',
    ensures
        vstd::utf8::encode_utf8(s.take(k)).len() < vstd::utf8::encode_utf8(s).len(),
        vstd::utf8::encode_utf8(s)[vstd::utf8::encode_utf8(s.take(k)).len() as int] == s[k] as u8,
{
    let rest = s.skip(k + 1);
    assert(s =~= s.take(k) + (seq![s[k]] + rest));
    lemma_encode_concat(s.take(k), seq![s[k]] + rest);
    lemma_encode_concat(seq![s[k]], rest);
    lemma_encode_ascii(s[k]);
}

/// A text whose encoding starts with the encoding of another starts with that other text.
proof fn lemma_split_after(s: Seq<char>, prefix: Seq<char>)
    requires
        vstd::utf8::encode_utf8(prefix).is_prefix_of(vstd::utf8::encode_utf8(s)),
    ensures
        prefix.is_prefix_of(s),
        vstd::utf8::is_char_boundary(
            vstd::utf8::encode_utf8(s),
            vstd::utf8::encode_utf8(prefix).len() as int,
        ),
{
    let bytes = vstd::utf8::encode_utf8(s);
    let n = vstd::utf8::encode_utf8(prefix).len() as int;
    let tail = bytes.subrange(n, bytes.len() as int);
    vstd::utf8::encode_utf8_valid_utf8(s);
    vstd::utf8::encode_utf8_valid_utf8(prefix);
    assert(bytes.subrange(0, n) =~= vstd::utf8::encode_utf8(prefix));
    if !vstd::utf8::valid_utf8(tail) {
        vstd::utf8::partial_valid_partial_invalid_utf8(bytes, n);
    }
    let rest = vstd::utf8::decode_utf8(tail);
    vstd::utf8::decode_utf8_encode_utf8(tail);
    lemma_encode_concat(prefix, rest);
    assert(vstd::utf8::encode_utf8(prefix + rest) =~= bytes);
    lemma_encode_injective(prefix + rest, s);
    lemma_boundary_after(prefix, rest);
}

/// Cuts a text at the first occurrence of an ASCII character.
pub fn split_once<'a>(text: &'a str, separator: char) -> (result: Option<(&'a str, &'a str)>)
    requires
        separator < '\u{80}',
    ensures
        match result {
            Some((before, after)) => {
                &&& text@ == before@ + seq![separator] + after@
                &&& !before@.contains(separator)
            },
            None => !text@.contains(separator),
        },
{
    let bytes = text.as_bytes();
    let wanted = separator as u8;
    let mut i: usize = 0;
    while i < bytes.len()
        invariant
            i <= bytes@.len(),
            bytes@ == vstd::utf8::encode_utf8(text@),
            wanted == separator as u8,
            separator < '\u{80}',
            forall|j: int| 0 <= j < i ==> bytes@[j] != wanted,
        decreases bytes@.len() - i,
    {
        if bytes[i] == wanted {
            let ghost k: int = lemma_ascii_byte(text@, i as int);
            let ghost before = text@.take(k);
            let ghost after = text@.skip(k + 1);
            proof {
                assert(wanted as char == separator);
                assert(text@ =~= before + (seq![separator] + after));
                assert(text@ =~= (before + seq![separator]) + after);
                lemma_boundary_after(before, seq![separator] + after);
                lemma_encode_concat(before, seq![separator] + after);
                lemma_encode_concat(seq![separator], after);
                lemma_encode_ascii(separator);
                lemma_boundary_after(seq![separator], after);
                if before.contains(separator) {
                    let j = choose|j: int| 0 <= j < before.len() && before[j] == separator;
                    lemma_ascii_char(before, j);
                    assert(bytes@[vstd::utf8::encode_utf8(before.take(j)).len() as int] == wanted);
                }
            }
            let (head, tail) = text.split_at(i);
            proof {
                assert(vstd::utf8::encode_utf8(head@) =~= vstd::utf8::encode_utf8(before));
                assert(vstd::utf8::encode_utf8(tail@) =~= vstd::utf8::encode_utf8(
                    seq![separator] + after,
                ));
                lemma_encode_injective(head@, before);
                lemma_encode_injective(tail@, seq![separator] + after);
            }
            let (_, rest) = tail.split_at(1);
            proof {
                assert(vstd::utf8::encode_utf8(rest@) =~= vstd::utf8::encode_utf8(after));
                lemma_encode_injective(rest@, after);
            }
            return Some((head, rest));
        }
        i += 1;
    }
    proof {
        if text@.contains(separator) {
            let j = choose|j: int| 0 <= j < text@.len() && text@[j] == separator;
            lemma_ascii_char(text@, j);
        }
    }
    None
}

/// What follows a leading piece of a text, if the text starts with that piece.
pub open spec fn after_prefix(text: Seq<char>, prefix: Seq<char>) -> Option<Seq<char>> {
    if prefix.is_prefix_of(text) {
        Some(text.skip(prefix.len() as int))
    } else {
        None
    }
}

/// Takes a leading piece off a text, when the text starts with it.
pub fn strip_prefix<'a>(text: &'a str, prefix: &str) -> (result: Option<&'a str>)
    ensures
        optional_str(result) == after_prefix(text@, prefix@),
{
    let bytes = text.as_bytes();
    let wanted = prefix.as_bytes();
    proof {
        if prefix@.is_prefix_of(text@) {
            let rest = text@.skip(prefix@.len() as int);
            assert(text@ =~= prefix@ + rest);
            lemma_encode_concat(prefix@, rest);
        }
    }
    if bytes.len() < wanted.len() {
        return None;
    }
    let mut i: usize = 0;
    while i < wanted.len()
        invariant
            i <= wanted@.len() <= bytes@.len(),
            bytes@ == vstd::utf8::encode_utf8(text@),
            wanted@ == vstd::utf8::encode_utf8(prefix@),
            prefix@.is_prefix_of(text@) ==> wanted@.is_prefix_of(bytes@),
            forall|j: int| 0 <= j < i ==> bytes@[j] == wanted@[j],
        decreases wanted@.len() - i,
    {
        if bytes[i] != wanted[i] {
            return None;
        }
        i += 1;
    }
    proof {
        lemma_split_after(text@, prefix@);
    }
    let (head, rest) = text.split_at(wanted.len());
    proof {
        lemma_encode_injective(head@, prefix@);
        lemma_encode_concat(head@, rest@);
        assert(vstd::utf8::encode_utf8(text@) =~= vstd::utf8::encode_utf8(head@ + rest@));
        lemma_encode_injective(text@, head@ + rest@);
        assert(text@.skip(prefix@.len() as int) =~= rest@);
    }
    Some(rest)
}

/// Whether one text occurs in another, as an unbroken run of characters.
pub open spec fn occurs_in(needle: Seq<char>, text: Seq<char>) -> bool {
    exists|i: int| #[trigger] occurs_at(needle, text, i)
}

/// Whether one text stands at a given place of another.
pub open spec fn occurs_at(needle: Seq<char>, text: Seq<char>, i: int) -> bool {
    0 <= i <= text.len() - needle.len() && text.subrange(i, i + needle.len()) == needle
}

fn chars_of(text: &str) -> (result: Vec<char>)
    ensures
        result@ == text@,
{
    let mut chars = text.chars();
    let mut result: Vec<char> = Vec::new();
    loop
        invariant
            result@.len() <= text@.len(),
            result@ == text@.take(result@.len() as int),
            vstd::std_specs::iter::IteratorSpec::remaining(&chars) == text@.skip(
                result@.len() as int,
            ),
        decreases text@.len() - result@.len(),
    {
        match chars.next() {
            Some(c) => {
                result.push(c);
            },
            None => {
                return result;
            },
        }
    }
}

fn stands_at(needle: &Vec<char>, text: &Vec<char>, i: usize) -> (result: bool)
    requires
        i + needle@.len() <= text@.len(),
    ensures
        result == occurs_at(needle@, text@, i as int),
{
    let length: usize = text.len();
    let mut j: usize = 0;
    while j < needle.len()
        invariant
            length == text@.len(),
            i + needle@.len() <= length,
            j <= needle@.len(),
            forall|k: int| 0 <= k < j ==> text@[i + k] == needle@[k],
        decreases needle@.len() - j,
    {
        if text[i + j] != needle[j] {
            assert(text@.subrange(i as int, i + needle@.len())[j as int] != needle@[j as int]);
            return false;
        }
        j += 1;
    }
    assert(text@.subrange(i as int, i + needle@.len()) =~= needle@);
    true
}

/// Looks for one text in another.
pub fn contains(text: &str, needle: &str) -> (result: bool)
    ensures
        result == occurs_in(needle@, text@),
{
    let haystack = chars_of(text);
    let wanted = chars_of(needle);
    if haystack.len() < wanted.len() {
        return false;
    }
    let last: usize = haystack.len() - wanted.len();
    let mut i: usize = 0;
    while i <= last
        invariant
            last == haystack@.len() - wanted@.len(),
            i <= last + 1,
            haystack@ == text@,
            wanted@ == needle@,
            forall|j: int| 0 <= j < i ==> !#[trigger] occurs_at(needle@, text@, j),
        decreases last + 1 - i,
    {
        if stands_at(&wanted, &haystack, i) {
            return true;
        }
        if i == last {
            return false;
        }
        i += 1;
    }
    false
}

} // verus!
