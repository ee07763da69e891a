//! Bodies as bytes, and the Base64 texts that carry them.

use base64::Engine;
use bytes::Bytes;
use vstd::prelude::*;

verus! {

/// The most bytes whose Base64 text still fits in memory: a text is never longer than
/// `isize::MAX`, and four characters stand for three bytes.
pub const MAX_ENCODABLE: usize = usize::MAX / 8 * 3;

/// Why a text is not the Base64 form of any bytes.
#[derive(Debug, Clone, Copy, PartialEq, Eq, Structural)]
pub enum Base64Error {
    /// A byte that has no place in the text, at the given offset.
    InvalidByte(usize, u8),
    /// The number of symbols in the text, which no bytes give.
    InvalidLength(usize),
    /// A last symbol with bits that would be dropped, at the given offset.
    InvalidLastSymbol(usize, u8),
    /// Padding that is missing or not in its canonical form.
    InvalidPadding,
}

/// A buffer of the `bytes` crate.
#[verifier::external_type_specification]
#[verifier::external_body]
pub struct ExBytes(bytes::Bytes);

/// The bytes that a buffer of the `bytes` crate holds.
pub uninterp spec fn held(buffer: bytes::Bytes) -> Seq<u8>;

/// The character that stands for six bits in a Base64 text.
pub open spec fn symbol(bits: nat) -> char {
    if bits < 26 {
        ('A' as nat + bits) as char
    } else if bits < 52 {
        ('a' as nat + (bits - 26)) as char
    } else if bits < 62 {
        ('0' as nat + (bits - 52)) as char
    } else if bits == 62 {
        '+'
    } else {
        '/'
    }
}

/// The Base64 text of some bytes: four characters for each three bytes, six bits to a
/// character. Bits beyond the last byte are zero, and `=` stands for a character that would
/// hold no other.
pub open spec fn base64_text(data: Seq<u8>) -> Seq<char>
    decreases data.len(),
{
    if data.len() == 0 {
        seq![]
    } else {
        let a: nat = data[0] as nat;
        let b: nat = if data.len() > 1 { data[1] as nat } else { 0 };
        let c: nat = if data.len() > 2 { data[2] as nat } else { 0 };
        seq![
            symbol(a / 4),
            symbol(a % 4 * 16 + b / 16),
            if data.len() > 1 { symbol(b % 16 * 4 + c / 64) } else { '=' },
            if data.len() > 2 { symbol(c % 64) } else { '=' },
        ] + (if data.len() > 3 { base64_text(data.skip(3)) } else { seq![] })
    }
}

proof fn lemma_symbol(a: nat, b: nat)
    requires
        a < 64,
        b < 64,
    ensures
        symbol(a) != '=',
        symbol(a) == symbol(b) ==> a == b,
{
}

/// Different bytes have different Base64 texts.
pub proof fn law_base64_is_unambiguous(a: Seq<u8>, b: Seq<u8>)
    requires
        base64_text(a) == base64_text(b),
    ensures
        a == b,
    decreases a.len(),
{
    let text = base64_text(a);
    if a.len() == 0 || b.len() == 0 {
        assert(text.len() == 0 <==> a.len() == 0);
        assert(text.len() == 0 <==> b.len() == 0);
        assert(a =~= b);
    } else {
        let a1: nat = if a.len() > 1 { a[1] as nat } else { 0 };
        let a2: nat = if a.len() > 2 { a[2] as nat } else { 0 };
        let b1: nat = if b.len() > 1 { b[1] as nat } else { 0 };
        let b2: nat = if b.len() > 2 { b[2] as nat } else { 0 };
        lemma_symbol(a[0] as nat / 4, b[0] as nat / 4);
        lemma_symbol(a[0] as nat % 4 * 16 + a1 / 16, b[0] as nat % 4 * 16 + b1 / 16);
        lemma_symbol(a1 % 16 * 4 + a2 / 64, b1 % 16 * 4 + b2 / 64);
        lemma_symbol(b1 % 16 * 4 + b2 / 64, a1 % 16 * 4 + a2 / 64);
        lemma_symbol(a2 % 64, b2 % 64);
        lemma_symbol(b2 % 64, a2 % 64);
        let rest_a: Seq<char> = if a.len() > 3 { base64_text(a.skip(3)) } else { seq![] };
        let rest_b: Seq<char> = if b.len() > 3 { base64_text(b.skip(3)) } else { seq![] };
        assert(text[0] == symbol(a[0] as nat / 4) && text[0] == symbol(b[0] as nat / 4));
        assert(text[1] == symbol(a[0] as nat % 4 * 16 + a1 / 16) && text[1] == symbol(
            b[0] as nat % 4 * 16 + b1 / 16,
        ));
        assert(text[2] == (if a.len() > 1 { symbol(a1 % 16 * 4 + a2 / 64) } else { '=' }));
        assert(text[2] == (if b.len() > 1 { symbol(b1 % 16 * 4 + b2 / 64) } else { '=' }));
        assert(text[3] == (if a.len() > 2 { symbol(a2 % 64) } else { '=' }));
        assert(text[3] == (if b.len() > 2 { symbol(b2 % 64) } else { '=' }));
        assert(text.skip(4) =~= rest_a);
        assert(text.skip(4) =~= rest_b);
        if a.len() > 3 && b.len() > 3 {
            law_base64_is_unambiguous(a.skip(3), b.skip(3));
            assert forall|i: int| 0 <= i < a.len() && i < b.len() implies a[i] == b[i] by {
                if i >= 3 {
                    assert(a[i] == a.skip(3)[i - 3]);
                    assert(b[i] == b.skip(3)[i - 3]);
                }
            }
            assert(a.len() == a.skip(3).len() + 3);
            assert(b.len() == b.skip(3).len() + 3);
        }
        assert(a =~= b);
    }
}

/// What the standard engine of the `base64` crate reads out of a text.
pub uninterp spec fn base64_data(text: Seq<char>) -> Result<Seq<u8>, Base64Error>;

/// Makes an empty buffer with `Bytes::new`.
///
/// Trusted: it holds no byte.
#[verifier::external_body]
pub(crate) fn no_bytes() -> (result: Bytes)
    ensures
        held(result) == Seq::<u8>::empty(),
{
    Bytes::new()
}

/// Makes a buffer of a vector with `Bytes::from`.
///
/// Trusted: it holds the bytes of the vector.
#[verifier::external_body]
pub(crate) fn bytes_of(data: Vec<u8>) -> (result: Bytes)
    ensures
        held(result) == data@,
{
    Bytes::from(data)
}

/// Makes a buffer of a text with `Bytes::from`.
///
/// Trusted: it holds the UTF-8 encoding of the text.
#[verifier::external_body]
pub(crate) fn bytes_of_text(text: String) -> (result: Bytes)
    ensures
        held(result) == vstd::utf8::encode_utf8(text@),
{
    Bytes::from(text)
}

/// Reads a buffer with `Bytes::as_ref`.
///
/// Trusted: the slice is what the buffer holds.
#[verifier::external_body]
pub(crate) fn bytes_in(buffer: &Bytes) -> (result: &[u8])
    ensures
        result@ == held(*buffer),
{
    buffer.as_ref()
}

/// Copies a buffer with the `Clone` of `Bytes`.
///
/// Trusted: the copy holds the same bytes.
pub assume_specification[ <bytes::Bytes as Clone>::clone ](buffer: &bytes::Bytes) -> (result:
    bytes::Bytes)
    ensures
        held(result) == held(*buffer),
;

/// Reads bytes as text with `String::from_utf8`.
///
/// Trusted: it succeeds exactly on valid UTF-8, and the text is the one that the bytes encode.
#[verifier::external_body]
pub(crate) fn utf8_text(data: &[u8]) -> (result: Option<String>)
    ensures
        match result {
            Some(text) => vstd::utf8::encode_utf8(text@) == data@,
            None => !vstd::utf8::valid_utf8(data@),
        },
{
    String::from_utf8(data.to_vec()).ok()
}

/// Encodes bytes with the `STANDARD` engine of the `base64` crate, which pads its text.
///
/// Trusted: the text is that of the standard alphabet, padded, and the same engine reads the
/// bytes back out of it. The bound leaves out what the engine cannot allocate a text for.
#[verifier::external_body]
pub(crate) fn base64_encode(data: &[u8]) -> (result: String)
    requires
        data@.len() <= MAX_ENCODABLE,
    ensures
        result@ == base64_text(data@),
        (base64_data(result@) == Ok::<Seq<u8>, Base64Error>(data@)),
{
    base64::engine::general_purpose::STANDARD.encode(data)
}

/// Decodes a text with the `STANDARD` engine of the `base64` crate.
///
/// Trusted: what comes back, the bytes or the error, is a function of the text. Bytes come
/// back only out of the very text that stands for them, padding included, and an error only
/// where the text stands for no bytes.
#[verifier::external_body]
pub(crate) fn base64_decode(text: &str) -> (result: Result<Vec<u8>, Base64Error>)
    ensures
        match result {
            Ok(data) => {
                &&& base64_data(text@) == Ok::<Seq<u8>, Base64Error>(data@)
                &&& base64_text(data@) == text@
            },
            Err(error) => {
                &&& base64_data(text@) == Err::<Seq<u8>, Base64Error>(error)
                &&& forall|data: Seq<u8>| #[trigger] base64_text(data) != text@
            },
        },
{
    match base64::engine::general_purpose::STANDARD.decode(text) {
        Ok(data) => Ok(data),
        Err(base64::DecodeError::InvalidByte(at, byte)) => Err(Base64Error::InvalidByte(at, byte)),
        Err(base64::DecodeError::InvalidLength(length)) => Err(Base64Error::InvalidLength(length)),
        Err(base64::DecodeError::InvalidLastSymbol(at, byte)) => {
            Err(Base64Error::InvalidLastSymbol(at, byte))
        },
        Err(base64::DecodeError::InvalidPadding) => Err(Base64Error::InvalidPadding),
    }
}

} // verus!
