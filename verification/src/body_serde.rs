//! Request bodies as the Base64 texts that stand for them in JSON.

use crate::payload;
use crate::payload::Base64Error;
use bytes::Bytes;
use vstd::prelude::*;

verus! {

/// The body that a text stands for.
pub open spec fn body_of(text: Seq<char>) -> Result<Seq<u8>, Base64Error> {
    if text.len() == 0 {
        Ok(seq![])
    } else {
        payload::base64_data(text)
    }
}

/// Writes a body as text, from which the same body can be read back.
pub fn serialize(body: &Bytes) -> (result: String)
    requires
        payload::held(*body).len() <= payload::MAX_ENCODABLE,
    ensures
        result@ == payload::base64_text(payload::held(*body)),
        (body_of(result@) == Ok::<Seq<u8>, Base64Error>(payload::held(*body))),
{
    let result = payload::base64_encode(payload::bytes_in(body));
    assert(result@.len() == 0 ==> payload::held(*body) =~= seq![]);
    result
}

/// Reads a body out of a text. An empty text stands for an empty body, and a text that is not
/// padded standard Base64 stands for none.
pub fn deserialize(text: &str) -> (result: Result<Bytes, Base64Error>)
    ensures
        match result {
            Ok(body) => {
                &&& body_of(text@) == Ok::<Seq<u8>, Base64Error>(payload::held(body))
                &&& payload::base64_text(payload::held(body)) == text@
            },
            Err(error) => {
                &&& body_of(text@) == Err::<Seq<u8>, Base64Error>(error)
                &&& forall|data: Seq<u8>| #[trigger] payload::base64_text(data) != text@
            },
        },
{
    if text.is_empty() {
        return Ok(payload::no_bytes());
    }
    match payload::base64_decode(text) {
        Ok(data) => Ok(payload::bytes_of(data)),
        Err(error) => Err(error),
    }
}

} // verus!
