//! Azure Functions response conversion.

use crate::fields;
use crate::json;
use crate::payload;
use crate::text;
use crate::text::IntoText;
use bytes::Bytes;
use vstd::prelude::*;

verus! {

/// Azure Functions HTTP response.
#[derive(Debug)]
pub struct FunctionResponse {
    /// HTTP status code.
    pub status_code: u16,
    /// Response headers, in emission order.
    ///
    /// A list rather than a map because HTTP allows the same field name to appear more than
    /// once and a handler must be able to use that, most importantly to emit several
    /// `Set-Cookie` lines, which cannot legally be folded into one. A map would silently keep
    /// only the last one.
    pub headers: Vec<(String, String)>,
    /// Response body.
    pub body: String,
    /// Whether the body is base64 encoded.
    pub is_base64_encoded: bool,
}

/// What an application answers with, before it becomes a response.
#[derive(Debug)]
pub struct ApplicationReply {
    /// HTTP status code.
    pub status: u16,
    /// Response body.
    pub body: String,
    /// Response headers, in emission order.
    pub headers: Vec<(String, String)>,
}

/// What a response says.
#[verifier::ext_equal]
pub struct ResponseView {
    pub status_code: u16,
    pub headers: Seq<fields::Field>,
    pub body: Seq<char>,
    pub is_base64_encoded: bool,
}

impl View for FunctionResponse {
    type V = ResponseView;

    open spec fn view(&self) -> ResponseView {
        ResponseView {
            status_code: self.status_code,
            headers: fields::listed(self.headers@),
            body: self.body@,
            is_base64_encoded: self.is_base64_encoded,
        }
    }
}

/// A response with a text for its body and no headers.
pub open spec fn plain(status_code: u16, body: Seq<char>) -> ResponseView {
    ResponseView { status_code, headers: seq![], body, is_base64_encoded: false }
}

/// A response that carries a JSON text.
pub open spec fn json_response(status_code: u16, body: Seq<char>) -> ResponseView {
    plain(status_code, body).with_header("content-type"@, "application/json"@)
}

/// A response that reports an error.
pub open spec fn error_response(status_code: u16, message: Seq<char>) -> ResponseView {
    json_response(status_code, json::object_text("error"@, message))
}

impl ResponseView {
    /// The response with one more header line, after those that it has.
    pub open spec fn with_header(self, name: Seq<char>, value: Seq<char>) -> ResponseView {
        ResponseView { headers: self.headers.push((name, value)), ..self }
    }

    /// The response with a header line in place of those with the same name.
    pub open spec fn with_only_header(self, name: Seq<char>, value: Seq<char>) -> ResponseView {
        ResponseView {
            headers: fields::other_headers(self.headers, name).push((name, value)),
            ..self
        }
    }

    /// The bytes that the body stands for. A body that claims to be Base64 and is not stands
    /// for none.
    pub open spec fn payload(self) -> Seq<u8> {
        if self.is_base64_encoded {
            match payload::base64_data(self.body) {
                Ok(data) => data,
                Err(_) => seq![],
            }
        } else {
            vstd::utf8::encode_utf8(self.body)
        }
    }
}

/// A header that is added shows up after the values that its name already had, under that
/// name in any case, and changes nothing for other names.
pub proof fn law_added_header(
    response: ResponseView,
    name: Seq<char>,
    value: Seq<char>,
    looked_up: Seq<char>,
)
    ensures
        fields::header_values(response.with_header(name, value).headers, looked_up) == (
        if text::same_ignoring_case(name, looked_up) {
            fields::header_values(response.headers, looked_up).push(value)
        } else {
            fields::header_values(response.headers, looked_up)
        }),
{
    fields::lemma_filter_map_push(response.headers, (name, value), fields::if_named(looked_up));
}

/// A header that is set is the only one under its name in any case, and changes nothing for
/// other names.
pub proof fn law_set_header(
    response: ResponseView,
    name: Seq<char>,
    value: Seq<char>,
    looked_up: Seq<char>,
)
    ensures
        fields::header_values(response.with_only_header(name, value).headers, looked_up) == (
        if text::same_ignoring_case(name, looked_up) {
            seq![value]
        } else {
            fields::header_values(response.headers, looked_up)
        }),
{
    let others = fields::other_headers(response.headers, name);
    fields::lemma_filter_map_push(others, (name, value), fields::if_named(looked_up));
    fields::lemma_other_headers(response.headers, name, looked_up);
    if text::same_ignoring_case(name, looked_up) {
        assert(Seq::<Seq<char>>::empty().push(value) =~= seq![value]);
    }
}

impl Clone for FunctionResponse {
    fn clone(&self) -> (result: Self)
        ensures
            result@ == self@,
    {
        FunctionResponse {
            status_code: self.status_code,
            headers: fields::copy(&self.headers),
            body: self.body.clone(),
            is_base64_encoded: self.is_base64_encoded,
        }
    }
}

impl FunctionResponse {
    /// Create a new response.
    pub fn new(status_code: u16) -> (result: Self)
        ensures
            result@ == plain(status_code, seq![]),
    {
        FunctionResponse::with_body(status_code, String::new())
    }

    /// Create an OK response.
    pub fn ok() -> (result: Self)
        ensures
            result@ == plain(200, seq![]),
    {
        FunctionResponse::new(200)
    }

    /// Create a response with a body.
    pub fn with_body<B: IntoText>(status_code: u16, body: B) -> (result: Self)
        ensures
            result@ == plain(status_code, body.text()),
    {
        let result = FunctionResponse {
            status_code,
            headers: Vec::new(),
            body: body.into_text(),
            is_base64_encoded: false,
        };
        assert(result@.headers =~= seq![]);
        result
    }

    /// Create a JSON response out of what serializing the data gave. An error is passed on.
    pub fn json<E>(serialized: Result<String, E>) -> (result: Result<Self, E>)
        ensures
            match serialized {
                Ok(body) => result is Ok && result->Ok_0@ == json_response(200, body@),
                Err(error) => result == Err::<Self, E>(error),
            },
    {
        match serialized {
            Ok(body) => Ok(
                FunctionResponse::with_body(200, body).header("content-type", "application/json"),
            ),
            Err(error) => Err(error),
        }
    }

    /// Create an error response.
    pub fn error<M: IntoText>(status_code: u16, message: M) -> (result: Self)
        ensures
            result@ == error_response(status_code, message.text()),
    {
        let message = message.into_text();
        let body = json::object("error", message.as_str());
        FunctionResponse::with_body(status_code, body).header("content-type", "application/json")
    }

    /// Create a not found response.
    pub fn not_found() -> (result: Self)
        ensures
            result@ == error_response(404, "Not Found"@),
    {
        FunctionResponse::error(404, "Not Found")
    }

    /// Create a bad request response.
    pub fn bad_request<M: IntoText>(message: M) -> (result: Self)
        ensures
            result@ == error_response(400, message.text()),
    {
        FunctionResponse::error(400, message)
    }

    /// Create an internal server error response.
    pub fn internal_error<M: IntoText>(message: M) -> (result: Self)
        ensures
            result@ == error_response(500, message.text()),
    {
        FunctionResponse::error(500, message)
    }

    /// Create the response for what an application answered: its status, body and headers, or
    /// an internal server error that carries the error message.
    pub fn from_application(outcome: Result<ApplicationReply, String>) -> (result: Self)
        ensures
            result@ == (match outcome {
                Ok(reply) => ResponseView {
                    status_code: reply.status,
                    headers: fields::listed(reply.headers@),
                    body: reply.body@,
                    is_base64_encoded: false,
                },
                Err(message) => error_response(500, message@),
            }),
    {
        match outcome {
            Ok(reply) => FunctionResponse {
                status_code: reply.status,
                headers: reply.headers,
                body: reply.body,
                is_base64_encoded: false,
            },
            Err(message) => FunctionResponse::internal_error(message),
        }
    }

    /// Append a header.
    ///
    /// Appends rather than replaces, so calling this twice with the same name emits two header
    /// lines (e.g. two `Set-Cookie`s). Use [`FunctionResponse::set_header`] to replace instead.
    pub fn header<N: IntoText, T: IntoText>(self, name: N, value: T) -> (result: Self)
        ensures
            result@ == self@.with_header(name.text(), value.text()),
    {
        let mut response = self;
        let name = name.into_text();
        let value = value.into_text();
        response.headers.push((name, value));
        assert(response@.headers =~= self@.headers.push((name@, value@)));
        response
    }

    /// Set a header, removing any existing lines with the same name.
    pub fn set_header<N: IntoText, T: IntoText>(self, name: N, value: T) -> (result: Self)
        ensures
            result@ == self@.with_only_header(name.text(), value.text()),
    {
        let name = name.into_text();
        let value = value.into_text();
        let mut headers = fields::remove_header(self.headers, name.as_str());
        let ghost others = fields::listed(headers@);
        headers.push((name, value));
        assert(fields::listed(headers@) =~= others.push((name@, value@)));
        FunctionResponse {
            status_code: self.status_code,
            headers,
            body: self.body,
            is_base64_encoded: self.is_base64_encoded,
        }
    }

    /// The first value for `name`, matched case-insensitively.
    pub fn header_value(&self, name: &str) -> (result: Option<&str>)
        ensures
            text::optional_str(result) == fields::first(
                fields::header_values(self@.headers, name@),
            ),
    {
        fields::first_of(self.header_values(name))
    }

    /// Every value for `name`, in emission order, matched case-insensitively.
    pub fn header_values(&self, name: &str) -> (result: Vec<&str>)
        ensures
            fields::texts(result@) == fields::header_values(self@.headers, name@),
    {
        fields::collect_header_values(&self.headers, name)
    }

    /// Set the body, a text that is sent as it is, whatever body was set before.
    pub fn body<B: IntoText>(self, body: B) -> (result: Self)
        ensures
            result@ == (ResponseView { body: body.text(), is_base64_encoded: false, ..self@ }),
            result@.payload() == vstd::utf8::encode_utf8(body.text()),
    {
        let mut response = self;
        response.body = body.into_text();
        response.is_base64_encoded = false;
        response
    }

    /// Set binary body (base64 encoded).
    pub fn binary_body(self, data: &[u8]) -> (result: Self)
        requires
            data@.len() <= payload::MAX_ENCODABLE,
        ensures
            result@ == (ResponseView {
                body: payload::base64_text(data@),
                is_base64_encoded: true,
                ..self@
            }),
            result@.payload() == data@,
    {
        let mut response = self;
        response.body = payload::base64_encode(data);
        response.is_base64_encoded = true;
        response
    }

    /// Set the content type.
    pub fn content_type<T: IntoText>(self, content_type: T) -> (result: Self)
        ensures
            result@ == self@.with_only_header("content-type"@, content_type.text()),
    {
        self.set_header("content-type", content_type)
    }

    /// Add CORS headers.
    pub fn cors<O: IntoText>(self, origin: O) -> (result: Self)
        ensures
            result@ == self@.with_header("access-control-allow-origin"@, origin.text()).with_header(
                "access-control-allow-methods"@,
                "GET, POST, PUT, DELETE, OPTIONS"@,
            ).with_header("access-control-allow-headers"@, "Content-Type, Authorization"@),
    {
        self.header("access-control-allow-origin", origin).header(
            "access-control-allow-methods",
            "GET, POST, PUT, DELETE, OPTIONS",
        ).header("access-control-allow-headers", "Content-Type, Authorization")
    }

    /// The bytes that the body stands for: decoded when it is base64 encoded, and none when it
    /// claims to be and is not.
    pub fn into_payload(self) -> (result: Bytes)
        ensures
            payload::held(result) == self@.payload(),
            self@.is_base64_encoded ==> (if exists|data: Seq<u8>| #[trigger]
                payload::base64_text(data) == self@.body {
                payload::base64_text(payload::held(result)) == self@.body
            } else {
                payload::held(result) == Seq::<u8>::empty()
            }),
    {
        if self.is_base64_encoded {
            match payload::base64_decode(self.body.as_str()) {
                Ok(data) => payload::bytes_of(data),
                Err(_) => payload::no_bytes(),
            }
        } else {
            payload::bytes_of_text(self.body)
        }
    }
}

impl Default for FunctionResponse {
    fn default() -> (result: Self)
        ensures
            result@ == plain(200, seq![]),
    {
        FunctionResponse::ok()
    }
}

impl From<&str> for FunctionResponse {
    fn from(body: &str) -> (result: Self)
        ensures
            result@ == plain(200, body@),
    {
        FunctionResponse::with_body(200, body)
    }
}

// A response is known by what it says and not by how its parts are stored, so each `from` states
// its own contract in place of a value that it would have to equal.
impl vstd::std_specs::convert::FromSpecImpl<&str> for FunctionResponse {
    open spec fn obeys_from_spec() -> bool {
        false
    }

    open spec fn from_spec(body: &str) -> Self {
        arbitrary()
    }
}

impl From<String> for FunctionResponse {
    fn from(body: String) -> (result: Self)
        ensures
            result@ == plain(200, body@),
    {
        FunctionResponse::with_body(200, body)
    }
}

impl vstd::std_specs::convert::FromSpecImpl<String> for FunctionResponse {
    open spec fn obeys_from_spec() -> bool {
        false
    }

    open spec fn from_spec(body: String) -> Self {
        arbitrary()
    }
}

impl From<Bytes> for FunctionResponse {
    /// Bytes that are UTF-8 become a text body and others a binary body. Either way the body
    /// stands for the bytes that it was made of. Bytes that are too many for a binary body
    /// are answered with an internal server error.
    fn from(body: Bytes) -> (result: Self)
        ensures
            vstd::utf8::valid_utf8(payload::held(body)) ==> result@ == plain(
                200,
                vstd::utf8::decode_utf8(payload::held(body)),
            ),
            !vstd::utf8::valid_utf8(payload::held(body)) && payload::held(body).len()
                <= payload::MAX_ENCODABLE ==> result@ == (ResponseView {
                status_code: 200,
                headers: seq![],
                body: payload::base64_text(payload::held(body)),
                is_base64_encoded: true,
            }),
            !vstd::utf8::valid_utf8(payload::held(body)) && payload::held(body).len()
                > payload::MAX_ENCODABLE ==> result@ == error_response(
                500,
                "Response body is too large to encode"@,
            ),
            vstd::utf8::valid_utf8(payload::held(body)) || payload::held(body).len()
                <= payload::MAX_ENCODABLE ==> result@.payload() == payload::held(body),
    {
        let data = payload::bytes_in(&body);
        match payload::utf8_text(data) {
            Some(text) => {
                proof {
                    vstd::utf8::encode_utf8_valid_utf8(text@);
                    vstd::utf8::encode_utf8_decode_utf8(text@);
                }
                FunctionResponse::with_body(200, text)
            },
            None => {
                if data.len() > payload::MAX_ENCODABLE {
                    return FunctionResponse::internal_error("Response body is too large to encode");
                }
                FunctionResponse::ok().binary_body(data)
            },
        }
    }
}

impl vstd::std_specs::convert::FromSpecImpl<Bytes> for FunctionResponse {
    open spec fn obeys_from_spec() -> bool {
        false
    }

    open spec fn from_spec(body: Bytes) -> Self {
        arbitrary()
    }
}

} // verus!
