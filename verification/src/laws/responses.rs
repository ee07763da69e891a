//! How a response is built, and what it stands for.

use crate::fields;
use crate::json;
use crate::payload;
use crate::response;
use crate::response::ApplicationReply;
use crate::response::FunctionResponse;
use crate::text;
use crate::text::IntoText;
use bytes::Bytes;
use vstd::prelude::*;

verus! {

/// Whether two responses are the same in everything but their headers.
pub open spec fn same_but_for_headers(a: FunctionResponse, b: FunctionResponse) -> bool {
    &&& a.status_code == b.status_code
    &&& a.body@ == b.body@
    &&& a.is_base64_encoded == b.is_base64_encoded
}

/// Whether two responses say the same.
pub open spec fn same_response(a: FunctionResponse, b: FunctionResponse) -> bool {
    &&& same_but_for_headers(a, b)
    &&& super::pairs(a.headers@) == super::pairs(b.headers@)
}

pub(crate) proof fn lemma_same_response(a: FunctionResponse, b: FunctionResponse)
    requires
        a@ == b@,
    ensures
        same_response(a, b),
{
    super::lemma_pairs(a.headers@);
    super::lemma_pairs(b.headers@);
    assert(a@.status_code == b@.status_code && a@.headers == b@.headers);
    assert(a@.body == b@.body && a@.is_base64_encoded == b@.is_base64_encoded);
}

/// Whether a response has a status, a text for its body and no headers.
pub open spec fn plain(response: FunctionResponse, status: u16, body: Seq<char>) -> bool {
    &&& response.status_code == status
    &&& response.body@ == body
    &&& response.headers@.len() == 0
    &&& !response.is_base64_encoded
}

/// Whether a response has a status, a text for its body, and says that the text is JSON.
pub open spec fn says_json(response: FunctionResponse, status: u16, body: Seq<char>) -> bool {
    &&& response.status_code == status
    &&& response.body@ == body
    &&& super::pairs(response.headers@) == seq![("content-type"@, "application/json"@)]
    &&& !response.is_base64_encoded
}

proof fn lemma_plain(response: FunctionResponse, status: u16, body: Seq<char>)
    requires
        response@ == response::plain(status, body),
    ensures
        plain(response, status, body),
{
    assert(fields::listed(response.headers@).len() == 0);
    assert(response@.status_code == status && response@.body == body);
    assert(!response@.is_base64_encoded);
}

pub(crate) proof fn lemma_says_json(response: FunctionResponse, status: u16, body: Seq<char>)
    requires
        response@ == response::json_response(status, body),
    ensures
        says_json(response, status, body),
{
    super::lemma_pairs(response.headers@);
    assert(response@.headers =~= seq![("content-type"@, "application/json"@)]);
    assert(response@.status_code == status && response@.body == body);
    assert(!response@.is_base64_encoded);
}

/// A new response has the status and the body that it was made with, whatever they are, and
/// nothing else.
pub proof fn law_new_response<B: IntoText>(
    status: u16,
    body: B,
    empty: FunctionResponse,
    with_body: FunctionResponse,
    ok: FunctionResponse,
    default: FunctionResponse,
)
    requires
        call_ensures(FunctionResponse::new, (status,), empty),
        call_ensures(FunctionResponse::with_body::<B>, (status, body), with_body),
        call_ensures(FunctionResponse::ok, (), ok),
        call_ensures(<FunctionResponse as Default>::default, (), default),
    ensures
        plain(empty, status, seq![]),
        plain(with_body, status, body.text()),
        plain(ok, 200, seq![]),
        plain(default, 200, seq![]),
{
    lemma_plain(empty, status, seq![]);
    lemma_plain(with_body, status, body.text());
    lemma_plain(ok, 200, seq![]);
    lemma_plain(default, 200, seq![]);
}

/// A text becomes a response with that text.
pub proof fn law_response_of_text(
    borrowed: &str,
    owned: String,
    a: FunctionResponse,
    b: FunctionResponse,
)
    requires
        call_ensures(<FunctionResponse as From<&str>>::from, (borrowed,), a),
        call_ensures(<FunctionResponse as From<String>>::from, (owned,), b),
    ensures
        plain(a, 200, borrowed@),
        plain(b, 200, owned@),
{
    lemma_plain(a, 200, borrowed@);
    lemma_plain(b, 200, owned@);
}

/// Bytes become a response whose payload is those bytes: as text where they are UTF-8, and in
/// Base64 where they are not.
pub proof fn law_response_of_bytes(body: Bytes, response: FunctionResponse, payload: Bytes)
    requires
        call_ensures(<FunctionResponse as From<Bytes>>::from, (body,), response),
        call_ensures(FunctionResponse::into_payload, (response,), payload),
        vstd::utf8::valid_utf8(payload::held(body)) || payload::held(body).len()
            <= payload::MAX_ENCODABLE,
    ensures
        response.status_code == 200,
        response.headers@.len() == 0,
        response.is_base64_encoded <==> !vstd::utf8::valid_utf8(payload::held(body)),
        payload::held(payload) == payload::held(body),
{
    assert(fields::listed(response.headers@).len() == 0);
    assert(response@.status_code == response.status_code);
    assert(response@.is_base64_encoded == response.is_base64_encoded);
}

/// What was serialized becomes a JSON response, and what failed stays the same failure.
pub proof fn law_json_response<E>(
    serialized: Result<String, E>,
    response: Result<FunctionResponse, E>,
)
    requires
        call_ensures(FunctionResponse::json::<E>, (serialized,), response),
    ensures
        serialized is Ok ==> response is Ok && says_json(response->Ok_0, 200, serialized->Ok_0@),
        serialized is Err ==> response is Err && response->Err_0 == serialized->Err_0,
{
    if serialized is Ok {
        lemma_says_json(response->Ok_0, 200, serialized->Ok_0@);
    }
}

/// An error is reported under its status, with its whole message in a JSON object.
pub proof fn law_error_responses<M: IntoText>(
    status: u16,
    message: M,
    error: FunctionResponse,
    not_found: FunctionResponse,
    bad_request: FunctionResponse,
    internal_error: FunctionResponse,
)
    requires
        call_ensures(FunctionResponse::error::<M>, (status, message), error),
        call_ensures(FunctionResponse::not_found, (), not_found),
        call_ensures(FunctionResponse::bad_request::<M>, (message,), bad_request),
        call_ensures(FunctionResponse::internal_error::<M>, (message,), internal_error),
    ensures
        says_json(error, status, json::object_text("error"@, message.text())),
        says_json(not_found, 404, json::object_text("error"@, "Not Found"@)),
        says_json(bad_request, 400, json::object_text("error"@, message.text())),
        says_json(internal_error, 500, json::object_text("error"@, message.text())),
{
    let text = json::object_text("error"@, message.text());
    lemma_says_json(error, status, text);
    lemma_says_json(not_found, 404, json::object_text("error"@, "Not Found"@));
    lemma_says_json(bad_request, 400, text);
    lemma_says_json(internal_error, 500, text);
}

/// A message without quotes, backslashes and control characters stands in its JSON object as
/// it is, and a message is escaped piece by piece.
pub proof fn law_json_message(key: Seq<char>, message: Seq<char>, more: Seq<char>)
    ensures
        json_plain(key) && json_plain(message) ==> json::object_text(key, message) == seq!['{', '"']
            + key + seq!['"', ':', '"'] + message + seq!['"', '}'],
        json::escaped_text(message + more) == json::escaped_text(message) + json::escaped_text(more),
        json::escaped_text(seq!['"']) == seq!['\\', '"'],
        json::escaped_text(seq!['\\']) == seq!['\\', '\\'],
        json::escaped_text(seq!['\n']) == seq!['\\', 'n'],
{
    lemma_escaped_concat(message, more);
    if json_plain(key) && json_plain(message) {
        lemma_escaped_plain(key);
        lemma_escaped_plain(message);
        assert(json::object_text(key, message) =~= seq!['{', '"'] + key + seq!['"', ':', '"']
            + message + seq!['"', '}']);
    }
    lemma_escaped_one('"');
    lemma_escaped_one('\\');
    lemma_escaped_one('\n');
}

/// Whether a text holds nothing that JSON escapes.
pub open spec fn json_plain(text: Seq<char>) -> bool {
    forall|i: int|
        0 <= i < text.len() ==> {
            let c = #[trigger] text[i];
            c as nat >= 32 && c != '"' && c != '\\'
        }
}

proof fn lemma_escaped_one(c: char)
    ensures
        json::escaped_text(seq![c]) == json::escaped(c),
{
    assert(seq![c].drop_first() =~= seq![]);
    assert(json::escaped_text(seq![c].drop_first()) =~= seq![]);
    assert(json::escaped_text(seq![c]) =~= json::escaped(c));
}

proof fn lemma_escaped_plain(text: Seq<char>)
    requires
        json_plain(text),
    ensures
        json::escaped_text(text) == text,
    decreases text.len(),
{
    if text.len() > 0 {
        let rest = text.drop_first();
        assert forall|i: int| 0 <= i < rest.len() implies {
            let c = #[trigger] rest[i];
            c as nat >= 32 && c != '"' && c != '\\'
        } by {
            assert(rest[i] == text[i + 1]);
        }
        lemma_escaped_plain(rest);
        assert(text[0] as nat >= 32);
        assert(json::escaped_text(text) =~= text);
    } else {
        assert(json::escaped_text(text) =~= text);
    }
}

proof fn lemma_escaped_concat(a: Seq<char>, b: Seq<char>)
    ensures
        json::escaped_text(a + b) == json::escaped_text(a) + json::escaped_text(b),
    decreases a.len(),
{
    if a.len() == 0 {
        assert(a + b =~= b);
        assert(json::escaped_text(a) + json::escaped_text(b) =~= json::escaped_text(b));
    } else {
        lemma_escaped_concat(a.drop_first(), b);
        assert((a + b).drop_first() =~= a.drop_first() + b);
        assert(json::escaped_text(a + b) =~= json::escaped_text(a) + json::escaped_text(b));
    }
}

/// What an application answers is kept: its status, its headers in order and its body. Its
/// error is an internal server error with the same message.
pub proof fn law_application_reply(
    outcome: Result<ApplicationReply, String>,
    response: FunctionResponse,
)
    requires
        call_ensures(FunctionResponse::from_application, (outcome,), response),
    ensures
        outcome is Ok ==> response.status_code == outcome->Ok_0.status && response.body@
            == outcome->Ok_0.body@ && super::pairs(response.headers@) == super::pairs(
            outcome->Ok_0.headers@,
        ) && !response.is_base64_encoded,
        outcome is Err ==> says_json(
            response,
            500,
            json::object_text("error"@, outcome->Err_0@),
        ),
{
    super::lemma_pairs(response.headers@);
    match outcome {
        Ok(reply) => {
            super::lemma_pairs(reply.headers@);
            assert(response@.headers == fields::listed(reply.headers@));
            assert(response@.status_code == reply.status && response@.body == reply.body@);
            assert(!response@.is_base64_encoded);
        },
        Err(message) => {
            lemma_says_json(response, 500, json::object_text("error"@, message@));
        },
    }
}

/// Adding a header puts it after the headers that are there, and changes nothing else: neither
/// those headers, nor the status, nor the body, nor how the body is encoded.
pub proof fn law_add_header<N: IntoText, T: IntoText>(
    before: FunctionResponse,
    name: N,
    value: T,
    after: FunctionResponse,
)
    requires
        call_ensures(FunctionResponse::header::<N, T>, (before, name, value), after),
    ensures
        same_but_for_headers(after, before),
        super::pairs(after.headers@) == super::pairs(before.headers@).push(
            (name.text(), value.text()),
        ),
        after@.payload() == before@.payload(),
{
    super::lemma_pairs(before.headers@);
    super::lemma_pairs(after.headers@);
    lemma_but_for_headers(after, before);
    assert(after@.headers == before@.headers.push((name.text(), value.text())));
}

proof fn lemma_but_for_headers(after: FunctionResponse, before: FunctionResponse)
    requires
        after@ == (response::ResponseView { headers: after@.headers, ..before@ }),
    ensures
        same_but_for_headers(after, before),
        after@.payload() == before@.payload(),
{
    assert(after@.status_code == before@.status_code && after@.body == before@.body);
    assert(after@.is_base64_encoded == before@.is_base64_encoded);
}

/// Setting a header changes nothing but the headers: the status, the body, how the body is
/// encoded and so the bytes that it stands for are what they were. The header that is set is
/// the last one, and on a response without headers the only one.
pub proof fn law_set_header_alone<N: IntoText, T: IntoText>(
    before: FunctionResponse,
    name: N,
    value: T,
    after: FunctionResponse,
    payload_before: Bytes,
    payload_after: Bytes,
)
    requires
        call_ensures(FunctionResponse::set_header::<N, T>, (before, name, value), after),
        call_ensures(FunctionResponse::into_payload, (before,), payload_before),
        call_ensures(FunctionResponse::into_payload, (after,), payload_after),
    ensures
        same_but_for_headers(after, before),
        payload::held(payload_after) == payload::held(payload_before),
        after.headers@.len() > 0,
        super::pairs(after.headers@).last() == (name.text(), value.text()),
        before.headers@.len() == 0 ==> after.headers@.len() == 1,
{
    super::lemma_pairs(after.headers@);
    lemma_but_for_headers(after, before);
    lemma_set_headers(before, name.text(), value.text(), after);
    if before.headers@.len() == 0 {
        assert(fields::other_headers(fields::listed(before.headers@), name.text()) =~= seq![]);
        assert(super::pairs(after.headers@).len() == 1);
    }
    assert(super::pairs(after.headers@).len() == after.headers@.len());
}

proof fn lemma_set_headers(
    before: FunctionResponse,
    name: Seq<char>,
    value: Seq<char>,
    after: FunctionResponse,
)
    requires
        after@ == before@.with_only_header(name, value),
    ensures
        super::pairs(after.headers@) == fields::other_headers(
            fields::listed(before.headers@),
            name,
        ).push((name, value)),
{
    super::lemma_pairs(after.headers@);
    assert(after@.headers == fields::other_headers(before@.headers, name).push((name, value)));
}

/// Setting a header keeps each header with another name, in its place, and drops each with the
/// same name in any case: one more header in a response is one more header in what comes of
/// it, or none.
pub proof fn law_set_header_keeps_others<N: IntoText, T: IntoText>(
    before: FunctionResponse,
    longer: FunctionResponse,
    added: (String, String),
    name: N,
    value: T,
    after: FunctionResponse,
    longer_after: FunctionResponse,
)
    requires
        call_ensures(FunctionResponse::set_header::<N, T>, (before, name, value), after),
        call_ensures(FunctionResponse::set_header::<N, T>, (longer, name, value), longer_after),
        longer.headers@ == before.headers@.push(added),
    ensures
        super::pairs(longer_after.headers@).drop_last() == (if super::alike(
            added.0@,
            name.text(),
        ) {
            super::pairs(after.headers@).drop_last()
        } else {
            super::pairs(after.headers@).drop_last().push((added.0@, added.1@))
        }),
{
    let list = fields::listed(before.headers@);
    let item = (added.0@, added.1@);
    assert(fields::listed(longer.headers@) =~= list.push(item));
    fields::lemma_filter_map_push(list, item, fields::if_not_named(name.text()));
    super::lemma_alike(added.0@, name.text());
    lemma_set_headers(before, name.text(), value.text(), after);
    lemma_set_headers(longer, name.text(), value.text(), longer_after);
    let kept = fields::other_headers(list, name.text());
    let longer_kept = fields::other_headers(list.push(item), name.text());
    assert(kept.push((name.text(), value.text())).drop_last() =~= kept);
    assert(longer_kept.push((name.text(), value.text())).drop_last() =~= longer_kept);
}

/// Setting the content type is setting that header.
pub proof fn law_set_content_type<T: IntoText>(
    before: FunctionResponse,
    value: T,
    after: FunctionResponse,
    name: &str,
    set: FunctionResponse,
)
    requires
        name@ == "content-type"@,
        call_ensures(FunctionResponse::content_type::<T>, (before, value), after),
        call_ensures(FunctionResponse::set_header::<&str, T>, (before, name, value), set),
    ensures
        same_response(after, set),
        same_but_for_headers(after, before),
{
    lemma_same_response(after, set);
    lemma_but_for_headers(after, before);
}

/// The CORS headers come after the headers that are there, and change nothing else.
pub proof fn law_cors<O: IntoText>(before: FunctionResponse, origin: O, after: FunctionResponse)
    requires
        call_ensures(FunctionResponse::cors::<O>, (before, origin), after),
    ensures
        same_but_for_headers(after, before),
        super::pairs(after.headers@) == super::pairs(before.headers@) + seq![
            ("access-control-allow-origin"@, origin.text()),
            ("access-control-allow-methods"@, "GET, POST, PUT, DELETE, OPTIONS"@),
            ("access-control-allow-headers"@, "Content-Type, Authorization"@),
        ],
{
    super::lemma_pairs(before.headers@);
    super::lemma_pairs(after.headers@);
    lemma_but_for_headers(after, before);
    assert(after@.headers =~= before@.headers + seq![
        ("access-control-allow-origin"@, origin.text()),
        ("access-control-allow-methods"@, "GET, POST, PUT, DELETE, OPTIONS"@),
        ("access-control-allow-headers"@, "Content-Type, Authorization"@),
    ]);
}

/// A text that is set for the body is what the response stands for, whatever body it had, and
/// the status and the headers stay.
pub proof fn law_set_text_body<B: IntoText>(
    before: FunctionResponse,
    body: B,
    after: FunctionResponse,
    payload: Bytes,
)
    requires
        call_ensures(FunctionResponse::body::<B>, (before, body), after),
        call_ensures(FunctionResponse::into_payload, (after,), payload),
    ensures
        after.body@ == body.text(),
        !after.is_base64_encoded,
        after.status_code == before.status_code,
        super::pairs(after.headers@) == super::pairs(before.headers@),
        payload::held(payload) == vstd::utf8::encode_utf8(body.text()),
{
    super::lemma_pairs(before.headers@);
    super::lemma_pairs(after.headers@);
    assert(after@.body == body.text() && after@.status_code == before@.status_code);
    assert(after@.headers == before@.headers && !after@.is_base64_encoded);
}

/// Bytes that are set for the body are what the response stands for, whatever body it had, and
/// the status and the headers stay.
pub proof fn law_set_binary_body(
    before: FunctionResponse,
    data: &[u8],
    after: FunctionResponse,
    payload: Bytes,
)
    requires
        data@.len() <= payload::MAX_ENCODABLE,
        call_ensures(FunctionResponse::binary_body, (before, data), after),
        call_ensures(FunctionResponse::into_payload, (after,), payload),
    ensures
        after.is_base64_encoded,
        after.status_code == before.status_code,
        super::pairs(after.headers@) == super::pairs(before.headers@),
        payload::held(payload) == data@,
        payload::base64_text(data@) == after.body@,
{
    super::lemma_pairs(before.headers@);
    super::lemma_pairs(after.headers@);
    assert(after@.status_code == before@.status_code && after@.headers == before@.headers);
    assert(after@.is_base64_encoded && after@.body == payload::base64_text(data@));
}

/// A body stands for the encoding of its text, or for the bytes that its Base64 text was made
/// of, or, when it claims to be Base64 and was made of no bytes, for none.
pub proof fn law_payload(response: FunctionResponse, payload: Bytes, data: Seq<u8>)
    requires
        call_ensures(FunctionResponse::into_payload, (response,), payload),
    ensures
        !response.is_base64_encoded ==> payload::held(payload) == vstd::utf8::encode_utf8(
            response.body@,
        ),
        response.is_base64_encoded && response.body@ == payload::base64_text(data)
            ==> payload::held(payload) == data,
        response.is_base64_encoded && (forall|some: Seq<u8>| #[trigger]
            payload::base64_text(some) != response.body@) ==> payload::held(payload).len() == 0,
{
    assert(response@.is_base64_encoded == response.is_base64_encoded);
    assert(response@.body == response.body@);
    if response.is_base64_encoded && response.body@ == payload::base64_text(data) {
        assert(payload::base64_text(payload::held(payload)) == response.body@);
        payload::law_base64_is_unambiguous(payload::held(payload), data);
    }
}

/// A look-up finds the first header with a name, in any case, and all of them in order.
pub proof fn law_response_headers(
    response: FunctionResponse,
    name: &str,
    value: Option<&str>,
    values: Vec<&str>,
    i: int,
)
    requires
        call_ensures(FunctionResponse::header_value, (&response, name), value),
        call_ensures(FunctionResponse::header_values, (&response, name), values),
    ensures
        ({
            let headers = super::pairs(response.headers@);
            &&& 0 <= i < headers.len() && super::alike(headers[i].0, name@) && (forall|j: int|
                0 <= j < i ==> !super::alike((#[trigger] headers[j]).0, name@)) ==> value is Some
                && value->0@ == headers[i].1
            &&& (forall|j: int|
                0 <= j < headers.len() ==> !super::alike((#[trigger] headers[j]).0, name@))
                ==> value is None
            &&& value is Some <==> values@.len() > 0
            &&& value is Some ==> value->0@ == values@[0]@
        }),
{
    super::lemma_pairs(response.headers@);
    super::lemma_texts_in(values@);
    assert(text::optional_str(value) == fields::first(super::texts_in(values@)));
    assert(super::texts_in(values@).len() == values@.len());
    super::requests::lemma_first_header(super::pairs(response.headers@), name@, i);
}

/// A response with one more header has one more value under the name of that header, in any
/// case, after those that it had, and as many under other names.
pub proof fn law_all_response_headers(
    response: FunctionResponse,
    longer: FunctionResponse,
    added: (String, String),
    name: &str,
    values: Vec<&str>,
    more: Vec<&str>,
)
    requires
        call_ensures(FunctionResponse::header_values, (&response, name), values),
        call_ensures(FunctionResponse::header_values, (&longer, name), more),
        longer.headers@ == response.headers@.push(added),
    ensures
        super::texts_in(more@) == (if super::alike(added.0@, name@) {
            super::texts_in(values@).push(added.1@)
        } else {
            super::texts_in(values@)
        }),
{
    super::requests::lemma_one_more(response.headers@, longer.headers@, added, name@);
    super::lemma_texts_in(values@);
    super::lemma_texts_in(more@);
}

/// A copy of a response says the same.
pub proof fn law_copied_response(response: FunctionResponse, copy: FunctionResponse)
    requires
        call_ensures(<FunctionResponse as Clone>::clone, (&response,), copy),
    ensures
        same_response(copy, response),
{
    lemma_same_response(copy, response);
}

} // verus!
