//! Requests as they arrive over HTTP, and the responses that go back.

use crate::fields;
use crate::json;
use crate::number;
use crate::payload;
use crate::protocol;
use crate::query;
use crate::request;
use crate::request::FunctionRequest;
use crate::request::RequestContext;
use crate::response;
use crate::response::FunctionResponse;
use crate::text;
use crate::text_map;
use crate::text_map::TextMap;
use bytes::Bytes;
use vstd::prelude::*;

verus! {

/// A header as it arrived: its name, and the bytes of its value.
pub type RawField = (Seq<char>, Seq<u8>);

/// Everything of a request but its body.
#[derive(Debug)]
pub struct RequestHead {
    /// HTTP method.
    pub method: String,
    /// The whole request target.
    pub url: String,
    /// The path of the request target.
    pub path: String,
    /// The query string of the request target, if it has one.
    pub query: Option<String>,
    /// Header names and the bytes of their values, one entry per value.
    pub headers: Vec<(String, Vec<u8>)>,
}

/// What a request head says.
#[verifier::ext_equal]
pub struct HeadView {
    pub method: Seq<char>,
    pub url: Seq<char>,
    pub path: Seq<char>,
    pub query: Option<Seq<char>>,
    pub headers: Seq<RawField>,
}

/// The headers that a list of names and bytes holds.
pub open spec fn raw_listed(headers: Seq<(String, Vec<u8>)>) -> Seq<RawField> {
    headers.map_values(|header: (String, Vec<u8>)| (header.0@, header.1@))
}

impl View for RequestHead {
    type V = HeadView;

    open spec fn view(&self) -> HeadView {
        HeadView {
            method: self.method@,
            url: self.url@,
            path: self.path@,
            query: text::optional(self.query),
            headers: raw_listed(self.headers@),
        }
    }
}

/// An HTTP response.
#[derive(Debug)]
pub struct WireResponse {
    /// Status code.
    pub status: u16,
    /// Headers, in emission order.
    pub headers: Vec<(String, String)>,
    /// Body.
    pub body: Bytes,
}

/// What an HTTP response says.
#[verifier::ext_equal]
pub struct WireView {
    pub status: u16,
    pub headers: Seq<fields::Field>,
    pub body: Seq<u8>,
}

impl View for WireResponse {
    type V = WireView;

    open spec fn view(&self) -> WireView {
        WireView {
            status: self.status,
            headers: fields::listed(self.headers@),
            body: payload::held(self.body),
        }
    }
}

/// A header whose value is UTF-8, as text. Other values cannot be handed to a handler.
pub open spec fn if_readable() -> spec_fn(RawField) -> Option<fields::Field> {
    |header: RawField|
        if vstd::utf8::valid_utf8(header.1) {
            Some((header.0, vstd::utf8::decode_utf8(header.1)))
        } else {
            None
        }
}

/// The headers whose values are UTF-8, in order.
pub open spec fn readable(headers: Seq<RawField>) -> Seq<fields::Field> {
    headers.filter_map(if_readable())
}

/// The place of the first header with a name, or the number of headers.
pub open spec fn place_of_header(headers: Seq<RawField>, name: Seq<char>) -> nat
    decreases headers.len(),
{
    if headers.len() == 0 || text::same_ignoring_case(headers[0].0, name) {
        0
    } else {
        1 + place_of_header(headers.drop_first(), name)
    }
}

/// The length that the first `Content-Length` header declares, if it declares one.
pub open spec fn declared_length(headers: Seq<RawField>) -> Option<nat> {
    let place = place_of_header(headers, "content-length"@) as int;
    if place < headers.len() && protocol::is_visible(headers[place].1) {
        number::parsed(protocol::visible_text(headers[place].1), usize::MAX as nat)
    } else {
        None
    }
}

/// The request that a head and a body make up.
pub open spec fn request_of(
    head: HeadView,
    body: Seq<u8>,
    variables: Map<Seq<char>, Seq<char>>,
) -> request::RequestView {
    request::RequestView {
        method: head.method,
        url: head.url,
        path: head.path,
        query: match head.query {
            Some(raw) => query::parameters(raw),
            None => seq![],
        },
        headers: readable(head.headers),
        body,
        params: Map::empty(),
        context: request::ContextView {
            invocation_id: text_map::lookup(variables, "AZURE_FUNCTIONS_INVOCATION_ID"@),
            function_name: text_map::lookup(variables, "AZURE_FUNCTIONS_FUNCTION_NAME"@),
            ..request::no_context()
        },
    }
}

/// Whether a response can be sent: its status code, its header names and its header values
/// are ones that HTTP allows. How many headers a header map takes in is another matter: see
/// [`earlier_names`].
pub open spec fn sendable(response: response::ResponseView) -> bool {
    &&& protocol::is_status(response.status_code)
    &&& forall|i: int|
        0 <= i < response.headers.len() ==> sendable_header(#[trigger] response.headers[i])
}

/// The different names of some headers, in lower case.
pub open spec fn names(headers: Seq<fields::Field>) -> Set<Seq<char>> {
    headers.map_values(|header: fields::Field| text::lowercase(header.0)).to_set()
}

/// The number of different names that come before the last of some headers: how many a header
/// map holds when the last header is put into it.
pub open spec fn earlier_names(headers: Seq<fields::Field>) -> nat {
    if headers.len() > 0 {
        names(headers.drop_last()).len()
    } else {
        0
    }
}

/// Whether a header can be sent.
pub open spec fn sendable_header(header: fields::Field) -> bool {
    protocol::is_header_name(header.0) && protocol::is_header_value(header.1)
}

/// The HTTP response for what a handler returned, by whether a header map takes in all of its
/// headers. What cannot be sent is replaced.
pub open spec fn sent(response: response::ResponseView, fits: bool) -> WireView {
    if sendable(response) && fits {
        WireView {
            status: response.status_code,
            headers: response.headers,
            body: response.payload(),
        }
    } else {
        unsendable()
    }
}

/// The HTTP response in place of one that cannot be sent.
pub open spec fn unsendable() -> WireView {
    WireView {
        status: 500,
        headers: seq![],
        body: vstd::utf8::encode_utf8("Internal Server Error"@),
    }
}

/// The HTTP response that refuses a request.
pub open spec fn refusal(status: u16, message: Seq<char>) -> WireView {
    WireView {
        status,
        headers: seq![("content-type"@, "application/json"@)],
        body: vstd::utf8::encode_utf8(json::object_text("error"@, message)),
    }
}

/// Why a body of too many bytes is refused.
pub open spec fn oversize_message(actual: nat, limit: nat) -> Seq<char> {
    "Request body of "@ + number::decimal_text(actual) + " bytes exceeds the maximum of "@
        + number::decimal_text(limit) + " bytes"@
}

/// Why a body that did not arrive in time is refused.
pub open spec fn timeout_message(seconds: nat) -> Seq<char> {
    "Request body was not fully received within "@ + number::decimal_text(seconds) + " seconds"@
}

/// The refusal of a body of too many bytes.
pub open spec fn oversize(actual: nat, limit: nat) -> WireView {
    refusal(413, oversize_message(actual, limit))
}

/// The refusal of a body that did not arrive in time.
pub open spec fn request_timeout(seconds: nat) -> WireView {
    refusal(408, timeout_message(seconds))
}

/// The refusal of a body that could not be read.
pub open spec fn unreadable_body() -> WireView {
    refusal(400, "Request body could not be read"@)
}

/// Every header that a handler set reaches the client, repeated names included, in order,
/// and the body stands for the same bytes, when a header map takes in the headers.
pub proof fn law_response_is_sent_whole(response: response::ResponseView, name: Seq<char>)
    requires
        sendable(response),
    ensures
        sent(response, true).status == response.status_code,
        fields::header_values(sent(response, true).headers, name) == fields::header_values(
            response.headers,
            name,
        ),
        sent(response, true).body == response.payload(),
{
}

/// As many headers as a header map has room for names always fit, and so do any number of them
/// under one name.
pub proof fn law_few_names_fit(headers: Seq<fields::Field>)
    ensures
        headers.len() <= protocol::ROOM_FOR_NAMES ==> earlier_names(headers)
            < protocol::ROOM_FOR_NAMES,
        (forall|i: int, j: int|
            0 <= i < j < headers.len() ==> text::lowercase((#[trigger] headers[i]).0)
                == text::lowercase((#[trigger] headers[j]).0)) ==> earlier_names(headers)
            < protocol::ROOM_FOR_NAMES,
{
    if headers.len() > 0 {
        let lower = |header: fields::Field| text::lowercase(header.0);
        let earlier = headers.drop_last().map_values(lower);
        earlier.lemma_cardinality_of_set();
        if headers.len() > 1 && (forall|i: int, j: int|
            0 <= i < j < headers.len() ==> text::lowercase((#[trigger] headers[i]).0)
                == text::lowercase((#[trigger] headers[j]).0)) {
            let one = seq![text::lowercase(headers[0].0)];
            assert forall|name: Seq<char>| #[trigger] earlier.to_set().contains(name) implies
                one.to_set().contains(name) by {
                let k = choose|k: int| 0 <= k < earlier.len() && earlier[k] == name;
                assert(text::lowercase(headers[0].0) == text::lowercase(headers[k].0));
                assert(one[0] == name);
            }
            one.lemma_cardinality_of_set();
            vstd::seq_lib::seq_to_set_is_finite(one);
            vstd::set_lib::lemma_len_subset(earlier.to_set(), one.to_set());
        }
    }
}

/// An error response is sent as it is, whatever its message: its headers fit.
pub proof fn law_errors_are_sent(status: u16, message: Seq<char>)
    requires
        protocol::is_status(status),
    ensures
        sent(response::error_response(status, message), true) == refusal(status, message),
        earlier_names(response::error_response(status, message).headers) == 0,
{
    let error = response::error_response(status, message);
    assert(names(error.headers.drop_last()) =~= Set::empty());
    reveal_strlit("content-type");
    reveal_strlit("application/json");
    assert(error.headers =~= seq![("content-type"@, "application/json"@)]);
    assert(sendable_header(error.headers[0]));
}

/// Every header of a request reaches the handler, repeated names included, in order, when the
/// values are UTF-8.
pub proof fn law_headers_reach_the_handler(
    head: HeadView,
    body: Seq<u8>,
    variables: Map<Seq<char>, Seq<char>>,
)
    requires
        forall|i: int| 0 <= i < head.headers.len() ==> vstd::utf8::valid_utf8(
            (#[trigger] head.headers[i]).1,
        ),
    ensures
        request_of(head, body, variables).headers == head.headers.map_values(
            |header: RawField| (header.0, vstd::utf8::decode_utf8(header.1)),
        ),
{
    lemma_all_readable(head.headers);
}

proof fn lemma_all_readable(headers: Seq<RawField>)
    requires
        forall|i: int| 0 <= i < headers.len() ==> vstd::utf8::valid_utf8(
            (#[trigger] headers[i]).1,
        ),
    ensures
        readable(headers) == headers.map_values(
            |header: RawField| (header.0, vstd::utf8::decode_utf8(header.1)),
        ),
    decreases headers.len(),
{
    let all = headers.map_values(
        |header: RawField| (header.0, vstd::utf8::decode_utf8(header.1)),
    );
    if headers.len() > 0 {
        lemma_all_readable(headers.drop_last());
        assert(vstd::utf8::valid_utf8(headers[headers.len() - 1].1));
        assert(readable(headers) =~= all);
    } else {
        assert(readable(headers) =~= all);
    }
}

fn refuse(status: u16, message: &str) -> (result: WireResponse)
    ensures
        result@ == refusal(status, message@),
{
    let body = json::object("error", message);
    let headers: Vec<(String, String)> = vec![
        ("content-type".to_owned(), "application/json".to_owned()),
    ];
    let result = WireResponse { status, headers, body: payload::bytes_of_text(body) };
    assert(result@.headers =~= seq![("content-type"@, "application/json"@)]);
    result
}

/// Build a `413 Payload Too Large` response for an oversize request body.
pub fn oversize_response(actual: usize, limit: usize) -> (result: WireResponse)
    ensures
        result@ == oversize(actual as nat, limit as nat),
{
    let message = "Request body of ".to_owned()
        .concat(number::decimal(actual as u64).as_str())
        .concat(" bytes exceeds the maximum of ")
        .concat(number::decimal(limit as u64).as_str())
        .concat(" bytes");
    refuse(413, message.as_str())
}

/// Build a `408 Request Timeout` response when body ingestion exceeds the configured request
/// timeout (e.g. a slow upload that never completes).
pub fn request_timeout_response(timeout_seconds: u64) -> (result: WireResponse)
    ensures
        result@ == request_timeout(timeout_seconds as nat),
{
    let message = "Request body was not fully received within ".to_owned()
        .concat(number::decimal(timeout_seconds).as_str())
        .concat(" seconds");
    refuse(408, message.as_str())
}

/// Build a `400 Bad Request` response for a client transport error or mid-stream abort
/// encountered while reading the request body. Prevents a truncated or aborted upload from
/// being silently processed as an empty request.
pub fn bad_request_response() -> (result: WireResponse)
    ensures
        result@ == unreadable_body(),
{
    refuse(400, "Request body could not be read")
}

fn headers_sendable(headers: &Vec<(String, String)>) -> (result: bool)
    ensures
        result == forall|i: int|
            0 <= i < headers@.len() ==> sendable_header(#[trigger] fields::listed(headers@)[i]),
{
    let ghost listed = fields::listed(headers@);
    let mut i: usize = 0;
    while i < headers.len()
        invariant
            i <= headers@.len(),
            listed == fields::listed(headers@),
            forall|j: int| 0 <= j < i ==> sendable_header(#[trigger] listed[j]),
        decreases headers@.len() - i,
    {
        assert(listed[i as int] == (headers@[i as int].0@, headers@[i as int].1@));
        if !protocol::header_name_accepted(headers[i].0.as_str()) {
            return false;
        }
        if !protocol::header_value_accepted(headers[i].1.as_str()) {
            return false;
        }
        i += 1;
    }
    true
}

proof fn lemma_more_names(headers: Seq<fields::Field>, i: int)
    requires
        0 <= i < headers.len(),
    ensures
        names(headers.take(i + 1)) == names(headers.take(i)).insert(
            text::lowercase(headers[i].0),
        ),
        names(headers.take(i)).finite(),
        names(headers.take(i)).len() <= earlier_names(headers),
{
    let lower = |header: fields::Field| text::lowercase(header.0);
    let shorter = headers.take(i).map_values(lower);
    let longer = headers.take(i + 1).map_values(lower);
    let earlier = headers.drop_last().map_values(lower);
    assert(longer =~= shorter.push(text::lowercase(headers[i].0)));
    assert forall|name: Seq<char>| #[trigger] longer.to_set().contains(name)
        == shorter.to_set().insert(text::lowercase(headers[i].0)).contains(name) by {
        if shorter.contains(name) {
            let k = choose|k: int| 0 <= k < shorter.len() && shorter[k] == name;
            assert(longer[k] == name);
        }
        assert(longer[i] == text::lowercase(headers[i].0));
    }
    assert(longer.to_set() =~= shorter.to_set().insert(text::lowercase(headers[i].0)));
    vstd::seq_lib::seq_to_set_is_finite(shorter);
    vstd::seq_lib::seq_to_set_is_finite(earlier);
    assert forall|name: Seq<char>| #[trigger] shorter.to_set().contains(name) implies
        earlier.to_set().contains(name) by {
        let k = choose|k: int| 0 <= k < shorter.len() && shorter[k] == name;
        assert(earlier[k] == name);
    }
    vstd::set_lib::lemma_len_subset(shorter.to_set(), earlier.to_set());
}

fn headers_fit(headers: &Vec<(String, String)>) -> (result: bool)
    requires
        forall|i: int|
            0 <= i < headers@.len() ==> sendable_header(#[trigger] fields::listed(headers@)[i]),
    ensures
        result ==> earlier_names(fields::listed(headers@)) < protocol::MOST_NAMES,
        !result ==> earlier_names(fields::listed(headers@)) >= protocol::ROOM_FOR_NAMES,
{
    let ghost listed = fields::listed(headers@);
    let mut map = protocol::no_names();
    let mut i: usize = 0;
    assert(names(listed.take(0)) =~= Set::empty());
    while i < headers.len()
        invariant
            i <= headers@.len(),
            listed == fields::listed(headers@),
            forall|j: int| 0 <= j < listed.len() ==> sendable_header(#[trigger] listed[j]),
            protocol::names_in(map) == names(listed.take(i as int)),
            i > 0 ==> names(listed.take(i - 1)).len() < protocol::MOST_NAMES,
        decreases headers@.len() - i,
    {
        proof {
            assert(listed[i as int] == (headers@[i as int].0@, headers@[i as int].1@));
            assert(sendable_header(listed[i as int]));
            lemma_more_names(listed, i as int);
        }
        if !protocol::add_name(&mut map, headers[i].0.as_str()) {
            return false;
        }
        i += 1;
    }
    assert(i > 0 ==> listed.take(i - 1) =~= listed.drop_last());
    true
}

impl WireResponse {
    /// The response in place of one that cannot be sent.
    pub fn internal_server_error() -> (result: Self)
        ensures
            result@ == unsendable(),
    {
        let result = WireResponse {
            status: 500,
            headers: Vec::new(),
            body: payload::bytes_of_text("Internal Server Error".to_owned()),
        };
        assert(result@.headers =~= seq![]);
        result
    }

    /// Convert what a handler returned into an HTTP response. A response with fewer than
    /// [`protocol::ROOM_FOR_NAMES`] different header names before its last header is sent if
    /// HTTP allows it, and one with [`protocol::MOST_NAMES`] is not. In between the header map
    /// of the `http` crate decides.
    pub fn from_response(response: FunctionResponse) -> (result: Self)
        ensures
            result@ == sent(response@, true) || result@ == sent(response@, false),
            earlier_names(response@.headers) < protocol::ROOM_FOR_NAMES ==> result@ == sent(
                response@,
                true,
            ),
            earlier_names(response@.headers) >= protocol::MOST_NAMES ==> result@ == sent(
                response@,
                false,
            ),
    {
        let fits = headers_sendable(&response.headers) && headers_fit(&response.headers);
        WireResponse::from_measured_response(response, fits)
    }

    /// Convert what a handler returned into an HTTP response, given whether a header map takes
    /// in all of its headers.
    pub fn from_measured_response(response: FunctionResponse, fits: bool) -> (result: Self)
        ensures
            result@ == sent(response@, fits),
    {
        if !fits || !protocol::status_accepted(response.status_code) || !headers_sendable(
            &response.headers,
        ) {
            return WireResponse::internal_server_error();
        }
        WireResponse {
            status: response.status_code,
            headers: fields::copy(&response.headers),
            body: response.into_payload(),
        }
    }
}

impl RequestHead {
    /// The length that the request declares for its body, if it declares one.
    pub fn content_length(&self) -> (result: Option<usize>)
        ensures
            match result {
                Some(length) => declared_length(self@.headers) == Some(length as nat),
                None => declared_length(self@.headers) is None,
            },
    {
        let ghost all = raw_listed(self.headers@);
        let mut i: usize = 0;
        assert(all.skip(0) =~= all);
        while i < self.headers.len()
            invariant
                i <= self.headers@.len(),
                all == raw_listed(self.headers@),
                place_of_header(all, "content-length"@) == i + place_of_header(
                    all.skip(i as int),
                    "content-length"@,
                ),
            decreases self.headers@.len() - i,
        {
            if text::eq_ignore_ascii_case(self.headers[i].0.as_str(), "content-length") {
                return match protocol::header_text(self.headers[i].1.as_slice()) {
                    Some(value) => match number::parse_unsigned(
                        value.as_str(),
                        usize::MAX as u64,
                    ) {
                        Some(length) => Some(length as usize),
                        None => None,
                    },
                    None => None,
                };
            }
            assert(all.skip(i as int).drop_first() =~= all.skip(i + 1));
            i += 1;
        }
        None
    }

    fn readable_headers(&self) -> (result: Vec<(String, String)>)
        ensures
            fields::listed(result@) == readable(self@.headers),
    {
        let ghost all = raw_listed(self.headers@);
        let mut result: Vec<(String, String)> = Vec::new();
        let mut i: usize = 0;
        while i < self.headers.len()
            invariant
                i <= self.headers@.len(),
                all == raw_listed(self.headers@),
                fields::listed(result@) == readable(all.take(i as int)),
            decreases self.headers@.len() - i,
        {
            let ghost before = fields::listed(result@);
            proof {
                fields::lemma_filter_map_push(
                    all.take(i as int),
                    all[i as int],
                    if_readable(),
                );
                assert(all.take(i + 1) =~= all.take(i as int).push(all[i as int]));
            }
            if let Some(value) = payload::utf8_text(self.headers[i].1.as_slice()) {
                proof {
                    vstd::utf8::encode_utf8_valid_utf8(value@);
                    vstd::utf8::encode_utf8_decode_utf8(value@);
                }
                let name = self.headers[i].0.clone();
                result.push((name, value));
                assert(fields::listed(result@) =~= before.push((name@, value@)));
            }
            i += 1;
        }
        assert(all.take(i as int) =~= all);
        result
    }

    /// Convert the request into what a handler takes. A header whose value is not
    /// UTF-8 is left out, since a handler is handed text.
    pub fn into_request(self, body: Bytes, variables: &TextMap) -> (result: FunctionRequest)
        ensures
            result@ == request_of(self@, payload::held(body), variables@),
    {
        let headers = self.readable_headers();
        let query = match &self.query {
            Some(raw) => query::parse_query(raw.as_str()),
            None => Vec::new(),
        };
        assert(self@.query is None ==> fields::listed(query@) =~= seq![]);
        FunctionRequest {
            method: self.method,
            url: self.url,
            path: self.path,
            query,
            headers,
            body,
            params: TextMap::new(),
            context: RequestContext {
                invocation_id: variables.value("AZURE_FUNCTIONS_INVOCATION_ID"),
                function_name: variables.value("AZURE_FUNCTIONS_FUNCTION_NAME"),
                function_directory: None,
                trace_context: None,
                retry_context: None,
            },
        }
    }
}

} // verus!
