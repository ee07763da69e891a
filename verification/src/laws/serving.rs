//! How a request is served, from its arrival to the response that is sent.

use crate::fields;
use crate::json;
use crate::number;
use crate::payload;
use crate::protocol;
use crate::query;
use crate::request::FunctionRequest;
use crate::response::FunctionResponse;
use crate::runtime;
use crate::runtime::AzureFunctionsRuntime;
use crate::runtime::BodyOutcome;
use crate::runtime::HandlerOutcome;
use crate::runtime::Intake;
use crate::runtime::Invocation;
use crate::runtime::PendingRequest;
use crate::runtime::Reception;
use crate::runtime::RuntimeConfig;
use crate::text;
use crate::text_map::TextMap;
use crate::wire;
use crate::wire::RequestHead;
use crate::wire::WireResponse;
use bytes::Bytes;
use std::sync::Arc;
use vstd::prelude::*;

verus! {

/// A timeout of zero seconds sets no deadline, and any other sets one that many seconds after
/// the arrival.
pub proof fn law_deadline(config: RuntimeConfig, now: u64, deadline: Option<u128>)
    requires
        call_ensures(runtime::deadline_from_config, (&config, now), deadline),
    ensures
        config.function.timeout_seconds == 0 ==> deadline is None,
        config.function.timeout_seconds > 0 ==> deadline is Some && deadline->0 - now
            == config.function.timeout_seconds * 1_000_000_000,
{
    assert(config@.function.timeout_seconds == config.function.timeout_seconds);
}

/// A runtime wraps the application that it is given, and is configured by the variables that
/// it is given.
pub proof fn law_new_runtime<App: Send + Sync + 'static>(
    app: App,
    variables: TextMap,
    made: AzureFunctionsRuntime<App>,
    wrapped: &Arc<App>,
    config: &RuntimeConfig,
    read: RuntimeConfig,
)
    requires
        call_ensures(AzureFunctionsRuntime::<App>::new, (app, &variables), made),
        call_ensures(AzureFunctionsRuntime::<App>::app, (&made,), wrapped),
        call_ensures(AzureFunctionsRuntime::<App>::config, (&made,), config),
        call_ensures(RuntimeConfig::from_env, (&variables,), read),
    ensures
        **wrapped == app,
        same_config(*config, read),
{
    lemma_same_config(*config, read);
}

/// A runtime that is given a configuration has that one, and keeps its application.
pub proof fn law_with_config<App: Send + Sync + 'static>(
    before: AzureFunctionsRuntime<App>,
    given: RuntimeConfig,
    after: AzureFunctionsRuntime<App>,
    app_before: &Arc<App>,
    app_after: &Arc<App>,
    config: &RuntimeConfig,
)
    requires
        call_ensures(AzureFunctionsRuntime::<App>::with_config, (before, given), after),
        call_ensures(AzureFunctionsRuntime::<App>::app, (&before,), app_before),
        call_ensures(AzureFunctionsRuntime::<App>::app, (&after,), app_after),
        call_ensures(AzureFunctionsRuntime::<App>::config, (&after,), config),
    ensures
        *app_after == *app_before,
        same_config(*config, given),
{
    lemma_same_config(*config, given);
}

/// Whether two runtime configurations agree in every setting.
pub open spec fn same_config(a: RuntimeConfig, b: RuntimeConfig) -> bool {
    &&& super::settings::same_settings(a.function, b.function)
    &&& a.log_requests == b.log_requests
    &&& a.log_responses == b.log_responses
}

proof fn lemma_same_config(a: RuntimeConfig, b: RuntimeConfig)
    requires
        a@ == b@,
    ensures
        same_config(a, b),
{
    assert(a@.function == b@.function);
    assert(a@.log_requests == b@.log_requests && a@.log_responses == b@.log_responses);
    super::settings::lemma_same_settings(a.function, b.function);
}

/// Whether one path is another with a base path taken off: what follows the base path, the
/// root for the base path itself, and the path as it was where it does not start with the base
/// path or there is none.
pub open spec fn base_taken_off(
    path: Seq<char>,
    base_path: Option<String>,
    left: Seq<char>,
) -> bool {
    &&& base_path is None ==> left == path
    &&& base_path is Some ==> {
        let base = base_path->0@;
        &&& path == base ==> left == seq!['/']
        &&& forall|rest: Seq<char>| rest.len() > 0 && path == #[trigger] (base + rest) ==> left
            == rest
        &&& !base.is_prefix_of(path) ==> left == path
    }
}

proof fn lemma_base_taken_off(path: Seq<char>, base_path: Option<String>)
    ensures
        base_taken_off(path, base_path, runtime::stripped(path, text::optional(base_path))),
{
    reveal_strlit("/");
    assert("/"@ =~= seq!['/']);
    if base_path is Some {
        let base = base_path->0@;
        let left = runtime::stripped(path, Some(base));
        if path == base {
            assert(base.is_prefix_of(path));
            assert(path.skip(base.len() as int).len() == 0);
        }
        assert forall|rest: Seq<char>| rest.len() > 0 && path == #[trigger] (base + rest) implies
            left == rest by {
            runtime::law_base_path(base, rest);
        }
    }
}

/// The handler gets the request as it is, but for the base path, against the deadline that was
/// set.
pub proof fn law_handled_request<App: Send + Sync + 'static>(
    served_by: AzureFunctionsRuntime<App>,
    config: &RuntimeConfig,
    request: FunctionRequest,
    deadline: Option<u128>,
    invocation: Invocation,
)
    requires
        call_ensures(AzureFunctionsRuntime::<App>::config, (&served_by,), config),
        call_ensures(
            AzureFunctionsRuntime::<App>::handle_with_deadline,
            (&served_by, request, deadline),
            invocation,
        ),
    ensures
        super::requests::same_but_for_path(invocation.request, request),
        base_taken_off(request.path@, config.function.base_path, invocation.request.path@),
        invocation.deadline == deadline,
{
    assert(invocation@.request == invocation.request@);
    assert(invocation@.deadline == invocation.deadline);
    super::requests::lemma_same_but_for_path(invocation.request, request);
    lemma_base_taken_off(request.path@, config.function.base_path);
    assert(config@.function.base_path == text::optional(config.function.base_path));
    assert(invocation.request@.path == invocation.request.path@);
    assert(request@.path == request.path@);
}

/// A request that is handled on its own gets a deadline from the configured timeout, and is
/// otherwise handled like one whose deadline was set before.
pub proof fn law_handled_now<App: Send + Sync + 'static>(
    served_by: AzureFunctionsRuntime<App>,
    config: &RuntimeConfig,
    request: FunctionRequest,
    now: u64,
    deadline: Option<u128>,
    invocation: Invocation,
)
    requires
        call_ensures(AzureFunctionsRuntime::<App>::config, (&served_by,), config),
        call_ensures(runtime::deadline_from_config, (config, now), deadline),
        call_ensures(
            AzureFunctionsRuntime::<App>::handle,
            (&served_by, request, now),
            invocation,
        ),
    ensures
        super::requests::same_but_for_path(invocation.request, request),
        base_taken_off(request.path@, config.function.base_path, invocation.request.path@),
        invocation.deadline == deadline,
{
    assert(invocation@.request == invocation.request@);
    assert(invocation@.deadline == invocation.deadline);
    super::requests::lemma_same_but_for_path(invocation.request, request);
    lemma_base_taken_off(request.path@, config.function.base_path);
    assert(config@.function.base_path == text::optional(config.function.base_path));
    assert(invocation.request@.path == invocation.request.path@);
    assert(request@.path == request.path@);
}

/// Whether two HTTP responses say the same.
pub open spec fn same_wire(a: WireResponse, b: WireResponse) -> bool {
    &&& a.status == b.status
    &&& super::pairs(a.headers@) == super::pairs(b.headers@)
    &&& payload::held(a.body) == payload::held(b.body)
}

proof fn lemma_same_wire(a: WireResponse, b: WireResponse)
    requires
        a@ == b@,
    ensures
        same_wire(a, b),
{
    super::lemma_pairs(a.headers@);
    super::lemma_pairs(b.headers@);
    assert(a@.status == b@.status && a@.headers == b@.headers && a@.body == b@.body);
}

/// A request that declares too long a body is refused at once with the length that it
/// declared. The body of any other is read, up to one byte beyond what is allowed, against
/// a deadline that runs from the arrival.
pub proof fn law_arrival<App: Send + Sync + 'static>(
    served_by: AzureFunctionsRuntime<App>,
    config: &RuntimeConfig,
    head: RequestHead,
    now: u64,
    declared: Option<usize>,
    refusal: WireResponse,
    deadline: Option<u128>,
    taken: Intake,
)
    requires
        call_ensures(AzureFunctionsRuntime::<App>::config, (&served_by,), config),
        call_ensures(RequestHead::content_length, (&head,), declared),
        declared is Some ==> call_ensures(
            wire::oversize_response,
            (declared->0, config.function.max_request_size),
            refusal,
        ),
        call_ensures(runtime::deadline_from_config, (config, now), deadline),
        call_ensures(
            AzureFunctionsRuntime::<App>::handle_http_request,
            (&served_by, head, now),
            taken,
        ),
    ensures
        declared is Some && declared->0 > config.function.max_request_size ==> taken is Respond
            && same_wire(taken->Respond_0, refusal),
        declared is None || declared->0 <= config.function.max_request_size ==> taken is ReadBody,
        forall|limit: usize| #[trigger]
            call_ensures(PendingRequest::limit, (&taken->ReadBody_0,), limit) && taken is ReadBody
                ==> limit == (if config.function.max_request_size < usize::MAX {
                (config.function.max_request_size + 1) as usize
            } else {
                usize::MAX
            }),
        forall|by: Option<u128>| #[trigger]
            call_ensures(PendingRequest::deadline, (&taken->ReadBody_0,), by) && taken is ReadBody
                ==> by == deadline,
{
    assert(config@.function.max_request_size == config.function.max_request_size);
    assert(taken@ == runtime::intake(served_by.configuration(), head@, now));
    match taken {
        Intake::Respond(response) => {
            assert(taken@ == runtime::IntakeView::Respond(response@));
            if declared is Some && declared->0 > config.function.max_request_size {
                lemma_same_wire(response, refusal);
            }
        },
        Intake::ReadBody(pending) => {
            assert(taken@ == runtime::IntakeView::ReadBody(pending@));
        },
    }
}

/// A request without a `Content-Length` header, in any case, declares no length. Otherwise its
/// first such header does, when its value is visible ASCII and reads as a number.
pub proof fn law_content_length(
    head: RequestHead,
    declared: Option<usize>,
    i: int,
    value: &str,
    read: Option<u64>,
)
    requires
        call_ensures(RequestHead::content_length, (&head,), declared),
        call_ensures(number::parse_unsigned, (value, usize::MAX as u64), read),
    ensures
        (forall|j: int|
            0 <= j < head.headers@.len() ==> !super::alike(
                (#[trigger] head.headers@[j]).0@,
                "content-length"@,
            )) ==> declared is None,
        0 <= i < head.headers@.len() && super::alike(head.headers@[i].0@, "content-length"@) && (
        forall|j: int|
            0 <= j < i ==> !super::alike((#[trigger] head.headers@[j]).0@, "content-length"@)) ==> {
            &&& vstd::utf8::is_ascii_chars(value@) && head.headers@[i].1@
                == vstd::utf8::encode_utf8(value@) && (forall|k: int|
                0 <= k < value@.len() ==> 32 <= (#[trigger] value@[k]) as nat && value@[k] as nat
                    != 127) ==> (declared is Some <==> read is Some) && (read is Some ==> declared->0
                == read->0)
            &&& forall|k: int|
                0 <= k < head.headers@[i].1@.len() && ({
                    let b = #[trigger] head.headers@[i].1@[k];
                    b >= 127 || (b < 32 && b != 9)
                }) ==> declared is None
        },
{
    let headers = wire::raw_listed(head.headers@);
    assert(head@.headers == headers);
    assert forall|j: int| 0 <= j < head.headers@.len() implies #[trigger] headers[j] == (
        head.headers@[j].0@,
        head.headers@[j].1@,
    ) by {}
    if forall|j: int|
        0 <= j < head.headers@.len() ==> !super::alike(
            (#[trigger] head.headers@[j]).0@,
            "content-length"@,
        ) {
        assert forall|j: int| 0 <= j < headers.len() implies !super::alike(
            (#[trigger] headers[j]).0,
            "content-length"@,
        ) by {
            assert(!super::alike(head.headers@[j].0@, "content-length"@));
        }
        lemma_place(headers, "content-length"@, headers.len() as int);
    }
    if 0 <= i < head.headers@.len() && super::alike(head.headers@[i].0@, "content-length"@) && (
    forall|j: int|
        0 <= j < i ==> !super::alike((#[trigger] head.headers@[j]).0@, "content-length"@)) {
        assert forall|j: int| 0 <= j < i implies !super::alike(
            (#[trigger] headers[j]).0,
            "content-length"@,
        ) by {
            assert(!super::alike(head.headers@[j].0@, "content-length"@));
        }
        lemma_place(headers, "content-length"@, i);
        let bytes = head.headers@[i].1@;
        if vstd::utf8::is_ascii_chars(value@) && bytes == vstd::utf8::encode_utf8(value@) && (
        forall|k: int|
            0 <= k < value@.len() ==> 32 <= (#[trigger] value@[k]) as nat && value@[k] as nat
                != 127) {
            vstd::utf8::is_ascii_chars_encode_utf8(value@);
            vstd::utf8::is_ascii_chars_nat_bound(value@);
            assert forall|k: int| 0 <= k < bytes.len() implies ({
                let b = #[trigger] bytes[k];
                b == 9 || 32 <= b < 127
            }) by {
                assert(32 <= value@[k] as nat);
                assert(bytes[k] == value@[k] as u8);
            }
            assert(protocol::visible_text(bytes) =~= value@);
        }
    }
}

proof fn lemma_place(headers: Seq<wire::RawField>, name: Seq<char>, i: int)
    requires
        0 <= i <= headers.len(),
        forall|j: int| 0 <= j < i ==> !super::alike((#[trigger] headers[j]).0, name),
        i < headers.len() ==> super::alike(headers[i].0, name),
    ensures
        wire::place_of_header(headers, name) == i,
    decreases headers.len(),
{
    if headers.len() > 0 {
        super::lemma_alike(headers[0].0, name);
        if i > 0 {
            let rest = headers.drop_first();
            assert(!super::alike(headers[0].0, name));
            assert forall|j: int| 0 <= j < i - 1 implies !super::alike(
                (#[trigger] rest[j]).0,
                name,
            ) by {
                assert(rest[j] == headers[j + 1]);
            }
            lemma_place(rest, name, i - 1);
        }
    }
}

/// A request that arrives over HTTP reaches the handler whole: its method, its URL, its query,
/// its headers and its body are those that arrived, its path is the one that arrived with the
/// base path taken off, and the handler has to be done by the deadline that was set on
/// arrival.
pub proof fn law_served_request<App: Send + Sync + 'static>(
    served_by: AzureFunctionsRuntime<App>,
    config: &RuntimeConfig,
    head: RequestHead,
    now: u64,
    taken: Intake,
    body: Bytes,
    variables: TextMap,
    received: Reception,
    made: FunctionRequest,
    deadline: Option<u128>,
)
    requires
        call_ensures(AzureFunctionsRuntime::<App>::config, (&served_by,), config),
        call_ensures(
            AzureFunctionsRuntime::<App>::handle_http_request,
            (&served_by, head, now),
            taken,
        ),
        taken is ReadBody,
        call_ensures(
            AzureFunctionsRuntime::<App>::receive_body,
            (&served_by, taken->ReadBody_0, BodyOutcome::Collected(body), &variables),
            received,
        ),
        payload::held(body).len() <= config.function.max_request_size,
        call_ensures(RequestHead::into_request, (head, body, &variables), made),
        call_ensures(runtime::deadline_from_config, (config, now), deadline),
    ensures
        received is Invoke,
        received->Invoke_0.request.method@ == head.method@,
        received->Invoke_0.request.url@ == head.url@,
        base_taken_off(
            head.path@,
            config.function.base_path,
            received->Invoke_0.request.path@,
        ),
        payload::held(received->Invoke_0.request.body) == payload::held(body),
        super::requests::same_but_for_path(received->Invoke_0.request, made),
        received->Invoke_0.deadline == deadline,
{
    assert(config@.function.max_request_size == config.function.max_request_size);
    assert(taken@ == runtime::intake(served_by.configuration(), head@, now));
    assert(taken@ == runtime::IntakeView::ReadBody(taken->ReadBody_0@));
    assert(BodyOutcome::Collected(body)@ == runtime::BodyOutcomeView::Collected(
        payload::held(body),
    ));
    match received {
        Reception::Respond(response) => {
            assert(received@ == runtime::ReceptionView::Respond(response@));
        },
        Reception::Invoke(invocation) => {
            assert(received@ == runtime::ReceptionView::Invoke(invocation@));
            assert(invocation@.request == invocation.request@);
            super::requests::lemma_same_but_for_path(invocation.request, made);
            lemma_base_taken_off(head.path@, config.function.base_path);
            assert(config@.function.base_path == text::optional(config.function.base_path));
            assert(invocation.request@.path == invocation.request.path@);
            assert(invocation.request@.method == invocation.request.method@);
            assert(invocation.request@.url == invocation.request.url@);
        },
    }
}

/// A request whose body was not read whole, or is too long, is refused: with 408 when time ran
/// out, with 400 when it broke off, and with 413 when it is too long. No other is.
pub proof fn law_refused_request<App: Send + Sync + 'static>(
    served_by: AzureFunctionsRuntime<App>,
    config: &RuntimeConfig,
    pending: PendingRequest,
    outcome: BodyOutcome,
    variables: TextMap,
    received: Reception,
    late: WireResponse,
    broken: WireResponse,
    length: usize,
    too_long: WireResponse,
)
    requires
        call_ensures(AzureFunctionsRuntime::<App>::config, (&served_by,), config),
        call_ensures(
            AzureFunctionsRuntime::<App>::receive_body,
            (&served_by, pending, outcome, &variables),
            received,
        ),
        call_ensures(
            wire::request_timeout_response,
            (config.function.timeout_seconds,),
            late,
        ),
        call_ensures(wire::bad_request_response, (), broken),
        call_ensures(
            wire::oversize_response,
            (length, config.function.max_request_size),
            too_long,
        ),
    ensures
        outcome is TimedOut ==> received is Respond && same_wire(received->Respond_0, late),
        outcome is Failed ==> received is Respond && same_wire(received->Respond_0, broken),
        outcome is LimitExceeded && length == (if config.function.max_request_size < usize::MAX {
            config.function.max_request_size + 1
        } else {
            usize::MAX as int
        }) ==> received is Respond && same_wire(
            received->Respond_0,
            too_long,
        ),
        outcome is LimitExceeded ==> received is Respond && received->Respond_0.status == 413,
        outcome is Collected && payload::held(outcome->Collected_0).len()
            > config.function.max_request_size ==> received is Respond && (length
            == payload::held(outcome->Collected_0).len() ==> same_wire(
            received->Respond_0,
            too_long,
        )) && received->Respond_0.status == 413,
        outcome is Collected && payload::held(outcome->Collected_0).len()
            <= config.function.max_request_size ==> received is Invoke,
{
    assert(config@.function.max_request_size == config.function.max_request_size);
    assert(config@.function.timeout_seconds == config.function.timeout_seconds);
    assert(received@ == runtime::reception(
        served_by.configuration(),
        pending@,
        outcome@,
        variables@,
    ));
    match outcome {
        BodyOutcome::Collected(body) => {
            assert(outcome@ == runtime::BodyOutcomeView::Collected(payload::held(body)));
        },
        _ => {},
    }
    match received {
        Reception::Respond(response) => {
            assert(received@ == runtime::ReceptionView::Respond(response@));
            assert(response@.status == response.status);
            if outcome is TimedOut {
                lemma_same_wire(response, late);
            }
            if outcome is Failed {
                lemma_same_wire(response, broken);
            }
            if response@ == too_long@ {
                lemma_same_wire(response, too_long);
            }
        },
        Reception::Invoke(invocation) => {
            assert(received@ == runtime::ReceptionView::Invoke(invocation@));
        },
    }
}

/// The deadline for the body is the deadline for the handler.
pub proof fn law_same_deadline<App: Send + Sync + 'static>(
    served_by: AzureFunctionsRuntime<App>,
    pending: PendingRequest,
    outcome: BodyOutcome,
    variables: TextMap,
    received: Reception,
    deadline: Option<u128>,
)
    requires
        call_ensures(
            AzureFunctionsRuntime::<App>::receive_body,
            (&served_by, pending, outcome, &variables),
            received,
        ),
        call_ensures(PendingRequest::deadline, (&pending,), deadline),
        received is Invoke,
    ensures
        received->Invoke_0.deadline == deadline,
{
    assert(received@ == runtime::ReceptionView::Invoke(received->Invoke_0@));
    assert(received->Invoke_0@.deadline == received->Invoke_0.deadline);
}

/// Whether an HTTP response refuses a request under a status, with a message in a JSON object.
pub open spec fn refuses(response: WireResponse, status: u16, message: Seq<char>) -> bool {
    &&& response.status == status
    &&& super::pairs(response.headers@) == seq![("content-type"@, "application/json"@)]
    &&& payload::held(response.body) == vstd::utf8::encode_utf8(
        json::object_text("error"@, message),
    )
}

/// Each refusal has its own status, and its message names the numbers that it is about.
pub proof fn law_refusals(
    actual: usize,
    limit: usize,
    seconds: u64,
    actual_text: String,
    limit_text: String,
    seconds_text: String,
    too_long: WireResponse,
    late: WireResponse,
    broken: WireResponse,
)
    requires
        call_ensures(number::decimal, (actual as u64,), actual_text),
        call_ensures(number::decimal, (limit as u64,), limit_text),
        call_ensures(number::decimal, (seconds,), seconds_text),
        call_ensures(wire::oversize_response, (actual, limit), too_long),
        call_ensures(wire::request_timeout_response, (seconds,), late),
        call_ensures(wire::bad_request_response, (), broken),
    ensures
        refuses(
            too_long,
            413,
            "Request body of "@ + actual_text@ + " bytes exceeds the maximum of "@ + limit_text@
                + " bytes"@,
        ),
        refuses(
            late,
            408,
            "Request body was not fully received within "@ + seconds_text@ + " seconds"@,
        ),
        refuses(broken, 400, "Request body could not be read"@),
{
    super::lemma_pairs(too_long.headers@);
    super::lemma_pairs(late.headers@);
    super::lemma_pairs(broken.headers@);
    assert(too_long@.status == too_long.status && late@.status == late.status);
    assert(broken@.status == broken.status);
    assert(too_long@.headers == seq![("content-type"@, "application/json"@)]);
    assert(late@.headers == seq![("content-type"@, "application/json"@)]);
    assert(broken@.headers == seq![("content-type"@, "application/json"@)]);
}

/// The request that is made of a head and a body has the method, the URL, the path, the query
/// and the bytes that came, no route parameters, and the names that the environment gives.
pub proof fn law_request_of_head(
    head: RequestHead,
    body: Bytes,
    variables: TextMap,
    request: FunctionRequest,
    raw: &str,
    parameters: Vec<(String, String)>,
)
    requires
        call_ensures(RequestHead::into_request, (head, body, &variables), request),
        call_ensures(query::parse_query, (raw,), parameters),
    ensures
        request.method@ == head.method@,
        request.url@ == head.url@,
        request.path@ == head.path@,
        head.query is None ==> request.query@.len() == 0,
        head.query is Some && head.query->0@ == raw@ ==> super::pairs(request.query@)
            == super::pairs(parameters@),
        payload::held(request.body) == payload::held(body),
        forall|name: Seq<char>| !#[trigger] request.params@.contains_key(name),
        super::settings::taken_from(
            request.context.invocation_id,
            variables@,
            "AZURE_FUNCTIONS_INVOCATION_ID"@,
        ),
        super::settings::taken_from(
            request.context.function_name,
            variables@,
            "AZURE_FUNCTIONS_FUNCTION_NAME"@,
        ),
        request.context.function_directory is None,
        request.context.trace_context is None,
        request.context.retry_context is None,
        head.headers@.len() == 0 ==> request.headers@.len() == 0,
{
    super::lemma_pairs(request.query@);
    super::lemma_pairs(parameters@);
    assert(head@.query == text::optional(head.query));
    assert(request@.query == fields::listed(request.query@));
    assert(request@.method == request.method@ && request@.url == request.url@);
    assert(request@.path == request.path@ && request@.body == payload::held(request.body));
    assert(request@.params == request.params@);
    assert(request@.headers == fields::listed(request.headers@));
    assert(fields::listed(request.query@).len() == request.query@.len());
    assert(fields::listed(request.headers@).len() == request.headers@.len());
    if head.headers@.len() == 0 {
        assert(wire::raw_listed(head.headers@) =~= seq![]);
        assert(wire::readable(seq![]) =~= seq![]);
    }
    let context = request.context@;
    assert(request@.context == context);
    assert(context.invocation_id == text::optional(request.context.invocation_id));
    assert(context.function_name == text::optional(request.context.function_name));
    assert(context.function_directory is None);
    assert(context.trace_context is None);
    assert(context.retry_context is None);
}

/// One more header in the head is one more in the request, after the others and as text, when
/// its value is UTF-8, whatever its name; otherwise it changes nothing.
pub proof fn law_headers_of_head(
    head: RequestHead,
    longer: RequestHead,
    added: (String, Vec<u8>),
    body: Bytes,
    variables: TextMap,
    request: FunctionRequest,
    longer_request: FunctionRequest,
)
    requires
        call_ensures(RequestHead::into_request, (head, body, &variables), request),
        call_ensures(RequestHead::into_request, (longer, body, &variables), longer_request),
        longer.headers@ == head.headers@.push(added),
    ensures
        super::pairs(longer_request.headers@) == (if vstd::utf8::valid_utf8(added.1@) {
            super::pairs(request.headers@).push((added.0@, vstd::utf8::decode_utf8(added.1@)))
        } else {
            super::pairs(request.headers@)
        }),
{
    super::lemma_pairs(request.headers@);
    super::lemma_pairs(longer_request.headers@);
    assert(request@.headers == fields::listed(request.headers@));
    assert(longer_request@.headers == fields::listed(longer_request.headers@));
    let item = (added.0@, added.1@);
    assert(longer@.headers =~= head@.headers.push(item));
    fields::lemma_filter_map_push(head@.headers, item, wire::if_readable());
}

/// Whether HTTP allows the status and every header of a response.
pub open spec fn allowed(response: FunctionResponse) -> bool {
    &&& 100 <= response.status_code <= 999
    &&& forall|i: int|
        0 <= i < response.headers@.len() ==> protocol::is_header_name(
            (#[trigger] response.headers@[i]).0@,
        ) && protocol::is_header_value(response.headers@[i].1@)
}

/// Whether an HTTP response says that something went wrong, and no more.
pub open spec fn failed(response: WireResponse) -> bool {
    &&& response.status == 500
    &&& response.headers@.len() == 0
    &&& payload::held(response.body) == vstd::utf8::encode_utf8("Internal Server Error"@)
}

proof fn lemma_allowed(response: FunctionResponse)
    ensures
        wire::sendable(response@) == allowed(response),
{
    let list = fields::listed(response.headers@);
    assert(response@.headers == list);
    assert(response@.status_code == response.status_code);
    assert forall|i: int| 0 <= i < list.len() implies #[trigger] list[i] == (
        response.headers@[i].0@,
        response.headers@[i].1@,
    ) by {}
    if allowed(response) {
        assert forall|i: int| 0 <= i < list.len() implies wire::sendable_header(
            #[trigger] list[i],
        ) by {
            assert(protocol::is_header_name(response.headers@[i].0@));
        }
    }
    if wire::sendable(response@) {
        assert forall|i: int| 0 <= i < response.headers@.len() implies protocol::is_header_name(
            (#[trigger] response.headers@[i]).0@,
        ) && protocol::is_header_value(response.headers@[i].1@) by {
            assert(wire::sendable_header(list[i]));
        }
    }
}

/// What a handler returned is sent as it is, with its status, all of its headers in order and
/// the bytes that its body stands for, when HTTP allows it and its headers fit. Otherwise the
/// client is told that something went wrong.
pub proof fn law_sent_response(
    response: FunctionResponse,
    fits: bool,
    payload: Bytes,
    sent: WireResponse,
    error: WireResponse,
)
    requires
        call_ensures(WireResponse::from_measured_response, (response, fits), sent),
        call_ensures(FunctionResponse::into_payload, (response,), payload),
        call_ensures(WireResponse::internal_server_error, (), error),
    ensures
        allowed(response) && fits ==> sent.status == response.status_code && super::pairs(
            sent.headers@,
        ) == super::pairs(response.headers@) && payload::held(sent.body) == payload::held(payload),
        !allowed(response) || !fits ==> failed(sent),
        failed(error),
{
    lemma_allowed(response);
    super::lemma_pairs(sent.headers@);
    super::lemma_pairs(response.headers@);
    assert(sent@.status == sent.status && sent@.headers == fields::listed(sent.headers@));
    assert(sent@.body == payload::held(sent.body));
    assert(error@.status == error.status && error@.headers == fields::listed(error.headers@));
    assert(error@.body == payload::held(error.body));
    assert(fields::listed(sent.headers@).len() == sent.headers@.len());
    assert(fields::listed(error.headers@).len() == error.headers@.len());
}

/// Headers fit when they are few or all under one name, and do not when there are too many
/// names. Whether or not they fit is all that is open about what is sent.
pub proof fn law_fitting_response(
    response: FunctionResponse,
    sent: WireResponse,
    whole: WireResponse,
    replaced: WireResponse,
)
    requires
        call_ensures(WireResponse::from_response, (response,), sent),
        call_ensures(WireResponse::from_measured_response, (response, true), whole),
        call_ensures(WireResponse::from_measured_response, (response, false), replaced),
    ensures
        same_wire(sent, whole) || same_wire(sent, replaced),
        response.headers@.len() <= 6554 ==> same_wire(sent, whole),
        (forall|i: int, j: int|
            0 <= i < j < response.headers@.len() ==> super::alike(
                (#[trigger] response.headers@[i]).0@,
                (#[trigger] response.headers@[j]).0@,
            )) ==> same_wire(sent, whole),
        response.headers@.len() > 24576 && (forall|i: int, j: int|
            0 <= i < j < response.headers@.len() ==> !super::alike(
                (#[trigger] response.headers@[i]).0@,
                (#[trigger] response.headers@[j]).0@,
            )) ==> same_wire(sent, replaced),
{
    let list = fields::listed(response.headers@);
    assert(response@.headers == list);
    assert forall|i: int| 0 <= i < list.len() implies #[trigger] list[i] == (
        response.headers@[i].0@,
        response.headers@[i].1@,
    ) by {}
    if sent@ == whole@ {
        lemma_same_wire(sent, whole);
    }
    if sent@ == replaced@ {
        lemma_same_wire(sent, replaced);
    }
    wire::law_few_names_fit(list);
    if forall|i: int, j: int|
        0 <= i < j < response.headers@.len() ==> super::alike(
            (#[trigger] response.headers@[i]).0@,
            (#[trigger] response.headers@[j]).0@,
        ) {
        assert forall|i: int, j: int| 0 <= i < j < list.len() implies text::lowercase(
            (#[trigger] list[i]).0,
        ) == text::lowercase((#[trigger] list[j]).0) by {
            assert(super::alike(response.headers@[i].0@, response.headers@[j].0@));
            lemma_lowercase(list[i].0, list[j].0);
        }
    }
    if response.headers@.len() > 24576 && (forall|i: int, j: int|
        0 <= i < j < response.headers@.len() ==> !super::alike(
            (#[trigger] response.headers@[i]).0@,
            (#[trigger] response.headers@[j]).0@,
        )) {
        let lower = |header: fields::Field| text::lowercase(header.0);
        let earlier = list.drop_last().map_values(lower);
        assert forall|i: int, j: int|
            0 <= i < earlier.len() && 0 <= j < earlier.len() && i != j implies earlier[i]
            != earlier[j] by {
            lemma_lowercase(list[i].0, list[j].0);
            lemma_lowercase(list[j].0, list[i].0);
            if i < j {
                assert(!super::alike(response.headers@[i].0@, response.headers@[j].0@));
            } else {
                assert(!super::alike(response.headers@[j].0@, response.headers@[i].0@));
            }
        }
        earlier.unique_seq_to_set();
        assert(wire::earlier_names(list) == earlier.len());
    }
}

proof fn lemma_lowercase(a: Seq<char>, b: Seq<char>)
    ensures
        super::alike(a, b) <==> text::lowercase(a) == text::lowercase(b),
{
    super::lemma_alike(a, b);
    if super::alike(a, b) {
        assert(text::lowercase(a) =~= text::lowercase(b));
    }
    if text::lowercase(a) == text::lowercase(b) {
        assert(text::lowercase(a).len() == a.len() && text::lowercase(b).len() == b.len());
        assert forall|i: int| 0 <= i < a.len() implies text::lowered(#[trigger] a[i])
            == text::lowered(b[i]) by {
            assert(text::lowercase(a)[i] == text::lowercase(b)[i]);
        }
    }
}

/// What a handler returned in time is passed on as it is. A handler that did not return is
/// answered for with 504.
pub proof fn law_concluded<App: Send + Sync + 'static>(
    served_by: AzureFunctionsRuntime<App>,
    outcome: HandlerOutcome,
    response: FunctionResponse,
)
    requires
        call_ensures(AzureFunctionsRuntime::<App>::conclude, (&served_by, outcome), response),
    ensures
        outcome is Returned ==> super::responses::same_response(response, outcome->Returned_0),
        outcome is TimedOut ==> super::responses::says_json(
            response,
            504,
            json::object_text("error"@, "Gateway Timeout"@),
        ),
{
    match outcome {
        HandlerOutcome::Returned(returned) => {
            super::responses::lemma_same_response(response, returned);
        },
        HandlerOutcome::TimedOut => {
            super::responses::lemma_says_json(
                response,
                504,
                json::object_text("error"@, "Gateway Timeout"@),
            );
        },
    }
}

} // verus!
