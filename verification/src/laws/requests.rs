//! What a request says of itself.

use crate::fields;
use crate::payload;
use crate::protocol;
use crate::request::FunctionRequest;
use crate::request::RequestContext;
use crate::request::RetryContext;
use crate::request::TraceContext;
use crate::text;
use crate::text::IntoText;
use vstd::prelude::*;

verus! {

/// The first header with a name, in any case, is the one that a look-up gives.
pub proof fn law_first_header(request: FunctionRequest, name: &str, value: Option<&str>, i: int)
    requires
        call_ensures(FunctionRequest::header, (&request, name), value),
    ensures
        ({
            let headers = super::pairs(request.headers@);
            &&& 0 <= i < headers.len() && super::alike(headers[i].0, name@) && (forall|j: int|
                0 <= j < i ==> !super::alike((#[trigger] headers[j]).0, name@)) ==> value is Some
                && value->0@ == headers[i].1
            &&& (forall|j: int|
                0 <= j < headers.len() ==> !super::alike((#[trigger] headers[j]).0, name@))
                ==> value is None
        }),
{
    super::lemma_pairs(request.headers@);
    assert(text::optional_str(value) == fields::first(
        fields::header_values(super::pairs(request.headers@), name@),
    ));
    lemma_first_header(super::pairs(request.headers@), name@, i);
}

pub(crate) proof fn lemma_first_header(
    headers: Seq<(Seq<char>, Seq<char>)>,
    name: Seq<char>,
    i: int,
)
    ensures
        0 <= i < headers.len() && super::alike(headers[i].0, name) && (forall|j: int|
            0 <= j < i ==> !super::alike((#[trigger] headers[j]).0, name)) ==> fields::first(
            fields::header_values(headers, name),
        ) == Some(headers[i].1),
        (forall|j: int|
            0 <= j < headers.len() ==> !super::alike((#[trigger] headers[j]).0, name))
            ==> fields::header_values(headers, name) == Seq::<Seq<char>>::empty(),
    decreases headers.len(),
{
    if headers.len() > 0 {
        let shorter = headers.drop_last();
        lemma_first_header(shorter, name, i);
        assert(headers =~= shorter.push(headers.last()));
        fields::lemma_filter_map_push(shorter, headers.last(), fields::if_named(name));
        super::lemma_alike(headers.last().0, name);
        assert forall|j: int| 0 <= j < shorter.len() implies (#[trigger] shorter[j]) == headers[j] by {
        }
        if i == headers.len() - 1 && (forall|j: int|
            0 <= j < i ==> !super::alike((#[trigger] headers[j]).0, name)) {
            assert forall|j: int| 0 <= j < shorter.len() implies !super::alike(
                (#[trigger] shorter[j]).0,
                name,
            ) by {
                assert(!super::alike(headers[j].0, name));
            }
        } else if 0 <= i < shorter.len() && (forall|j: int|
            0 <= j < i ==> !super::alike((#[trigger] headers[j]).0, name)) {
            assert forall|j: int| 0 <= j < i implies !super::alike((#[trigger] shorter[j]).0, name) by {
                assert(!super::alike(headers[j].0, name));
            }
        }
        if forall|j: int| 0 <= j < headers.len() ==> !super::alike((#[trigger] headers[j]).0, name) {
            assert forall|j: int| 0 <= j < shorter.len() implies !super::alike(
                (#[trigger] shorter[j]).0,
                name,
            ) by {
                assert(!super::alike(headers[j].0, name));
            }
            assert(!super::alike(headers[headers.len() - 1].0, name));
        }
    } else {
        assert(fields::header_values(headers, name) =~= Seq::<Seq<char>>::empty());
    }
}

/// A request with one more header has one more value under the name of that header, in any
/// case, after those that it had, and as many under other names. One without headers has none.
pub proof fn law_all_headers(
    request: FunctionRequest,
    longer: FunctionRequest,
    added: (String, String),
    name: &str,
    values: Vec<&str>,
    more: Vec<&str>,
)
    requires
        call_ensures(FunctionRequest::header_values, (&request, name), values),
        call_ensures(FunctionRequest::header_values, (&longer, name), more),
        longer.headers@ == request.headers@.push(added),
    ensures
        request.headers@.len() == 0 ==> values@.len() == 0,
        super::texts_in(more@) == (if super::alike(added.0@, name@) {
            super::texts_in(values@).push(added.1@)
        } else {
            super::texts_in(values@)
        }),
{
    lemma_one_more(request.headers@, longer.headers@, added, name@);
    super::lemma_texts_in(values@);
    super::lemma_texts_in(more@);
    if request.headers@.len() == 0 {
        assert(fields::header_values(fields::listed(request.headers@), name@) =~= seq![]);
        assert(super::texts_in(values@).len() == 0);
    }
}

pub(crate) proof fn lemma_one_more(
    list: Seq<(String, String)>,
    longer: Seq<(String, String)>,
    added: (String, String),
    name: Seq<char>,
)
    requires
        longer == list.push(added),
    ensures
        fields::listed(longer) == fields::listed(list).push((added.0@, added.1@)),
        fields::header_values(fields::listed(longer), name) == (if super::alike(added.0@, name) {
            fields::header_values(fields::listed(list), name).push(added.1@)
        } else {
            fields::header_values(fields::listed(list), name)
        }),
{
    assert(fields::listed(longer) =~= fields::listed(list).push((added.0@, added.1@)));
    fields::lemma_filter_map_push(
        fields::listed(list),
        (added.0@, added.1@),
        fields::if_named(name),
    );
    super::lemma_alike(added.0@, name);
}

/// A request with one more parameter has one more value under exactly that name, after those
/// that it had, and as many under other names. One without parameters has none.
pub proof fn law_all_parameters(
    request: FunctionRequest,
    longer: FunctionRequest,
    added: (String, String),
    name: &str,
    values: Vec<&str>,
    more: Vec<&str>,
)
    requires
        call_ensures(FunctionRequest::query_params, (&request, name), values),
        call_ensures(FunctionRequest::query_params, (&longer, name), more),
        longer.query@ == request.query@.push(added),
    ensures
        request.query@.len() == 0 ==> values@.len() == 0,
        super::texts_in(more@) == (if added.0@ == name@ {
            super::texts_in(values@).push(added.1@)
        } else {
            super::texts_in(values@)
        }),
{
    let list = fields::listed(request.query@);
    assert(fields::listed(longer.query@) =~= list.push((added.0@, added.1@)));
    fields::lemma_filter_map_push(list, (added.0@, added.1@), fields::if_exactly_named(name@));
    super::lemma_texts_in(values@);
    super::lemma_texts_in(more@);
    if request.query@.len() == 0 {
        assert(fields::parameter_values(list, name@) =~= seq![]);
        assert(super::texts_in(values@).len() == 0);
    }
}

/// The one value that a look-up gives is the first of all values.
pub proof fn law_first_of_all(
    request: FunctionRequest,
    name: &str,
    header: Option<&str>,
    headers: Vec<&str>,
    parameter: Option<&str>,
    parameters: Vec<&str>,
)
    requires
        call_ensures(FunctionRequest::header, (&request, name), header),
        call_ensures(FunctionRequest::header_values, (&request, name), headers),
        call_ensures(FunctionRequest::query_param, (&request, name), parameter),
        call_ensures(FunctionRequest::query_params, (&request, name), parameters),
    ensures
        header is Some <==> headers@.len() > 0,
        header is Some ==> header->0@ == headers@[0]@,
        parameter is Some <==> parameters@.len() > 0,
        parameter is Some ==> parameter->0@ == parameters@[0]@,
{
    super::lemma_texts_in(headers@);
    super::lemma_texts_in(parameters@);
    assert(text::optional_str(header) == fields::first(super::texts_in(headers@)));
    assert(text::optional_str(parameter) == fields::first(super::texts_in(parameters@)));
    assert(super::texts_in(headers@).len() == headers@.len());
    assert(super::texts_in(parameters@).len() == parameters@.len());
}

/// A route parameter is there exactly when its name is.
pub proof fn law_route_param(request: FunctionRequest, name: &str, value: Option<&str>)
    requires
        call_ensures(FunctionRequest::route_param, (&request, name), value),
    ensures
        value is Some <==> request.params@.contains_key(name@),
        value is Some ==> value->0@ == request.params@[name@],
{
    assert(text::optional_str(value) == crate::text_map::lookup(request.params@, name@));
}

/// The content type and the authorization are headers like any other.
pub proof fn law_named_headers(
    request: FunctionRequest,
    name: &str,
    value: Option<&str>,
    content_type: Option<&str>,
    authorization: Option<&str>,
)
    requires
        call_ensures(FunctionRequest::header, (&request, name), value),
        call_ensures(FunctionRequest::content_type, (&request,), content_type),
        call_ensures(FunctionRequest::authorization, (&request,), authorization),
    ensures
        name@ == "content-type"@ ==> same(content_type, value),
        name@ == "authorization"@ ==> same(authorization, value),
{
}

/// Whether two texts that may be missing are the same.
pub open spec fn same(a: Option<&str>, b: Option<&str>) -> bool {
    &&& a is Some <==> b is Some
    &&& a is Some ==> a->0@ == b->0@
}

/// A request is JSON when its content type says so, wherever in it.
pub proof fn law_is_json(request: FunctionRequest, content_type: Option<&str>, result: bool)
    requires
        call_ensures(FunctionRequest::content_type, (&request,), content_type),
        call_ensures(FunctionRequest::is_json, (&request,), result),
    ensures
        result <==> content_type is Some && exists|before: Seq<char>, after: Seq<char>|
            content_type->0@ == #[trigger] (before + "application/json"@ + after),
{
    if content_type is Some {
        super::texts::lemma_occurs(content_type->0@, "application/json"@);
    }
}

/// A method that HTTP allows is kept as it is, and any other counts as `GET`.
pub proof fn law_method(request: FunctionRequest, method: String)
    requires
        call_ensures(FunctionRequest::http_method, (&request,), method),
    ensures
        protocol::is_token(request.method@) ==> method@ == request.method@,
        !protocol::is_token(request.method@) ==> method@ == "GET"@,
        protocol::is_token(method@),
{
    reveal_strlit("GET");
}

/// A text of ASCII letters is a method, and one that is empty or holds a space or a character
/// beyond ASCII is none.
pub proof fn law_tokens(text: Seq<char>, i: int)
    ensures
        text.len() > 0 && (forall|j: int|
            0 <= j < text.len() ==> 'a' <= #[trigger] text[j] <= 'z' || 'A' <= text[j] <= 'Z')
            ==> protocol::is_token(text),
        text.len() == 0 ==> !protocol::is_token(text),
        0 <= i < text.len() && (text[i] as nat <= 32 || text[i] as nat >= 127)
            ==> !protocol::is_token(text),
{
    if text.len() > 0 && (forall|j: int|
        0 <= j < text.len() ==> 'a' <= #[trigger] text[j] <= 'z' || 'A' <= text[j] <= 'Z') {
        assert forall|j: int| 0 <= j < text.len() implies protocol::is_token_char(
            #[trigger] text[j],
        ) by {}
    }
    if 0 <= i < text.len() && (text[i] as nat <= 32 || text[i] as nat >= 127) {
        assert(!protocol::is_token_char(text[i]));
    }
}

/// The client is known by the forwarded address, and only without one by its own.
pub proof fn law_client_ip(
    request: FunctionRequest,
    forwarded_name: &str,
    own_name: &str,
    forwarded: Option<&str>,
    own: Option<&str>,
    address: Option<&str>,
)
    requires
        forwarded_name@ == "x-forwarded-for"@,
        own_name@ == "x-client-ip"@,
        call_ensures(FunctionRequest::header, (&request, forwarded_name), forwarded),
        call_ensures(FunctionRequest::header, (&request, own_name), own),
        call_ensures(FunctionRequest::client_ip, (&request,), address),
    ensures
        forwarded is Some ==> same(address, forwarded),
        forwarded is None ==> same(address, own),
{
}

/// The bearer token is what follows `Bearer ` in the authorization, and nothing else is one.
pub proof fn law_bearer_token(
    request: FunctionRequest,
    authorization: Option<&str>,
    token: Option<&str>,
    rest: Seq<char>,
)
    requires
        call_ensures(FunctionRequest::authorization, (&request,), authorization),
        call_ensures(FunctionRequest::bearer_token, (&request,), token),
    ensures
        token is Some ==> authorization is Some && authorization->0@ == "Bearer "@ + token->0@,
        authorization is Some && authorization->0@ == "Bearer "@ + rest ==> token is Some
            && token->0@ == rest,
{
    if token is Some {
        assert(authorization->0@ =~= "Bearer "@ + token->0@);
    }
    if authorization is Some && authorization->0@ == "Bearer "@ + rest {
        assert("Bearer "@.is_prefix_of(authorization->0@));
        assert(authorization->0@.skip("Bearer "@.len() as int) =~= rest);
    }
}

/// A new request has its method and its path, which is its URL too, and nothing else. By
/// default it gets the root.
pub proof fn law_new_request<M: IntoText, P: IntoText>(
    method: M,
    path: P,
    request: FunctionRequest,
    default: FunctionRequest,
)
    requires
        call_ensures(FunctionRequest::new::<M, P>, (method, path), request),
        call_ensures(<FunctionRequest as Default>::default, (), default),
    ensures
        request.method@ == method.text(),
        request.url@ == path.text(),
        request.path@ == path.text(),
        bare(request),
        default.method@ == "GET"@,
        default.url@ == "/"@,
        default.path@ == "/"@,
        bare(default),
{
    lemma_bare(request);
    lemma_bare(default);
}

/// Whether a request has nothing beyond a method, a URL and a path.
pub open spec fn bare(request: FunctionRequest) -> bool {
    &&& request.query@.len() == 0
    &&& request.headers@.len() == 0
    &&& payload::held(request.body).len() == 0
    &&& forall|name: Seq<char>| !#[trigger] request.params@.contains_key(name)
    &&& silent(request.context)
}

/// Whether a context says nothing.
pub open spec fn silent(context: RequestContext) -> bool {
    &&& context.invocation_id is None
    &&& context.function_name is None
    &&& context.function_directory is None
    &&& context.trace_context is None
    &&& context.retry_context is None
}

proof fn lemma_bare(request: FunctionRequest)
    requires
        request@ == crate::request::bare_request(request@.method, request@.path),
    ensures
        bare(request),
{
    assert(fields::listed(request.query@).len() == 0);
    assert(fields::listed(request.headers@).len() == 0);
    assert(request@.params == request.params@);
    assert(request@.context == request.context@);
    assert(request.context@.invocation_id is None);
    assert(request.context@.function_name is None);
    assert(request.context@.function_directory is None);
    assert(request.context@.trace_context is None);
    assert(request.context@.retry_context is None);
}

/// Contexts say nothing by default, and count no retries.
pub proof fn law_default_contexts(context: RequestContext, trace: TraceContext, retry: RetryContext)
    requires
        call_ensures(<RequestContext as Default>::default, (), context),
        call_ensures(<TraceContext as Default>::default, (), trace),
        call_ensures(<RetryContext as Default>::default, (), retry),
    ensures
        silent(context),
        trace.trace_parent is None,
        trace.trace_state is None,
        retry.retry_count == 0,
        retry.max_retry_count == 0,
{
    assert(context@.invocation_id is None);
    assert(context@.function_name is None);
    assert(context@.function_directory is None);
    assert(context@.trace_context is None);
    assert(context@.retry_context is None);
    assert(trace@.trace_parent is None);
    assert(trace@.trace_state is None);
}

/// Whether two requests say the same in everything but their paths.
pub open spec fn same_but_for_path(a: FunctionRequest, b: FunctionRequest) -> bool {
    &&& a.method@ == b.method@
    &&& a.url@ == b.url@
    &&& super::pairs(a.query@) == super::pairs(b.query@)
    &&& super::pairs(a.headers@) == super::pairs(b.headers@)
    &&& payload::held(a.body) == payload::held(b.body)
    &&& a.params@ == b.params@
    &&& same_context(a.context, b.context)
}

/// Whether two contexts say the same.
pub open spec fn same_context(a: RequestContext, b: RequestContext) -> bool {
    &&& super::chars(a.invocation_id) == super::chars(b.invocation_id)
    &&& super::chars(a.function_name) == super::chars(b.function_name)
    &&& super::chars(a.function_directory) == super::chars(b.function_directory)
    &&& a.trace_context is Some <==> b.trace_context is Some
    &&& a.trace_context is Some ==> same_trace(a.trace_context->0, b.trace_context->0)
    &&& a.retry_context == b.retry_context
}

/// Whether two tracing contexts say the same.
pub open spec fn same_trace(a: TraceContext, b: TraceContext) -> bool {
    &&& super::chars(a.trace_parent) == super::chars(b.trace_parent)
    &&& super::chars(a.trace_state) == super::chars(b.trace_state)
}

proof fn lemma_same_trace(a: TraceContext, b: TraceContext)
    requires
        a@ == b@,
    ensures
        same_trace(a, b),
{
    assert(a@.trace_parent == b@.trace_parent);
    assert(a@.trace_state == b@.trace_state);
}

pub(crate) proof fn lemma_same_context(a: RequestContext, b: RequestContext)
    requires
        a@ == b@,
    ensures
        same_context(a, b),
{
    assert(a@.invocation_id == b@.invocation_id);
    assert(a@.function_name == b@.function_name);
    assert(a@.function_directory == b@.function_directory);
    assert(a@.trace_context == b@.trace_context);
    assert(a@.retry_context == b@.retry_context);
    if a.trace_context is Some && b.trace_context is Some {
        assert(a@.trace_context->0 == a.trace_context->0@);
        assert(b@.trace_context->0 == b.trace_context->0@);
        lemma_same_trace(a.trace_context->0, b.trace_context->0);
    }
}

pub(crate) proof fn lemma_same_but_for_path(a: FunctionRequest, b: FunctionRequest)
    requires
        a@ == (crate::request::RequestView { path: a@.path, ..b@ }),
    ensures
        same_but_for_path(a, b),
{
    super::lemma_pairs(a.query@);
    super::lemma_pairs(b.query@);
    super::lemma_pairs(a.headers@);
    super::lemma_pairs(b.headers@);
    assert(a@.method == b@.method && a@.url == b@.url && a@.query == b@.query);
    assert(a@.headers == b@.headers && a@.body == b@.body && a@.params == b@.params);
    assert(a@.context == b@.context);
    lemma_same_context(a.context, b.context);
}

/// A copy of a request says the same.
pub proof fn law_copied_request(
    request: FunctionRequest,
    copy: FunctionRequest,
    context: RequestContext,
    context_copy: RequestContext,
    trace: TraceContext,
    trace_copy: TraceContext,
)
    requires
        call_ensures(<FunctionRequest as Clone>::clone, (&request,), copy),
        call_ensures(<RequestContext as Clone>::clone, (&context,), context_copy),
        call_ensures(<TraceContext as Clone>::clone, (&trace,), trace_copy),
    ensures
        same_but_for_path(copy, request),
        copy.path@ == request.path@,
        same_context(context_copy, context),
        same_trace(trace_copy, trace),
{
    lemma_same_but_for_path(copy, request);
    assert(copy@.path == request@.path);
    lemma_same_context(context_copy, context);
    lemma_same_trace(trace_copy, trace);
}

} // verus!
