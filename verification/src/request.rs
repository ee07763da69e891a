//! Azure Functions request conversion.

use crate::fields;
use crate::payload;
use crate::protocol;
use crate::text;
use crate::text::IntoText;
use crate::text_map;
use crate::text_map::TextMap;
use bytes::Bytes;
use vstd::prelude::*;

verus! {

/// Azure Functions HTTP request.
#[derive(Debug)]
pub struct FunctionRequest {
    /// HTTP method.
    pub method: String,
    /// Request URL.
    pub url: String,
    /// Request path.
    pub path: String,
    /// Query string parameters, in wire order.
    ///
    /// A list rather than a map: `?tag=a&tag=b` is meaningful and both values must reach the
    /// handler, in the order the client sent them.
    pub query: Vec<(String, String)>,
    /// Request headers, in arrival order.
    ///
    /// A list rather than a map because a request may legitimately carry the same field name
    /// more than once (`Cookie`, `X-Forwarded-For`, `Via`), and a map would keep only the last
    /// of them.
    pub headers: Vec<(String, String)>,
    /// Request body.
    pub body: Bytes,
    /// Route parameters.
    pub params: TextMap,
    /// Request context.
    pub context: RequestContext,
}

/// Request context from Azure Functions.
#[derive(Debug)]
pub struct RequestContext {
    /// Invocation ID.
    pub invocation_id: Option<String>,
    /// Function name.
    pub function_name: Option<String>,
    /// Function directory.
    pub function_directory: Option<String>,
    /// Trace context for distributed tracing.
    pub trace_context: Option<TraceContext>,
    /// Retry context (if using retry policies).
    pub retry_context: Option<RetryContext>,
}

/// Distributed tracing context.
#[derive(Debug)]
pub struct TraceContext {
    /// Trace parent header.
    pub trace_parent: Option<String>,
    /// Trace state header.
    pub trace_state: Option<String>,
}

/// Retry context for durable functions.
#[derive(Debug, Clone, Copy)]
pub struct RetryContext {
    /// Current retry count.
    pub retry_count: u32,
    /// Maximum retries.
    pub max_retry_count: u32,
}

/// What a request says.
#[verifier::ext_equal]
pub struct RequestView {
    pub method: Seq<char>,
    pub url: Seq<char>,
    pub path: Seq<char>,
    pub query: Seq<fields::Field>,
    pub headers: Seq<fields::Field>,
    pub body: Seq<u8>,
    pub params: Map<Seq<char>, Seq<char>>,
    pub context: ContextView,
}

/// What a request context says.
#[verifier::ext_equal]
pub struct ContextView {
    pub invocation_id: Option<Seq<char>>,
    pub function_name: Option<Seq<char>>,
    pub function_directory: Option<Seq<char>>,
    pub trace_context: Option<TraceView>,
    pub retry_context: Option<RetryContext>,
}

/// What a tracing context says.
#[verifier::ext_equal]
pub struct TraceView {
    pub trace_parent: Option<Seq<char>>,
    pub trace_state: Option<Seq<char>>,
}

impl View for TraceContext {
    type V = TraceView;

    open spec fn view(&self) -> TraceView {
        TraceView {
            trace_parent: text::optional(self.trace_parent),
            trace_state: text::optional(self.trace_state),
        }
    }
}

impl View for RequestContext {
    type V = ContextView;

    open spec fn view(&self) -> ContextView {
        ContextView {
            invocation_id: text::optional(self.invocation_id),
            function_name: text::optional(self.function_name),
            function_directory: text::optional(self.function_directory),
            trace_context: match self.trace_context {
                Some(context) => Some(context@),
                None => None,
            },
            retry_context: self.retry_context,
        }
    }
}

impl View for FunctionRequest {
    type V = RequestView;

    open spec fn view(&self) -> RequestView {
        RequestView {
            method: self.method@,
            url: self.url@,
            path: self.path@,
            query: fields::listed(self.query@),
            headers: fields::listed(self.headers@),
            body: payload::held(self.body),
            params: self.params@,
            context: self.context@,
        }
    }
}

/// A context that says nothing.
pub open spec fn no_context() -> ContextView {
    ContextView {
        invocation_id: None,
        function_name: None,
        function_directory: None,
        trace_context: None,
        retry_context: None,
    }
}

/// A request with nothing but a method and a path.
pub open spec fn bare_request(method: Seq<char>, path: Seq<char>) -> RequestView {
    RequestView {
        method,
        url: path,
        path,
        query: seq![],
        headers: seq![],
        body: seq![],
        params: Map::empty(),
        context: no_context(),
    }
}

impl RequestView {
    /// The first value of a header.
    pub open spec fn header(self, name: Seq<char>) -> Option<Seq<char>> {
        fields::first(fields::header_values(self.headers, name))
    }

    /// The first value of a query parameter.
    pub open spec fn query_param(self, name: Seq<char>) -> Option<Seq<char>> {
        fields::first(fields::parameter_values(self.query, name))
    }
}

impl Default for RequestContext {
    fn default() -> (result: Self)
        ensures
            result@ == no_context(),
    {
        RequestContext {
            invocation_id: None,
            function_name: None,
            function_directory: None,
            trace_context: None,
            retry_context: None,
        }
    }
}

impl Default for TraceContext {
    fn default() -> (result: Self)
        ensures
            result@ == (TraceView { trace_parent: None, trace_state: None }),
    {
        TraceContext { trace_parent: None, trace_state: None }
    }
}

impl Default for RetryContext {
    fn default() -> (result: Self)
        ensures
            result == (RetryContext { retry_count: 0, max_retry_count: 0 }),
    {
        RetryContext { retry_count: 0, max_retry_count: 0 }
    }
}

impl Clone for TraceContext {
    fn clone(&self) -> (result: Self)
        ensures
            result@ == self@,
    {
        TraceContext {
            trace_parent: text::copy_optional(&self.trace_parent),
            trace_state: text::copy_optional(&self.trace_state),
        }
    }
}

impl Clone for RequestContext {
    fn clone(&self) -> (result: Self)
        ensures
            result@ == self@,
    {
        RequestContext {
            invocation_id: text::copy_optional(&self.invocation_id),
            function_name: text::copy_optional(&self.function_name),
            function_directory: text::copy_optional(&self.function_directory),
            trace_context: match &self.trace_context {
                Some(context) => Some(context.clone()),
                None => None,
            },
            retry_context: self.retry_context,
        }
    }
}

impl Clone for FunctionRequest {
    fn clone(&self) -> (result: Self)
        ensures
            result@ == self@,
    {
        FunctionRequest {
            method: self.method.clone(),
            url: self.url.clone(),
            path: self.path.clone(),
            query: fields::copy(&self.query),
            headers: fields::copy(&self.headers),
            body: self.body.clone(),
            params: self.params.clone(),
            context: self.context.clone(),
        }
    }
}

impl FunctionRequest {
    /// Create a new function request.
    pub fn new<M: IntoText, P: IntoText>(method: M, path: P) -> (result: Self)
        ensures
            result@ == bare_request(method.text(), path.text()),
    {
        let path = path.into_text();
        let result = FunctionRequest {
            method: method.into_text(),
            url: path.clone(),
            path,
            query: Vec::new(),
            headers: Vec::new(),
            body: payload::no_bytes(),
            params: TextMap::new(),
            context: RequestContext::default(),
        };
        assert(result@.query =~= seq![]);
        assert(result@.headers =~= seq![]);
        result
    }

    /// Get the first value for a header (case-insensitive).
    pub fn header(&self, name: &str) -> (result: Option<&str>)
        ensures
            text::optional_str(result) == self@.header(name@),
    {
        fields::first_of(self.header_values(name))
    }

    /// Get every value for a header, in arrival order (case-insensitive). Use this for names
    /// that legitimately repeat, such as `Cookie`.
    pub fn header_values(&self, name: &str) -> (result: Vec<&str>)
        ensures
            fields::texts(result@) == fields::header_values(self@.headers, name@),
    {
        fields::collect_header_values(&self.headers, name)
    }

    /// Get the first value for a query parameter.
    pub fn query_param(&self, name: &str) -> (result: Option<&str>)
        ensures
            text::optional_str(result) == self@.query_param(name@),
    {
        fields::first_of(self.query_params(name))
    }

    /// Get every value for a query parameter, in wire order.
    pub fn query_params(&self, name: &str) -> (result: Vec<&str>)
        ensures
            fields::texts(result@) == fields::parameter_values(self@.query, name@),
    {
        fields::collect_parameter_values(&self.query, name)
    }

    /// Get a route parameter.
    pub fn route_param(&self, name: &str) -> (result: Option<&str>)
        ensures
            text::optional_str(result) == text_map::lookup(self@.params, name@),
    {
        match self.params.get(name) {
            Some(value) => Some(value.as_str()),
            None => None,
        }
    }

    /// Get the content type.
    pub fn content_type(&self) -> (result: Option<&str>)
        ensures
            text::optional_str(result) == self@.header("content-type"@),
    {
        self.header("content-type")
    }

    /// Check if the request is JSON.
    pub fn is_json(&self) -> (result: bool)
        ensures
            result == (match self@.header("content-type"@) {
                Some(content_type) => text::occurs_in("application/json"@, content_type),
                None => false,
            }),
    {
        match self.content_type() {
            Some(content_type) => text::contains(content_type, "application/json"),
            None => false,
        }
    }

    /// Get the name of the HTTP method. A method that HTTP does not allow counts as `GET`.
    pub fn http_method(&self) -> (result: String)
        ensures
            result@ == (if protocol::is_token(self@.method) {
                self@.method
            } else {
                "GET"@
            }),
    {
        match protocol::method_name(self.method.as_str()) {
            Some(name) => name,
            None => "GET".to_owned(),
        }
    }

    /// Get the client IP address.
    pub fn client_ip(&self) -> (result: Option<&str>)
        ensures
            text::optional_str(result) == (match self@.header("x-forwarded-for"@) {
                Some(address) => Some(address),
                None => self@.header("x-client-ip"@),
            }),
    {
        match self.header("x-forwarded-for") {
            Some(address) => Some(address),
            None => self.header("x-client-ip"),
        }
    }

    /// Get the authorization header.
    pub fn authorization(&self) -> (result: Option<&str>)
        ensures
            text::optional_str(result) == self@.header("authorization"@),
    {
        self.header("authorization")
    }

    /// Get a bearer token from the authorization header.
    pub fn bearer_token(&self) -> (result: Option<&str>)
        ensures
            text::optional_str(result) == (match self@.header("authorization"@) {
                Some(authorization) => text::after_prefix(authorization, "Bearer "@),
                None => None,
            }),
    {
        match self.authorization() {
            Some(authorization) => text::strip_prefix(authorization, "Bearer "),
            None => None,
        }
    }
}

impl Default for FunctionRequest {
    fn default() -> (result: Self)
        ensures
            result@ == bare_request("GET"@, "/"@),
    {
        FunctionRequest::new("GET", "/")
    }
}

} // verus!
