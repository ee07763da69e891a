//! Azure Functions runtime.
//!
//! An invocation alternates between decisions, which are made here, and work that takes time:
//! reading the body and running the handler. Each decision says what work comes next and by
//! when it has to be done, and takes up what came of it.

use crate::config;
use crate::config::FunctionConfig;
use crate::payload;
use crate::request;
use crate::request::FunctionRequest;
use crate::response;
use crate::response::FunctionResponse;
use crate::text;
use crate::text_map::TextMap;
use crate::wire;
use crate::wire::RequestHead;
use crate::wire::WireResponse;
use bytes::Bytes;
use std::sync::Arc;
use vstd::prelude::*;

verus! {

/// Runtime configuration.
#[derive(Debug)]
pub struct RuntimeConfig {
    /// Function configuration.
    pub function: FunctionConfig,
    /// Enable request logging.
    pub log_requests: bool,
    /// Enable response logging.
    pub log_responses: bool,
}

/// What a runtime configuration says.
#[verifier::ext_equal]
pub struct RuntimeConfigView {
    pub function: config::ConfigView,
    pub log_requests: bool,
    pub log_responses: bool,
}

impl View for RuntimeConfig {
    type V = RuntimeConfigView;

    open spec fn view(&self) -> RuntimeConfigView {
        RuntimeConfigView {
            function: self.function@,
            log_requests: self.log_requests,
            log_responses: self.log_responses,
        }
    }
}

/// The runtime configuration that the environment asks for.
pub open spec fn configured(variables: Map<Seq<char>, Seq<char>>) -> RuntimeConfigView {
    RuntimeConfigView {
        function: config::configured(variables),
        log_requests: true,
        log_responses: false,
    }
}

impl Clone for RuntimeConfig {
    fn clone(&self) -> (result: Self)
        ensures
            result@ == self@,
    {
        RuntimeConfig {
            function: self.function.clone(),
            log_requests: self.log_requests,
            log_responses: self.log_responses,
        }
    }
}

impl RuntimeConfig {
    /// Create configuration from environment variables. Requests are logged and responses are
    /// not.
    pub fn from_env(variables: &TextMap) -> (result: Self)
        ensures
            result@ == configured(variables@),
    {
        RuntimeConfig {
            function: FunctionConfig::from_env(variables),
            log_requests: true,
            log_responses: false,
        }
    }

    /// Enable request logging.
    pub fn log_requests(self, enabled: bool) -> (result: Self)
        ensures
            result@ == (RuntimeConfigView { log_requests: enabled, ..self@ }),
    {
        let mut config = self;
        config.log_requests = enabled;
        config
    }

    /// Enable response logging.
    pub fn log_responses(self, enabled: bool) -> (result: Self)
        ensures
            result@ == (RuntimeConfigView { log_responses: enabled, ..self@ }),
    {
        let mut config = self;
        config.log_responses = enabled;
        config
    }

    /// Set function configuration.
    pub fn function_config(self, config: FunctionConfig) -> (result: Self)
        ensures
            result@ == (RuntimeConfigView { function: config@, ..self@ }),
    {
        RuntimeConfig {
            function: config,
            log_requests: self.log_requests,
            log_responses: self.log_responses,
        }
    }
}

/// What came of reading a body, with no more than the given number of bytes taken in.
#[derive(Debug)]
pub enum BodyOutcome {
    /// The whole body was read.
    Collected(Bytes),
    /// There were more bytes than may be taken in.
    LimitExceeded,
    /// The body could not be read: a transport error, or an upload broken off.
    Failed,
    /// The deadline passed first.
    TimedOut,
}

/// What came of running a handler.
#[derive(Debug)]
pub enum HandlerOutcome {
    /// The handler returned a response.
    Returned(FunctionResponse),
    /// The deadline passed first.
    TimedOut,
}

/// What a body outcome says.
#[verifier::ext_equal]
pub enum BodyOutcomeView {
    Collected(Seq<u8>),
    LimitExceeded,
    Failed,
    TimedOut,
}

impl View for BodyOutcome {
    type V = BodyOutcomeView;

    open spec fn view(&self) -> BodyOutcomeView {
        match *self {
            BodyOutcome::Collected(body) => BodyOutcomeView::Collected(payload::held(body)),
            BodyOutcome::LimitExceeded => BodyOutcomeView::LimitExceeded,
            BodyOutcome::Failed => BodyOutcomeView::Failed,
            BodyOutcome::TimedOut => BodyOutcomeView::TimedOut,
        }
    }
}

/// A request whose body is still to be read.
#[derive(Debug)]
pub struct PendingRequest {
    head: RequestHead,
    limit: usize,
    deadline: Option<u128>,
}

/// What is known of a request whose body is still to be read.
#[verifier::ext_equal]
pub struct PendingView {
    pub head: wire::HeadView,
    pub limit: nat,
    pub deadline: Option<u128>,
}

impl View for PendingRequest {
    type V = PendingView;

    closed spec fn view(&self) -> PendingView {
        PendingView { head: self.head@, limit: self.limit as nat, deadline: self.deadline }
    }
}

impl PendingRequest {
    /// The number of bytes at which reading the body stops.
    pub fn limit(&self) -> (result: usize)
        ensures
            result as nat == self@.limit,
    {
        self.limit
    }

    /// The time, in nanoseconds, by which the body has to be read.
    pub fn deadline(&self) -> (result: Option<u128>)
        ensures
            result == self@.deadline,
    {
        self.deadline
    }
}

/// A request that is ready for the handler, and the time, in nanoseconds, by which the handler
/// has to return.
#[derive(Debug)]
pub struct Invocation {
    pub request: FunctionRequest,
    pub deadline: Option<u128>,
}

/// What an invocation says.
#[verifier::ext_equal]
pub struct InvocationView {
    pub request: request::RequestView,
    pub deadline: Option<u128>,
}

impl View for Invocation {
    type V = InvocationView;

    open spec fn view(&self) -> InvocationView {
        InvocationView { request: self.request@, deadline: self.deadline }
    }
}

/// What to do with a request that has just arrived.
#[derive(Debug)]
pub enum Intake {
    /// Answer at once, without reading the body.
    Respond(WireResponse),
    /// Read the body.
    ReadBody(PendingRequest),
}

/// What an intake decision says.
#[verifier::ext_equal]
pub enum IntakeView {
    Respond(wire::WireView),
    ReadBody(PendingView),
}

impl View for Intake {
    type V = IntakeView;

    open spec fn view(&self) -> IntakeView {
        match *self {
            Intake::Respond(response) => IntakeView::Respond(response@),
            Intake::ReadBody(pending) => IntakeView::ReadBody(pending@),
        }
    }
}

/// What to do with a request after reading its body.
#[derive(Debug)]
pub enum Reception {
    /// Answer without running the handler.
    Respond(WireResponse),
    /// Run the handler.
    Invoke(Invocation),
}

/// What a reception decision says.
#[verifier::ext_equal]
pub enum ReceptionView {
    Respond(wire::WireView),
    Invoke(InvocationView),
}

impl View for Reception {
    type V = ReceptionView;

    open spec fn view(&self) -> ReceptionView {
        match *self {
            Reception::Respond(response) => ReceptionView::Respond(response@),
            Reception::Invoke(invocation) => ReceptionView::Invoke(invocation@),
        }
    }
}

/// The time by which a request that arrived at `now` has to be done, in nanoseconds. A timeout
/// of zero seconds sets none.
pub open spec fn deadline(timeout_seconds: u64, now: u64) -> Option<u128> {
    if timeout_seconds == 0 {
        None
    } else {
        Some((now + timeout_seconds * 1_000_000_000) as u128)
    }
}

/// A path without the base path. What is left of the base path itself is the root.
pub open spec fn stripped(path: Seq<char>, base_path: Option<Seq<char>>) -> Seq<char> {
    match base_path {
        Some(base_path) => match text::after_prefix(path, base_path) {
            Some(rest) => if rest.len() == 0 {
                "/"@
            } else {
                rest
            },
            None => path,
        },
        None => path,
    }
}

/// The invocation for a request: the request itself, but for its path.
pub open spec fn invocation(
    config: RuntimeConfigView,
    request: request::RequestView,
    deadline: Option<u128>,
) -> InvocationView {
    InvocationView {
        request: request::RequestView {
            path: stripped(request.path, config.function.base_path),
            ..request
        },
        deadline,
    }
}

/// The number of bytes at which reading a body stops: one more than a body may have, so that a
/// body at the limit is told from one beyond it. No body can be beyond the largest limit there
/// is.
pub open spec fn read_limit(max: usize) -> nat {
    if max < usize::MAX {
        (max + 1) as nat
    } else {
        max as nat
    }
}

/// The decision on a request that arrived at `now`.
pub open spec fn intake(config: RuntimeConfigView, head: wire::HeadView, now: u64) -> IntakeView {
    let max = config.function.max_request_size as nat;
    match wire::declared_length(head.headers) {
        Some(length) if length > max => IntakeView::Respond(wire::oversize(length, max)),
        _ => IntakeView::ReadBody(
            PendingView {
                head,
                limit: read_limit(config.function.max_request_size),
                deadline: deadline(config.function.timeout_seconds, now),
            },
        ),
    }
}

/// The decision on a request whose body was read, or was not.
pub open spec fn reception(
    config: RuntimeConfigView,
    pending: PendingView,
    outcome: BodyOutcomeView,
    variables: Map<Seq<char>, Seq<char>>,
) -> ReceptionView {
    let max = config.function.max_request_size as nat;
    match outcome {
        BodyOutcomeView::TimedOut => ReceptionView::Respond(
            wire::request_timeout(config.function.timeout_seconds as nat),
        ),
        BodyOutcomeView::LimitExceeded => ReceptionView::Respond(
            wire::oversize(read_limit(config.function.max_request_size), max),
        ),
        BodyOutcomeView::Failed => ReceptionView::Respond(wire::unreadable_body()),
        BodyOutcomeView::Collected(body) => if body.len() > max {
            ReceptionView::Respond(wire::oversize(body.len(), max))
        } else {
            ReceptionView::Invoke(
                invocation(
                    config,
                    wire::request_of(pending.head, body, variables),
                    pending.deadline,
                ),
            )
        },
    }
}

/// What a handler returned, or an error when it did not return in time.
pub open spec fn conclusion(outcome: HandlerOutcome) -> response::ResponseView {
    match outcome {
        HandlerOutcome::Returned(response) => response@,
        HandlerOutcome::TimedOut => response::error_response(504, "Gateway Timeout"@),
    }
}

/// Reading the body and running the handler share one budget: the handler has to return by the
/// deadline that was set when the request arrived, however long reading the body took.
pub proof fn law_one_budget(
    config: RuntimeConfigView,
    head: wire::HeadView,
    now: u64,
    outcome: BodyOutcomeView,
    variables: Map<Seq<char>, Seq<char>>,
)
    requires
        intake(config, head, now) is ReadBody,
        reception(config, intake(config, head, now)->ReadBody_0, outcome, variables) is Invoke,
    ensures
        ({
            let pending = intake(config, head, now)->ReadBody_0;
            let invoked = reception(config, pending, outcome, variables)->Invoke_0;
            let seconds = config.function.timeout_seconds;
            &&& invoked.deadline == pending.deadline
            &&& invoked.deadline is None <==> seconds == 0
            &&& seconds > 0 ==> invoked.deadline->0 == now + seconds * 1_000_000_000
        }),
{
}

/// A body that is read to its end reaches the handler when neither it nor the length declared
/// for it exceeds the limit; otherwise the request is answered with 413.
pub proof fn law_size_limit(
    config: RuntimeConfigView,
    head: wire::HeadView,
    now: u64,
    body: Seq<u8>,
    variables: Map<Seq<char>, Seq<char>>,
)
    ensures
        ({
            let max = config.function.max_request_size as nat;
            let declared = wire::declared_length(head.headers);
            let collected = BodyOutcomeView::Collected(body);
            match intake(config, head, now) {
                IntakeView::Respond(response) => declared is Some && declared->0 > max
                    && response.status == 413,
                IntakeView::ReadBody(pending) => {
                    &&& declared is Some ==> declared->0 <= max
                    &&& match reception(config, pending, collected, variables) {
                        ReceptionView::Respond(response) => body.len() > max && response.status
                            == 413,
                        ReceptionView::Invoke(invoked) => body.len() <= max
                            && invoked.request.body == body,
                    }
                },
            }
        }),
{
}

/// A body that could not be read to its end never reaches the handler.
pub proof fn law_no_partial_body(
    config: RuntimeConfigView,
    pending: PendingView,
    outcome: BodyOutcomeView,
    variables: Map<Seq<char>, Seq<char>>,
)
    requires
        !(outcome is Collected),
    ensures
        match reception(config, pending, outcome, variables) {
            ReceptionView::Respond(response) => response.status == (match outcome {
                BodyOutcomeView::TimedOut => 408u16,
                BodyOutcomeView::LimitExceeded => 413u16,
                _ => 400u16,
            }),
            ReceptionView::Invoke(_) => false,
        },
{
}

/// A handler that does not return in time is answered for with 504, and the client gets that
/// answer.
pub proof fn law_late_handler()
    ensures
        wire::sent(conclusion(HandlerOutcome::TimedOut), true) == wire::refusal(
            504,
            "Gateway Timeout"@,
        ),
        wire::earlier_names(conclusion(HandlerOutcome::TimedOut).headers) == 0,
{
    wire::law_errors_are_sent(504, "Gateway Timeout"@);
}

/// The handler sees the whole request, but for the base path.
pub proof fn law_whole_request(
    config: RuntimeConfigView,
    request: request::RequestView,
    deadline: Option<u128>,
)
    ensures
        ({
            let seen = invocation(config, request, deadline).request;
            &&& seen == request::RequestView { path: seen.path, ..request }
            &&& config.function.base_path is None ==> seen == request
        }),
{
}

/// Stripping undoes prefixing: what follows the base path is what the handler sees, and the
/// base path itself becomes the root.
pub proof fn law_base_path(base_path: Seq<char>, rest: Seq<char>)
    ensures
        rest.len() > 0 ==> stripped(base_path + rest, Some(base_path)) == rest,
        stripped(base_path, Some(base_path)) == "/"@,
{
    assert((base_path + rest).skip(base_path.len() as int) =~= rest);
    assert(base_path.is_prefix_of(base_path + rest));
    assert(base_path.skip(base_path.len() as int).len() == 0);
}

/// A path outside the base path is left as it is, and no path becomes empty.
pub proof fn law_other_path(path: Seq<char>, base_path: Option<Seq<char>>)
    ensures
        base_path is Some && !base_path->0.is_prefix_of(path) ==> stripped(path, base_path) == path,
        path.len() > 0 ==> stripped(path, base_path).len() > 0,
{
    reveal_strlit("/");
}

/// Turn the configured request timeout into a single absolute deadline, in nanoseconds.
///
/// Returns `None` when the timeout is disabled (`timeout_seconds == 0`). Every stage of an
/// invocation measures against the one deadline this produces, so the total time a request can
/// occupy is the configured value, not a multiple of it.
pub fn deadline_from_config(config: &RuntimeConfig, now: u64) -> (result: Option<u128>)
    ensures
        result == deadline(config@.function.timeout_seconds, now),
{
    let seconds: u64 = config.function.timeout_seconds;
    if seconds == 0 {
        None
    } else {
        Some(now as u128 + seconds as u128 * 1_000_000_000)
    }
}

/// Azure Functions runtime.
///
/// This wraps an application and decides how it runs on Azure Functions.
pub struct AzureFunctionsRuntime<App> {
    app: Arc<App>,
    config: RuntimeConfig,
}

impl<App> AzureFunctionsRuntime<App> where App: Send + Sync + 'static {
    /// The application that the runtime wraps.
    pub closed spec fn application(&self) -> Arc<App> {
        self.app
    }

    /// The configuration of the runtime.
    pub closed spec fn configuration(&self) -> RuntimeConfigView {
        self.config@
    }

    /// Create a new Azure Functions runtime, configured by environment variables.
    pub fn new(app: App, variables: &TextMap) -> (result: Self)
        ensures
            *result.application() == app,
            result.configuration() == configured(variables@),
    {
        AzureFunctionsRuntime { app: Arc::new(app), config: RuntimeConfig::from_env(variables) }
    }

    /// Set the runtime configuration.
    pub fn with_config(self, config: RuntimeConfig) -> (result: Self)
        ensures
            result.application() == self.application(),
            result.configuration() == config@,
    {
        AzureFunctionsRuntime { app: self.app, config }
    }

    /// The application.
    pub fn app(&self) -> (result: &Arc<App>)
        ensures
            *result == self.application(),
    {
        &self.app
    }

    /// The runtime configuration.
    pub fn config(&self) -> (result: &RuntimeConfig)
        ensures
            result@ == self.configuration(),
    {
        &self.config
    }

    /// Handle a function request, starting the configured timeout now.
    pub fn handle(&self, request: FunctionRequest, now: u64) -> (result: Invocation)
        ensures
            result@ == invocation(
                self.configuration(),
                request@,
                deadline(self.configuration().function.timeout_seconds, now),
            ),
    {
        self.handle_with_deadline(request, deadline_from_config(&self.config, now))
    }

    /// Handle a function request against an already-established deadline.
    ///
    /// The HTTP entry point spends part of the request budget reading the body, so it
    /// establishes one deadline up front and passes it here. Restarting the timeout at this
    /// point would hand the invocation a second full budget and let a request outlive twice the
    /// configured `timeout_seconds`.
    ///
    /// `None` means no deadline (a configured timeout of 0).
    pub fn handle_with_deadline(
        &self,
        request: FunctionRequest,
        deadline: Option<u128>,
    ) -> (result: Invocation)
        ensures
            result@ == invocation(self.configuration(), request@, deadline),
    {
        let mut request = request;
        if let Some(base_path) = &self.config.function.base_path {
            let rest = match text::strip_prefix(request.path.as_str(), base_path.as_str()) {
                Some(rest) => Some(rest.to_owned()),
                None => None,
            };
            match rest {
                Some(rest) => {
                    request.path = if rest.as_str().is_empty() {
                        "/".to_owned()
                    } else {
                        rest
                    };
                },
                None => {},
            }
        }
        Invocation { request, deadline }
    }

    /// Take up what came of running the handler.
    pub fn conclude(&self, outcome: HandlerOutcome) -> (result: FunctionResponse)
        ensures
            result@ == conclusion(outcome),
    {
        match outcome {
            HandlerOutcome::Returned(response) => response,
            HandlerOutcome::TimedOut => FunctionResponse::error(504, "Gateway Timeout"),
        }
    }

    /// Handle an HTTP request that arrived at `now`, a time in nanoseconds.
    ///
    /// A request that declares a body beyond the limit is refused before anything of the body
    /// is read. The deadline is established once, here, and kept for the handler: reading the
    /// body and handling the request share a single budget rather than getting one each.
    pub fn handle_http_request(&self, head: RequestHead, now: u64) -> (result: Intake)
        ensures
            result@ == intake(self.configuration(), head@, now),
    {
        let max: usize = self.config.function.max_request_size;
        match head.content_length() {
            Some(length) => {
                if length > max {
                    return Intake::Respond(wire::oversize_response(length, max));
                }
            },
            None => {},
        }
        Intake::ReadBody(
            PendingRequest {
                head,
                limit: max.saturating_add(1),
                deadline: deadline_from_config(&self.config, now),
            },
        )
    }

    /// Take up what came of reading the body.
    ///
    /// A body of one byte beyond the limit is read to its end, and is refused here: a body at
    /// the limit is accepted whether or not its length was declared.
    pub fn receive_body(
        &self,
        pending: PendingRequest,
        outcome: BodyOutcome,
        variables: &TextMap,
    ) -> (result: Reception)
        ensures
            result@ == reception(self.configuration(), pending@, outcome@, variables@),
    {
        let max: usize = self.config.function.max_request_size;
        match outcome {
            BodyOutcome::TimedOut => Reception::Respond(
                wire::request_timeout_response(self.config.function.timeout_seconds),
            ),
            BodyOutcome::LimitExceeded => Reception::Respond(
                wire::oversize_response(max.saturating_add(1), max),
            ),
            BodyOutcome::Failed => Reception::Respond(wire::bad_request_response()),
            BodyOutcome::Collected(body) => {
                let length: usize = payload::bytes_in(&body).len();
                if length > max {
                    return Reception::Respond(wire::oversize_response(length, max));
                }
                let request = pending.head.into_request(body, variables);
                Reception::Invoke(self.handle_with_deadline(request, pending.deadline))
            },
        }
    }
}

} // verus!
