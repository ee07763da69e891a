use armature_azure_functions::protocol::{MOST_NAMES, ROOM_FOR_NAMES};
use armature_azure_functions::runtime::{
    BodyOutcome, HandlerOutcome, Intake, Reception,
};
use armature_azure_functions::{
    ApplicationReply, AzureFunctionsRuntime, FunctionRequest, FunctionResponse, RequestHead,
    RuntimeConfig, TextMap, WireResponse,
};
use bytes::Bytes;

/// What a handler does with a request, and the nanoseconds that it takes.
type Handler = fn(FunctionRequest) -> (FunctionResponse, u128);

fn runtime_with(config: RuntimeConfig) -> AzureFunctionsRuntime<()> {
    AzureFunctionsRuntime::new((), &TextMap::new()).with_config(config)
}

fn default_config() -> RuntimeConfig {
    RuntimeConfig::from_env(&TextMap::new())
}

fn head(method: &str, target: &str, headers: &[(&str, &str)]) -> RequestHead {
    let (path, query) = match target.split_once('?') {
        Some((path, query)) => (path, Some(query.to_string())),
        None => (target, None),
    };
    RequestHead {
        method: method.to_string(),
        url: target.to_string(),
        path: path.to_string(),
        query,
        headers: headers
            .iter()
            .map(|(name, value)| (name.to_string(), value.as_bytes().to_vec()))
            .collect(),
    }
}

/// Runs a handler the way an event loop would: it is cut off at the deadline.
fn run_handler(
    runtime: &AzureFunctionsRuntime<()>,
    request: FunctionRequest,
    deadline: Option<u128>,
    now: u128,
    handler: Handler,
) -> (FunctionResponse, u128) {
    let (response, taken) = handler(request);
    match deadline {
        Some(deadline) if now + taken >= deadline => {
            (runtime.conclude(HandlerOutcome::TimedOut), deadline)
        }
        _ => (
            runtime.conclude(HandlerOutcome::Returned(response)),
            now + taken,
        ),
    }
}

/// Handles a request that arrives at time zero.
fn handle(runtime: &AzureFunctionsRuntime<()>, request: FunctionRequest, handler: Handler) -> FunctionResponse {
    let invocation = runtime.handle(request, 0);
    run_handler(runtime, invocation.request, invocation.deadline, 0, handler).0
}

/// Serves an HTTP request that arrives at time zero, whose body takes the given time to read.
fn serve(
    config: RuntimeConfig,
    head: RequestHead,
    body: Vec<u8>,
    upload: u128,
    handler: Handler,
) -> (WireResponse, u128) {
    let runtime = runtime_with(config);
    let pending = match runtime.handle_http_request(head, 0) {
        Intake::Respond(response) => return (response, 0),
        Intake::ReadBody(pending) => pending,
    };
    let (outcome, now) = match pending.deadline() {
        Some(deadline) if upload >= deadline => (BodyOutcome::TimedOut, deadline),
        _ if body.len() > pending.limit() => (BodyOutcome::LimitExceeded, upload),
        _ => (BodyOutcome::Collected(Bytes::from(body)), upload),
    };
    match runtime.receive_body(pending, outcome, &TextMap::new()) {
        Reception::Respond(response) => (response, now),
        Reception::Invoke(invocation) => {
            let (response, end) =
                run_handler(&runtime, invocation.request, invocation.deadline, now, handler);
            (WireResponse::from_response(response), end)
        }
    }
}

fn echo_path(request: FunctionRequest) -> (FunctionResponse, u128) {
    (FunctionResponse::with_body(200, request.path), 0)
}

fn count_bytes(request: FunctionRequest) -> (FunctionResponse, u128) {
    let text = format!("{} bytes", request.body.len());
    (FunctionResponse::with_body(200, text), 0)
}

fn plain_ok(_request: FunctionRequest) -> (FunctionResponse, u128) {
    (FunctionResponse::ok(), 0)
}

fn sleeps_a_minute(_request: FunctionRequest) -> (FunctionResponse, u128) {
    (FunctionResponse::ok(), 60_000_000_000)
}

fn with_base_path() -> AzureFunctionsRuntime<()> {
    let mut config = default_config();
    config.function.base_path = Some("/api".to_string());
    runtime_with(config)
}

fn with_max(max: usize) -> RuntimeConfig {
    let mut config = default_config();
    config.function.max_request_size = max;
    config
}

#[test]
fn base_path_prefix_is_stripped() {
    let resp = handle(
        &with_base_path(),
        FunctionRequest::new("GET", "/api/hello"),
        echo_path,
    );
    assert_eq!(resp.body, "/hello");
}

#[test]
fn base_path_exact_match_becomes_root() {
    let resp = handle(&with_base_path(), FunctionRequest::new("GET", "/api"), echo_path);
    assert_eq!(resp.body, "/");
}

#[test]
fn base_path_non_matching_path_unchanged() {
    let resp = handle(
        &with_base_path(),
        FunctionRequest::new("GET", "/other/x"),
        echo_path,
    );
    assert_eq!(resp.body, "/other/x");
}

#[test]
fn slow_handler_times_out_with_504() {
    let mut config = default_config();
    config.function.timeout_seconds = 1;
    let resp = handle(
        &runtime_with(config),
        FunctionRequest::new("GET", "/"),
        sleeps_a_minute,
    );
    assert_eq!(resp.status_code, 504);
    assert_eq!(resp.body, "{\"error\":\"Gateway Timeout\"}");
}

#[test]
fn fast_handler_does_not_time_out() {
    let mut config = default_config();
    config.function.timeout_seconds = 30;
    let resp = handle(
        &runtime_with(config),
        FunctionRequest::new("GET", "/"),
        |_| (FunctionResponse::with_body(201, "ok"), 0),
    );
    assert_eq!(resp.status_code, 201);
}

#[test]
fn timeout_of_zero_sets_no_deadline() {
    let mut config = default_config();
    config.function.timeout_seconds = 0;
    let runtime = runtime_with(config);
    let invocation = runtime.handle(FunctionRequest::new("GET", "/"), 5);
    assert_eq!(invocation.deadline, None);
    let resp = handle(&runtime, FunctionRequest::new("GET", "/"), sleeps_a_minute);
    assert_eq!(resp.status_code, 200);
}

#[test]
fn deadline_is_measured_from_arrival() {
    let mut config = default_config();
    config.function.timeout_seconds = u64::MAX;
    let runtime = runtime_with(config);
    let invocation = runtime.handle(FunctionRequest::new("GET", "/"), u64::MAX);
    assert_eq!(
        invocation.deadline,
        Some(u64::MAX as u128 + u64::MAX as u128 * 1_000_000_000)
    );
    let invocation = runtime.handle_with_deadline(FunctionRequest::new("GET", "/"), Some(7));
    assert_eq!(invocation.deadline, Some(7));
}

#[test]
fn oversize_body_returns_413_via_collected_length() {
    // No Content-Length header, so this exercises the check on the body itself.
    let (resp, _) = serve(with_max(10), head("POST", "/", &[]), vec![0u8; 100], 0, plain_ok);
    assert_eq!(resp.status, 413);
}

#[test]
fn oversize_content_length_header_returns_413_early() {
    let (resp, _) = serve(
        with_max(10),
        head("POST", "/", &[("content-length", "1000000")]),
        b"tiny".to_vec(),
        0,
        plain_ok,
    );
    assert_eq!(resp.status, 413);
    assert_eq!(
        resp.headers,
        vec![("content-type".to_string(), "application/json".to_string())]
    );
    assert_eq!(
        &resp.body[..],
        &b"{\"error\":\"Request body of 1000000 bytes exceeds the maximum of 10 bytes\"}"[..]
    );
}

#[test]
fn within_limit_body_is_accepted() {
    let (resp, _) = serve(with_max(1024), head("POST", "/", &[]), b"hello".to_vec(), 0, count_bytes);
    assert_eq!(resp.status, 200);
    assert_eq!(&resp.body[..], b"5 bytes");
}

#[test]
fn body_at_exact_limit_is_accepted() {
    // A body of exactly `max_request_size` bytes must NOT be rejected.
    let (resp, _) = serve(with_max(10), head("POST", "/", &[]), vec![0u8; 10], 0, count_bytes);
    assert_ne!(resp.status, 413);
    assert_eq!(resp.status, 200);
    assert_eq!(&resp.body[..], b"10 bytes");
}

#[test]
fn body_one_over_limit_returns_413() {
    // A body of exactly `max_request_size + 1` bytes is read to its end but must be rejected.
    let (resp, _) = serve(with_max(10), head("POST", "/", &[]), vec![0u8; 11], 0, plain_ok);
    assert_eq!(resp.status, 413);
    assert_eq!(
        &resp.body[..],
        &b"{\"error\":\"Request body of 11 bytes exceeds the maximum of 10 bytes\"}"[..]
    );
}

#[test]
fn largest_limit_accepts_every_body() {
    let runtime = runtime_with(with_max(usize::MAX));
    let pending = match runtime.handle_http_request(head("POST", "/", &[]), 0) {
        Intake::ReadBody(pending) => pending,
        Intake::Respond(_) => panic!("refused"),
    };
    assert_eq!(pending.limit(), usize::MAX);
    let (response, _) = serve(
        with_max(usize::MAX),
        head("POST", "/", &[]),
        b"x".to_vec(),
        0,
        count_bytes,
    );
    assert_eq!(response.status, 200);
    assert_eq!(&response.body[..], b"1 bytes");
}

#[test]
fn content_length_at_exact_limit_is_accepted() {
    // A declared length equal to the cap must pass the early check and be handled (not 413).
    let (resp, _) = serve(
        with_max(10),
        head("POST", "/", &[("content-length", "10")]),
        vec![0u8; 10],
        0,
        count_bytes,
    );
    assert_ne!(resp.status, 413);
    assert_eq!(resp.status, 200);
}

#[test]
fn content_length_one_over_limit_returns_413() {
    // A declared length one byte over the cap must be rejected early.
    let (resp, _) = serve(
        with_max(10),
        head("POST", "/", &[("content-length", "11")]),
        b"tiny".to_vec(),
        0,
        plain_ok,
    );
    assert_eq!(resp.status, 413);
}

#[test]
fn content_length_that_is_no_number_is_ignored() {
    for value in ["", "ten", "-5", "99999999999999999999999", "1 1"] {
        let head = head("POST", "/", &[("content-length", value), ("content-length", "11")]);
        assert_eq!(head.content_length(), None);
        let (resp, _) = serve(with_max(10), head, vec![0u8; 3], 0, count_bytes);
        assert_eq!(resp.status, 200);
    }
    let mut unreadable = head("POST", "/", &[]);
    unreadable
        .headers
        .push(("content-length".to_string(), vec![0xff]));
    assert_eq!(unreadable.content_length(), None);
    assert_eq!(
        head("POST", "/", &[("x", "1"), ("Content-Length", "12")]).content_length(),
        Some(12)
    );
}

#[test]
fn body_of_exactly_the_read_limit_is_reported_with_its_length() {
    let runtime = runtime_with(with_max(3));
    let pending = match runtime.handle_http_request(head("POST", "/", &[]), 0) {
        Intake::ReadBody(pending) => pending,
        Intake::Respond(_) => panic!("no length was declared"),
    };
    assert_eq!(pending.limit(), 4);
    assert_eq!(pending.deadline(), Some(230_000_000_000));
    match runtime.receive_body(pending, BodyOutcome::LimitExceeded, &TextMap::new()) {
        Reception::Respond(response) => assert_eq!(
            &response.body[..],
            &b"{\"error\":\"Request body of 4 bytes exceeds the maximum of 3 bytes\"}"[..]
        ),
        Reception::Invoke(_) => panic!("the body is too long"),
    }
}

#[test]
fn broken_upload_returns_400() {
    let runtime = runtime_with(default_config());
    let pending = match runtime.handle_http_request(head("POST", "/", &[]), 0) {
        Intake::ReadBody(pending) => pending,
        Intake::Respond(_) => panic!("no length was declared"),
    };
    match runtime.receive_body(pending, BodyOutcome::Failed, &TextMap::new()) {
        Reception::Respond(response) => {
            assert_eq!(response.status, 400);
            assert_eq!(
                &response.body[..],
                &b"{\"error\":\"Request body could not be read\"}"[..]
            );
        }
        Reception::Invoke(_) => panic!("there is no body"),
    }
}

#[test]
fn slow_upload_returns_408() {
    let mut config = default_config();
    config.function.timeout_seconds = 2;
    let (resp, end) = serve(config, head("POST", "/", &[]), b"x".to_vec(), 5_000_000_000, plain_ok);
    assert_eq!(resp.status, 408);
    assert_eq!(end, 2_000_000_000);
    assert_eq!(
        &resp.body[..],
        &b"{\"error\":\"Request body was not fully received within 2 seconds\"}"[..]
    );
}

#[test]
fn headers_and_query_reach_the_handler() {
    let (resp, _) = serve(
        default_config(),
        head(
            "GET",
            "/x?q=hello%20world&tag=a&tag=b&flag",
            &[
                ("authorization", "Bearer token"),
                ("cookie", "a=1"),
                ("cookie", "b=2"),
            ],
        ),
        Vec::new(),
        0,
        |req| {
            let tags = req.query_params("tag").join(",");
            let cookies = req.header_values("cookie").join(",");
            let text = format!(
                "{}|{}|{}|{}|{}",
                req.authorization().unwrap_or("-"),
                req.query_param("q").unwrap_or("-"),
                tags,
                cookies,
                // A bare key keeps its key with an empty value.
                req.query_param("flag").map_or("absent", |_| "present"),
            );
            (FunctionResponse::with_body(200, text), 0)
        },
    );
    assert_eq!(resp.status, 200);
    assert_eq!(
        &resp.body[..],
        b"Bearer token|hello world|a,b|a=1,b=2|present"
    );
}

#[test]
fn request_head_becomes_the_request() {
    let mut arrived = head("PATCH", "/p?a=1", &[("x-one", "1\t2")]);
    arrived.headers.push(("x-bytes".to_string(), vec![b'a', 0x80]));
    arrived.headers.push(("x-two".to_string(), b"~ !".to_vec()));
    let mut variables = TextMap::new();
    variables.insert("AZURE_FUNCTIONS_INVOCATION_ID", "inv-9");
    let request = arrived.into_request(Bytes::from_static(b"data"), &variables);
    assert_eq!(request.method, "PATCH");
    assert_eq!(request.url, "/p?a=1");
    assert_eq!(request.path, "/p");
    assert_eq!(request.query, vec![("a".to_string(), "1".to_string())]);
    assert_eq!(
        request.headers,
        vec![
            ("x-one".to_string(), "1\t2".to_string()),
            ("x-two".to_string(), "~ !".to_string()),
        ]
    );
    assert_eq!(&request.body[..], b"data");
    assert_eq!(request.context.invocation_id.as_deref(), Some("inv-9"));
    assert_eq!(request.context.function_name, None);
}

#[test]
fn utf8_header_values_reach_the_handler() {
    let mut arrived = head("GET", "/", &[("x-plain", "a")]);
    arrived.headers.push(("x-name".to_string(), vec![0xc3, 0xa9]));
    arrived.headers.push(("x-cut".to_string(), vec![0xc3]));
    let request = arrived.into_request(Bytes::new(), &TextMap::new());
    assert_eq!(
        request.headers,
        vec![
            ("x-plain".to_string(), "a".to_string()),
            ("x-name".to_string(), "\u{e9}".to_string()),
        ]
    );
    assert_eq!(request.header("X-Name"), Some("\u{e9}"));
}

#[test]
fn duplicate_response_headers_are_all_emitted() {
    // A handler must be able to set two cookies in one response.
    let (resp, _) = serve(default_config(), head("GET", "/", &[]), Vec::new(), 0, |_| {
        (
            FunctionResponse::ok()
                .header("set-cookie", "session=abc")
                .header("set-cookie", "csrf=xyz"),
            0,
        )
    });
    let cookies: Vec<_> = resp
        .headers
        .iter()
        .filter(|(name, _)| name == "set-cookie")
        .map(|(_, value)| value.as_str())
        .collect();
    assert_eq!(cookies, vec!["session=abc", "csrf=xyz"]);
}

#[test]
fn ingestion_and_handling_share_one_timeout_budget() {
    // The handler alone sleeps past the configured budget, and body
    // ingestion has already consumed part of it, so the invocation must
    // still be cut off at the single deadline rather than being granted a
    // fresh one per stage.
    let mut config = default_config();
    config.function.timeout_seconds = 2;
    let (resp, end) = serve(
        config,
        head("POST", "/", &[]),
        b"x".to_vec(),
        1_500_000_000,
        sleeps_a_minute,
    );
    assert_eq!(resp.status, 504);
    // Comfortably under the 4s that two budgets in a row would take.
    assert!(end < 3_000_000_000);
    assert_eq!(end, 2_000_000_000);
}

#[derive(Default)]
struct Captured {
    method: Option<String>,
    path: Option<String>,
    headers: Vec<(String, String)>,
    query: Vec<(String, String)>,
    params: Option<TextMap>,
    invocation_id: Option<String>,
    body: Vec<u8>,
}

fn handle_request(
    captured: &mut Captured,
    request: FunctionRequest,
) -> Result<ApplicationReply, String> {
    captured.method = Some(request.method.clone());
    captured.path = Some(request.path.clone());
    captured.headers = request.headers.clone();
    captured.query = request.query.clone();
    captured.params = Some(request.params.clone());
    captured.invocation_id = request.context.invocation_id.clone();
    captured.body = request.body.to_vec();
    Ok(ApplicationReply {
        status: 201,
        body: "ok".to_string(),
        headers: vec![("x-app".to_string(), "yes".to_string())],
    })
}

#[test]
fn macro_forwards_full_request_to_app() {
    let mut request = FunctionRequest::new("POST", "/users/42");
    request
        .headers
        .push(("authorization".to_string(), "Bearer token".to_string()));
    request
        .headers
        .push(("x-custom".to_string(), "value".to_string()));
    request.query.push(("page".to_string(), "2".to_string()));
    request.query.push(("tag".to_string(), "a".to_string()));
    request.query.push(("tag".to_string(), "b".to_string()));
    request.params.insert("id".to_string(), "42".to_string());
    request.context.invocation_id = Some("inv-1".to_string());
    request.body = Bytes::from_static(b"payload");

    let mut captured = Captured::default();
    let invocation = runtime_with(default_config()).handle(request, 0);
    let response =
        FunctionResponse::from_application(handle_request(&mut captured, invocation.request));

    // Response mapping is preserved.
    assert_eq!(response.status_code, 201);
    assert_eq!(response.body, "ok");
    assert_eq!(response.header_value("x-app"), Some("yes"));

    // The app received every part of the request, not just method/path/body.
    assert_eq!(captured.method.as_deref(), Some("POST"));
    assert_eq!(captured.path.as_deref(), Some("/users/42"));
    assert_eq!(captured.body, b"payload".to_vec());
    assert_eq!(
        captured
            .headers
            .iter()
            .find(|(name, _)| name == "authorization")
            .map(|(_, value)| value.as_str()),
        Some("Bearer token")
    );
    assert_eq!(
        captured
            .headers
            .iter()
            .find(|(name, _)| name == "x-custom")
            .map(|(_, value)| value.as_str()),
        Some("value")
    );
    assert_eq!(
        captured
            .query
            .iter()
            .filter(|(key, _)| key == "tag")
            .map(|(_, value)| value.as_str())
            .collect::<Vec<_>>(),
        vec!["a", "b"]
    );
    assert_eq!(
        captured.query.iter().find(|(key, _)| key == "page"),
        Some(&("page".to_string(), "2".to_string()))
    );
    assert_eq!(
        captured.params.unwrap().get("id").map(String::as_str),
        Some("42")
    );
    assert_eq!(captured.invocation_id.as_deref(), Some("inv-1"));
}

#[test]
fn base64_response_body_is_decoded_to_raw_bytes() {
    // Invalid UTF-8 forces the base64-encoded response path.
    let raw: Vec<u8> = vec![0u8, 159, 146, 150];
    let (resp, _) = serve(default_config(), head("GET", "/", &[]), Vec::new(), 0, |_| {
        (FunctionResponse::ok().binary_body(&[0u8, 159, 146, 150]), 0)
    });
    assert_eq!(resp.status, 200);
    assert_eq!(&resp.body[..], &raw[..]);
}

#[test]
fn response_that_cannot_be_sent_is_replaced() {
    let unsendable = [
        FunctionResponse::new(99),
        FunctionResponse::new(1000),
        FunctionResponse::ok().header("bad name", "x"),
        FunctionResponse::ok().header("", "x"),
        FunctionResponse::ok().header("x".repeat(65536), "x"),
        FunctionResponse::ok().header("x", "line\r\nbreak"),
        FunctionResponse::ok().header("good", "x").header("x", "\u{7f}"),
    ];
    for response in unsendable {
        let sent = WireResponse::from_response(response.body("lost"));
        assert_eq!(sent.status, 500);
        assert!(sent.headers.is_empty());
        assert_eq!(&sent.body[..], b"Internal Server Error");
    }
    let sent = WireResponse::from_response(
        FunctionResponse::new(999)
            .header("X-Odd!~", "tab\tand é")
            .header("x".repeat(65535), "")
            .body("kept"),
    );
    assert_eq!(sent.status, 999);
    assert_eq!(sent.headers.len(), 2);
    assert_eq!(&sent.body[..], b"kept");
    assert_eq!(
        WireResponse::from_response(FunctionResponse::new(100)).status,
        100
    );
}

fn with_names(count: usize) -> FunctionResponse {
    let mut response = FunctionResponse::with_body(200, "sent");
    for i in 0..count {
        response = response.header(format!("x-{i}"), "v");
    }
    response
}

#[test]
fn response_with_too_many_header_names_is_replaced() {
    for response in [
        with_names(MOST_NAMES + 1),
        with_names(MOST_NAMES).header("X-0", "again"),
    ] {
        let sent = WireResponse::from_response(response);
        assert_eq!(sent.status, 500);
        assert!(sent.headers.is_empty());
        assert_eq!(&sent.body[..], b"Internal Server Error");
    }
}

#[test]
fn response_with_many_headers_is_sent_whole() {
    let sent = WireResponse::from_response(with_names(ROOM_FOR_NAMES));
    assert_eq!(sent.status, 200);
    assert_eq!(sent.headers.len(), ROOM_FOR_NAMES);
    assert_eq!(&sent.body[..], b"sent");

    let mut response = FunctionResponse::ok();
    for i in 0..MOST_NAMES + 10 {
        let name = if i % 2 == 0 { "set-cookie" } else { "Set-Cookie" };
        response = response.header(name, format!("c={i}"));
    }
    let sent = WireResponse::from_response(response);
    assert_eq!(sent.status, 200);
    assert_eq!(sent.headers.len(), MOST_NAMES + 10);
}

#[test]
fn response_is_sent_by_whether_its_headers_fit() {
    let sent = WireResponse::from_measured_response(with_names(2), true);
    assert_eq!((sent.status, sent.headers.len()), (200, 2));
    let sent = WireResponse::from_measured_response(with_names(2), false);
    assert_eq!((sent.status, sent.headers.len()), (500, 0));
    assert_eq!(&sent.body[..], b"Internal Server Error");
    let sent = WireResponse::from_measured_response(FunctionResponse::new(1), true);
    assert_eq!(sent.status, 500);
}

#[test]
fn application_and_configuration_are_kept() {
    let mut variables = TextMap::new();
    variables.insert("FUNCTION_BASE_PATH", "/fn");
    let runtime = AzureFunctionsRuntime::new(5u8, &variables);
    assert_eq!(**runtime.app(), 5);
    assert_eq!(runtime.config().function.base_path.as_deref(), Some("/fn"));
    let runtime = runtime.with_config(default_config().log_requests(false));
    assert_eq!(**runtime.app(), 5);
    assert!(!runtime.config().log_requests);
    assert_eq!(runtime.config().function.base_path, None);
}

#[test]
fn error_responses_reach_the_client() {
    for (response, status, body) in [
        (
            FunctionResponse::not_found(),
            404,
            "{\"error\":\"Not Found\"}",
        ),
        (
            FunctionResponse::error(503, "line\nbreak"),
            503,
            "{\"error\":\"line\\nbreak\"}",
        ),
        (
            runtime_with(default_config()).conclude(HandlerOutcome::TimedOut),
            504,
            "{\"error\":\"Gateway Timeout\"}",
        ),
    ] {
        let sent = WireResponse::from_response(response);
        assert_eq!(sent.status, status);
        assert_eq!(
            sent.headers,
            vec![("content-type".to_string(), "application/json".to_string())]
        );
        assert_eq!(&sent.body[..], body.as_bytes());
    }
}

#[test]
fn base_path_is_cut_off_wherever_it_is_a_prefix() {
    let seen = |path: &str| {
        with_base_path()
            .handle(FunctionRequest::new("GET", path), 0)
            .request
            .path
    };
    assert_eq!(seen("/api/"), "/");
    assert_eq!(seen("/apiary"), "ary");
    assert_eq!(seen("/ap"), "/ap");
    assert_eq!(seen("/API/x"), "/API/x");
    assert_eq!(seen(""), "");
}
