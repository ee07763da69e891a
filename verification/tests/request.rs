use armature_azure_functions::body_serde;
use armature_azure_functions::payload::Base64Error;
use armature_azure_functions::FunctionRequest;
use bytes::Bytes;

/// A JSON text with the method, the path and the body of a request.
fn to_json(request: &FunctionRequest) -> String {
    let mut members = serde_json::Map::new();
    for (name, value) in [
        ("method", request.method.clone()),
        ("path", request.path.clone()),
        ("body", body_serde::serialize(&request.body)),
    ] {
        members.insert(name.to_string(), serde_json::Value::String(value));
    }
    serde_json::Value::Object(members).to_string()
}

fn from_json(json: &str) -> FunctionRequest {
    let value: serde_json::Value = serde_json::from_str(json).unwrap();
    let member = |name: &str| value[name].as_str().unwrap();
    let mut request = FunctionRequest::new(member("method"), member("path"));
    request.body = body_serde::deserialize(member("body")).unwrap();
    request
}

#[test]
fn body_base64_round_trips_through_serde() {
    let mut req = FunctionRequest::new("POST", "/upload");
    // Includes non-UTF-8 bytes to ensure base64 (not raw text) is used.
    req.body = Bytes::from(vec![0u8, 1, 2, 250, 255]);

    let json = to_json(&req);
    let back = from_json(&json);

    assert_eq!(back.body, req.body);
    assert_eq!(back.method, "POST");
    assert_eq!(back.path, "/upload");
}

#[test]
fn empty_body_deserializes_to_empty_bytes() {
    let req = FunctionRequest::new("GET", "/");
    let json = to_json(&req);
    let back = from_json(&json);
    assert!(back.body.is_empty());
}

#[test]
fn body_text_is_standard_base64() {
    assert_eq!(
        body_serde::serialize(&Bytes::from_static(&[0, 1, 2, 250, 255])),
        "AAEC+v8="
    );
    assert_eq!(body_serde::serialize(&Bytes::new()), "");
    assert_eq!(&body_serde::deserialize("aGk=").unwrap()[..], b"hi");
}

#[test]
fn body_text_that_is_not_base64_is_refused() {
    assert_eq!(
        body_serde::deserialize("a*==").unwrap_err(),
        Base64Error::InvalidByte(1, b'*')
    );
    assert_eq!(
        body_serde::deserialize("aGk").unwrap_err(),
        Base64Error::InvalidPadding
    );
    assert_eq!(
        body_serde::deserialize("aGl=").unwrap_err(),
        Base64Error::InvalidLastSymbol(2, b'l')
    );
    assert_eq!(
        body_serde::deserialize("aGVsb").unwrap_err(),
        Base64Error::InvalidLength(5)
    );
}

#[test]
fn header_lookup_is_case_insensitive() {
    let mut req = FunctionRequest::new("GET", "/");
    req.headers
        .push(("Content-Type".to_string(), "application/json".to_string()));
    assert!(req.is_json());
    assert_eq!(req.content_type(), Some("application/json"));
}

#[test]
fn repeated_headers_and_query_keys_are_all_reachable() {
    let mut req = FunctionRequest::new("GET", "/");
    req.headers.push(("cookie".to_string(), "a=1".to_string()));
    req.headers.push(("cookie".to_string(), "b=2".to_string()));
    req.query.push(("tag".to_string(), "a".to_string()));
    req.query.push(("tag".to_string(), "b".to_string()));

    assert_eq!(req.header("Cookie"), Some("a=1"));
    assert_eq!(req.header_values("cookie"), ["a=1", "b=2"]);
    assert_eq!(req.query_param("tag"), Some("a"));
    assert_eq!(req.query_params("tag"), ["a", "b"]);
}

#[test]
fn query_keys_are_case_sensitive() {
    let mut req = FunctionRequest::new("GET", "/");
    req.query.push(("Tag".to_string(), "a".to_string()));
    assert_eq!(req.query_param("tag"), None);
    assert!(req.query_params("tag").is_empty());
}

#[test]
fn new_request_has_nothing_but_method_and_path() {
    let req = FunctionRequest::new(String::from("PUT"), "/x");
    assert_eq!(req.method, "PUT");
    assert_eq!(req.url, "/x");
    assert_eq!(req.path, "/x");
    assert!(req.query.is_empty());
    assert!(req.headers.is_empty());
    assert!(req.body.is_empty());
    assert_eq!(req.route_param("id"), None);
    assert!(req.context.invocation_id.is_none());
    assert!(req.context.trace_context.is_none());

    let default = FunctionRequest::default();
    assert_eq!(default.method, "GET");
    assert_eq!(default.path, "/");
}

#[test]
fn route_params_are_found_by_name() {
    let mut req = FunctionRequest::new("GET", "/");
    assert_eq!(req.params.insert("id", "41"), None);
    assert_eq!(req.params.insert("id", "42"), Some("41".to_string()));
    req.params.insert("lang", "en");
    assert_eq!(req.route_param("id"), Some("42"));
    assert_eq!(req.route_param("lang"), Some("en"));
    assert_eq!(req.route_param("ID"), None);
    assert_eq!(req.params.entries().len(), 2);
}

#[test]
fn clone_keeps_everything() {
    let mut req = FunctionRequest::new("POST", "/a");
    req.headers.push(("x".to_string(), "1".to_string()));
    req.query.push(("k".to_string(), "v".to_string()));
    req.params.insert("id", "7");
    req.body = Bytes::from_static(b"body");
    req.context.invocation_id = Some("inv".to_string());
    let copy = req.clone();
    assert_eq!(copy.method, "POST");
    assert_eq!(copy.headers, req.headers);
    assert_eq!(copy.query, req.query);
    assert_eq!(copy.route_param("id"), Some("7"));
    assert_eq!(copy.body, req.body);
    assert_eq!(copy.context.invocation_id.as_deref(), Some("inv"));
}

#[test]
fn only_json_content_types_count_as_json() {
    let mut req = FunctionRequest::new("GET", "/");
    assert!(!req.is_json());
    req.headers.push((
        "content-type".to_string(),
        "application/json; charset=utf-8".to_string(),
    ));
    assert!(req.is_json());
    req.headers[0].1 = "text/plain".to_string();
    assert!(!req.is_json());
    req.headers[0].1 = "application/jso".to_string();
    assert!(!req.is_json());
    req.headers[0].1 = "Application/JSON".to_string();
    assert!(!req.is_json());
}

#[test]
fn method_that_is_not_a_token_counts_as_get() {
    assert_eq!(FunctionRequest::new("DELETE", "/").http_method(), "DELETE");
    assert_eq!(FunctionRequest::new("get", "/").http_method(), "get");
    assert_eq!(FunctionRequest::new("X-SPECIAL", "/").http_method(), "X-SPECIAL");
    assert_eq!(FunctionRequest::new("", "/").http_method(), "GET");
    assert_eq!(FunctionRequest::new("BAD METHOD", "/").http_method(), "GET");
    assert_eq!(FunctionRequest::new("PÖST", "/").http_method(), "GET");
}

#[test]
fn client_ip_prefers_the_forwarded_header() {
    let mut req = FunctionRequest::new("GET", "/");
    assert_eq!(req.client_ip(), None);
    req.headers
        .push(("X-Client-IP".to_string(), "10.0.0.1".to_string()));
    assert_eq!(req.client_ip(), Some("10.0.0.1"));
    req.headers
        .push(("X-Forwarded-For".to_string(), "10.0.0.2".to_string()));
    assert_eq!(req.client_ip(), Some("10.0.0.2"));
}

#[test]
fn bearer_token_follows_the_scheme() {
    let mut req = FunctionRequest::new("GET", "/");
    assert_eq!(req.bearer_token(), None);
    req.headers
        .push(("Authorization".to_string(), "Bearer tokén".to_string()));
    assert_eq!(req.authorization(), Some("Bearer tokén"));
    assert_eq!(req.bearer_token(), Some("tokén"));
    req.headers[0].1 = "bearer token".to_string();
    assert_eq!(req.bearer_token(), None);
    req.headers[0].1 = "Bearer ".to_string();
    assert_eq!(req.bearer_token(), Some(""));
    req.headers[0].1 = "Basic abc".to_string();
    assert_eq!(req.bearer_token(), None);
}
