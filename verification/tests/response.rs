use armature_azure_functions::{ApplicationReply, FunctionResponse, WireResponse};
use base64::Engine;
use bytes::Bytes;

fn decode(body: &str) -> Vec<u8> {
    base64::engine::general_purpose::STANDARD
        .decode(body)
        .unwrap()
}

#[test]
fn from_str_is_plain_200() {
    let r: FunctionResponse = "hello".into();
    assert_eq!(r.status_code, 200);
    assert_eq!(r.body, "hello");
    assert!(!r.is_base64_encoded);
}

#[test]
fn from_string_is_plain_200() {
    let r: FunctionResponse = String::from("world").into();
    assert_eq!(r.status_code, 200);
    assert_eq!(r.body, "world");
    assert!(!r.is_base64_encoded);
}

#[test]
fn from_utf8_bytes_stays_plain_text() {
    let r: FunctionResponse = Bytes::from_static(b"hi").into();
    assert_eq!(r.body, "hi");
    assert!(!r.is_base64_encoded);
}

#[test]
fn from_non_utf8_bytes_is_base64_encoded() {
    let raw = vec![0u8, 159, 146, 150];
    let r: FunctionResponse = Bytes::from(raw.clone()).into();
    assert!(r.is_base64_encoded);
    assert_eq!(decode(&r.body), raw);
}

#[test]
fn binary_body_sets_flag_and_encodes() {
    let r = FunctionResponse::ok().binary_body(&[0u8, 1, 2, 3]);
    assert!(r.is_base64_encoded);
    assert_eq!(decode(&r.body), vec![0u8, 1, 2, 3]);
}

#[test]
fn text_body_replaces_a_binary_one() {
    let r = FunctionResponse::ok()
        .binary_body(&[0u8, 1, 2, 3])
        .body("hello!");
    assert_eq!(r.body, "hello!");
    assert_eq!(r.status_code, 200);
    assert!(r.headers.is_empty());
    assert!(!r.is_base64_encoded);
    assert_eq!(&WireResponse::from_response(r.clone()).body[..], b"hello!");
    assert_eq!(&r.into_payload()[..], b"hello!");
}

#[test]
fn binary_body_is_padded_base64() {
    for (raw, text) in [
        (&b""[..], ""),
        (&b"="[..], "PQ=="),
        (&[0xfau8, 0xff][..], "+v8="),
        (&[0xffu8, 0xff, 0xff][..], "////"),
        (&b"Many"[..], "TWFueQ=="),
    ] {
        assert_eq!(FunctionResponse::ok().binary_body(raw).body, text);
    }
}

#[test]
fn json_sets_content_type_header() {
    let mut data = serde_json::Map::new();
    data.insert("a".to_string(), serde_json::Value::from(1));
    let r = FunctionResponse::json(serde_json::to_string(&serde_json::Value::Object(data))).unwrap();
    assert_eq!(r.header_value("content-type"), Some("application/json"));
    assert_eq!(r.status_code, 200);
    assert_eq!(r.body, "{\"a\":1}");
}

#[test]
fn json_passes_a_serialization_error_on() {
    let r = FunctionResponse::json::<&str>(Err("no"));
    assert_eq!(r.unwrap_err(), "no");
}

#[test]
fn error_response_carries_status_and_json_body() {
    let r = FunctionResponse::error(503, "down");
    assert_eq!(r.status_code, 503);
    assert!(r.body.contains("down"));
    assert_eq!(r.header_value("content-type"), Some("application/json"));
}

#[test]
fn error_message_is_escaped() {
    let message = "a\"b\\c\n\r\t\u{8}\u{c}\u{1}\u{1f}é/\u{7f}";
    let r = FunctionResponse::error(500, message);
    assert_eq!(
        r.body,
        "{\"error\":\"a\\\"b\\\\c\\n\\r\\t\\b\\f\\u0001\\u001fé/\u{7f}\"}"
    );
    let value: serde_json::Value = serde_json::from_str(&r.body).unwrap();
    assert_eq!(value["error"].as_str(), Some(message));
}

#[test]
fn named_errors_have_their_status() {
    let r = FunctionResponse::not_found();
    assert_eq!(r.status_code, 404);
    assert_eq!(r.body, "{\"error\":\"Not Found\"}");
    assert_eq!(FunctionResponse::bad_request("x").status_code, 400);
    assert_eq!(
        FunctionResponse::internal_error(String::from("x")).status_code,
        500
    );
}

#[test]
fn duplicate_headers_are_kept_separate() {
    // Session/auth flows need more than one Set-Cookie line, and these
    // cannot be folded into a single comma-separated value.
    let r = FunctionResponse::ok()
        .header("set-cookie", "a=1")
        .header("set-cookie", "b=2");
    assert_eq!(r.header_values("Set-Cookie"), ["a=1", "b=2"]);
}

#[test]
fn set_header_replaces_existing_lines() {
    let r = FunctionResponse::ok()
        .header("content-type", "text/plain")
        .content_type("application/json");
    assert_eq!(r.header_values("content-type").len(), 1);
    assert_eq!(r.header_value("content-type"), Some("application/json"));
}

#[test]
fn set_header_leaves_other_names_alone() {
    let r = FunctionResponse::ok()
        .header("X-One", "1")
        .header("x-two", "2")
        .header("x-ONE", "3")
        .set_header("x-one", "4");
    assert_eq!(
        r.headers,
        vec![
            ("x-two".to_string(), "2".to_string()),
            ("x-one".to_string(), "4".to_string()),
        ]
    );
}

#[test]
fn cors_adds_three_headers() {
    let r = FunctionResponse::ok().cors("https://example.com");
    assert_eq!(
        r.headers,
        vec![
            (
                "access-control-allow-origin".to_string(),
                "https://example.com".to_string()
            ),
            (
                "access-control-allow-methods".to_string(),
                "GET, POST, PUT, DELETE, OPTIONS".to_string()
            ),
            (
                "access-control-allow-headers".to_string(),
                "Content-Type, Authorization".to_string()
            ),
        ]
    );
}

#[test]
fn default_response_is_an_empty_200() {
    let r = FunctionResponse::default().body("later");
    assert_eq!(r.status_code, 200);
    assert_eq!(r.body, "later");
    assert!(r.headers.is_empty());
    assert_eq!(FunctionResponse::new(204).body, "");
    assert_eq!(r.header_value("x"), None);
}

#[test]
fn payload_is_what_the_body_stands_for() {
    assert_eq!(
        &FunctionResponse::with_body(200, "né").into_payload()[..],
        "né".as_bytes()
    );
    let raw = [0u8, 159, 146, 150];
    assert_eq!(
        &FunctionResponse::ok().binary_body(&raw).into_payload()[..],
        &raw[..]
    );
    let mut broken = FunctionResponse::with_body(200, "not base64!");
    broken.is_base64_encoded = true;
    assert!(broken.into_payload().is_empty());
    for bytes in [&b""[..], &b"text"[..], &[255u8, 254][..]] {
        let r: FunctionResponse = Bytes::copy_from_slice(bytes).into();
        assert_eq!(&r.into_payload()[..], bytes);
    }
}

#[test]
fn application_error_becomes_a_500() {
    let r = FunctionResponse::from_application(Err("boom".to_string()));
    assert_eq!(r.status_code, 500);
    assert_eq!(r.body, "{\"error\":\"boom\"}");
}

#[test]
fn application_reply_keeps_status_body_and_headers() {
    let r = FunctionResponse::from_application(Ok(ApplicationReply {
        status: 202,
        body: "ok".to_string(),
        headers: vec![
            ("set-cookie".to_string(), "a=1".to_string()),
            ("set-cookie".to_string(), "b=2".to_string()),
        ],
    }));
    assert_eq!(r.status_code, 202);
    assert_eq!(r.body, "ok");
    assert_eq!(r.header_values("set-cookie"), ["a=1", "b=2"]);
    let copy = r.clone();
    assert_eq!(copy.headers, r.headers);
}
