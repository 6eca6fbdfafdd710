use axum_responses::{HttpResponse, JsonResponse, JsonResponseBody};
use serde_json::Value;

fn complex_data() -> Value {
    let mut m = serde_json::Map::new();
    m.insert("id".to_string(), Value::from(1u32));
    m.insert("name".to_string(), Value::from("Test Item"));
    m.insert(
        "tags".to_string(),
        Value::Array(vec![
            Value::String("test".to_string()),
            Value::String("demo".to_string()),
        ]),
    );
    Value::Object(m)
}

fn single_object() -> Value {
    let mut m = serde_json::Map::new();
    m.insert("id".to_string(), Value::from(1u32));
    m.insert("name".to_string(), Value::from("Test Object"));
    Value::Object(m)
}

fn validation_error() -> Value {
    let mut errors = serde_json::Map::new();
    errors.insert("param1".to_string(), Value::from("Invalid value for param1"));
    errors.insert("param2".to_string(), Value::from("Param2 is required"));
    let mut m = serde_json::Map::new();
    m.insert("type".to_string(), Value::from("ValidationError"));
    m.insert("errors".to_string(), Value::Object(errors));
    Value::Object(m)
}

fn check_data_response(body: &JsonResponseBody) {
    assert_eq!(body.code, 201_u16);
    assert_eq!(*body.message, *"Item created successfully");
    assert!(body.data.is_some());
    let data = body.data.clone().unwrap();
    assert_eq!(data.get("id").unwrap().as_u64().unwrap(), 1);
    assert_eq!(data.get("name").unwrap().as_str().unwrap(), "Test Item");
    assert_eq!(
        data.get("tags").unwrap().as_array().unwrap(),
        &vec![
            serde_json::Value::String("test".to_string()),
            serde_json::Value::String("demo".to_string())
        ]
    );
}

fn check_error_response(error: &Value) {
    assert_eq!(error.get("type").unwrap().as_str().unwrap(), "ValidationError");
    let errors = error.get("errors").unwrap().as_object().unwrap();
    assert_eq!(
        errors.get("param1").unwrap().as_str().unwrap(),
        "Invalid value for param1"
    );
    assert_eq!(
        errors.get("param2").unwrap().as_str().unwrap(),
        "Param2 is required"
    );
}

#[test]
fn lib_test_http_response_simple() {
    let body = HttpResponse::OK().message("This is a simple response").into_body();
    assert_eq!(body.code, 200_u16);
    assert_eq!(*body.message, *"This is a simple response");
}

#[test]
fn lib_test_http_response_data() {
    let body = HttpResponse::Created()
        .data(complex_data())
        .message("Item created successfully")
        .into_body();
    check_data_response(&body);
}

#[test]
fn lib_test_http_response_error() {
    let body = HttpResponse::BadRequest()
        .message("This is an error response")
        .error(validation_error())
        .into_body();
    assert_eq!(body.code, 400_u16);
    assert_eq!(*body.message, *"This is an error response");
    assert!(body.error.is_some());
    check_error_response(body.error.as_ref().unwrap());
}

#[test]
fn lib_test_single_object_response() {
    let body = JsonResponse::status(200).data(single_object()).into_body();
    assert_eq!(body.code, 200_u16);
    assert!(body.data.is_some());
    let data = body.data.unwrap();
    assert_eq!(data.get("id").unwrap().as_u64().unwrap(), 1);
    assert_eq!(data.get("name").unwrap().as_str().unwrap(), "Test Object");
}

#[test]
fn lib_test_http_no_data() {
    let body = HttpResponse::OK().message("This is a no data response").into_body();
    assert_eq!(body.code, 200_u16);
    assert_eq!(*body.message, *"This is a no data response");
    assert_eq!(body.data, None);
}

#[test]
fn mod_test_http_response_simple() {
    let body = HttpResponse::OK().message("This is a simple response").into_body();
    assert_eq!(body.code, 200_u16);
    assert_eq!(body.message, "This is a simple response");
}

#[test]
fn mod_test_http_response_data() {
    let body = HttpResponse::Created()
        .data(complex_data())
        .message("Item created successfully")
        .into_body();
    check_data_response(&body);
}

#[test]
fn mod_test_http_response_error() {
    let body = HttpResponse::BadRequest()
        .message("This is an error response")
        .data(validation_error())
        .into_body();
    assert_eq!(body.code, 400_u16);
    assert_eq!(body.message, "This is an error response");
    assert!(body.data.is_some());
    check_error_response(body.data.as_ref().unwrap());
}

#[test]
fn mod_test_single_object_response() {
    let body = JsonResponse::status(200).data(single_object()).into_body();
    assert_eq!(body.code, 200_u16);
    let data = body.data.unwrap();
    assert_eq!(data.get("id").unwrap().as_u64().unwrap(), 1);
    assert_eq!(data.get("name").unwrap().as_str().unwrap(), "Test Object");
}

#[test]
fn mod_test_http_no_data() {
    let body = HttpResponse::OK().message("This is a no data response").into_body();
    assert_eq!(body.code, 200_u16);
    assert_eq!(body.message, "This is a no data response");
    assert_eq!(body.data, None);
}

#[test]
fn fresh_envelope_has_canonical_reason_and_no_optional_keys() {
    let body = JsonResponse::NotFound().into_body_at("2024-01-01T00:00:00Z".to_string());
    assert_eq!(body.code, 404);
    assert!(!body.success);
    assert_eq!(body.message, "Not Found");
    assert_eq!(body.timestamp, "2024-01-01T00:00:00Z");
    assert_eq!(body.request_id, None);
    assert_eq!(body.data, None);
    assert_eq!(body.error, None);
    assert_eq!(body.errors, None);
}

#[test]
fn invalid_status_becomes_internal_server_error() {
    for code in [0u16, 99, 600, 999, 65535] {
        let r = JsonResponse::status(code);
        assert_eq!(r.code(), 500);
        assert_eq!(r.into_body().message, "Internal Server Error");
    }
}

#[test]
fn unregistered_code_has_no_message_default() {
    let body = JsonResponse::status(299).into_body();
    assert_eq!(body.code, 299);
    assert_eq!(body.message, "No Message");
    assert!(body.success);
}

#[test]
fn success_covers_two_and_three_hundreds() {
    let expect = [(100u16, false), (199, false), (200, true), (302, true), (399, true), (400, false), (599, false)];
    for (code, success) in expect {
        assert_eq!(JsonResponse::status(code).into_body().success, success, "code {code}");
    }
}

#[test]
fn request_id_and_errors_are_kept() {
    let body = JsonResponse::UnprocessableEntity()
        .request_id("req-7")
        .errors(Value::Array(vec![Value::from("a"), Value::from("b")]))
        .into_body();
    assert_eq!(body.code, 422);
    assert_eq!(body.message, "Unprocessable Entity");
    assert_eq!(body.request_id.as_deref(), Some("req-7"));
    assert_eq!(body.errors, Some(Value::Array(vec![Value::from("a"), Value::from("b")])));
}

#[test]
fn headers_are_normalized_replaced_and_validated() {
    let r = JsonResponse::OK()
        .header("X-Trace", "one")
        .header("Bad Name", "x")
        .header("x-other", "bad\nvalue")
        .header("x-trace", "two")
        .header("X-Other", "ok");
    let headers: Vec<(String, String)> = r.headers().clone();
    assert_eq!(
        headers,
        vec![
            ("x-trace".to_string(), "two".to_string()),
            ("x-other".to_string(), "ok".to_string()),
        ]
    );
}

#[test]
fn empty_header_name_is_ignored() {
    let r = JsonResponse::OK().header("", "v");
    assert!(r.headers().is_empty());
}

#[test]
fn timestamp_is_rfc3339_in_seconds() {
    let body = JsonResponse::OK().into_body();
    assert_eq!(body.timestamp.len(), 20);
    assert!(body.timestamp.ends_with('Z'));
    assert_eq!(&body.timestamp[10..11], "T");
}

#[test]
fn named_constructors_use_their_codes() {
    assert_eq!(JsonResponse::Continue().code(), 100);
    assert_eq!(JsonResponse::ImATeapot().code(), 418);
    assert_eq!(JsonResponse::ImATeapot().into_body().message, "I'm a teapot");
    assert_eq!(JsonResponse::NetworkAuthenticationRequired().code(), 511);
    assert_eq!(JsonResponse::TooManyRequests().into_body().message, "Too Many Requests");
}
