use axum_responses::template::{parse_template, Segment};
use axum_responses::{
    AttrItem, AttrValue, ConfigError, EnumDecl, ErrorConversion, ErrorInstance, FieldValue,
    GenerationError, HttpErrorConfig, JsonResponse, JsonResponseBody, MessageValue, Payload,
    VariantDecl, VariantFields,
};
use serde_json::Value;

const STAMP: &str = "2024-05-01T10:00:00Z";

fn attr(key: &str, value: AttrValue) -> AttrItem {
    AttrItem { key: key.to_string(), value }
}

fn code(n: u64) -> AttrItem {
    attr("code", AttrValue::Int(n))
}

fn ident(key: &str, name: &str) -> AttrItem {
    attr(key, AttrValue::Ident(name.to_string()))
}

fn text(key: &str, s: &str) -> AttrItem {
    attr(key, AttrValue::Str(s.to_string()))
}

fn named(names: &[&str]) -> VariantFields {
    VariantFields::Named(names.iter().map(|n| n.to_string()).collect())
}

fn variant(name: &str, fields: VariantFields, attrs: Vec<AttrItem>) -> VariantDecl {
    VariantDecl { name: name.to_string(), fields, attrs }
}

fn decl(name: &str, variants: Vec<VariantDecl>) -> EnumDecl {
    EnumDecl { name: name.to_string(), variants }
}

fn field(t: &str, json: Value) -> FieldValue {
    FieldValue { text: t.to_string(), json }
}

fn text_field(t: &str) -> FieldValue {
    field(t, Value::String(t.to_string()))
}

fn fields(variant: usize, vs: Vec<FieldValue>) -> ErrorInstance {
    ErrorInstance { variant, payload: Payload::Fields(vs) }
}

fn body(conv: &ErrorConversion, e: ErrorInstance) -> JsonResponseBody {
    assert!(conv.accepts(&e));
    conv.convert(e).into_body_at(STAMP.to_string())
}

fn field_error(field: &str, message: &str) -> Value {
    let mut m = serde_json::Map::new();
    m.insert("field".to_string(), Value::from(field));
    m.insert("message".to_string(), Value::from(message));
    Value::Object(m)
}

fn inner_enum() -> ErrorConversion {
    ErrorConversion::derive(&decl(
        "Inner",
        vec![variant("Bad", VariantFields::Unit, vec![code(400), text("message", "Bad input")])],
    ))
    .unwrap()
}

#[test]
fn not_found_and_wrapped_scenario() {
    let outer = ErrorConversion::derive(&decl(
        "E",
        vec![
            variant("NotFound", VariantFields::Unit, vec![code(404)]),
            variant(
                "Wrapped",
                VariantFields::Unnamed(1),
                vec![attr("transparent", AttrValue::Flag)],
            ),
        ],
    ))
    .unwrap();
    let b = body(&outer, fields(0, vec![]));
    assert_eq!(b.code, 404);
    assert!(!b.success);
    assert_eq!(b.message, "Not Found");
    assert_eq!((b.data, b.error, b.errors, b.request_id), (None, None, None, None));

    let inner = inner_enum();
    let expected = body(&inner, fields(0, vec![]));
    let wrapped = ErrorInstance {
        variant: 1,
        payload: Payload::Inner(inner.convert(fields(0, vec![]))),
    };
    let got = body(&outer, wrapped);
    assert_eq!(got, expected);
    assert_eq!(got.code, 400);
    assert_eq!(got.message, "Bad input");
}

#[test]
fn transparent_forwards_inner_envelope_with_its_extras() {
    let outer = ErrorConversion::derive(&decl(
        "Outer",
        vec![variant(
            "Auth",
            VariantFields::Unnamed(1),
            vec![attr("transparent", AttrValue::Flag)],
        )],
    ))
    .unwrap();
    let inner = JsonResponse::Forbidden()
        .message("requires admin")
        .data(Value::from(3))
        .request_id("r1");
    let got = body(&outer, ErrorInstance { variant: 0, payload: Payload::Inner(inner) });
    assert_eq!(got.code, 403);
    assert_eq!(got.message, "requires admin");
    assert_eq!(got.data, Some(Value::from(3)));
    assert_eq!(got.request_id.as_deref(), Some("r1"));
}

#[test]
fn configured_code_is_exact_and_success_follows_it() {
    let conv = ErrorConversion::derive(&decl(
        "E",
        vec![
            variant("Created", VariantFields::Unit, vec![code(201)]),
            variant("Moved", VariantFields::Unit, vec![code(302)]),
            variant("Gone", VariantFields::Unit, vec![code(410)]),
            variant("Broken", VariantFields::Unit, vec![code(599)]),
        ],
    ))
    .unwrap();
    let expect = [(201u16, true), (302, true), (410, false), (599, false)];
    for (i, (c, s)) in expect.iter().enumerate() {
        let b = body(&conv, fields(i, vec![]));
        assert_eq!(b.code, *c);
        assert_eq!(b.success, *s);
    }
}

#[test]
fn error_field_is_attached_verbatim() {
    let conv = ErrorConversion::derive(&decl(
        "ValidationError",
        vec![variant(
            "InvalidInput",
            named(&["details"]),
            vec![code(400), ident("error", "details")],
        )],
    ))
    .unwrap();
    let details = Value::Array(vec![
        field_error("email", "is invalid"),
        field_error("name", "is required"),
    ]);
    let b = body(&conv, fields(0, vec![field("details", details.clone())]));
    assert_eq!(b.code, 400);
    assert_eq!(b.message, "Bad Request");
    assert_eq!(b.error, Some(details));
    assert_eq!(b.errors, None);
}

#[test]
fn errors_field_and_error_field_can_both_be_attached() {
    let conv = ErrorConversion::derive(&decl(
        "E",
        vec![variant(
            "Invalid",
            named(&["summary", "details"]),
            vec![code(422), ident("error", "summary"), ident("errors", "details")],
        )],
    ))
    .unwrap();
    let b = body(
        &conv,
        fields(0, vec![text_field("two problems"), field("details", Value::from(vec![1, 2]))]),
    );
    assert_eq!(b.error, Some(Value::from("two problems")));
    assert_eq!(b.errors, Some(Value::from(vec![1, 2])));
}

#[test]
fn transparent_with_code_is_conflicting() {
    let attrs = vec![attr("transparent", AttrValue::Flag), code(404)];
    assert_eq!(HttpErrorConfig::from_attrs(&attrs).unwrap_err(), ConfigError::ConflictingOptions);
    let r = ErrorConversion::derive(&decl(
        "E",
        vec![variant("Wrapped", VariantFields::Unnamed(1), attrs)],
    ));
    assert_eq!(
        r.unwrap_err(),
        GenerationError { variant: 0, error: ConfigError::ConflictingOptions }
    );
}

#[test]
fn transparent_with_message_or_fields_is_conflicting() {
    for extra in [text("message", "x"), ident("error", "e"), ident("errors", "e")] {
        let attrs = vec![extra, attr("transparent", AttrValue::Flag)];
        assert_eq!(
            HttpErrorConfig::from_attrs(&attrs).unwrap_err(),
            ConfigError::ConflictingOptions
        );
    }
}

#[test]
fn error_naming_a_missing_field_is_rejected() {
    let r = ErrorConversion::derive(&decl(
        "E",
        vec![variant(
            "Invalid",
            named(&["details"]),
            vec![code(400), ident("error", "missing_field")],
        )],
    ));
    assert_eq!(
        r.unwrap_err(),
        GenerationError { variant: 0, error: ConfigError::FieldsRequired }
    );
}

#[test]
fn error_on_a_variant_without_named_fields_is_rejected() {
    for fields in [VariantFields::Unit, VariantFields::Unnamed(1)] {
        let r = ErrorConversion::derive(&decl(
            "E",
            vec![variant("V", fields, vec![code(500), ident("errors", "details")])],
        ));
        assert_eq!(r.unwrap_err().error, ConfigError::FieldsRequired);
    }
}

#[test]
fn missing_code_is_rejected() {
    assert_eq!(HttpErrorConfig::from_attrs(&vec![]).unwrap_err(), ConfigError::MissingCode);
    assert_eq!(
        HttpErrorConfig::from_attrs(&vec![text("message", "hi")]).unwrap_err(),
        ConfigError::MissingCode
    );
}

#[test]
fn unknown_key_is_rejected() {
    let attrs = vec![code(400), attr("status", AttrValue::Int(400))];
    assert_eq!(HttpErrorConfig::from_attrs(&attrs).unwrap_err(), ConfigError::UnknownKey);
}

#[test]
fn transparent_needs_exactly_one_unnamed_field() {
    for fields in [VariantFields::Unit, VariantFields::Unnamed(2), named(&["inner"])] {
        let r = ErrorConversion::derive(&decl(
            "E",
            vec![variant("V", fields, vec![attr("transparent", AttrValue::Flag)])],
        ));
        assert_eq!(r.unwrap_err().error, ConfigError::TransparentArityError);
    }
}

#[test]
fn status_code_outside_range_is_rejected() {
    for value in [AttrValue::Int(99), AttrValue::Int(600), AttrValue::Int(70000), AttrValue::Str("404".to_string()), AttrValue::Flag] {
        let attrs = vec![attr("code", value)];
        assert_eq!(HttpErrorConfig::from_attrs(&attrs).unwrap_err(), ConfigError::InvalidStatusCode);
    }
    assert_eq!(HttpErrorConfig::from_attrs(&vec![code(100)]).unwrap().code, Some(100));
    assert_eq!(HttpErrorConfig::from_attrs(&vec![code(599)]).unwrap().code, Some(599));
}

#[test]
fn bad_message_literal_is_rejected() {
    for value in [
        AttrValue::Int(3),
        AttrValue::Flag,
        AttrValue::Other,
        AttrValue::Str("{unclosed".to_string()),
        AttrValue::Str("stray } brace".to_string()),
        AttrValue::Str("{not a name}".to_string()),
        AttrValue::Str("{}".to_string()),
    ] {
        let attrs = vec![code(400), attr("message", value)];
        assert_eq!(
            HttpErrorConfig::from_attrs(&attrs).unwrap_err(),
            ConfigError::InvalidMessageLiteral
        );
    }
}

#[test]
fn first_rejected_item_decides_the_error() {
    let attrs = vec![attr("bogus", AttrValue::Flag), code(1000)];
    assert_eq!(HttpErrorConfig::from_attrs(&attrs).unwrap_err(), ConfigError::UnknownKey);
    let attrs = vec![code(1000), attr("bogus", AttrValue::Flag)];
    assert_eq!(HttpErrorConfig::from_attrs(&attrs).unwrap_err(), ConfigError::InvalidStatusCode);
}

#[test]
fn first_failing_variant_is_reported() {
    let r = ErrorConversion::derive(&decl(
        "E",
        vec![
            variant("Fine", VariantFields::Unit, vec![code(400)]),
            variant("NoCode", VariantFields::Unit, vec![]),
            variant("Bad", VariantFields::Unit, vec![code(7)]),
        ],
    ));
    assert_eq!(r.unwrap_err(), GenerationError { variant: 1, error: ConfigError::MissingCode });
}

#[test]
fn later_item_with_same_key_wins() {
    let c = HttpErrorConfig::from_attrs(&vec![code(400), code(404), text("message", "a"), text("message", "b")]).unwrap();
    assert_eq!(c.code, Some(404));
    assert_eq!(c.message, Some(MessageValue::Static("b".to_string())));
    assert!(!c.transparent);
}

#[test]
fn message_forms_are_read() {
    let c = HttpErrorConfig::from_attrs(&vec![code(400), ident("message", "error_msg")]).unwrap();
    assert_eq!(c.message, Some(MessageValue::Field("error_msg".to_string())));
    let c = HttpErrorConfig::from_attrs(&vec![code(400), text("message", "{field} is required")]).unwrap();
    assert_eq!(
        c.message,
        Some(MessageValue::Template(vec![
            Segment::Field("field".to_string()),
            Segment::Text(" is required".to_string()),
        ]))
    );
}

#[test]
fn messages_are_resolved_per_value() {
    let conv = ErrorConversion::derive(&decl(
        "ValidationError",
        vec![
            variant("MissingField", named(&["field"]), vec![code(400), text("message", "{field} is required")]),
            variant("CustomMessage", named(&["error_msg"]), vec![code(400), ident("message", "error_msg")]),
            variant("Io", VariantFields::Unnamed(1), vec![code(500), text("message", "An internal error occurred")]),
            variant("Escaped", named(&["a", "b"]), vec![code(409), text("message", "{{{a}}} vs {b}}}")]),
        ],
    ))
    .unwrap();
    assert_eq!(body(&conv, fields(0, vec![text_field("email")])).message, "email is required");
    assert_eq!(body(&conv, fields(1, vec![text_field("custom text")])).message, "custom text");
    assert_eq!(
        body(&conv, fields(2, vec![field("disk full", Value::Null)])).message,
        "An internal error occurred"
    );
    assert_eq!(
        body(&conv, fields(3, vec![text_field("x"), text_field("y")])).message,
        "{x} vs y}"
    );
}

#[test]
fn template_field_must_exist() {
    let r = ErrorConversion::derive(&decl(
        "E",
        vec![variant("V", named(&["name"]), vec![code(400), text("message", "{nmae} bad")])],
    ));
    assert_eq!(r.unwrap_err().error, ConfigError::FieldsRequired);
    let r = ErrorConversion::derive(&decl(
        "E",
        vec![variant("V", VariantFields::Unit, vec![code(400), ident("message", "name")])],
    ));
    assert_eq!(r.unwrap_err().error, ConfigError::FieldsRequired);
}

#[test]
fn values_of_the_wrong_shape_are_not_accepted() {
    let conv = inner_enum();
    assert_eq!(conv.len(), 1);
    assert!(!conv.accepts(&fields(1, vec![])));
    assert!(!conv.accepts(&fields(0, vec![text_field("extra")])));
    assert!(!conv.accepts(&ErrorInstance { variant: 0, payload: Payload::Inner(JsonResponse::OK()) }));
    assert!(conv.accepts(&fields(0, vec![])));
}

#[test]
fn template_parsing() {
    assert_eq!(parse_template(""), Some(vec![]));
    assert_eq!(parse_template("plain"), Some(vec![Segment::Text("plain".to_string())]));
    assert_eq!(
        parse_template("a{{b}}c{d_1}"),
        Some(vec![
            Segment::Text("a".to_string()),
            Segment::Text("{".to_string()),
            Segment::Text("b".to_string()),
            Segment::Text("}".to_string()),
            Segment::Text("c".to_string()),
            Segment::Field("d_1".to_string()),
        ])
    );
    assert_eq!(parse_template("{a"), None);
    assert_eq!(parse_template("a}"), None);
    assert_eq!(parse_template("{a-b}"), None);
}
