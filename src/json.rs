//! The standardized JSON envelope and its builder.

use vstd::prelude::*;
use crate::headers::{Headers, inserted};
use crate::status::{default_message, default_message_of, normalize_status, success_code, valid_status, INTERNAL_SERVER_ERROR};

verus! {

/// `serde_json::Value`, carried through the envelope as an opaque value.
#[verifier::external_type_specification]
#[verifier::external_body]
pub struct ExValue(serde_json::Value);

/// Relies on the derived `Clone` of `serde_json::Value`: a copy equal to the original.
pub assume_specification[ <serde_json::Value as Clone>::clone ](v: &serde_json::Value) -> (r: serde_json::Value)
    ensures
        r == *v,
;

/// Relies on `chrono::Utc::now` and `DateTime::to_rfc3339_opts` (whole
/// seconds, `Z` suffix): the current time as text.
#[verifier::external_body]
fn now_rfc3339() -> (r: String) {
    chrono::Utc::now().to_rfc3339_opts(chrono::SecondsFormat::Secs, true)
}

/// What an envelope holds before it is turned into a body.
pub struct Envelope {
    pub code: u16,
    pub message: Seq<char>,
    pub request_id: Option<Seq<char>>,
    pub data: Option<serde_json::Value>,
    pub error: Option<serde_json::Value>,
    pub errors: Option<serde_json::Value>,
    pub headers: Seq<(Seq<char>, Seq<char>)>,
}

/// A fresh envelope for a valid code: its default message, no optional keys
/// and no headers.
pub open spec fn fresh_envelope(code: u16) -> Envelope {
    Envelope {
        code,
        message: default_message_of(code),
        request_id: None,
        data: None,
        error: None,
        errors: None,
        headers: Seq::empty(),
    }
}

/// The code an envelope gets when asked for `code`: the code itself when it
/// is a valid status, else 500.
pub open spec fn effective_code(code: u16) -> u16 {
    if valid_status(code) {
        code
    } else {
        INTERNAL_SERVER_ERROR
    }
}

/// A builder for standardized JSON responses with the keys `code`,
/// `success`, `message`, `timestamp` and optionally `request_id`, `data`,
/// `error` and `errors`.
#[derive(Debug)]
pub struct JsonResponse {
    code: u16,
    message: String,
    request_id: Option<String>,
    data: Option<serde_json::Value>,
    error: Option<serde_json::Value>,
    errors: Option<serde_json::Value>,
    headers: Headers,
}

/// The JSON body of a response, as sent.
#[derive(Debug, Clone, PartialEq)]
pub struct JsonResponseBody {
    pub code: u16,
    pub request_id: Option<String>,
    pub success: bool,
    pub message: String,
    pub timestamp: String,
    pub data: Option<serde_json::Value>,
    pub error: Option<serde_json::Value>,
    pub errors: Option<serde_json::Value>,
}

pub open spec fn opt_view(o: Option<String>) -> Option<Seq<char>> {
    match o {
        Some(s) => Some(s@),
        None => None,
    }
}

impl View for JsonResponse {
    type V = Envelope;

    closed spec fn view(&self) -> Envelope {
        Envelope {
            code: self.code,
            message: self.message@,
            request_id: opt_view(self.request_id),
            data: self.data,
            error: self.error,
            errors: self.errors,
            headers: self.headers@,
        }
    }
}

impl JsonResponse {
    #[verifier::type_invariant]
    closed spec fn inv(&self) -> bool {
        self.headers.wf() && valid_status(self.code)
    }

    /// A new envelope with the given code (500 when the code is not a valid
    /// status) and the code's canonical reason as message ("No Message" when
    /// it has none).
    pub fn status(code: u16) -> (r: JsonResponse)
        ensures
            r@ == fresh_envelope(effective_code(code)),
    {
        let code = normalize_status(code);
        let message = default_message(code);
        JsonResponse {
            code,
            message,
            request_id: None,
            data: None,
            error: None,
            errors: None,
            headers: Headers::new(),
        }
    }

    /// The status code.
    pub fn code(&self) -> (r: u16)
        ensures
            r == self@.code,
            valid_status(r),
    {
        proof {
            use_type_invariant(self);
        }
        self.code
    }

    /// The extra headers, in insertion order.
    pub fn headers(&self) -> (r: &Vec<(String, String)>)
        ensures
            r@.map_values(|e: (String, String)| (e.0@, e.1@)) == self@.headers,
    {
        self.headers.entries()
    }

    /// Sets the message.
    pub fn message(self, message: &str) -> (r: JsonResponse)
        ensures
            r@ == (Envelope { message: message@, ..self@ }),
    {
        proof {
            use_type_invariant(&self);
        }
        let mut r = self;
        r.message = message.to_string();
        r
    }

    /// Sets the request id.
    pub fn request_id(self, request_id: &str) -> (r: JsonResponse)
        ensures
            r@ == (Envelope { request_id: Some(request_id@), ..self@ }),
    {
        proof {
            use_type_invariant(&self);
        }
        let mut r = self;
        r.request_id = Some(request_id.to_string());
        r
    }

    /// Adds a header; a name or value that the `http` crate rejects is
    /// ignored.
    pub fn header(self, key: &str, value: &str) -> (r: JsonResponse)
        ensures
            r@ == (Envelope { headers: inserted(self@.headers, key@, value@), ..self@ }),
    {
        proof {
            use_type_invariant(&self);
        }
        let JsonResponse { code, message, request_id, data, error, errors, headers } = self;
        let mut headers = headers;
        headers.insert(key, value);
        JsonResponse { code, message, request_id, data, error, errors, headers }
    }

    /// Sets the `data` key.
    pub fn data(self, data: serde_json::Value) -> (r: JsonResponse)
        ensures
            r@ == (Envelope { data: Some(data), ..self@ }),
    {
        proof {
            use_type_invariant(&self);
        }
        let mut r = self;
        r.data = Some(data);
        r
    }

    /// Sets the `error` key.
    pub fn error(self, error: serde_json::Value) -> (r: JsonResponse)
        ensures
            r@ == (Envelope { error: Some(error), ..self@ }),
    {
        proof {
            use_type_invariant(&self);
        }
        let mut r = self;
        r.error = Some(error);
        r
    }

    /// Sets the `errors` key.
    pub fn errors(self, errors: serde_json::Value) -> (r: JsonResponse)
        ensures
            r@ == (Envelope { errors: Some(errors), ..self@ }),
    {
        proof {
            use_type_invariant(&self);
        }
        let mut r = self;
        r.errors = Some(errors);
        r
    }

    /// The body sent for this envelope with the given timestamp: `success`
    /// is true exactly for codes in 200..=399.
    pub fn into_body_at(self, timestamp: String) -> (r: JsonResponseBody)
        ensures
            r.code == self@.code,
            r.success == success_code(self@.code),
            r.message@ == self@.message,
            opt_view(r.request_id) == self@.request_id,
            r.timestamp@ == timestamp@,
            r.data == self@.data,
            r.error == self@.error,
            r.errors == self@.errors,
    {
        let success = crate::status::is_success(self.code);
        JsonResponseBody {
            code: self.code,
            request_id: self.request_id,
            success,
            message: self.message,
            timestamp,
            data: self.data,
            error: self.error,
            errors: self.errors,
        }
    }

    /// The body sent for this envelope, stamped with the current time.
    pub fn into_body(self) -> (r: JsonResponseBody)
        ensures
            r.code == self@.code,
            r.success == success_code(self@.code),
            r.message@ == self@.message,
            opt_view(r.request_id) == self@.request_id,
            r.data == self@.data,
            r.error == self@.error,
            r.errors == self@.errors,
    {
        let timestamp = now_rfc3339();
        self.into_body_at(timestamp)
    }
}

} // verus!
