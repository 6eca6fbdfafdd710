//! Constructors named after the registered status codes.

use vstd::prelude::*;
use crate::json::{JsonResponse, fresh_envelope};

verus! {

#[allow(non_snake_case)]
impl JsonResponse {
    /// 100 Continue.
    pub fn Continue() -> (r: JsonResponse)
        ensures
            r@ == fresh_envelope(100),
    {
        JsonResponse::status(100)
    }

    /// 101 Switching Protocols.
    pub fn SwitchingProtocols() -> (r: JsonResponse)
        ensures
            r@ == fresh_envelope(101),
    {
        JsonResponse::status(101)
    }

    /// 102 Processing.
    pub fn Processing() -> (r: JsonResponse)
        ensures
            r@ == fresh_envelope(102),
    {
        JsonResponse::status(102)
    }

    /// 200 OK.
    pub fn OK() -> (r: JsonResponse)
        ensures
            r@ == fresh_envelope(200),
    {
        JsonResponse::status(200)
    }

    /// 201 Created.
    pub fn Created() -> (r: JsonResponse)
        ensures
            r@ == fresh_envelope(201),
    {
        JsonResponse::status(201)
    }

    /// 202 Accepted.
    pub fn Accepted() -> (r: JsonResponse)
        ensures
            r@ == fresh_envelope(202),
    {
        JsonResponse::status(202)
    }

    /// 203 Non-Authoritative Information.
    pub fn NonAuthoritativeInformation() -> (r: JsonResponse)
        ensures
            r@ == fresh_envelope(203),
    {
        JsonResponse::status(203)
    }

    /// 204 No Content.
    pub fn NoContent() -> (r: JsonResponse)
        ensures
            r@ == fresh_envelope(204),
    {
        JsonResponse::status(204)
    }

    /// 205 Reset Content.
    pub fn ResetContent() -> (r: JsonResponse)
        ensures
            r@ == fresh_envelope(205),
    {
        JsonResponse::status(205)
    }

    /// 206 Partial Content.
    pub fn PartialContent() -> (r: JsonResponse)
        ensures
            r@ == fresh_envelope(206),
    {
        JsonResponse::status(206)
    }

    /// 207 Multi-Status.
    pub fn MultiStatus() -> (r: JsonResponse)
        ensures
            r@ == fresh_envelope(207),
    {
        JsonResponse::status(207)
    }

    /// 208 Already Reported.
    pub fn AlreadyReported() -> (r: JsonResponse)
        ensures
            r@ == fresh_envelope(208),
    {
        JsonResponse::status(208)
    }

    /// 226 IM Used.
    pub fn ImUsed() -> (r: JsonResponse)
        ensures
            r@ == fresh_envelope(226),
    {
        JsonResponse::status(226)
    }

    /// 300 Multiple Choices.
    pub fn MultipleChoices() -> (r: JsonResponse)
        ensures
            r@ == fresh_envelope(300),
    {
        JsonResponse::status(300)
    }

    /// 304 Not Modified.
    pub fn NotModified() -> (r: JsonResponse)
        ensures
            r@ == fresh_envelope(304),
    {
        JsonResponse::status(304)
    }

    /// 305 Use Proxy.
    pub fn UseProxy() -> (r: JsonResponse)
        ensures
            r@ == fresh_envelope(305),
    {
        JsonResponse::status(305)
    }

    /// 400 Bad Request.
    pub fn BadRequest() -> (r: JsonResponse)
        ensures
            r@ == fresh_envelope(400),
    {
        JsonResponse::status(400)
    }

    /// 401 Unauthorized.
    pub fn Unauthorized() -> (r: JsonResponse)
        ensures
            r@ == fresh_envelope(401),
    {
        JsonResponse::status(401)
    }

    /// 402 Payment Required.
    pub fn PaymentRequired() -> (r: JsonResponse)
        ensures
            r@ == fresh_envelope(402),
    {
        JsonResponse::status(402)
    }

    /// 403 Forbidden.
    pub fn Forbidden() -> (r: JsonResponse)
        ensures
            r@ == fresh_envelope(403),
    {
        JsonResponse::status(403)
    }

    /// 404 Not Found.
    pub fn NotFound() -> (r: JsonResponse)
        ensures
            r@ == fresh_envelope(404),
    {
        JsonResponse::status(404)
    }

    /// 405 Method Not Allowed.
    pub fn MethodNotAllowed() -> (r: JsonResponse)
        ensures
            r@ == fresh_envelope(405),
    {
        JsonResponse::status(405)
    }

    /// 406 Not Acceptable.
    pub fn NotAcceptable() -> (r: JsonResponse)
        ensures
            r@ == fresh_envelope(406),
    {
        JsonResponse::status(406)
    }

    /// 407 Proxy Authentication Required.
    pub fn ProxyAuthenticationRequired() -> (r: JsonResponse)
        ensures
            r@ == fresh_envelope(407),
    {
        JsonResponse::status(407)
    }

    /// 408 Request Timeout.
    pub fn RequestTimeout() -> (r: JsonResponse)
        ensures
            r@ == fresh_envelope(408),
    {
        JsonResponse::status(408)
    }

    /// 409 Conflict.
    pub fn Conflict() -> (r: JsonResponse)
        ensures
            r@ == fresh_envelope(409),
    {
        JsonResponse::status(409)
    }

    /// 410 Gone.
    pub fn Gone() -> (r: JsonResponse)
        ensures
            r@ == fresh_envelope(410),
    {
        JsonResponse::status(410)
    }

    /// 411 Length Required.
    pub fn LengthRequired() -> (r: JsonResponse)
        ensures
            r@ == fresh_envelope(411),
    {
        JsonResponse::status(411)
    }

    /// 412 Precondition Failed.
    pub fn PreconditionFailed() -> (r: JsonResponse)
        ensures
            r@ == fresh_envelope(412),
    {
        JsonResponse::status(412)
    }

    /// 413 Payload Too Large.
    pub fn PayloadTooLarge() -> (r: JsonResponse)
        ensures
            r@ == fresh_envelope(413),
    {
        JsonResponse::status(413)
    }

    /// 414 URI Too Long.
    pub fn UriTooLong() -> (r: JsonResponse)
        ensures
            r@ == fresh_envelope(414),
    {
        JsonResponse::status(414)
    }

    /// 415 Unsupported Media Type.
    pub fn UnsupportedMediaType() -> (r: JsonResponse)
        ensures
            r@ == fresh_envelope(415),
    {
        JsonResponse::status(415)
    }

    /// 416 Range Not Satisfiable.
    pub fn RangeNotSatisfiable() -> (r: JsonResponse)
        ensures
            r@ == fresh_envelope(416),
    {
        JsonResponse::status(416)
    }

    /// 417 Expectation Failed.
    pub fn ExpectationFailed() -> (r: JsonResponse)
        ensures
            r@ == fresh_envelope(417),
    {
        JsonResponse::status(417)
    }

    /// 418 I'm a teapot.
    pub fn ImATeapot() -> (r: JsonResponse)
        ensures
            r@ == fresh_envelope(418),
    {
        JsonResponse::status(418)
    }

    /// 421 misdirected request.
    pub fn MisdirectedRequest() -> (r: JsonResponse)
        ensures
            r@ == fresh_envelope(421),
    {
        JsonResponse::status(421)
    }

    /// 422 Unprocessable Entity.
    pub fn UnprocessableEntity() -> (r: JsonResponse)
        ensures
            r@ == fresh_envelope(422),
    {
        JsonResponse::status(422)
    }

    /// 423 Locked.
    pub fn Locked() -> (r: JsonResponse)
        ensures
            r@ == fresh_envelope(423),
    {
        JsonResponse::status(423)
    }

    /// 424 Failed Dependency.
    pub fn FailedDependency() -> (r: JsonResponse)
        ensures
            r@ == fresh_envelope(424),
    {
        JsonResponse::status(424)
    }

    /// 425 Too early.
    pub fn TooEarly() -> (r: JsonResponse)
        ensures
            r@ == fresh_envelope(425),
    {
        JsonResponse::status(425)
    }

    /// 426 Upgrade Required.
    pub fn UpgradeRequired() -> (r: JsonResponse)
        ensures
            r@ == fresh_envelope(426),
    {
        JsonResponse::status(426)
    }

    /// 428 Precondition Required.
    pub fn PreconditionRequired() -> (r: JsonResponse)
        ensures
            r@ == fresh_envelope(428),
    {
        JsonResponse::status(428)
    }

    /// 429 Too Many Requests.
    pub fn TooManyRequests() -> (r: JsonResponse)
        ensures
            r@ == fresh_envelope(429),
    {
        JsonResponse::status(429)
    }

    /// 431 Request Header Fields Too Large.
    pub fn RequestHeaderFieldsTooLarge() -> (r: JsonResponse)
        ensures
            r@ == fresh_envelope(431),
    {
        JsonResponse::status(431)
    }

    /// 451 Unavailable For Legal Reasons.
    pub fn UnavailableForLegalReasons() -> (r: JsonResponse)
        ensures
            r@ == fresh_envelope(451),
    {
        JsonResponse::status(451)
    }

    /// 500 Internal Server Error.
    pub fn InternalServerError() -> (r: JsonResponse)
        ensures
            r@ == fresh_envelope(500),
    {
        JsonResponse::status(500)
    }

    /// 501 Not Implemented.
    pub fn NotImplemented() -> (r: JsonResponse)
        ensures
            r@ == fresh_envelope(501),
    {
        JsonResponse::status(501)
    }

    /// 502 Bad Gateway.
    pub fn BadGateway() -> (r: JsonResponse)
        ensures
            r@ == fresh_envelope(502),
    {
        JsonResponse::status(502)
    }

    /// 503 Service Unavailable.
    pub fn ServiceUnavailable() -> (r: JsonResponse)
        ensures
            r@ == fresh_envelope(503),
    {
        JsonResponse::status(503)
    }

    /// 504 Gateway Timeout.
    pub fn GatewayTimeout() -> (r: JsonResponse)
        ensures
            r@ == fresh_envelope(504),
    {
        JsonResponse::status(504)
    }

    /// 505 HTTP Version Not Supported.
    pub fn HttpVersionNotSupported() -> (r: JsonResponse)
        ensures
            r@ == fresh_envelope(505),
    {
        JsonResponse::status(505)
    }

    /// 506 Variant Also Negotiates.
    pub fn VariantAlsoNegotiates() -> (r: JsonResponse)
        ensures
            r@ == fresh_envelope(506),
    {
        JsonResponse::status(506)
    }

    /// 507 Insufficient Storage.
    pub fn InsufficientStorage() -> (r: JsonResponse)
        ensures
            r@ == fresh_envelope(507),
    {
        JsonResponse::status(507)
    }

    /// 508 Loop Detected.
    pub fn LoopDetected() -> (r: JsonResponse)
        ensures
            r@ == fresh_envelope(508),
    {
        JsonResponse::status(508)
    }

    /// 510 Not Extended.
    pub fn NotExtended() -> (r: JsonResponse)
        ensures
            r@ == fresh_envelope(510),
    {
        JsonResponse::status(510)
    }

    /// 511 Network Authentication Required.
    pub fn NetworkAuthenticationRequired() -> (r: JsonResponse)
        ensures
            r@ == fresh_envelope(511),
    {
        JsonResponse::status(511)
    }

}

} // verus!
