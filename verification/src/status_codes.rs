//! Convenience constructors: one per standard transport status, building a
//! `Data` envelope pre-populated with that numeric code and its canonical
//! reason phrase as the message.

use vstd::prelude::*;

use crate::ricksponse::Response;
use crate::ricksponse::Ricksponse;

verus! {

/// Whether an envelope is a `Data` wrapping of the given payload, carrying
/// the given status code and exactly the given reason phrase.
pub open spec fn spec_status_envelope<T>(
    r: Ricksponse<T>,
    t: T,
    code: u16,
    phrase: Seq<char>,
) -> bool {
    match r {
        Ricksponse::Data { data, http_code, message } => data == t && http_code == Some(code) && (
        message matches Some(m) && m@ == phrase),
        Ricksponse::Error { .. } => false,
    }
}

impl<T> Ricksponse<T> {
    /// 100 Continue
    #[allow(non_snake_case)]
    pub fn CONTINUE(t: T) -> (r: Ricksponse<T>)
        ensures
            spec_status_envelope(r, t, 100, "Continue"@),
    {
        Ricksponse::new_with_http_and_message(t, 100, "Continue")
    }

    /// 101 Switching Protocols
    #[allow(non_snake_case)]
    pub fn SWITCHING_PROTOCOLS(t: T) -> (r: Ricksponse<T>)
        ensures
            spec_status_envelope(r, t, 101, "Switching Protocols"@),
    {
        Ricksponse::new_with_http_and_message(t, 101, "Switching Protocols")
    }

    /// 102 Processing
    #[allow(non_snake_case)]
    pub fn PROCESSING(t: T) -> (r: Ricksponse<T>)
        ensures
            spec_status_envelope(r, t, 102, "Processing"@),
    {
        Ricksponse::new_with_http_and_message(t, 102, "Processing")
    }

    /// 200 OK
    #[allow(non_snake_case)]
    pub fn OK(t: T) -> (r: Ricksponse<T>)
        ensures
            spec_status_envelope(r, t, 200, "OK"@),
    {
        Ricksponse::new_with_http_and_message(t, 200, "OK")
    }

    /// 201 Created
    #[allow(non_snake_case)]
    pub fn CREATED(t: T) -> (r: Ricksponse<T>)
        ensures
            spec_status_envelope(r, t, 201, "Created"@),
    {
        Ricksponse::new_with_http_and_message(t, 201, "Created")
    }

    /// 202 Accepted
    #[allow(non_snake_case)]
    pub fn ACCEPTED(t: T) -> (r: Ricksponse<T>)
        ensures
            spec_status_envelope(r, t, 202, "Accepted"@),
    {
        Ricksponse::new_with_http_and_message(t, 202, "Accepted")
    }

    /// 203 Non Authoritative Information
    #[allow(non_snake_case)]
    pub fn NON_AUTHORITATIVE_INFORMATION(t: T) -> (r: Ricksponse<T>)
        ensures
            spec_status_envelope(r, t, 203, "Non Authoritative Information"@),
    {
        Ricksponse::new_with_http_and_message(t, 203, "Non Authoritative Information")
    }

    /// 204 No Content
    #[allow(non_snake_case)]
    pub fn NO_CONTENT(t: T) -> (r: Ricksponse<T>)
        ensures
            spec_status_envelope(r, t, 204, "No Content"@),
    {
        Ricksponse::new_with_http_and_message(t, 204, "No Content")
    }

    /// 205 Reset Content
    #[allow(non_snake_case)]
    pub fn RESET_CONTENT(t: T) -> (r: Ricksponse<T>)
        ensures
            spec_status_envelope(r, t, 205, "Reset Content"@),
    {
        Ricksponse::new_with_http_and_message(t, 205, "Reset Content")
    }

    /// 206 Partial Content
    #[allow(non_snake_case)]
    pub fn PARTIAL_CONTENT(t: T) -> (r: Ricksponse<T>)
        ensures
            spec_status_envelope(r, t, 206, "Partial Content"@),
    {
        Ricksponse::new_with_http_and_message(t, 206, "Partial Content")
    }

    /// 207 Multi-Status
    #[allow(non_snake_case)]
    pub fn MULTI_STATUS(t: T) -> (r: Ricksponse<T>)
        ensures
            spec_status_envelope(r, t, 207, "Multi-Status"@),
    {
        Ricksponse::new_with_http_and_message(t, 207, "Multi-Status")
    }

    /// 208 Already Reported
    #[allow(non_snake_case)]
    pub fn ALREADY_REPORTED(t: T) -> (r: Ricksponse<T>)
        ensures
            spec_status_envelope(r, t, 208, "Already Reported"@),
    {
        Ricksponse::new_with_http_and_message(t, 208, "Already Reported")
    }

    /// 226 IM Used
    #[allow(non_snake_case)]
    pub fn IM_USED(t: T) -> (r: Ricksponse<T>)
        ensures
            spec_status_envelope(r, t, 226, "IM Used"@),
    {
        Ricksponse::new_with_http_and_message(t, 226, "IM Used")
    }

    /// 300 Multiple Choices
    #[allow(non_snake_case)]
    pub fn MULTIPLE_CHOICES(t: T) -> (r: Ricksponse<T>)
        ensures
            spec_status_envelope(r, t, 300, "Multiple Choices"@),
    {
        Ricksponse::new_with_http_and_message(t, 300, "Multiple Choices")
    }

    /// 301 Moved Permanently
    #[allow(non_snake_case)]
    pub fn MOVED_PERMANENTLY(t: T) -> (r: Ricksponse<T>)
        ensures
            spec_status_envelope(r, t, 301, "Moved Permanently"@),
    {
        Ricksponse::new_with_http_and_message(t, 301, "Moved Permanently")
    }

    /// 302 Found
    #[allow(non_snake_case)]
    pub fn FOUND(t: T) -> (r: Ricksponse<T>)
        ensures
            spec_status_envelope(r, t, 302, "Found"@),
    {
        Ricksponse::new_with_http_and_message(t, 302, "Found")
    }

    /// 303 See Other
    #[allow(non_snake_case)]
    pub fn SEE_OTHER(t: T) -> (r: Ricksponse<T>)
        ensures
            spec_status_envelope(r, t, 303, "See Other"@),
    {
        Ricksponse::new_with_http_and_message(t, 303, "See Other")
    }

    /// 304 Not Modified
    #[allow(non_snake_case)]
    pub fn NOT_MODIFIED(t: T) -> (r: Ricksponse<T>)
        ensures
            spec_status_envelope(r, t, 304, "Not Modified"@),
    {
        Ricksponse::new_with_http_and_message(t, 304, "Not Modified")
    }

    /// 305 Use Proxy
    #[allow(non_snake_case)]
    pub fn USE_PROXY(t: T) -> (r: Ricksponse<T>)
        ensures
            spec_status_envelope(r, t, 305, "Use Proxy"@),
    {
        Ricksponse::new_with_http_and_message(t, 305, "Use Proxy")
    }

    /// 307 Temporary Redirect
    #[allow(non_snake_case)]
    pub fn TEMPORARY_REDIRECT(t: T) -> (r: Ricksponse<T>)
        ensures
            spec_status_envelope(r, t, 307, "Temporary Redirect"@),
    {
        Ricksponse::new_with_http_and_message(t, 307, "Temporary Redirect")
    }

    /// 308 Permanent Redirect
    #[allow(non_snake_case)]
    pub fn PERMANENT_REDIRECT(t: T) -> (r: Ricksponse<T>)
        ensures
            spec_status_envelope(r, t, 308, "Permanent Redirect"@),
    {
        Ricksponse::new_with_http_and_message(t, 308, "Permanent Redirect")
    }

    /// 400 Bad Request
    #[allow(non_snake_case)]
    pub fn BAD_REQUEST(t: T) -> (r: Ricksponse<T>)
        ensures
            spec_status_envelope(r, t, 400, "Bad Request"@),
    {
        Ricksponse::new_with_http_and_message(t, 400, "Bad Request")
    }

    /// 401 Unauthorized
    #[allow(non_snake_case)]
    pub fn UNAUTHORIZED(t: T) -> (r: Ricksponse<T>)
        ensures
            spec_status_envelope(r, t, 401, "Unauthorized"@),
    {
        Ricksponse::new_with_http_and_message(t, 401, "Unauthorized")
    }

    /// 402 Payment Required
    #[allow(non_snake_case)]
    pub fn PAYMENT_REQUIRED(t: T) -> (r: Ricksponse<T>)
        ensures
            spec_status_envelope(r, t, 402, "Payment Required"@),
    {
        Ricksponse::new_with_http_and_message(t, 402, "Payment Required")
    }

    /// 403 Forbidden
    #[allow(non_snake_case)]
    pub fn FORBIDDEN(t: T) -> (r: Ricksponse<T>)
        ensures
            spec_status_envelope(r, t, 403, "Forbidden"@),
    {
        Ricksponse::new_with_http_and_message(t, 403, "Forbidden")
    }

    /// 404 Not Found
    #[allow(non_snake_case)]
    pub fn NOT_FOUND(t: T) -> (r: Ricksponse<T>)
        ensures
            spec_status_envelope(r, t, 404, "Not Found"@),
    {
        Ricksponse::new_with_http_and_message(t, 404, "Not Found")
    }

    /// 405 Method Not Allowed
    #[allow(non_snake_case)]
    pub fn METHOD_NOT_ALLOWED(t: T) -> (r: Ricksponse<T>)
        ensures
            spec_status_envelope(r, t, 405, "Method Not Allowed"@),
    {
        Ricksponse::new_with_http_and_message(t, 405, "Method Not Allowed")
    }

    /// 406 Not Acceptable
    #[allow(non_snake_case)]
    pub fn NOT_ACCEPTABLE(t: T) -> (r: Ricksponse<T>)
        ensures
            spec_status_envelope(r, t, 406, "Not Acceptable"@),
    {
        Ricksponse::new_with_http_and_message(t, 406, "Not Acceptable")
    }

    /// 407 Proxy Authentication Required
    #[allow(non_snake_case)]
    pub fn PROXY_AUTHENTICATION_REQUIRED(t: T) -> (r: Ricksponse<T>)
        ensures
            spec_status_envelope(r, t, 407, "Proxy Authentication Required"@),
    {
        Ricksponse::new_with_http_and_message(t, 407, "Proxy Authentication Required")
    }

    /// 408 Request Timeout
    #[allow(non_snake_case)]
    pub fn REQUEST_TIMEOUT(t: T) -> (r: Ricksponse<T>)
        ensures
            spec_status_envelope(r, t, 408, "Request Timeout"@),
    {
        Ricksponse::new_with_http_and_message(t, 408, "Request Timeout")
    }

    /// 409 Conflict
    #[allow(non_snake_case)]
    pub fn CONFLICT(t: T) -> (r: Ricksponse<T>)
        ensures
            spec_status_envelope(r, t, 409, "Conflict"@),
    {
        Ricksponse::new_with_http_and_message(t, 409, "Conflict")
    }

    /// 410 Gone
    #[allow(non_snake_case)]
    pub fn GONE(t: T) -> (r: Ricksponse<T>)
        ensures
            spec_status_envelope(r, t, 410, "Gone"@),
    {
        Ricksponse::new_with_http_and_message(t, 410, "Gone")
    }

    /// 411 Length Required
    #[allow(non_snake_case)]
    pub fn LENGTH_REQUIRED(t: T) -> (r: Ricksponse<T>)
        ensures
            spec_status_envelope(r, t, 411, "Length Required"@),
    {
        Ricksponse::new_with_http_and_message(t, 411, "Length Required")
    }

    /// 412 Precondition Failed
    #[allow(non_snake_case)]
    pub fn PRECONDITION_FAILED(t: T) -> (r: Ricksponse<T>)
        ensures
            spec_status_envelope(r, t, 412, "Precondition Failed"@),
    {
        Ricksponse::new_with_http_and_message(t, 412, "Precondition Failed")
    }

    /// 413 Payload Too Large
    #[allow(non_snake_case)]
    pub fn PAYLOAD_TOO_LARGE(t: T) -> (r: Ricksponse<T>)
        ensures
            spec_status_envelope(r, t, 413, "Payload Too Large"@),
    {
        Ricksponse::new_with_http_and_message(t, 413, "Payload Too Large")
    }

    /// 414 URI Too Long
    #[allow(non_snake_case)]
    pub fn URI_TOO_LONG(t: T) -> (r: Ricksponse<T>)
        ensures
            spec_status_envelope(r, t, 414, "URI Too Long"@),
    {
        Ricksponse::new_with_http_and_message(t, 414, "URI Too Long")
    }

    /// 415 Unsupported Media Type
    #[allow(non_snake_case)]
    pub fn UNSUPPORTED_MEDIA_TYPE(t: T) -> (r: Ricksponse<T>)
        ensures
            spec_status_envelope(r, t, 415, "Unsupported Media Type"@),
    {
        Ricksponse::new_with_http_and_message(t, 415, "Unsupported Media Type")
    }

    /// 416 Range Not Satisfiable
    #[allow(non_snake_case)]
    pub fn RANGE_NOT_SATISFIABLE(t: T) -> (r: Ricksponse<T>)
        ensures
            spec_status_envelope(r, t, 416, "Range Not Satisfiable"@),
    {
        Ricksponse::new_with_http_and_message(t, 416, "Range Not Satisfiable")
    }

    /// 417 Expectation Failed
    #[allow(non_snake_case)]
    pub fn EXPECTATION_FAILED(t: T) -> (r: Ricksponse<T>)
        ensures
            spec_status_envelope(r, t, 417, "Expectation Failed"@),
    {
        Ricksponse::new_with_http_and_message(t, 417, "Expectation Failed")
    }

    /// 418 I'm a teapot
    #[allow(non_snake_case)]
    pub fn IM_A_TEAPOT(t: T) -> (r: Ricksponse<T>)
        ensures
            spec_status_envelope(r, t, 418, "I'm a teapot"@),
    {
        Ricksponse::new_with_http_and_message(t, 418, "I'm a teapot")
    }

    /// 421 Misdirected Request
    #[allow(non_snake_case)]
    pub fn MISDIRECTED_REQUEST(t: T) -> (r: Ricksponse<T>)
        ensures
            spec_status_envelope(r, t, 421, "Misdirected Request"@),
    {
        Ricksponse::new_with_http_and_message(t, 421, "Misdirected Request")
    }

    /// 422 Unprocessable Entity
    #[allow(non_snake_case)]
    pub fn UNPROCESSABLE_ENTITY(t: T) -> (r: Ricksponse<T>)
        ensures
            spec_status_envelope(r, t, 422, "Unprocessable Entity"@),
    {
        Ricksponse::new_with_http_and_message(t, 422, "Unprocessable Entity")
    }

    /// 423 Locked
    #[allow(non_snake_case)]
    pub fn LOCKED(t: T) -> (r: Ricksponse<T>)
        ensures
            spec_status_envelope(r, t, 423, "Locked"@),
    {
        Ricksponse::new_with_http_and_message(t, 423, "Locked")
    }

    /// 424 Failed Dependency
    #[allow(non_snake_case)]
    pub fn FAILED_DEPENDENCY(t: T) -> (r: Ricksponse<T>)
        ensures
            spec_status_envelope(r, t, 424, "Failed Dependency"@),
    {
        Ricksponse::new_with_http_and_message(t, 424, "Failed Dependency")
    }

    /// 426 Upgrade Required
    #[allow(non_snake_case)]
    pub fn UPGRADE_REQUIRED(t: T) -> (r: Ricksponse<T>)
        ensures
            spec_status_envelope(r, t, 426, "Upgrade Required"@),
    {
        Ricksponse::new_with_http_and_message(t, 426, "Upgrade Required")
    }

    /// 428 Precondition Required
    #[allow(non_snake_case)]
    pub fn PRECONDITION_REQUIRED(t: T) -> (r: Ricksponse<T>)
        ensures
            spec_status_envelope(r, t, 428, "Precondition Required"@),
    {
        Ricksponse::new_with_http_and_message(t, 428, "Precondition Required")
    }

    /// 429 Too Many Requests
    #[allow(non_snake_case)]
    pub fn TOO_MANY_REQUESTS(t: T) -> (r: Ricksponse<T>)
        ensures
            spec_status_envelope(r, t, 429, "Too Many Requests"@),
    {
        Ricksponse::new_with_http_and_message(t, 429, "Too Many Requests")
    }

    /// 431 Request Header Fields Too Large
    #[allow(non_snake_case)]
    pub fn REQUEST_HEADER_FIELDS_TOO_LARGE(t: T) -> (r: Ricksponse<T>)
        ensures
            spec_status_envelope(r, t, 431, "Request Header Fields Too Large"@),
    {
        Ricksponse::new_with_http_and_message(t, 431, "Request Header Fields Too Large")
    }

    /// 451 Unavailable For Legal Reasons
    #[allow(non_snake_case)]
    pub fn UNAVAILABLE_FOR_LEGAL_REASONS(t: T) -> (r: Ricksponse<T>)
        ensures
            spec_status_envelope(r, t, 451, "Unavailable For Legal Reasons"@),
    {
        Ricksponse::new_with_http_and_message(t, 451, "Unavailable For Legal Reasons")
    }

    /// 500 Internal Server Error
    #[allow(non_snake_case)]
    pub fn INTERNAL_SERVER_ERROR(t: T) -> (r: Ricksponse<T>)
        ensures
            spec_status_envelope(r, t, 500, "Internal Server Error"@),
    {
        Ricksponse::new_with_http_and_message(t, 500, "Internal Server Error")
    }

    /// 501 Not Implemented
    #[allow(non_snake_case)]
    pub fn NOT_IMPLEMENTED(t: T) -> (r: Ricksponse<T>)
        ensures
            spec_status_envelope(r, t, 501, "Not Implemented"@),
    {
        Ricksponse::new_with_http_and_message(t, 501, "Not Implemented")
    }

    /// 502 Bad Gateway
    #[allow(non_snake_case)]
    pub fn BAD_GATEWAY(t: T) -> (r: Ricksponse<T>)
        ensures
            spec_status_envelope(r, t, 502, "Bad Gateway"@),
    {
        Ricksponse::new_with_http_and_message(t, 502, "Bad Gateway")
    }

    /// 503 Service Unavailable
    #[allow(non_snake_case)]
    pub fn SERVICE_UNAVAILABLE(t: T) -> (r: Ricksponse<T>)
        ensures
            spec_status_envelope(r, t, 503, "Service Unavailable"@),
    {
        Ricksponse::new_with_http_and_message(t, 503, "Service Unavailable")
    }

    /// 504 Gateway Timeout
    #[allow(non_snake_case)]
    pub fn GATEWAY_TIMEOUT(t: T) -> (r: Ricksponse<T>)
        ensures
            spec_status_envelope(r, t, 504, "Gateway Timeout"@),
    {
        Ricksponse::new_with_http_and_message(t, 504, "Gateway Timeout")
    }

    /// 505 HTTP Version Not Supported
    #[allow(non_snake_case)]
    pub fn HTTP_VERSION_NOT_SUPPORTED(t: T) -> (r: Ricksponse<T>)
        ensures
            spec_status_envelope(r, t, 505, "HTTP Version Not Supported"@),
    {
        Ricksponse::new_with_http_and_message(t, 505, "HTTP Version Not Supported")
    }

    /// 506 Variant Also Negotiates
    #[allow(non_snake_case)]
    pub fn VARIANT_ALSO_NEGOTIATES(t: T) -> (r: Ricksponse<T>)
        ensures
            spec_status_envelope(r, t, 506, "Variant Also Negotiates"@),
    {
        Ricksponse::new_with_http_and_message(t, 506, "Variant Also Negotiates")
    }

    /// 507 Insufficient Storage
    #[allow(non_snake_case)]
    pub fn INSUFFICIENT_STORAGE(t: T) -> (r: Ricksponse<T>)
        ensures
            spec_status_envelope(r, t, 507, "Insufficient Storage"@),
    {
        Ricksponse::new_with_http_and_message(t, 507, "Insufficient Storage")
    }

    /// 508 Loop Detected
    #[allow(non_snake_case)]
    pub fn LOOP_DETECTED(t: T) -> (r: Ricksponse<T>)
        ensures
            spec_status_envelope(r, t, 508, "Loop Detected"@),
    {
        Ricksponse::new_with_http_and_message(t, 508, "Loop Detected")
    }

    /// 510 Not Extended
    #[allow(non_snake_case)]
    pub fn NOT_EXTENDED(t: T) -> (r: Ricksponse<T>)
        ensures
            spec_status_envelope(r, t, 510, "Not Extended"@),
    {
        Ricksponse::new_with_http_and_message(t, 510, "Not Extended")
    }

    /// 511 Network Authentication Required
    #[allow(non_snake_case)]
    pub fn NETWORK_AUTHENTICATION_REQUIRED(t: T) -> (r: Ricksponse<T>)
        ensures
            spec_status_envelope(r, t, 511, "Network Authentication Required"@),
    {
        Ricksponse::new_with_http_and_message(t, 511, "Network Authentication Required")
    }

}

impl<T> Response<T> {
    /// 100 Continue
    #[allow(non_snake_case)]
    pub fn CONTINUE(t: T) -> (r: Ricksponse<T>)
        ensures
            spec_status_envelope(r, t, 100, "Continue"@),
    {
        Ricksponse::CONTINUE(t)
    }

    /// 101 Switching Protocols
    #[allow(non_snake_case)]
    pub fn SWITCHING_PROTOCOLS(t: T) -> (r: Ricksponse<T>)
        ensures
            spec_status_envelope(r, t, 101, "Switching Protocols"@),
    {
        Ricksponse::SWITCHING_PROTOCOLS(t)
    }

    /// 102 Processing
    #[allow(non_snake_case)]
    pub fn PROCESSING(t: T) -> (r: Ricksponse<T>)
        ensures
            spec_status_envelope(r, t, 102, "Processing"@),
    {
        Ricksponse::PROCESSING(t)
    }

    /// 200 OK
    #[allow(non_snake_case)]
    pub fn OK(t: T) -> (r: Ricksponse<T>)
        ensures
            spec_status_envelope(r, t, 200, "OK"@),
    {
        Ricksponse::OK(t)
    }

    /// 201 Created
    #[allow(non_snake_case)]
    pub fn CREATED(t: T) -> (r: Ricksponse<T>)
        ensures
            spec_status_envelope(r, t, 201, "Created"@),
    {
        Ricksponse::CREATED(t)
    }

    /// 202 Accepted
    #[allow(non_snake_case)]
    pub fn ACCEPTED(t: T) -> (r: Ricksponse<T>)
        ensures
            spec_status_envelope(r, t, 202, "Accepted"@),
    {
        Ricksponse::ACCEPTED(t)
    }

    /// 203 Non Authoritative Information
    #[allow(non_snake_case)]
    pub fn NON_AUTHORITATIVE_INFORMATION(t: T) -> (r: Ricksponse<T>)
        ensures
            spec_status_envelope(r, t, 203, "Non Authoritative Information"@),
    {
        Ricksponse::NON_AUTHORITATIVE_INFORMATION(t)
    }

    /// 204 No Content
    #[allow(non_snake_case)]
    pub fn NO_CONTENT(t: T) -> (r: Ricksponse<T>)
        ensures
            spec_status_envelope(r, t, 204, "No Content"@),
    {
        Ricksponse::NO_CONTENT(t)
    }

    /// 205 Reset Content
    #[allow(non_snake_case)]
    pub fn RESET_CONTENT(t: T) -> (r: Ricksponse<T>)
        ensures
            spec_status_envelope(r, t, 205, "Reset Content"@),
    {
        Ricksponse::RESET_CONTENT(t)
    }

    /// 206 Partial Content
    #[allow(non_snake_case)]
    pub fn PARTIAL_CONTENT(t: T) -> (r: Ricksponse<T>)
        ensures
            spec_status_envelope(r, t, 206, "Partial Content"@),
    {
        Ricksponse::PARTIAL_CONTENT(t)
    }

    /// 207 Multi-Status
    #[allow(non_snake_case)]
    pub fn MULTI_STATUS(t: T) -> (r: Ricksponse<T>)
        ensures
            spec_status_envelope(r, t, 207, "Multi-Status"@),
    {
        Ricksponse::MULTI_STATUS(t)
    }

    /// 208 Already Reported
    #[allow(non_snake_case)]
    pub fn ALREADY_REPORTED(t: T) -> (r: Ricksponse<T>)
        ensures
            spec_status_envelope(r, t, 208, "Already Reported"@),
    {
        Ricksponse::ALREADY_REPORTED(t)
    }

    /// 226 IM Used
    #[allow(non_snake_case)]
    pub fn IM_USED(t: T) -> (r: Ricksponse<T>)
        ensures
            spec_status_envelope(r, t, 226, "IM Used"@),
    {
        Ricksponse::IM_USED(t)
    }

    /// 300 Multiple Choices
    #[allow(non_snake_case)]
    pub fn MULTIPLE_CHOICES(t: T) -> (r: Ricksponse<T>)
        ensures
            spec_status_envelope(r, t, 300, "Multiple Choices"@),
    {
        Ricksponse::MULTIPLE_CHOICES(t)
    }

    /// 301 Moved Permanently
    #[allow(non_snake_case)]
    pub fn MOVED_PERMANENTLY(t: T) -> (r: Ricksponse<T>)
        ensures
            spec_status_envelope(r, t, 301, "Moved Permanently"@),
    {
        Ricksponse::MOVED_PERMANENTLY(t)
    }

    /// 302 Found
    #[allow(non_snake_case)]
    pub fn FOUND(t: T) -> (r: Ricksponse<T>)
        ensures
            spec_status_envelope(r, t, 302, "Found"@),
    {
        Ricksponse::FOUND(t)
    }

    /// 303 See Other
    #[allow(non_snake_case)]
    pub fn SEE_OTHER(t: T) -> (r: Ricksponse<T>)
        ensures
            spec_status_envelope(r, t, 303, "See Other"@),
    {
        Ricksponse::SEE_OTHER(t)
    }

    /// 304 Not Modified
    #[allow(non_snake_case)]
    pub fn NOT_MODIFIED(t: T) -> (r: Ricksponse<T>)
        ensures
            spec_status_envelope(r, t, 304, "Not Modified"@),
    {
        Ricksponse::NOT_MODIFIED(t)
    }

    /// 305 Use Proxy
    #[allow(non_snake_case)]
    pub fn USE_PROXY(t: T) -> (r: Ricksponse<T>)
        ensures
            spec_status_envelope(r, t, 305, "Use Proxy"@),
    {
        Ricksponse::USE_PROXY(t)
    }

    /// 307 Temporary Redirect
    #[allow(non_snake_case)]
    pub fn TEMPORARY_REDIRECT(t: T) -> (r: Ricksponse<T>)
        ensures
            spec_status_envelope(r, t, 307, "Temporary Redirect"@),
    {
        Ricksponse::TEMPORARY_REDIRECT(t)
    }

    /// 308 Permanent Redirect
    #[allow(non_snake_case)]
    pub fn PERMANENT_REDIRECT(t: T) -> (r: Ricksponse<T>)
        ensures
            spec_status_envelope(r, t, 308, "Permanent Redirect"@),
    {
        Ricksponse::PERMANENT_REDIRECT(t)
    }

    /// 400 Bad Request
    #[allow(non_snake_case)]
    pub fn BAD_REQUEST(t: T) -> (r: Ricksponse<T>)
        ensures
            spec_status_envelope(r, t, 400, "Bad Request"@),
    {
        Ricksponse::BAD_REQUEST(t)
    }

    /// 401 Unauthorized
    #[allow(non_snake_case)]
    pub fn UNAUTHORIZED(t: T) -> (r: Ricksponse<T>)
        ensures
            spec_status_envelope(r, t, 401, "Unauthorized"@),
    {
        Ricksponse::UNAUTHORIZED(t)
    }

    /// 402 Payment Required
    #[allow(non_snake_case)]
    pub fn PAYMENT_REQUIRED(t: T) -> (r: Ricksponse<T>)
        ensures
            spec_status_envelope(r, t, 402, "Payment Required"@),
    {
        Ricksponse::PAYMENT_REQUIRED(t)
    }

    /// 403 Forbidden
    #[allow(non_snake_case)]
    pub fn FORBIDDEN(t: T) -> (r: Ricksponse<T>)
        ensures
            spec_status_envelope(r, t, 403, "Forbidden"@),
    {
        Ricksponse::FORBIDDEN(t)
    }

    /// 404 Not Found
    #[allow(non_snake_case)]
    pub fn NOT_FOUND(t: T) -> (r: Ricksponse<T>)
        ensures
            spec_status_envelope(r, t, 404, "Not Found"@),
    {
        Ricksponse::NOT_FOUND(t)
    }

    /// 405 Method Not Allowed
    #[allow(non_snake_case)]
    pub fn METHOD_NOT_ALLOWED(t: T) -> (r: Ricksponse<T>)
        ensures
            spec_status_envelope(r, t, 405, "Method Not Allowed"@),
    {
        Ricksponse::METHOD_NOT_ALLOWED(t)
    }

    /// 406 Not Acceptable
    #[allow(non_snake_case)]
    pub fn NOT_ACCEPTABLE(t: T) -> (r: Ricksponse<T>)
        ensures
            spec_status_envelope(r, t, 406, "Not Acceptable"@),
    {
        Ricksponse::NOT_ACCEPTABLE(t)
    }

    /// 407 Proxy Authentication Required
    #[allow(non_snake_case)]
    pub fn PROXY_AUTHENTICATION_REQUIRED(t: T) -> (r: Ricksponse<T>)
        ensures
            spec_status_envelope(r, t, 407, "Proxy Authentication Required"@),
    {
        Ricksponse::PROXY_AUTHENTICATION_REQUIRED(t)
    }

    /// 408 Request Timeout
    #[allow(non_snake_case)]
    pub fn REQUEST_TIMEOUT(t: T) -> (r: Ricksponse<T>)
        ensures
            spec_status_envelope(r, t, 408, "Request Timeout"@),
    {
        Ricksponse::REQUEST_TIMEOUT(t)
    }

    /// 409 Conflict
    #[allow(non_snake_case)]
    pub fn CONFLICT(t: T) -> (r: Ricksponse<T>)
        ensures
            spec_status_envelope(r, t, 409, "Conflict"@),
    {
        Ricksponse::CONFLICT(t)
    }

    /// 410 Gone
    #[allow(non_snake_case)]
    pub fn GONE(t: T) -> (r: Ricksponse<T>)
        ensures
            spec_status_envelope(r, t, 410, "Gone"@),
    {
        Ricksponse::GONE(t)
    }

    /// 411 Length Required
    #[allow(non_snake_case)]
    pub fn LENGTH_REQUIRED(t: T) -> (r: Ricksponse<T>)
        ensures
            spec_status_envelope(r, t, 411, "Length Required"@),
    {
        Ricksponse::LENGTH_REQUIRED(t)
    }

    /// 412 Precondition Failed
    #[allow(non_snake_case)]
    pub fn PRECONDITION_FAILED(t: T) -> (r: Ricksponse<T>)
        ensures
            spec_status_envelope(r, t, 412, "Precondition Failed"@),
    {
        Ricksponse::PRECONDITION_FAILED(t)
    }

    /// 413 Payload Too Large
    #[allow(non_snake_case)]
    pub fn PAYLOAD_TOO_LARGE(t: T) -> (r: Ricksponse<T>)
        ensures
            spec_status_envelope(r, t, 413, "Payload Too Large"@),
    {
        Ricksponse::PAYLOAD_TOO_LARGE(t)
    }

    /// 414 URI Too Long
    #[allow(non_snake_case)]
    pub fn URI_TOO_LONG(t: T) -> (r: Ricksponse<T>)
        ensures
            spec_status_envelope(r, t, 414, "URI Too Long"@),
    {
        Ricksponse::URI_TOO_LONG(t)
    }

    /// 415 Unsupported Media Type
    #[allow(non_snake_case)]
    pub fn UNSUPPORTED_MEDIA_TYPE(t: T) -> (r: Ricksponse<T>)
        ensures
            spec_status_envelope(r, t, 415, "Unsupported Media Type"@),
    {
        Ricksponse::UNSUPPORTED_MEDIA_TYPE(t)
    }

    /// 416 Range Not Satisfiable
    #[allow(non_snake_case)]
    pub fn RANGE_NOT_SATISFIABLE(t: T) -> (r: Ricksponse<T>)
        ensures
            spec_status_envelope(r, t, 416, "Range Not Satisfiable"@),
    {
        Ricksponse::RANGE_NOT_SATISFIABLE(t)
    }

    /// 417 Expectation Failed
    #[allow(non_snake_case)]
    pub fn EXPECTATION_FAILED(t: T) -> (r: Ricksponse<T>)
        ensures
            spec_status_envelope(r, t, 417, "Expectation Failed"@),
    {
        Ricksponse::EXPECTATION_FAILED(t)
    }

    /// 418 I'm a teapot
    #[allow(non_snake_case)]
    pub fn IM_A_TEAPOT(t: T) -> (r: Ricksponse<T>)
        ensures
            spec_status_envelope(r, t, 418, "I'm a teapot"@),
    {
        Ricksponse::IM_A_TEAPOT(t)
    }

    /// 421 Misdirected Request
    #[allow(non_snake_case)]
    pub fn MISDIRECTED_REQUEST(t: T) -> (r: Ricksponse<T>)
        ensures
            spec_status_envelope(r, t, 421, "Misdirected Request"@),
    {
        Ricksponse::MISDIRECTED_REQUEST(t)
    }

    /// 422 Unprocessable Entity
    #[allow(non_snake_case)]
    pub fn UNPROCESSABLE_ENTITY(t: T) -> (r: Ricksponse<T>)
        ensures
            spec_status_envelope(r, t, 422, "Unprocessable Entity"@),
    {
        Ricksponse::UNPROCESSABLE_ENTITY(t)
    }

    /// 423 Locked
    #[allow(non_snake_case)]
    pub fn LOCKED(t: T) -> (r: Ricksponse<T>)
        ensures
            spec_status_envelope(r, t, 423, "Locked"@),
    {
        Ricksponse::LOCKED(t)
    }

    /// 424 Failed Dependency
    #[allow(non_snake_case)]
    pub fn FAILED_DEPENDENCY(t: T) -> (r: Ricksponse<T>)
        ensures
            spec_status_envelope(r, t, 424, "Failed Dependency"@),
    {
        Ricksponse::FAILED_DEPENDENCY(t)
    }

    /// 426 Upgrade Required
    #[allow(non_snake_case)]
    pub fn UPGRADE_REQUIRED(t: T) -> (r: Ricksponse<T>)
        ensures
            spec_status_envelope(r, t, 426, "Upgrade Required"@),
    {
        Ricksponse::UPGRADE_REQUIRED(t)
    }

    /// 428 Precondition Required
    #[allow(non_snake_case)]
    pub fn PRECONDITION_REQUIRED(t: T) -> (r: Ricksponse<T>)
        ensures
            spec_status_envelope(r, t, 428, "Precondition Required"@),
    {
        Ricksponse::PRECONDITION_REQUIRED(t)
    }

    /// 429 Too Many Requests
    #[allow(non_snake_case)]
    pub fn TOO_MANY_REQUESTS(t: T) -> (r: Ricksponse<T>)
        ensures
            spec_status_envelope(r, t, 429, "Too Many Requests"@),
    {
        Ricksponse::TOO_MANY_REQUESTS(t)
    }

    /// 431 Request Header Fields Too Large
    #[allow(non_snake_case)]
    pub fn REQUEST_HEADER_FIELDS_TOO_LARGE(t: T) -> (r: Ricksponse<T>)
        ensures
            spec_status_envelope(r, t, 431, "Request Header Fields Too Large"@),
    {
        Ricksponse::REQUEST_HEADER_FIELDS_TOO_LARGE(t)
    }

    /// 451 Unavailable For Legal Reasons
    #[allow(non_snake_case)]
    pub fn UNAVAILABLE_FOR_LEGAL_REASONS(t: T) -> (r: Ricksponse<T>)
        ensures
            spec_status_envelope(r, t, 451, "Unavailable For Legal Reasons"@),
    {
        Ricksponse::UNAVAILABLE_FOR_LEGAL_REASONS(t)
    }

    /// 500 Internal Server Error
    #[allow(non_snake_case)]
    pub fn INTERNAL_SERVER_ERROR(t: T) -> (r: Ricksponse<T>)
        ensures
            spec_status_envelope(r, t, 500, "Internal Server Error"@),
    {
        Ricksponse::INTERNAL_SERVER_ERROR(t)
    }

    /// 501 Not Implemented
    #[allow(non_snake_case)]
    pub fn NOT_IMPLEMENTED(t: T) -> (r: Ricksponse<T>)
        ensures
            spec_status_envelope(r, t, 501, "Not Implemented"@),
    {
        Ricksponse::NOT_IMPLEMENTED(t)
    }

    /// 502 Bad Gateway
    #[allow(non_snake_case)]
    pub fn BAD_GATEWAY(t: T) -> (r: Ricksponse<T>)
        ensures
            spec_status_envelope(r, t, 502, "Bad Gateway"@),
    {
        Ricksponse::BAD_GATEWAY(t)
    }

    /// 503 Service Unavailable
    #[allow(non_snake_case)]
    pub fn SERVICE_UNAVAILABLE(t: T) -> (r: Ricksponse<T>)
        ensures
            spec_status_envelope(r, t, 503, "Service Unavailable"@),
    {
        Ricksponse::SERVICE_UNAVAILABLE(t)
    }

    /// 504 Gateway Timeout
    #[allow(non_snake_case)]
    pub fn GATEWAY_TIMEOUT(t: T) -> (r: Ricksponse<T>)
        ensures
            spec_status_envelope(r, t, 504, "Gateway Timeout"@),
    {
        Ricksponse::GATEWAY_TIMEOUT(t)
    }

    /// 505 HTTP Version Not Supported
    #[allow(non_snake_case)]
    pub fn HTTP_VERSION_NOT_SUPPORTED(t: T) -> (r: Ricksponse<T>)
        ensures
            spec_status_envelope(r, t, 505, "HTTP Version Not Supported"@),
    {
        Ricksponse::HTTP_VERSION_NOT_SUPPORTED(t)
    }

    /// 506 Variant Also Negotiates
    #[allow(non_snake_case)]
    pub fn VARIANT_ALSO_NEGOTIATES(t: T) -> (r: Ricksponse<T>)
        ensures
            spec_status_envelope(r, t, 506, "Variant Also Negotiates"@),
    {
        Ricksponse::VARIANT_ALSO_NEGOTIATES(t)
    }

    /// 507 Insufficient Storage
    #[allow(non_snake_case)]
    pub fn INSUFFICIENT_STORAGE(t: T) -> (r: Ricksponse<T>)
        ensures
            spec_status_envelope(r, t, 507, "Insufficient Storage"@),
    {
        Ricksponse::INSUFFICIENT_STORAGE(t)
    }

    /// 508 Loop Detected
    #[allow(non_snake_case)]
    pub fn LOOP_DETECTED(t: T) -> (r: Ricksponse<T>)
        ensures
            spec_status_envelope(r, t, 508, "Loop Detected"@),
    {
        Ricksponse::LOOP_DETECTED(t)
    }

    /// 510 Not Extended
    #[allow(non_snake_case)]
    pub fn NOT_EXTENDED(t: T) -> (r: Ricksponse<T>)
        ensures
            spec_status_envelope(r, t, 510, "Not Extended"@),
    {
        Ricksponse::NOT_EXTENDED(t)
    }

    /// 511 Network Authentication Required
    #[allow(non_snake_case)]
    pub fn NETWORK_AUTHENTICATION_REQUIRED(t: T) -> (r: Ricksponse<T>)
        ensures
            spec_status_envelope(r, t, 511, "Network Authentication Required"@),
    {
        Ricksponse::NETWORK_AUTHENTICATION_REQUIRED(t)
    }

}

} // verus!
