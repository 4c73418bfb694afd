//! HTTP response status codes as a closed, verified enumeration.
//!
//! Every status code registered by the RFCs is a named variant of
//! [`StatusCode`]; any other number is carried losslessly by
//! `StatusCode::Unknown`. All operations are total, pure and panic-free,
//! and each one carries a contract tying it to the registry table
//! written out as spec functions.

use vstd::prelude::*;

mod display;
mod laws;

pub use display::spec_dec_digits;
pub use display::spec_digit_char;
pub use laws::is_dec_digit;
pub use laws::lemma_class_follows_range_table;
pub use laws::lemma_dec_digits_are_digits;
pub use laws::lemma_display_well_spaced;
pub use laws::lemma_reason_phrase_empty_iff_unknown;
pub use laws::lemma_reason_phrase_wf;
pub use laws::lemma_registered_round_trip;
pub use laws::lemma_unregistered_is_unknown;
pub use laws::no_double_space;
pub use laws::no_trailing_space;
pub use laws::phrase_wf;

verus! {

/// An HTTP status code: one named variant per registered code, plus
/// `Unknown`, which stores an unregistered number verbatim.
#[derive(Debug, Eq, PartialEq, Ord, PartialOrd, Clone, Hash, Structural)]
pub enum StatusCode {
    /// 100 Continue (RFC 7231)
    Continue,
    /// 101 Switching Protocols (RFC 7231)
    SwitchingProtocols,
    /// 102 Processing (RFC 2518)
    Processing,
    /// 103 Early Hints (RFC 8297)
    EarlyHints,
    /// 200 OK (RFC 7231)
    Okay,
    /// 201 Created (RFC 7231)
    Created,
    /// 202 Accepted (RFC 7231)
    Accepted,
    /// 203 Non-Authoritative Information (RFC 7231)
    NonAuthoritativeInformation,
    /// 204 No Content (RFC 7231)
    NoContent,
    /// 205 Reset Content (RFC 7231)
    ResetContent,
    /// 206 Partial Content (RFC 7233)
    PartialContent,
    /// 207 Multi-Status (RFC 4918)
    MultiStatus,
    /// 208 Already Reported (RFC 5842)
    AlreadyReported,
    /// 226 IM Used (RFC 3229)
    IMUsed,
    /// 300 Multiple Choices (RFC 7231)
    MultipleChoices,
    /// 301 Moved Permanently (RFC 7231)
    MovedPermanently,
    /// 302 Found (RFC 7231)
    Found,
    /// 303 See Other (RFC 7231)
    SeeOther,
    /// 304 Not Modified (RFC 7232)
    NotModified,
    /// 305 Use Proxy (RFC 7231)
    UseProxy,
    /// 306 Switch Proxy (RFC 7231)
    SwitchProxy,
    /// 307 Temporary Redirect (RFC 7231)
    TemporaryRedirect,
    /// 308 Permanent Redirect (RFC 7538)
    PermanentRedirect,
    /// 400 Bad Request (RFC 7231)
    BadRequest,
    /// 401 Unauthorized (RFC 7235)
    Unauthorized,
    /// 402 Payment Required (RFC 7231)
    PaymentRequired,
    /// 403 Forbidden (RFC 7231)
    Forbidden,
    /// 404 Not Found (RFC 7231)
    NotFound,
    /// 405 Method Not Allowed (RFC 7231)
    MethodNotAllowed,
    /// 406 Not Acceptable (RFC 7231)
    NotAcceptable,
    /// 407 Proxy Authentication Required (RFC 7235)
    ProxyAuthenticationRequired,
    /// 408 Request Timeout (RFC 7231)
    RequestTimeout,
    /// 409 Conflict (RFC 7231)
    Conflict,
    /// 410 Gone (RFC 7231)
    Gone,
    /// 411 Length Required (RFC 7231)
    LengthRequired,
    /// 412 Precondition Failed (RFC 7232)
    PreconditionFailed,
    /// 413 Payload Too Large (RFC 7231)
    PayloadTooLarge,
    /// 414 URI Too Long (RFC 7231)
    UriTooLong,
    /// 415 Unsupported Media Type (RFC 7231)
    UnsupportedMediaType,
    /// 416 Range Not Satisfiable (RFC 7233)
    RangeNotSatisfiable,
    /// 417 Expectation Failed (RFC 7231)
    ExpectationFailed,
    /// 418 I'm a teapot (RFC 2324)
    ImATeapot,
    /// 421 Misdirected Request (RFC 7540)
    MisdirectedRequest,
    /// 422 Unprocessable Entity (RFC 4918)
    UnprocessableEntity,
    /// 423 Locked (RFC 4918)
    Locked,
    /// 424 Failed Dependency (RFC 4918)
    FailedDependency,
    /// 426 Upgrade Required (RFC 7231)
    UpgradeRequired,
    /// 428 Precondition Required (RFC 6585)
    PreconditionRequired,
    /// 429 Too Many Requests (RFC 6585)
    TooManyRequests,
    /// 431 Request Header Fields Too Large (RFC 6585)
    RequestHeaderFieldsTooLarge,
    /// 451 Unavailable For Legal Reasons (RFC 7725)
    UnavailableForLegalReasons,
    /// 500 Internal Server Error (RFC 7231)
    InternalServerError,
    /// 501 Not Implemented (RFC 7231)
    NotImplemented,
    /// 502 Bad Gateway (RFC 7231)
    BadGateway,
    /// 503 Service Unavailable (RFC 7231)
    ServiceUnavailable,
    /// 504 Gateway Timeout (RFC 7231)
    GatewayTimeout,
    /// 505 HTTP Version Not Supported (RFC 7231)
    HttpVersionNotSupported,
    /// 506 Variant Also Negotiates (RFC 2295)
    VariantAlsoNegotiates,
    /// 507 Insufficient Storage (RFC 4918)
    InsufficientStorage,
    /// 508 Loop Detected (RFC 5842)
    LoopDetected,
    /// 510 Not Extended (RFC 2774)
    NotExtended,
    /// 511 Network Authentication Required (RFC 6585)
    NetworkAuthenticationRequired,
    /// A status code outside the registered table, kept verbatim
    Unknown(u16),
}

/// The coarse class of a status code: its hundreds digit, or `Unknown`
/// for numbers outside the conventional 100..=599 range.
#[derive(Debug, Eq, PartialEq, Ord, PartialOrd, Clone, Hash, Structural)]
pub enum StatusClass {
    /// 1xx Informational
    Informational,
    /// 2xx Success
    Success,
    /// 3xx Redirection
    Redirection,
    /// 4xx Client errors
    ClientError,
    /// 5xx Server errors
    ServerError,
    /// Outside the five conventional ranges
    Unknown,
}

impl StatusCode {
    /// The registered number of each named variant; the stored number of
    /// `Unknown`. This table is the registry's source of truth for the
    /// whole crate.
    pub open spec fn spec_code(self) -> u16 {
        match self {
            StatusCode::Continue => 100,
            StatusCode::SwitchingProtocols => 101,
            StatusCode::Processing => 102,
            StatusCode::EarlyHints => 103,
            StatusCode::Okay => 200,
            StatusCode::Created => 201,
            StatusCode::Accepted => 202,
            StatusCode::NonAuthoritativeInformation => 203,
            StatusCode::NoContent => 204,
            StatusCode::ResetContent => 205,
            StatusCode::PartialContent => 206,
            StatusCode::MultiStatus => 207,
            StatusCode::AlreadyReported => 208,
            StatusCode::IMUsed => 226,
            StatusCode::MultipleChoices => 300,
            StatusCode::MovedPermanently => 301,
            StatusCode::Found => 302,
            StatusCode::SeeOther => 303,
            StatusCode::NotModified => 304,
            StatusCode::UseProxy => 305,
            StatusCode::SwitchProxy => 306,
            StatusCode::TemporaryRedirect => 307,
            StatusCode::PermanentRedirect => 308,
            StatusCode::BadRequest => 400,
            StatusCode::Unauthorized => 401,
            StatusCode::PaymentRequired => 402,
            StatusCode::Forbidden => 403,
            StatusCode::NotFound => 404,
            StatusCode::MethodNotAllowed => 405,
            StatusCode::NotAcceptable => 406,
            StatusCode::ProxyAuthenticationRequired => 407,
            StatusCode::RequestTimeout => 408,
            StatusCode::Conflict => 409,
            StatusCode::Gone => 410,
            StatusCode::LengthRequired => 411,
            StatusCode::PreconditionFailed => 412,
            StatusCode::PayloadTooLarge => 413,
            StatusCode::UriTooLong => 414,
            StatusCode::UnsupportedMediaType => 415,
            StatusCode::RangeNotSatisfiable => 416,
            StatusCode::ExpectationFailed => 417,
            StatusCode::ImATeapot => 418,
            StatusCode::MisdirectedRequest => 421,
            StatusCode::UnprocessableEntity => 422,
            StatusCode::Locked => 423,
            StatusCode::FailedDependency => 424,
            StatusCode::UpgradeRequired => 426,
            StatusCode::PreconditionRequired => 428,
            StatusCode::TooManyRequests => 429,
            StatusCode::RequestHeaderFieldsTooLarge => 431,
            StatusCode::UnavailableForLegalReasons => 451,
            StatusCode::InternalServerError => 500,
            StatusCode::NotImplemented => 501,
            StatusCode::BadGateway => 502,
            StatusCode::ServiceUnavailable => 503,
            StatusCode::GatewayTimeout => 504,
            StatusCode::HttpVersionNotSupported => 505,
            StatusCode::VariantAlsoNegotiates => 506,
            StatusCode::InsufficientStorage => 507,
            StatusCode::LoopDetected => 508,
            StatusCode::NotExtended => 510,
            StatusCode::NetworkAuthenticationRequired => 511,
            StatusCode::Unknown(code) => code,
        }
    }

    /// Returns the numeric status code.
    #[inline]
    pub fn as_u16(&self) -> (code: u16)
        ensures
            code == self.spec_code(),
    {
        match *self {
            StatusCode::Continue => 100,
            StatusCode::SwitchingProtocols => 101,
            StatusCode::Processing => 102,
            StatusCode::EarlyHints => 103,
            StatusCode::Okay => 200,
            StatusCode::Created => 201,
            StatusCode::Accepted => 202,
            StatusCode::NonAuthoritativeInformation => 203,
            StatusCode::NoContent => 204,
            StatusCode::ResetContent => 205,
            StatusCode::PartialContent => 206,
            StatusCode::MultiStatus => 207,
            StatusCode::AlreadyReported => 208,
            StatusCode::IMUsed => 226,
            StatusCode::MultipleChoices => 300,
            StatusCode::MovedPermanently => 301,
            StatusCode::Found => 302,
            StatusCode::SeeOther => 303,
            StatusCode::NotModified => 304,
            StatusCode::UseProxy => 305,
            StatusCode::SwitchProxy => 306,
            StatusCode::TemporaryRedirect => 307,
            StatusCode::PermanentRedirect => 308,
            StatusCode::BadRequest => 400,
            StatusCode::Unauthorized => 401,
            StatusCode::PaymentRequired => 402,
            StatusCode::Forbidden => 403,
            StatusCode::NotFound => 404,
            StatusCode::MethodNotAllowed => 405,
            StatusCode::NotAcceptable => 406,
            StatusCode::ProxyAuthenticationRequired => 407,
            StatusCode::RequestTimeout => 408,
            StatusCode::Conflict => 409,
            StatusCode::Gone => 410,
            StatusCode::LengthRequired => 411,
            StatusCode::PreconditionFailed => 412,
            StatusCode::PayloadTooLarge => 413,
            StatusCode::UriTooLong => 414,
            StatusCode::UnsupportedMediaType => 415,
            StatusCode::RangeNotSatisfiable => 416,
            StatusCode::ExpectationFailed => 417,
            StatusCode::ImATeapot => 418,
            StatusCode::MisdirectedRequest => 421,
            StatusCode::UnprocessableEntity => 422,
            StatusCode::Locked => 423,
            StatusCode::FailedDependency => 424,
            StatusCode::UpgradeRequired => 426,
            StatusCode::PreconditionRequired => 428,
            StatusCode::TooManyRequests => 429,
            StatusCode::RequestHeaderFieldsTooLarge => 431,
            StatusCode::UnavailableForLegalReasons => 451,
            StatusCode::InternalServerError => 500,
            StatusCode::NotImplemented => 501,
            StatusCode::BadGateway => 502,
            StatusCode::ServiceUnavailable => 503,
            StatusCode::GatewayTimeout => 504,
            StatusCode::HttpVersionNotSupported => 505,
            StatusCode::VariantAlsoNegotiates => 506,
            StatusCode::InsufficientStorage => 507,
            StatusCode::LoopDetected => 508,
            StatusCode::NotExtended => 510,
            StatusCode::NetworkAuthenticationRequired => 511,
            StatusCode::Unknown(code) => code,
        }
    }

    /// The registered reason phrase of each named variant; the empty
    /// sequence for `Unknown`, deliberately: no phrase is synthesized
    /// for a code outside the table.
    pub open spec fn spec_reason(self) -> Seq<char> {
        match self {
            StatusCode::Continue => "Continue"@,
            StatusCode::SwitchingProtocols => "Switching Protocols"@,
            StatusCode::Processing => "Processing"@,
            StatusCode::EarlyHints => "Early Hints"@,
            StatusCode::Okay => "OK"@,
            StatusCode::Created => "Created"@,
            StatusCode::Accepted => "Accepted"@,
            StatusCode::NonAuthoritativeInformation => "Non-Authoritative Information"@,
            StatusCode::NoContent => "No Content"@,
            StatusCode::ResetContent => "Reset Content"@,
            StatusCode::PartialContent => "Partial Content"@,
            StatusCode::MultiStatus => "Multi-Status"@,
            StatusCode::AlreadyReported => "Already Reported"@,
            StatusCode::IMUsed => "IM Used"@,
            StatusCode::MultipleChoices => "Multiple Choices"@,
            StatusCode::MovedPermanently => "Moved Permanently"@,
            StatusCode::Found => "Found"@,
            StatusCode::SeeOther => "See Other"@,
            StatusCode::NotModified => "Not Modified"@,
            StatusCode::UseProxy => "Use Proxy"@,
            StatusCode::SwitchProxy => "Switch Proxy"@,
            StatusCode::TemporaryRedirect => "Temporary Redirect"@,
            StatusCode::PermanentRedirect => "Permanent Redirect"@,
            StatusCode::BadRequest => "Bad Request"@,
            StatusCode::Unauthorized => "Unauthorized"@,
            StatusCode::PaymentRequired => "Payment Required"@,
            StatusCode::Forbidden => "Forbidden"@,
            StatusCode::NotFound => "Not Found"@,
            StatusCode::MethodNotAllowed => "Method Not Allowed"@,
            StatusCode::NotAcceptable => "Not Acceptable"@,
            StatusCode::ProxyAuthenticationRequired => "Proxy Authentication Required"@,
            StatusCode::RequestTimeout => "Request Timeout"@,
            StatusCode::Conflict => "Conflict"@,
            StatusCode::Gone => "Gone"@,
            StatusCode::LengthRequired => "Length Required"@,
            StatusCode::PreconditionFailed => "Precondition Failed"@,
            StatusCode::PayloadTooLarge => "Payload Too Large"@,
            StatusCode::UriTooLong => "URI Too Long"@,
            StatusCode::UnsupportedMediaType => "Unsupported Media Type"@,
            StatusCode::RangeNotSatisfiable => "Range Not Satisfiable"@,
            StatusCode::ExpectationFailed => "Expectation Failed"@,
            StatusCode::ImATeapot => "I'm a teapot"@,
            StatusCode::MisdirectedRequest => "Misdirected Request"@,
            StatusCode::UnprocessableEntity => "Unprocessable Entity"@,
            StatusCode::Locked => "Locked"@,
            StatusCode::FailedDependency => "Failed Dependency"@,
            StatusCode::UpgradeRequired => "Upgrade Required"@,
            StatusCode::PreconditionRequired => "Precondition Required"@,
            StatusCode::TooManyRequests => "Too Many Requests"@,
            StatusCode::RequestHeaderFieldsTooLarge => "Request Header Fields Too Large"@,
            StatusCode::UnavailableForLegalReasons => "Unavailable For Legal Reasons"@,
            StatusCode::InternalServerError => "Internal Server Error"@,
            StatusCode::NotImplemented => "Not Implemented"@,
            StatusCode::BadGateway => "Bad Gateway"@,
            StatusCode::ServiceUnavailable => "Service Unavailable"@,
            StatusCode::GatewayTimeout => "Gateway Timeout"@,
            StatusCode::HttpVersionNotSupported => "HTTP Version Not Supported"@,
            StatusCode::VariantAlsoNegotiates => "Variant Also Negotiates"@,
            StatusCode::InsufficientStorage => "Insufficient Storage"@,
            StatusCode::LoopDetected => "Loop Detected"@,
            StatusCode::NotExtended => "Not Extended"@,
            StatusCode::NetworkAuthenticationRequired => "Network Authentication Required"@,
            StatusCode::Unknown(_) => ""@,
        }
    }

    /// Returns the reason phrase of the status code; the empty string for
    /// `Unknown`.
    #[inline]
    pub fn reason_phrase(&self) -> (phrase: &'static str)
        ensures
            phrase@ == self.spec_reason(),
    {
        match *self {
            StatusCode::Continue => "Continue",
            StatusCode::SwitchingProtocols => "Switching Protocols",
            StatusCode::Processing => "Processing",
            StatusCode::EarlyHints => "Early Hints",
            StatusCode::Okay => "OK",
            StatusCode::Created => "Created",
            StatusCode::Accepted => "Accepted",
            StatusCode::NonAuthoritativeInformation => "Non-Authoritative Information",
            StatusCode::NoContent => "No Content",
            StatusCode::ResetContent => "Reset Content",
            StatusCode::PartialContent => "Partial Content",
            StatusCode::MultiStatus => "Multi-Status",
            StatusCode::AlreadyReported => "Already Reported",
            StatusCode::IMUsed => "IM Used",
            StatusCode::MultipleChoices => "Multiple Choices",
            StatusCode::MovedPermanently => "Moved Permanently",
            StatusCode::Found => "Found",
            StatusCode::SeeOther => "See Other",
            StatusCode::NotModified => "Not Modified",
            StatusCode::UseProxy => "Use Proxy",
            StatusCode::SwitchProxy => "Switch Proxy",
            StatusCode::TemporaryRedirect => "Temporary Redirect",
            StatusCode::PermanentRedirect => "Permanent Redirect",
            StatusCode::BadRequest => "Bad Request",
            StatusCode::Unauthorized => "Unauthorized",
            StatusCode::PaymentRequired => "Payment Required",
            StatusCode::Forbidden => "Forbidden",
            StatusCode::NotFound => "Not Found",
            StatusCode::MethodNotAllowed => "Method Not Allowed",
            StatusCode::NotAcceptable => "Not Acceptable",
            StatusCode::ProxyAuthenticationRequired => "Proxy Authentication Required",
            StatusCode::RequestTimeout => "Request Timeout",
            StatusCode::Conflict => "Conflict",
            StatusCode::Gone => "Gone",
            StatusCode::LengthRequired => "Length Required",
            StatusCode::PreconditionFailed => "Precondition Failed",
            StatusCode::PayloadTooLarge => "Payload Too Large",
            StatusCode::UriTooLong => "URI Too Long",
            StatusCode::UnsupportedMediaType => "Unsupported Media Type",
            StatusCode::RangeNotSatisfiable => "Range Not Satisfiable",
            StatusCode::ExpectationFailed => "Expectation Failed",
            StatusCode::ImATeapot => "I'm a teapot",
            StatusCode::MisdirectedRequest => "Misdirected Request",
            StatusCode::UnprocessableEntity => "Unprocessable Entity",
            StatusCode::Locked => "Locked",
            StatusCode::FailedDependency => "Failed Dependency",
            StatusCode::UpgradeRequired => "Upgrade Required",
            StatusCode::PreconditionRequired => "Precondition Required",
            StatusCode::TooManyRequests => "Too Many Requests",
            StatusCode::RequestHeaderFieldsTooLarge => "Request Header Fields Too Large",
            StatusCode::UnavailableForLegalReasons => "Unavailable For Legal Reasons",
            StatusCode::InternalServerError => "Internal Server Error",
            StatusCode::NotImplemented => "Not Implemented",
            StatusCode::BadGateway => "Bad Gateway",
            StatusCode::ServiceUnavailable => "Service Unavailable",
            StatusCode::GatewayTimeout => "Gateway Timeout",
            StatusCode::HttpVersionNotSupported => "HTTP Version Not Supported",
            StatusCode::VariantAlsoNegotiates => "Variant Also Negotiates",
            StatusCode::InsufficientStorage => "Insufficient Storage",
            StatusCode::LoopDetected => "Loop Detected",
            StatusCode::NotExtended => "Not Extended",
            StatusCode::NetworkAuthenticationRequired => "Network Authentication Required",
            StatusCode::Unknown(_) => "",
        }
    }

    /// The class of the status code, bucketed by half-open ranges over its
    /// number: 100..=199 informational, 200..=299 success, 300..=399
    /// redirection, 400..=499 client error, 500..=599 server error, and
    /// everything else (below 100 or above 599) unknown.
    pub open spec fn spec_class(self) -> StatusClass {
        spec_class_of_code(self.spec_code())
    }

    /// Returns the status class of the status code.
    #[inline]
    pub fn class(&self) -> (class: StatusClass)
        ensures
            class == self.spec_class(),
    {
        let code = self.as_u16();
        if 100 <= code && code <= 199 {
            StatusClass::Informational
        } else if 200 <= code && code <= 299 {
            StatusClass::Success
        } else if 300 <= code && code <= 399 {
            StatusClass::Redirection
        } else if 400 <= code && code <= 499 {
            StatusClass::ClientError
        } else if 500 <= code && code <= 599 {
            StatusClass::ServerError
        } else {
            StatusClass::Unknown
        }
    }

    /// The named variant registered for `code`, or `Unknown(code)` where
    /// no variant is registered for it.
    pub open spec fn spec_from(code: u16) -> StatusCode {
        match code {
            100u16 => StatusCode::Continue,
            101u16 => StatusCode::SwitchingProtocols,
            102u16 => StatusCode::Processing,
            103u16 => StatusCode::EarlyHints,
            200u16 => StatusCode::Okay,
            201u16 => StatusCode::Created,
            202u16 => StatusCode::Accepted,
            203u16 => StatusCode::NonAuthoritativeInformation,
            204u16 => StatusCode::NoContent,
            205u16 => StatusCode::ResetContent,
            206u16 => StatusCode::PartialContent,
            207u16 => StatusCode::MultiStatus,
            208u16 => StatusCode::AlreadyReported,
            226u16 => StatusCode::IMUsed,
            300u16 => StatusCode::MultipleChoices,
            301u16 => StatusCode::MovedPermanently,
            302u16 => StatusCode::Found,
            303u16 => StatusCode::SeeOther,
            304u16 => StatusCode::NotModified,
            305u16 => StatusCode::UseProxy,
            306u16 => StatusCode::SwitchProxy,
            307u16 => StatusCode::TemporaryRedirect,
            308u16 => StatusCode::PermanentRedirect,
            400u16 => StatusCode::BadRequest,
            401u16 => StatusCode::Unauthorized,
            402u16 => StatusCode::PaymentRequired,
            403u16 => StatusCode::Forbidden,
            404u16 => StatusCode::NotFound,
            405u16 => StatusCode::MethodNotAllowed,
            406u16 => StatusCode::NotAcceptable,
            407u16 => StatusCode::ProxyAuthenticationRequired,
            408u16 => StatusCode::RequestTimeout,
            409u16 => StatusCode::Conflict,
            410u16 => StatusCode::Gone,
            411u16 => StatusCode::LengthRequired,
            412u16 => StatusCode::PreconditionFailed,
            413u16 => StatusCode::PayloadTooLarge,
            414u16 => StatusCode::UriTooLong,
            415u16 => StatusCode::UnsupportedMediaType,
            416u16 => StatusCode::RangeNotSatisfiable,
            417u16 => StatusCode::ExpectationFailed,
            418u16 => StatusCode::ImATeapot,
            421u16 => StatusCode::MisdirectedRequest,
            422u16 => StatusCode::UnprocessableEntity,
            423u16 => StatusCode::Locked,
            424u16 => StatusCode::FailedDependency,
            426u16 => StatusCode::UpgradeRequired,
            428u16 => StatusCode::PreconditionRequired,
            429u16 => StatusCode::TooManyRequests,
            431u16 => StatusCode::RequestHeaderFieldsTooLarge,
            451u16 => StatusCode::UnavailableForLegalReasons,
            500u16 => StatusCode::InternalServerError,
            501u16 => StatusCode::NotImplemented,
            502u16 => StatusCode::BadGateway,
            503u16 => StatusCode::ServiceUnavailable,
            504u16 => StatusCode::GatewayTimeout,
            505u16 => StatusCode::HttpVersionNotSupported,
            506u16 => StatusCode::VariantAlsoNegotiates,
            507u16 => StatusCode::InsufficientStorage,
            508u16 => StatusCode::LoopDetected,
            510u16 => StatusCode::NotExtended,
            511u16 => StatusCode::NetworkAuthenticationRequired,
            _ => StatusCode::Unknown(code),
        }
    }
}

/// Whether `code` is one of the numbers registered in the table.
pub open spec fn is_registered(code: u16) -> bool {
    StatusCode::spec_from(code) !is Unknown
}

/// The range bucketing behind `class`: the hundreds digit for numbers
/// in 100..=599, `Unknown` outside that range.
pub open spec fn spec_class_of_code(code: u16) -> StatusClass {
    if 100 <= code && code <= 199 {
        StatusClass::Informational
    } else if 200 <= code && code <= 299 {
        StatusClass::Success
    } else if 300 <= code && code <= 399 {
        StatusClass::Redirection
    } else if 400 <= code && code <= 499 {
        StatusClass::ClientError
    } else if 500 <= code && code <= 599 {
        StatusClass::ServerError
    } else {
        StatusClass::Unknown
    }
}

impl core::convert::From<u16> for StatusCode {
    /// Total conversion from a raw number: the registered variant on an
    /// exact table match, otherwise `Unknown` carrying the input verbatim.
    fn from(code: u16) -> (status: StatusCode)
        ensures
            status == StatusCode::spec_from(code),
    {
        match code {
            100 => StatusCode::Continue,
            101 => StatusCode::SwitchingProtocols,
            102 => StatusCode::Processing,
            103 => StatusCode::EarlyHints,
            200 => StatusCode::Okay,
            201 => StatusCode::Created,
            202 => StatusCode::Accepted,
            203 => StatusCode::NonAuthoritativeInformation,
            204 => StatusCode::NoContent,
            205 => StatusCode::ResetContent,
            206 => StatusCode::PartialContent,
            207 => StatusCode::MultiStatus,
            208 => StatusCode::AlreadyReported,
            226 => StatusCode::IMUsed,
            300 => StatusCode::MultipleChoices,
            301 => StatusCode::MovedPermanently,
            302 => StatusCode::Found,
            303 => StatusCode::SeeOther,
            304 => StatusCode::NotModified,
            305 => StatusCode::UseProxy,
            306 => StatusCode::SwitchProxy,
            307 => StatusCode::TemporaryRedirect,
            308 => StatusCode::PermanentRedirect,
            400 => StatusCode::BadRequest,
            401 => StatusCode::Unauthorized,
            402 => StatusCode::PaymentRequired,
            403 => StatusCode::Forbidden,
            404 => StatusCode::NotFound,
            405 => StatusCode::MethodNotAllowed,
            406 => StatusCode::NotAcceptable,
            407 => StatusCode::ProxyAuthenticationRequired,
            408 => StatusCode::RequestTimeout,
            409 => StatusCode::Conflict,
            410 => StatusCode::Gone,
            411 => StatusCode::LengthRequired,
            412 => StatusCode::PreconditionFailed,
            413 => StatusCode::PayloadTooLarge,
            414 => StatusCode::UriTooLong,
            415 => StatusCode::UnsupportedMediaType,
            416 => StatusCode::RangeNotSatisfiable,
            417 => StatusCode::ExpectationFailed,
            418 => StatusCode::ImATeapot,
            421 => StatusCode::MisdirectedRequest,
            422 => StatusCode::UnprocessableEntity,
            423 => StatusCode::Locked,
            424 => StatusCode::FailedDependency,
            426 => StatusCode::UpgradeRequired,
            428 => StatusCode::PreconditionRequired,
            429 => StatusCode::TooManyRequests,
            431 => StatusCode::RequestHeaderFieldsTooLarge,
            451 => StatusCode::UnavailableForLegalReasons,
            500 => StatusCode::InternalServerError,
            501 => StatusCode::NotImplemented,
            502 => StatusCode::BadGateway,
            503 => StatusCode::ServiceUnavailable,
            504 => StatusCode::GatewayTimeout,
            505 => StatusCode::HttpVersionNotSupported,
            506 => StatusCode::VariantAlsoNegotiates,
            507 => StatusCode::InsufficientStorage,
            508 => StatusCode::LoopDetected,
            510 => StatusCode::NotExtended,
            511 => StatusCode::NetworkAuthenticationRequired,
            _ => StatusCode::Unknown(code),
        }
    }
}

impl vstd::std_specs::convert::FromSpecImpl<u16> for StatusCode {
    open spec fn obeys_from_spec() -> bool {
        true
    }

    open spec fn from_spec(code: u16) -> StatusCode {
        StatusCode::spec_from(code)
    }
}

} // verus!
