//! HTTP response status codes: the numeric value and the standard reason
//! phrase of each, plus whole-value comparison.
use vstd::prelude::*;

verus! {

/// The status code a numeric value denotes, when it is a standard one.
pub open spec fn status_of_code(n: nat) -> Option<StatusCode> {
    if n == 100 {
        Some(StatusCode::Continue)
    } else if n == 101 {
        Some(StatusCode::SwitchingProtocols)
    } else if n == 102 {
        Some(StatusCode::Processing)
    } else if n == 103 {
        Some(StatusCode::EarlyHints)
    } else if n == 200 {
        Some(StatusCode::Okay)
    } else if n == 201 {
        Some(StatusCode::Created)
    } else if n == 202 {
        Some(StatusCode::Accepted)
    } else if n == 203 {
        Some(StatusCode::NonAuthoritativeInformation)
    } else if n == 204 {
        Some(StatusCode::NoContent)
    } else if n == 205 {
        Some(StatusCode::ResetContent)
    } else if n == 206 {
        Some(StatusCode::PartialContent)
    } else if n == 207 {
        Some(StatusCode::MultiStatus)
    } else if n == 208 {
        Some(StatusCode::AlreadyReported)
    } else if n == 226 {
        Some(StatusCode::ImUsed)
    } else if n == 300 {
        Some(StatusCode::MultipleChoices)
    } else if n == 301 {
        Some(StatusCode::MovedPermanently)
    } else if n == 302 {
        Some(StatusCode::Found)
    } else if n == 303 {
        Some(StatusCode::SeeOther)
    } else if n == 304 {
        Some(StatusCode::NotModified)
    } else if n == 307 {
        Some(StatusCode::TemporaryRedirect)
    } else if n == 308 {
        Some(StatusCode::PermanentRedirect)
    } else if n == 400 {
        Some(StatusCode::BadRequest)
    } else if n == 401 {
        Some(StatusCode::Unauthorized)
    } else if n == 402 {
        Some(StatusCode::PaymentRequired)
    } else if n == 403 {
        Some(StatusCode::Forbidden)
    } else if n == 404 {
        Some(StatusCode::NotFound)
    } else if n == 405 {
        Some(StatusCode::MethodNotAllowed)
    } else if n == 406 {
        Some(StatusCode::NotAcceptable)
    } else if n == 407 {
        Some(StatusCode::ProxyAuthenticationRequired)
    } else if n == 408 {
        Some(StatusCode::RequestTimeout)
    } else if n == 409 {
        Some(StatusCode::Conflict)
    } else if n == 410 {
        Some(StatusCode::Gone)
    } else if n == 411 {
        Some(StatusCode::LengthRequired)
    } else if n == 412 {
        Some(StatusCode::PreconditionFailed)
    } else if n == 413 {
        Some(StatusCode::ContentTooLarge)
    } else if n == 414 {
        Some(StatusCode::UriTooLong)
    } else if n == 415 {
        Some(StatusCode::UnsupportedMediaType)
    } else if n == 416 {
        Some(StatusCode::RangeNotSatisfiable)
    } else if n == 417 {
        Some(StatusCode::ExpectationFailed)
    } else if n == 418 {
        Some(StatusCode::ImATeapot)
    } else if n == 421 {
        Some(StatusCode::MisdirectedRequest)
    } else if n == 422 {
        Some(StatusCode::UnprocessableContent)
    } else if n == 423 {
        Some(StatusCode::Locked)
    } else if n == 424 {
        Some(StatusCode::FailedDependency)
    } else if n == 425 {
        Some(StatusCode::TooEarly)
    } else if n == 426 {
        Some(StatusCode::UpgradeRequired)
    } else if n == 428 {
        Some(StatusCode::PreconditionRequired)
    } else if n == 429 {
        Some(StatusCode::TooManyRequests)
    } else if n == 431 {
        Some(StatusCode::RequestHeaderFieldsTooLarge)
    } else if n == 451 {
        Some(StatusCode::UnavailableForLegalReasons)
    } else if n == 500 {
        Some(StatusCode::InternalServerError)
    } else if n == 501 {
        Some(StatusCode::NotImplemented)
    } else if n == 502 {
        Some(StatusCode::BadGateway)
    } else if n == 503 {
        Some(StatusCode::ServiceUnavailable)
    } else if n == 504 {
        Some(StatusCode::GatewayTimeout)
    } else if n == 505 {
        Some(StatusCode::HTTPVersionNotSupported)
    } else if n == 506 {
        Some(StatusCode::VariantAlsoNegotiates)
    } else if n == 507 {
        Some(StatusCode::InsufficientStorage)
    } else if n == 508 {
        Some(StatusCode::LoopDetected)
    } else if n == 509 {
        Some(StatusCode::NotExtended)
    } else if n == 510 {
        Some(StatusCode::NetworkAuthenticationRequired)
    } else {
        None
    }
}

/// An HTTP response status code.
///
/// One variant per standard code; [`Self::as_u16`] gives the numeric value
/// and [`Self::as_str`] the standard reason phrase.
#[derive(Clone, Copy, Debug, PartialEq, Eq, Structural, Hash)]
pub enum StatusCode {
    /// 100 Continue
    Continue,
    /// 101 Switching Protocols
    SwitchingProtocols,
    /// 102 Processing
    Processing,
    /// 103 Early Hints
    EarlyHints,
    /// 200 OK
    Okay,
    /// 201 Created
    Created,
    /// 202 Accepted
    Accepted,
    /// 203 Non-Authoritative Information
    NonAuthoritativeInformation,
    /// 204 No Content
    NoContent,
    /// 205 Reset Content
    ResetContent,
    /// 206 Partial Content
    PartialContent,
    /// 207 Multi-Status
    MultiStatus,
    /// 208 Already Reported
    AlreadyReported,
    /// 226 IM Used
    ImUsed,
    /// 300 Multiple Choices
    MultipleChoices,
    /// 301 Moved Permanently
    MovedPermanently,
    /// 302 Found
    Found,
    /// 303 See Other
    SeeOther,
    /// 304 Not Modified
    NotModified,
    /// 307 Temporary Redirect
    TemporaryRedirect,
    /// 308 Permanent Redirect
    PermanentRedirect,
    /// 400 Bad Request
    BadRequest,
    /// 401 Unauthorized
    Unauthorized,
    /// 402 Payment Required
    PaymentRequired,
    /// 403 Forbidden
    Forbidden,
    /// 404 Not Found
    NotFound,
    /// 405 Method Not Allowed
    MethodNotAllowed,
    /// 406 Not Acceptable
    NotAcceptable,
    /// 407 Proxy Authentication Required
    ProxyAuthenticationRequired,
    /// 408 Request Timeout
    RequestTimeout,
    /// 409 Conflict
    Conflict,
    /// 410 Gone
    Gone,
    /// 411 Length Required
    LengthRequired,
    /// 412 Precondition Failed
    PreconditionFailed,
    /// 413 Content Too Large
    ContentTooLarge,
    /// 414 URI Too Long
    UriTooLong,
    /// 415 Unsupported Media Type
    UnsupportedMediaType,
    /// 416 Range Not Satisfiable
    RangeNotSatisfiable,
    /// 417 Expectation Failed
    ExpectationFailed,
    /// 418 I'm a teapot
    ImATeapot,
    /// 421 Misdirected Request
    MisdirectedRequest,
    /// 422 Unprocessable Content
    UnprocessableContent,
    /// 423 Locked
    Locked,
    /// 424 Failed Dependency
    FailedDependency,
    /// 425 Too Early
    TooEarly,
    /// 426 Upgrade Required
    UpgradeRequired,
    /// 428 Precondition Required
    PreconditionRequired,
    /// 429 Too Many Requests
    TooManyRequests,
    /// 431 Request Header Fields Too Large
    RequestHeaderFieldsTooLarge,
    /// 451 Unavailable For Legal Reasons
    UnavailableForLegalReasons,
    /// 500 Internal Server Error
    InternalServerError,
    /// 501 Not Implemented
    NotImplemented,
    /// 502 Bad Gateway
    BadGateway,
    /// 503 Service Unavailable
    ServiceUnavailable,
    /// 504 Gateway Timeout
    GatewayTimeout,
    /// 505 HTTP Version Not Supported
    HTTPVersionNotSupported,
    /// 506 Variant Also Negotiates
    VariantAlsoNegotiates,
    /// 507 Insufficient Storage
    InsufficientStorage,
    /// 508 Loop Detected
    LoopDetected,
    /// 509 Not Extended
    NotExtended,
    /// 510 Network Authentication Required
    NetworkAuthenticationRequired,
}

impl StatusCode {
    /// The numeric value of this status code.
    pub open spec fn spec_code(self) -> u16 {
        match self {
            StatusCode::Continue => 100,
            StatusCode::SwitchingProtocols => 101,
            StatusCode::Processing => 102,
            StatusCode::EarlyHints => 103,
            StatusCode::Okay => 200,
            StatusCode::Created => 201,
            StatusCode::Accepted => 202,
            StatusCode::NonAuthoritativeInformation => 203,
            StatusCode::NoContent => 204,
            StatusCode::ResetContent => 205,
            StatusCode::PartialContent => 206,
            StatusCode::MultiStatus => 207,
            StatusCode::AlreadyReported => 208,
            StatusCode::ImUsed => 226,
            StatusCode::MultipleChoices => 300,
            StatusCode::MovedPermanently => 301,
            StatusCode::Found => 302,
            StatusCode::SeeOther => 303,
            StatusCode::NotModified => 304,
            StatusCode::TemporaryRedirect => 307,
            StatusCode::PermanentRedirect => 308,
            StatusCode::BadRequest => 400,
            StatusCode::Unauthorized => 401,
            StatusCode::PaymentRequired => 402,
            StatusCode::Forbidden => 403,
            StatusCode::NotFound => 404,
            StatusCode::MethodNotAllowed => 405,
            StatusCode::NotAcceptable => 406,
            StatusCode::ProxyAuthenticationRequired => 407,
            StatusCode::RequestTimeout => 408,
            StatusCode::Conflict => 409,
            StatusCode::Gone => 410,
            StatusCode::LengthRequired => 411,
            StatusCode::PreconditionFailed => 412,
            StatusCode::ContentTooLarge => 413,
            StatusCode::UriTooLong => 414,
            StatusCode::UnsupportedMediaType => 415,
            StatusCode::RangeNotSatisfiable => 416,
            StatusCode::ExpectationFailed => 417,
            StatusCode::ImATeapot => 418,
            StatusCode::MisdirectedRequest => 421,
            StatusCode::UnprocessableContent => 422,
            StatusCode::Locked => 423,
            StatusCode::FailedDependency => 424,
            StatusCode::TooEarly => 425,
            StatusCode::UpgradeRequired => 426,
            StatusCode::PreconditionRequired => 428,
            StatusCode::TooManyRequests => 429,
            StatusCode::RequestHeaderFieldsTooLarge => 431,
            StatusCode::UnavailableForLegalReasons => 451,
            StatusCode::InternalServerError => 500,
            StatusCode::NotImplemented => 501,
            StatusCode::BadGateway => 502,
            StatusCode::ServiceUnavailable => 503,
            StatusCode::GatewayTimeout => 504,
            StatusCode::HTTPVersionNotSupported => 505,
            StatusCode::VariantAlsoNegotiates => 506,
            StatusCode::InsufficientStorage => 507,
            StatusCode::LoopDetected => 508,
            StatusCode::NotExtended => 509,
            StatusCode::NetworkAuthenticationRequired => 510,
        }
    }

    /// The standard reason phrase of this status code.
    pub open spec fn spec_reason(self) -> Seq<char> {
        match self {
            StatusCode::Continue => "Continue"@,
            StatusCode::SwitchingProtocols => "Switching Protocols"@,
            StatusCode::Processing => "Processing"@,
            StatusCode::EarlyHints => "Early Hints"@,
            StatusCode::Okay => "OK"@,
            StatusCode::Created => "Created"@,
            StatusCode::Accepted => "Accepted"@,
            StatusCode::NonAuthoritativeInformation => "Non-Authoritative Information"@,
            StatusCode::NoContent => "No Content"@,
            StatusCode::ResetContent => "Reset Content"@,
            StatusCode::PartialContent => "Partial Content"@,
            StatusCode::MultiStatus => "Multi-Status"@,
            StatusCode::AlreadyReported => "Already Reported"@,
            StatusCode::ImUsed => "IM Used"@,
            StatusCode::MultipleChoices => "Multiple Choices"@,
            StatusCode::MovedPermanently => "Moved Permanently"@,
            StatusCode::Found => "Found"@,
            StatusCode::SeeOther => "See Other"@,
            StatusCode::NotModified => "Not Modified"@,
            StatusCode::TemporaryRedirect => "Temporary Redirect"@,
            StatusCode::PermanentRedirect => "Permanent Redirect"@,
            StatusCode::BadRequest => "Bad Request"@,
            StatusCode::Unauthorized => "Unauthorized"@,
            StatusCode::PaymentRequired => "Payment Required"@,
            StatusCode::Forbidden => "Forbidden"@,
            StatusCode::NotFound => "Not Found"@,
            StatusCode::MethodNotAllowed => "Method Not Allowed"@,
            StatusCode::NotAcceptable => "Not Acceptable"@,
            StatusCode::ProxyAuthenticationRequired => "Proxy Authentication Required"@,
            StatusCode::RequestTimeout => "Request Timeout"@,
            StatusCode::Conflict => "Conflict"@,
            StatusCode::Gone => "Gone"@,
            StatusCode::LengthRequired => "Length Required"@,
            StatusCode::PreconditionFailed => "Precondition Failed"@,
            StatusCode::ContentTooLarge => "Content Too Large"@,
            StatusCode::UriTooLong => "URI Too Long"@,
            StatusCode::UnsupportedMediaType => "Unsupported Media Type"@,
            StatusCode::RangeNotSatisfiable => "Range Not Satisfiable"@,
            StatusCode::ExpectationFailed => "Expectation Failed"@,
            StatusCode::ImATeapot => "I'm a teapot"@,
            StatusCode::MisdirectedRequest => "Misdirected Request"@,
            StatusCode::UnprocessableContent => "Unprocessable Content"@,
            StatusCode::Locked => "Locked"@,
            StatusCode::FailedDependency => "Failed Dependency"@,
            StatusCode::TooEarly => "Too Early"@,
            StatusCode::UpgradeRequired => "Upgrade Required"@,
            StatusCode::PreconditionRequired => "Precondition Required"@,
            StatusCode::TooManyRequests => "Too Many Requests"@,
            StatusCode::RequestHeaderFieldsTooLarge => "Request Header Fields Too Large"@,
            StatusCode::UnavailableForLegalReasons => "Unavailable For Legal Reasons"@,
            StatusCode::InternalServerError => "Internal Server Error"@,
            StatusCode::NotImplemented => "Not Implemented"@,
            StatusCode::BadGateway => "Bad Gateway"@,
            StatusCode::ServiceUnavailable => "Service Unavailable"@,
            StatusCode::GatewayTimeout => "Gateway Timeout"@,
            StatusCode::HTTPVersionNotSupported => "HTTP Version Not Supported"@,
            StatusCode::VariantAlsoNegotiates => "Variant Also Negotiates"@,
            StatusCode::InsufficientStorage => "Insufficient Storage"@,
            StatusCode::LoopDetected => "Loop Detected"@,
            StatusCode::NotExtended => "Not Extended"@,
            StatusCode::NetworkAuthenticationRequired => "Network Authentication Required"@,
        }
    }

    /// Gets the numeric value of the status code.
    pub fn as_u16(&self) -> (r: u16)
        ensures
            r == self.spec_code(),
    {
        match self {
            StatusCode::Continue => 100,
            StatusCode::SwitchingProtocols => 101,
            StatusCode::Processing => 102,
            StatusCode::EarlyHints => 103,
            StatusCode::Okay => 200,
            StatusCode::Created => 201,
            StatusCode::Accepted => 202,
            StatusCode::NonAuthoritativeInformation => 203,
            StatusCode::NoContent => 204,
            StatusCode::ResetContent => 205,
            StatusCode::PartialContent => 206,
            StatusCode::MultiStatus => 207,
            StatusCode::AlreadyReported => 208,
            StatusCode::ImUsed => 226,
            StatusCode::MultipleChoices => 300,
            StatusCode::MovedPermanently => 301,
            StatusCode::Found => 302,
            StatusCode::SeeOther => 303,
            StatusCode::NotModified => 304,
            StatusCode::TemporaryRedirect => 307,
            StatusCode::PermanentRedirect => 308,
            StatusCode::BadRequest => 400,
            StatusCode::Unauthorized => 401,
            StatusCode::PaymentRequired => 402,
            StatusCode::Forbidden => 403,
            StatusCode::NotFound => 404,
            StatusCode::MethodNotAllowed => 405,
            StatusCode::NotAcceptable => 406,
            StatusCode::ProxyAuthenticationRequired => 407,
            StatusCode::RequestTimeout => 408,
            StatusCode::Conflict => 409,
            StatusCode::Gone => 410,
            StatusCode::LengthRequired => 411,
            StatusCode::PreconditionFailed => 412,
            StatusCode::ContentTooLarge => 413,
            StatusCode::UriTooLong => 414,
            StatusCode::UnsupportedMediaType => 415,
            StatusCode::RangeNotSatisfiable => 416,
            StatusCode::ExpectationFailed => 417,
            StatusCode::ImATeapot => 418,
            StatusCode::MisdirectedRequest => 421,
            StatusCode::UnprocessableContent => 422,
            StatusCode::Locked => 423,
            StatusCode::FailedDependency => 424,
            StatusCode::TooEarly => 425,
            StatusCode::UpgradeRequired => 426,
            StatusCode::PreconditionRequired => 428,
            StatusCode::TooManyRequests => 429,
            StatusCode::RequestHeaderFieldsTooLarge => 431,
            StatusCode::UnavailableForLegalReasons => 451,
            StatusCode::InternalServerError => 500,
            StatusCode::NotImplemented => 501,
            StatusCode::BadGateway => 502,
            StatusCode::ServiceUnavailable => 503,
            StatusCode::GatewayTimeout => 504,
            StatusCode::HTTPVersionNotSupported => 505,
            StatusCode::VariantAlsoNegotiates => 506,
            StatusCode::InsufficientStorage => 507,
            StatusCode::LoopDetected => 508,
            StatusCode::NotExtended => 509,
            StatusCode::NetworkAuthenticationRequired => 510,
        }
    }

    /// The standard reason phrase, as used on the status line.
    pub fn as_str(&self) -> (r: &'static str)
        ensures
            r@ == self.spec_reason(),
    {
        match self {
            StatusCode::Continue => "Continue",
            StatusCode::SwitchingProtocols => "Switching Protocols",
            StatusCode::Processing => "Processing",
            StatusCode::EarlyHints => "Early Hints",
            StatusCode::Okay => "OK",
            StatusCode::Created => "Created",
            StatusCode::Accepted => "Accepted",
            StatusCode::NonAuthoritativeInformation => "Non-Authoritative Information",
            StatusCode::NoContent => "No Content",
            StatusCode::ResetContent => "Reset Content",
            StatusCode::PartialContent => "Partial Content",
            StatusCode::MultiStatus => "Multi-Status",
            StatusCode::AlreadyReported => "Already Reported",
            StatusCode::ImUsed => "IM Used",
            StatusCode::MultipleChoices => "Multiple Choices",
            StatusCode::MovedPermanently => "Moved Permanently",
            StatusCode::Found => "Found",
            StatusCode::SeeOther => "See Other",
            StatusCode::NotModified => "Not Modified",
            StatusCode::TemporaryRedirect => "Temporary Redirect",
            StatusCode::PermanentRedirect => "Permanent Redirect",
            StatusCode::BadRequest => "Bad Request",
            StatusCode::Unauthorized => "Unauthorized",
            StatusCode::PaymentRequired => "Payment Required",
            StatusCode::Forbidden => "Forbidden",
            StatusCode::NotFound => "Not Found",
            StatusCode::MethodNotAllowed => "Method Not Allowed",
            StatusCode::NotAcceptable => "Not Acceptable",
            StatusCode::ProxyAuthenticationRequired => "Proxy Authentication Required",
            StatusCode::RequestTimeout => "Request Timeout",
            StatusCode::Conflict => "Conflict",
            StatusCode::Gone => "Gone",
            StatusCode::LengthRequired => "Length Required",
            StatusCode::PreconditionFailed => "Precondition Failed",
            StatusCode::ContentTooLarge => "Content Too Large",
            StatusCode::UriTooLong => "URI Too Long",
            StatusCode::UnsupportedMediaType => "Unsupported Media Type",
            StatusCode::RangeNotSatisfiable => "Range Not Satisfiable",
            StatusCode::ExpectationFailed => "Expectation Failed",
            StatusCode::ImATeapot => "I'm a teapot",
            StatusCode::MisdirectedRequest => "Misdirected Request",
            StatusCode::UnprocessableContent => "Unprocessable Content",
            StatusCode::Locked => "Locked",
            StatusCode::FailedDependency => "Failed Dependency",
            StatusCode::TooEarly => "Too Early",
            StatusCode::UpgradeRequired => "Upgrade Required",
            StatusCode::PreconditionRequired => "Precondition Required",
            StatusCode::TooManyRequests => "Too Many Requests",
            StatusCode::RequestHeaderFieldsTooLarge => "Request Header Fields Too Large",
            StatusCode::UnavailableForLegalReasons => "Unavailable For Legal Reasons",
            StatusCode::InternalServerError => "Internal Server Error",
            StatusCode::NotImplemented => "Not Implemented",
            StatusCode::BadGateway => "Bad Gateway",
            StatusCode::ServiceUnavailable => "Service Unavailable",
            StatusCode::GatewayTimeout => "Gateway Timeout",
            StatusCode::HTTPVersionNotSupported => "HTTP Version Not Supported",
            StatusCode::VariantAlsoNegotiates => "Variant Also Negotiates",
            StatusCode::InsufficientStorage => "Insufficient Storage",
            StatusCode::LoopDetected => "Loop Detected",
            StatusCode::NotExtended => "Not Extended",
            StatusCode::NetworkAuthenticationRequired => "Network Authentication Required",
        }
    }


    /// The status code a numeric value denotes; `None` for a number that
    /// is not a standard code.
    pub fn from_u16(n: u16) -> (r: Option<StatusCode>)
        ensures
            r == status_of_code(n as nat),
    {
        match n {
            100 => Some(StatusCode::Continue),
            101 => Some(StatusCode::SwitchingProtocols),
            102 => Some(StatusCode::Processing),
            103 => Some(StatusCode::EarlyHints),
            200 => Some(StatusCode::Okay),
            201 => Some(StatusCode::Created),
            202 => Some(StatusCode::Accepted),
            203 => Some(StatusCode::NonAuthoritativeInformation),
            204 => Some(StatusCode::NoContent),
            205 => Some(StatusCode::ResetContent),
            206 => Some(StatusCode::PartialContent),
            207 => Some(StatusCode::MultiStatus),
            208 => Some(StatusCode::AlreadyReported),
            226 => Some(StatusCode::ImUsed),
            300 => Some(StatusCode::MultipleChoices),
            301 => Some(StatusCode::MovedPermanently),
            302 => Some(StatusCode::Found),
            303 => Some(StatusCode::SeeOther),
            304 => Some(StatusCode::NotModified),
            307 => Some(StatusCode::TemporaryRedirect),
            308 => Some(StatusCode::PermanentRedirect),
            400 => Some(StatusCode::BadRequest),
            401 => Some(StatusCode::Unauthorized),
            402 => Some(StatusCode::PaymentRequired),
            403 => Some(StatusCode::Forbidden),
            404 => Some(StatusCode::NotFound),
            405 => Some(StatusCode::MethodNotAllowed),
            406 => Some(StatusCode::NotAcceptable),
            407 => Some(StatusCode::ProxyAuthenticationRequired),
            408 => Some(StatusCode::RequestTimeout),
            409 => Some(StatusCode::Conflict),
            410 => Some(StatusCode::Gone),
            411 => Some(StatusCode::LengthRequired),
            412 => Some(StatusCode::PreconditionFailed),
            413 => Some(StatusCode::ContentTooLarge),
            414 => Some(StatusCode::UriTooLong),
            415 => Some(StatusCode::UnsupportedMediaType),
            416 => Some(StatusCode::RangeNotSatisfiable),
            417 => Some(StatusCode::ExpectationFailed),
            418 => Some(StatusCode::ImATeapot),
            421 => Some(StatusCode::MisdirectedRequest),
            422 => Some(StatusCode::UnprocessableContent),
            423 => Some(StatusCode::Locked),
            424 => Some(StatusCode::FailedDependency),
            425 => Some(StatusCode::TooEarly),
            426 => Some(StatusCode::UpgradeRequired),
            428 => Some(StatusCode::PreconditionRequired),
            429 => Some(StatusCode::TooManyRequests),
            431 => Some(StatusCode::RequestHeaderFieldsTooLarge),
            451 => Some(StatusCode::UnavailableForLegalReasons),
            500 => Some(StatusCode::InternalServerError),
            501 => Some(StatusCode::NotImplemented),
            502 => Some(StatusCode::BadGateway),
            503 => Some(StatusCode::ServiceUnavailable),
            504 => Some(StatusCode::GatewayTimeout),
            505 => Some(StatusCode::HTTPVersionNotSupported),
            506 => Some(StatusCode::VariantAlsoNegotiates),
            507 => Some(StatusCode::InsufficientStorage),
            508 => Some(StatusCode::LoopDetected),
            509 => Some(StatusCode::NotExtended),
            510 => Some(StatusCode::NetworkAuthenticationRequired),
            _ => None,
        }
    }

    /// Compares two status codes by numeric value and reason phrase.
    pub fn equals(&self, response_codes: StatusCode) -> (r: bool)
        ensures
            r == (self.spec_code() == response_codes.spec_code() && self.spec_reason()
                == response_codes.spec_reason()),
    {
        self.as_u16() == response_codes.as_u16() && crate::text::str_eq(
            self.as_str(),
            response_codes.as_str(),
        )
    }
}


/// Every standard reason phrase is a single header-safe line.
pub proof fn lemma_reason_no_crlf(s: StatusCode)
    ensures
        crate::text::no_crlf(s.spec_reason()),
{
    match s {
            StatusCode::Continue => {
                reveal_strlit("Continue");
                assert(crate::text::no_crlf("Continue"@));
            },
            StatusCode::SwitchingProtocols => {
                reveal_strlit("Switching Protocols");
                assert(crate::text::no_crlf("Switching Protocols"@));
            },
            StatusCode::Processing => {
                reveal_strlit("Processing");
                assert(crate::text::no_crlf("Processing"@));
            },
            StatusCode::EarlyHints => {
                reveal_strlit("Early Hints");
                assert(crate::text::no_crlf("Early Hints"@));
            },
            StatusCode::Okay => {
                reveal_strlit("OK");
                assert(crate::text::no_crlf("OK"@));
            },
            StatusCode::Created => {
                reveal_strlit("Created");
                assert(crate::text::no_crlf("Created"@));
            },
            StatusCode::Accepted => {
                reveal_strlit("Accepted");
                assert(crate::text::no_crlf("Accepted"@));
            },
            StatusCode::NonAuthoritativeInformation => {
                reveal_strlit("Non-Authoritative Information");
                assert(crate::text::no_crlf("Non-Authoritative Information"@));
            },
            StatusCode::NoContent => {
                reveal_strlit("No Content");
                assert(crate::text::no_crlf("No Content"@));
            },
            StatusCode::ResetContent => {
                reveal_strlit("Reset Content");
                assert(crate::text::no_crlf("Reset Content"@));
            },
            StatusCode::PartialContent => {
                reveal_strlit("Partial Content");
                assert(crate::text::no_crlf("Partial Content"@));
            },
            StatusCode::MultiStatus => {
                reveal_strlit("Multi-Status");
                assert(crate::text::no_crlf("Multi-Status"@));
            },
            StatusCode::AlreadyReported => {
                reveal_strlit("Already Reported");
                assert(crate::text::no_crlf("Already Reported"@));
            },
            StatusCode::ImUsed => {
                reveal_strlit("IM Used");
                assert(crate::text::no_crlf("IM Used"@));
            },
            StatusCode::MultipleChoices => {
                reveal_strlit("Multiple Choices");
                assert(crate::text::no_crlf("Multiple Choices"@));
            },
            StatusCode::MovedPermanently => {
                reveal_strlit("Moved Permanently");
                assert(crate::text::no_crlf("Moved Permanently"@));
            },
            StatusCode::Found => {
                reveal_strlit("Found");
                assert(crate::text::no_crlf("Found"@));
            },
            StatusCode::SeeOther => {
                reveal_strlit("See Other");
                assert(crate::text::no_crlf("See Other"@));
            },
            StatusCode::NotModified => {
                reveal_strlit("Not Modified");
                assert(crate::text::no_crlf("Not Modified"@));
            },
            StatusCode::TemporaryRedirect => {
                reveal_strlit("Temporary Redirect");
                assert(crate::text::no_crlf("Temporary Redirect"@));
            },
            StatusCode::PermanentRedirect => {
                reveal_strlit("Permanent Redirect");
                assert(crate::text::no_crlf("Permanent Redirect"@));
            },
            StatusCode::BadRequest => {
                reveal_strlit("Bad Request");
                assert(crate::text::no_crlf("Bad Request"@));
            },
            StatusCode::Unauthorized => {
                reveal_strlit("Unauthorized");
                assert(crate::text::no_crlf("Unauthorized"@));
            },
            StatusCode::PaymentRequired => {
                reveal_strlit("Payment Required");
                assert(crate::text::no_crlf("Payment Required"@));
            },
            StatusCode::Forbidden => {
                reveal_strlit("Forbidden");
                assert(crate::text::no_crlf("Forbidden"@));
            },
            StatusCode::NotFound => {
                reveal_strlit("Not Found");
                assert(crate::text::no_crlf("Not Found"@));
            },
            StatusCode::MethodNotAllowed => {
                reveal_strlit("Method Not Allowed");
                assert(crate::text::no_crlf("Method Not Allowed"@));
            },
            StatusCode::NotAcceptable => {
                reveal_strlit("Not Acceptable");
                assert(crate::text::no_crlf("Not Acceptable"@));
            },
            StatusCode::ProxyAuthenticationRequired => {
                reveal_strlit("Proxy Authentication Required");
                assert(crate::text::no_crlf("Proxy Authentication Required"@));
            },
            StatusCode::RequestTimeout => {
                reveal_strlit("Request Timeout");
                assert(crate::text::no_crlf("Request Timeout"@));
            },
            StatusCode::Conflict => {
                reveal_strlit("Conflict");
                assert(crate::text::no_crlf("Conflict"@));
            },
            StatusCode::Gone => {
                reveal_strlit("Gone");
                assert(crate::text::no_crlf("Gone"@));
            },
            StatusCode::LengthRequired => {
                reveal_strlit("Length Required");
                assert(crate::text::no_crlf("Length Required"@));
            },
            StatusCode::PreconditionFailed => {
                reveal_strlit("Precondition Failed");
                assert(crate::text::no_crlf("Precondition Failed"@));
            },
            StatusCode::ContentTooLarge => {
                reveal_strlit("Content Too Large");
                assert(crate::text::no_crlf("Content Too Large"@));
            },
            StatusCode::UriTooLong => {
                reveal_strlit("URI Too Long");
                assert(crate::text::no_crlf("URI Too Long"@));
            },
            StatusCode::UnsupportedMediaType => {
                reveal_strlit("Unsupported Media Type");
                assert(crate::text::no_crlf("Unsupported Media Type"@));
            },
            StatusCode::RangeNotSatisfiable => {
                reveal_strlit("Range Not Satisfiable");
                assert(crate::text::no_crlf("Range Not Satisfiable"@));
            },
            StatusCode::ExpectationFailed => {
                reveal_strlit("Expectation Failed");
                assert(crate::text::no_crlf("Expectation Failed"@));
            },
            StatusCode::ImATeapot => {
                reveal_strlit("I'm a teapot");
                assert(crate::text::no_crlf("I'm a teapot"@));
            },
            StatusCode::MisdirectedRequest => {
                reveal_strlit("Misdirected Request");
                assert(crate::text::no_crlf("Misdirected Request"@));
            },
            StatusCode::UnprocessableContent => {
                reveal_strlit("Unprocessable Content");
                assert(crate::text::no_crlf("Unprocessable Content"@));
            },
            StatusCode::Locked => {
                reveal_strlit("Locked");
                assert(crate::text::no_crlf("Locked"@));
            },
            StatusCode::FailedDependency => {
                reveal_strlit("Failed Dependency");
                assert(crate::text::no_crlf("Failed Dependency"@));
            },
            StatusCode::TooEarly => {
                reveal_strlit("Too Early");
                assert(crate::text::no_crlf("Too Early"@));
            },
            StatusCode::UpgradeRequired => {
                reveal_strlit("Upgrade Required");
                assert(crate::text::no_crlf("Upgrade Required"@));
            },
            StatusCode::PreconditionRequired => {
                reveal_strlit("Precondition Required");
                assert(crate::text::no_crlf("Precondition Required"@));
            },
            StatusCode::TooManyRequests => {
                reveal_strlit("Too Many Requests");
                assert(crate::text::no_crlf("Too Many Requests"@));
            },
            StatusCode::RequestHeaderFieldsTooLarge => {
                reveal_strlit("Request Header Fields Too Large");
                assert(crate::text::no_crlf("Request Header Fields Too Large"@));
            },
            StatusCode::UnavailableForLegalReasons => {
                reveal_strlit("Unavailable For Legal Reasons");
                assert(crate::text::no_crlf("Unavailable For Legal Reasons"@));
            },
            StatusCode::InternalServerError => {
                reveal_strlit("Internal Server Error");
                assert(crate::text::no_crlf("Internal Server Error"@));
            },
            StatusCode::NotImplemented => {
                reveal_strlit("Not Implemented");
                assert(crate::text::no_crlf("Not Implemented"@));
            },
            StatusCode::BadGateway => {
                reveal_strlit("Bad Gateway");
                assert(crate::text::no_crlf("Bad Gateway"@));
            },
            StatusCode::ServiceUnavailable => {
                reveal_strlit("Service Unavailable");
                assert(crate::text::no_crlf("Service Unavailable"@));
            },
            StatusCode::GatewayTimeout => {
                reveal_strlit("Gateway Timeout");
                assert(crate::text::no_crlf("Gateway Timeout"@));
            },
            StatusCode::HTTPVersionNotSupported => {
                reveal_strlit("HTTP Version Not Supported");
                assert(crate::text::no_crlf("HTTP Version Not Supported"@));
            },
            StatusCode::VariantAlsoNegotiates => {
                reveal_strlit("Variant Also Negotiates");
                assert(crate::text::no_crlf("Variant Also Negotiates"@));
            },
            StatusCode::InsufficientStorage => {
                reveal_strlit("Insufficient Storage");
                assert(crate::text::no_crlf("Insufficient Storage"@));
            },
            StatusCode::LoopDetected => {
                reveal_strlit("Loop Detected");
                assert(crate::text::no_crlf("Loop Detected"@));
            },
            StatusCode::NotExtended => {
                reveal_strlit("Not Extended");
                assert(crate::text::no_crlf("Not Extended"@));
            },
            StatusCode::NetworkAuthenticationRequired => {
                reveal_strlit("Network Authentication Required");
                assert(crate::text::no_crlf("Network Authentication Required"@));
            },
    }
}

/// An HTTP response status code, under the names the registry uses.
///
/// This mirrors [`StatusCode`]; both are kept because callers use either
/// name for registration and comparison.
#[derive(Clone, Copy, Debug, PartialEq, Eq, Structural, Hash)]
pub enum ResponseCodes {
    /// 100 Continue
    Continue,
    /// 101 Switching Protocols
    SwitchingProtocols,
    /// 102 Processing
    Processing,
    /// 103 Early Hints
    EarlyHints,
    /// 200 OK
    Okay,
    /// 201 Created
    Created,
    /// 202 Accepted
    Accepted,
    /// 203 Non-Authoritative Information
    NonAuthoritativeInformation,
    /// 204 No Content
    NoContent,
    /// 205 Reset Content
    ResetContent,
    /// 206 Partial Content
    PartialContent,
    /// 207 Multi-Status
    MultiStatus,
    /// 208 Already Reported
    AlreadyReported,
    /// 226 IM Used
    ImUsed,
    /// 300 Multiple Choices
    MultipleChoices,
    /// 301 Moved Permanently
    MovedPermanently,
    /// 302 Found
    Found,
    /// 303 See Other
    SeeOther,
    /// 304 Not Modified
    NotModified,
    /// 307 Temporary Redirect
    TemporaryRedirect,
    /// 308 Permanent Redirect
    PermanentRedirect,
    /// 400 Bad Request
    BadRequest,
    /// 401 Unauthorized
    Unauthorized,
    /// 402 Payment Required
    PaymentRequired,
    /// 403 Forbidden
    Forbidden,
    /// 404 Not Found
    NotFound,
    /// 405 Method Not Allowed
    MethodNotAllowed,
    /// 406 Not Acceptable
    NotAcceptable,
    /// 407 Proxy Authentication Required
    ProxyAuthenticationRequired,
    /// 408 Request Timeout
    RequestTimeout,
    /// 409 Conflict
    Conflict,
    /// 410 Gone
    Gone,
    /// 411 Length Required
    LengthRequired,
    /// 412 Precondition Failed
    PreconditionFailed,
    /// 413 Content Too Large
    ContentTooLarge,
    /// 414 URI Too Long
    UriTooLong,
    /// 415 Unsupported Media Type
    UnsupportedMediaType,
    /// 416 Range Not Satisfiable
    RangeNotSatisfiable,
    /// 417 Expectation Failed
    ExpectationFailed,
    /// 418 I'm a teapot
    ImATeapot,
    /// 421 Misdirected Request
    MisdirectedRequest,
    /// 422 Unprocessable Content
    UnprocessableContent,
    /// 423 Locked
    Locked,
    /// 424 Failed Dependency
    FailedDependency,
    /// 425 Too Early
    TooEarly,
    /// 426 Upgrade Required
    UpgradeRequired,
    /// 428 Precondition Required
    PreconditionRequired,
    /// 429 Too Many Requests
    TooManyRequests,
    /// 431 Request Header Fields Too Large
    RequestHeaderFieldsTooLarge,
    /// 451 Unavailable For Legal Reasons
    UnavailableForLegalReasons,
    /// 500 Internal Server Error
    InternalServerError,
    /// 501 Not Implemented
    NotImplemented,
    /// 502 Bad Gateway
    BadGateway,
    /// 503 Service Unavailable
    ServiceUnavailable,
    /// 504 Gateway Timeout
    GatewayTimeout,
    /// 505 HTTP Version Not Supported
    HTTPVersionNotSupported,
    /// 506 Variant Also Negotiates
    VariantAlsoNegotiates,
    /// 507 Insufficient Storage
    InsufficientStorage,
    /// 508 Loop Detected
    LoopDetected,
    /// 509 Not Extended
    NotExtended,
    /// 510 Network Authentication Required
    NetworkAuthenticationRequired,
}

impl ResponseCodes {
    /// The numeric value of this status code.
    pub open spec fn spec_code(self) -> u16 {
        match self {
            ResponseCodes::Continue => 100,
            ResponseCodes::SwitchingProtocols => 101,
            ResponseCodes::Processing => 102,
            ResponseCodes::EarlyHints => 103,
            ResponseCodes::Okay => 200,
            ResponseCodes::Created => 201,
            ResponseCodes::Accepted => 202,
            ResponseCodes::NonAuthoritativeInformation => 203,
            ResponseCodes::NoContent => 204,
            ResponseCodes::ResetContent => 205,
            ResponseCodes::PartialContent => 206,
            ResponseCodes::MultiStatus => 207,
            ResponseCodes::AlreadyReported => 208,
            ResponseCodes::ImUsed => 226,
            ResponseCodes::MultipleChoices => 300,
            ResponseCodes::MovedPermanently => 301,
            ResponseCodes::Found => 302,
            ResponseCodes::SeeOther => 303,
            ResponseCodes::NotModified => 304,
            ResponseCodes::TemporaryRedirect => 307,
            ResponseCodes::PermanentRedirect => 308,
            ResponseCodes::BadRequest => 400,
            ResponseCodes::Unauthorized => 401,
            ResponseCodes::PaymentRequired => 402,
            ResponseCodes::Forbidden => 403,
            ResponseCodes::NotFound => 404,
            ResponseCodes::MethodNotAllowed => 405,
            ResponseCodes::NotAcceptable => 406,
            ResponseCodes::ProxyAuthenticationRequired => 407,
            ResponseCodes::RequestTimeout => 408,
            ResponseCodes::Conflict => 409,
            ResponseCodes::Gone => 410,
            ResponseCodes::LengthRequired => 411,
            ResponseCodes::PreconditionFailed => 412,
            ResponseCodes::ContentTooLarge => 413,
            ResponseCodes::UriTooLong => 414,
            ResponseCodes::UnsupportedMediaType => 415,
            ResponseCodes::RangeNotSatisfiable => 416,
            ResponseCodes::ExpectationFailed => 417,
            ResponseCodes::ImATeapot => 418,
            ResponseCodes::MisdirectedRequest => 421,
            ResponseCodes::UnprocessableContent => 422,
            ResponseCodes::Locked => 423,
            ResponseCodes::FailedDependency => 424,
            ResponseCodes::TooEarly => 425,
            ResponseCodes::UpgradeRequired => 426,
            ResponseCodes::PreconditionRequired => 428,
            ResponseCodes::TooManyRequests => 429,
            ResponseCodes::RequestHeaderFieldsTooLarge => 431,
            ResponseCodes::UnavailableForLegalReasons => 451,
            ResponseCodes::InternalServerError => 500,
            ResponseCodes::NotImplemented => 501,
            ResponseCodes::BadGateway => 502,
            ResponseCodes::ServiceUnavailable => 503,
            ResponseCodes::GatewayTimeout => 504,
            ResponseCodes::HTTPVersionNotSupported => 505,
            ResponseCodes::VariantAlsoNegotiates => 506,
            ResponseCodes::InsufficientStorage => 507,
            ResponseCodes::LoopDetected => 508,
            ResponseCodes::NotExtended => 509,
            ResponseCodes::NetworkAuthenticationRequired => 510,
        }
    }

    /// The standard reason phrase of this status code.
    pub open spec fn spec_reason(self) -> Seq<char> {
        match self {
            ResponseCodes::Continue => "Continue"@,
            ResponseCodes::SwitchingProtocols => "Switching Protocols"@,
            ResponseCodes::Processing => "Processing"@,
            ResponseCodes::EarlyHints => "Early Hints"@,
            ResponseCodes::Okay => "OK"@,
            ResponseCodes::Created => "Created"@,
            ResponseCodes::Accepted => "Accepted"@,
            ResponseCodes::NonAuthoritativeInformation => "Non-Authoritative Information"@,
            ResponseCodes::NoContent => "No Content"@,
            ResponseCodes::ResetContent => "Reset Content"@,
            ResponseCodes::PartialContent => "Partial Content"@,
            ResponseCodes::MultiStatus => "Multi-Status"@,
            ResponseCodes::AlreadyReported => "Already Reported"@,
            ResponseCodes::ImUsed => "IM Used"@,
            ResponseCodes::MultipleChoices => "Multiple Choices"@,
            ResponseCodes::MovedPermanently => "Moved Permanently"@,
            ResponseCodes::Found => "Found"@,
            ResponseCodes::SeeOther => "See Other"@,
            ResponseCodes::NotModified => "Not Modified"@,
            ResponseCodes::TemporaryRedirect => "Temporary Redirect"@,
            ResponseCodes::PermanentRedirect => "Permanent Redirect"@,
            ResponseCodes::BadRequest => "Bad Request"@,
            ResponseCodes::Unauthorized => "Unauthorized"@,
            ResponseCodes::PaymentRequired => "Payment Required"@,
            ResponseCodes::Forbidden => "Forbidden"@,
            ResponseCodes::NotFound => "Not Found"@,
            ResponseCodes::MethodNotAllowed => "Method Not Allowed"@,
            ResponseCodes::NotAcceptable => "Not Acceptable"@,
            ResponseCodes::ProxyAuthenticationRequired => "Proxy Authentication Required"@,
            ResponseCodes::RequestTimeout => "Request Timeout"@,
            ResponseCodes::Conflict => "Conflict"@,
            ResponseCodes::Gone => "Gone"@,
            ResponseCodes::LengthRequired => "Length Required"@,
            ResponseCodes::PreconditionFailed => "Precondition Failed"@,
            ResponseCodes::ContentTooLarge => "Content Too Large"@,
            ResponseCodes::UriTooLong => "URI Too Long"@,
            ResponseCodes::UnsupportedMediaType => "Unsupported Media Type"@,
            ResponseCodes::RangeNotSatisfiable => "Range Not Satisfiable"@,
            ResponseCodes::ExpectationFailed => "Expectation Failed"@,
            ResponseCodes::ImATeapot => "I'm a teapot"@,
            ResponseCodes::MisdirectedRequest => "Misdirected Request"@,
            ResponseCodes::UnprocessableContent => "Unprocessable Content"@,
            ResponseCodes::Locked => "Locked"@,
            ResponseCodes::FailedDependency => "Failed Dependency"@,
            ResponseCodes::TooEarly => "Too Early"@,
            ResponseCodes::UpgradeRequired => "Upgrade Required"@,
            ResponseCodes::PreconditionRequired => "Precondition Required"@,
            ResponseCodes::TooManyRequests => "Too Many Requests"@,
            ResponseCodes::RequestHeaderFieldsTooLarge => "Request Header Fields Too Large"@,
            ResponseCodes::UnavailableForLegalReasons => "Unavailable For Legal Reasons"@,
            ResponseCodes::InternalServerError => "Internal Server Error"@,
            ResponseCodes::NotImplemented => "Not Implemented"@,
            ResponseCodes::BadGateway => "Bad Gateway"@,
            ResponseCodes::ServiceUnavailable => "Service Unavailable"@,
            ResponseCodes::GatewayTimeout => "Gateway Timeout"@,
            ResponseCodes::HTTPVersionNotSupported => "HTTP Version Not Supported"@,
            ResponseCodes::VariantAlsoNegotiates => "Variant Also Negotiates"@,
            ResponseCodes::InsufficientStorage => "Insufficient Storage"@,
            ResponseCodes::LoopDetected => "Loop Detected"@,
            ResponseCodes::NotExtended => "Not Extended"@,
            ResponseCodes::NetworkAuthenticationRequired => "Network Authentication Required"@,
        }
    }

    /// Gets the numeric value of the status code.
    pub fn as_u16(&self) -> (r: u16)
        ensures
            r == self.spec_code(),
    {
        match self {
            ResponseCodes::Continue => 100,
            ResponseCodes::SwitchingProtocols => 101,
            ResponseCodes::Processing => 102,
            ResponseCodes::EarlyHints => 103,
            ResponseCodes::Okay => 200,
            ResponseCodes::Created => 201,
            ResponseCodes::Accepted => 202,
            ResponseCodes::NonAuthoritativeInformation => 203,
            ResponseCodes::NoContent => 204,
            ResponseCodes::ResetContent => 205,
            ResponseCodes::PartialContent => 206,
            ResponseCodes::MultiStatus => 207,
            ResponseCodes::AlreadyReported => 208,
            ResponseCodes::ImUsed => 226,
            ResponseCodes::MultipleChoices => 300,
            ResponseCodes::MovedPermanently => 301,
            ResponseCodes::Found => 302,
            ResponseCodes::SeeOther => 303,
            ResponseCodes::NotModified => 304,
            ResponseCodes::TemporaryRedirect => 307,
            ResponseCodes::PermanentRedirect => 308,
            ResponseCodes::BadRequest => 400,
            ResponseCodes::Unauthorized => 401,
            ResponseCodes::PaymentRequired => 402,
            ResponseCodes::Forbidden => 403,
            ResponseCodes::NotFound => 404,
            ResponseCodes::MethodNotAllowed => 405,
            ResponseCodes::NotAcceptable => 406,
            ResponseCodes::ProxyAuthenticationRequired => 407,
            ResponseCodes::RequestTimeout => 408,
            ResponseCodes::Conflict => 409,
            ResponseCodes::Gone => 410,
            ResponseCodes::LengthRequired => 411,
            ResponseCodes::PreconditionFailed => 412,
            ResponseCodes::ContentTooLarge => 413,
            ResponseCodes::UriTooLong => 414,
            ResponseCodes::UnsupportedMediaType => 415,
            ResponseCodes::RangeNotSatisfiable => 416,
            ResponseCodes::ExpectationFailed => 417,
            ResponseCodes::ImATeapot => 418,
            ResponseCodes::MisdirectedRequest => 421,
            ResponseCodes::UnprocessableContent => 422,
            ResponseCodes::Locked => 423,
            ResponseCodes::FailedDependency => 424,
            ResponseCodes::TooEarly => 425,
            ResponseCodes::UpgradeRequired => 426,
            ResponseCodes::PreconditionRequired => 428,
            ResponseCodes::TooManyRequests => 429,
            ResponseCodes::RequestHeaderFieldsTooLarge => 431,
            ResponseCodes::UnavailableForLegalReasons => 451,
            ResponseCodes::InternalServerError => 500,
            ResponseCodes::NotImplemented => 501,
            ResponseCodes::BadGateway => 502,
            ResponseCodes::ServiceUnavailable => 503,
            ResponseCodes::GatewayTimeout => 504,
            ResponseCodes::HTTPVersionNotSupported => 505,
            ResponseCodes::VariantAlsoNegotiates => 506,
            ResponseCodes::InsufficientStorage => 507,
            ResponseCodes::LoopDetected => 508,
            ResponseCodes::NotExtended => 509,
            ResponseCodes::NetworkAuthenticationRequired => 510,
        }
    }

    /// The descriptive string of the status code.
    pub fn as_str(&self) -> (r: &'static str)
        ensures
            r@ == self.spec_reason(),
    {
        match self {
            ResponseCodes::Continue => "Continue",
            ResponseCodes::SwitchingProtocols => "Switching Protocols",
            ResponseCodes::Processing => "Processing",
            ResponseCodes::EarlyHints => "Early Hints",
            ResponseCodes::Okay => "OK",
            ResponseCodes::Created => "Created",
            ResponseCodes::Accepted => "Accepted",
            ResponseCodes::NonAuthoritativeInformation => "Non-Authoritative Information",
            ResponseCodes::NoContent => "No Content",
            ResponseCodes::ResetContent => "Reset Content",
            ResponseCodes::PartialContent => "Partial Content",
            ResponseCodes::MultiStatus => "Multi-Status",
            ResponseCodes::AlreadyReported => "Already Reported",
            ResponseCodes::ImUsed => "IM Used",
            ResponseCodes::MultipleChoices => "Multiple Choices",
            ResponseCodes::MovedPermanently => "Moved Permanently",
            ResponseCodes::Found => "Found",
            ResponseCodes::SeeOther => "See Other",
            ResponseCodes::NotModified => "Not Modified",
            ResponseCodes::TemporaryRedirect => "Temporary Redirect",
            ResponseCodes::PermanentRedirect => "Permanent Redirect",
            ResponseCodes::BadRequest => "Bad Request",
            ResponseCodes::Unauthorized => "Unauthorized",
            ResponseCodes::PaymentRequired => "Payment Required",
            ResponseCodes::Forbidden => "Forbidden",
            ResponseCodes::NotFound => "Not Found",
            ResponseCodes::MethodNotAllowed => "Method Not Allowed",
            ResponseCodes::NotAcceptable => "Not Acceptable",
            ResponseCodes::ProxyAuthenticationRequired => "Proxy Authentication Required",
            ResponseCodes::RequestTimeout => "Request Timeout",
            ResponseCodes::Conflict => "Conflict",
            ResponseCodes::Gone => "Gone",
            ResponseCodes::LengthRequired => "Length Required",
            ResponseCodes::PreconditionFailed => "Precondition Failed",
            ResponseCodes::ContentTooLarge => "Content Too Large",
            ResponseCodes::UriTooLong => "URI Too Long",
            ResponseCodes::UnsupportedMediaType => "Unsupported Media Type",
            ResponseCodes::RangeNotSatisfiable => "Range Not Satisfiable",
            ResponseCodes::ExpectationFailed => "Expectation Failed",
            ResponseCodes::ImATeapot => "I'm a teapot",
            ResponseCodes::MisdirectedRequest => "Misdirected Request",
            ResponseCodes::UnprocessableContent => "Unprocessable Content",
            ResponseCodes::Locked => "Locked",
            ResponseCodes::FailedDependency => "Failed Dependency",
            ResponseCodes::TooEarly => "Too Early",
            ResponseCodes::UpgradeRequired => "Upgrade Required",
            ResponseCodes::PreconditionRequired => "Precondition Required",
            ResponseCodes::TooManyRequests => "Too Many Requests",
            ResponseCodes::RequestHeaderFieldsTooLarge => "Request Header Fields Too Large",
            ResponseCodes::UnavailableForLegalReasons => "Unavailable For Legal Reasons",
            ResponseCodes::InternalServerError => "Internal Server Error",
            ResponseCodes::NotImplemented => "Not Implemented",
            ResponseCodes::BadGateway => "Bad Gateway",
            ResponseCodes::ServiceUnavailable => "Service Unavailable",
            ResponseCodes::GatewayTimeout => "Gateway Timeout",
            ResponseCodes::HTTPVersionNotSupported => "HTTP Version Not Supported",
            ResponseCodes::VariantAlsoNegotiates => "Variant Also Negotiates",
            ResponseCodes::InsufficientStorage => "Insufficient Storage",
            ResponseCodes::LoopDetected => "Loop Detected",
            ResponseCodes::NotExtended => "Not Extended",
            ResponseCodes::NetworkAuthenticationRequired => "Network Authentication Required",
        }
    }

    /// Compares two status codes by numeric value and reason phrase.
    pub fn equals(&self, response_codes: ResponseCodes) -> (r: bool)
        ensures
            r == (self.spec_code() == response_codes.spec_code() && self.spec_reason()
                == response_codes.spec_reason()),
    {
        self.as_u16() == response_codes.as_u16() && crate::text::str_eq(
            self.as_str(),
            response_codes.as_str(),
        )
    }
}

} // verus!
