//! The registry of status codes: each status with its number and its
//! canonical reason phrase.
use vstd::prelude::*;
use vstd::string::*;

verus! {

/// The registered statuses. There are no others.
#[derive(Clone, Copy, Debug, PartialEq, Eq, Structural)]
pub enum StatusCode {
    // Informational.
    Continue,
    SwitchingProtocols,
    Processing,
    EarlyHints,
    // Success.
    OK,
    Created,
    Accepted,
    NonAuthoritativeInformation,
    NoContent,
    ResetContent,
    PartialContent,
    MultiStatus,
    AlreadyReported,
    IMUsed,
    // Redirection.
    MultipleChoices,
    MovedPermanently,
    Found,
    SeeOther,
    NotModified,
    UseProxy,
    SwitchProxy,
    TemporaryRedirect,
    PermanentRedirect,
    // Client errors.
    BadRequest,
    Unauthorized,
    PaymentRequired,
    Forbidden,
    NotFound,
    MethodNotAllowed,
    NotAcceptable,
    ProxyAuthenticationRequired,
    RequestTimeout,
    Conflict,
    Gone,
    LengthRequired,
    PreconditionFailed,
    PayloadTooLarge,
    URITooLong,
    UnsupportedMediaType,
    RangeNotSatisfiable,
    ExpectationFailed,
    ImATeapot,
    MisdirectedRequest,
    UnprocessableEntity,
    Locked,
    FailedDependency,
    UpgradeRequired,
    PreconditionRequired,
    TooManyRequests,
    RequestHeaderFieldsTooLarge,
    UnavailableForLegalReasons,
    // Server errors.
    InternalServerError,
    NotImplemented,
    BadGateway,
    ServiceUnavailable,
    GatewayTimeout,
    HTTPVersionNotSupported,
    VariantAlsoNegotiates,
    InsufficientStorage,
    LoopDetected,
    NotExtended,
    NetworkAuthenticationRequired,
}

impl StatusCode {
    /// The number of the status.
    pub open spec fn number(self) -> u16 {
        match self {
            // Informational.
            StatusCode::Continue => 100,
            StatusCode::SwitchingProtocols => 101,
            StatusCode::Processing => 102,
            StatusCode::EarlyHints => 103,
            // Success.
            StatusCode::OK => 200,
            StatusCode::Created => 201,
            StatusCode::Accepted => 202,
            StatusCode::NonAuthoritativeInformation => 203,
            StatusCode::NoContent => 204,
            StatusCode::ResetContent => 205,
            StatusCode::PartialContent => 206,
            StatusCode::MultiStatus => 207,
            StatusCode::AlreadyReported => 208,
            StatusCode::IMUsed => 226,
            // Redirection.
            StatusCode::MultipleChoices => 300,
            StatusCode::MovedPermanently => 301,
            StatusCode::Found => 302,
            StatusCode::SeeOther => 303,
            StatusCode::NotModified => 304,
            StatusCode::UseProxy => 305,
            StatusCode::SwitchProxy => 306,
            StatusCode::TemporaryRedirect => 307,
            StatusCode::PermanentRedirect => 308,
            // Client errors.
            StatusCode::BadRequest => 400,
            StatusCode::Unauthorized => 401,
            StatusCode::PaymentRequired => 402,
            StatusCode::Forbidden => 403,
            StatusCode::NotFound => 404,
            StatusCode::MethodNotAllowed => 405,
            StatusCode::NotAcceptable => 406,
            StatusCode::ProxyAuthenticationRequired => 407,
            StatusCode::RequestTimeout => 408,
            StatusCode::Conflict => 409,
            StatusCode::Gone => 410,
            StatusCode::LengthRequired => 411,
            StatusCode::PreconditionFailed => 412,
            StatusCode::PayloadTooLarge => 413,
            StatusCode::URITooLong => 414,
            StatusCode::UnsupportedMediaType => 415,
            StatusCode::RangeNotSatisfiable => 416,
            StatusCode::ExpectationFailed => 417,
            StatusCode::ImATeapot => 418,
            StatusCode::MisdirectedRequest => 421,
            StatusCode::UnprocessableEntity => 422,
            StatusCode::Locked => 423,
            StatusCode::FailedDependency => 424,
            StatusCode::UpgradeRequired => 426,
            StatusCode::PreconditionRequired => 428,
            StatusCode::TooManyRequests => 429,
            StatusCode::RequestHeaderFieldsTooLarge => 431,
            StatusCode::UnavailableForLegalReasons => 451,
            // Server errors.
            StatusCode::InternalServerError => 500,
            StatusCode::NotImplemented => 501,
            StatusCode::BadGateway => 502,
            StatusCode::ServiceUnavailable => 503,
            StatusCode::GatewayTimeout => 504,
            StatusCode::HTTPVersionNotSupported => 505,
            StatusCode::VariantAlsoNegotiates => 506,
            StatusCode::InsufficientStorage => 507,
            StatusCode::LoopDetected => 508,
            StatusCode::NotExtended => 510,
            StatusCode::NetworkAuthenticationRequired => 511,
        }
    }

    /// The status registered under a number, if there is one.
    pub open spec fn spec_from(code: u16) -> Option<StatusCode> {
        if exists|status: StatusCode| status.number() == code {
            Some(choose|status: StatusCode| status.number() == code)
        } else {
            None
        }
    }

    /// The canonical reason phrase of the status.
    pub open spec fn reason(self) -> Seq<char> {
        match self {
            // Informational.
            StatusCode::Continue => "Continue"@,
            StatusCode::SwitchingProtocols => "Switching Protocols"@,
            StatusCode::Processing => "Processing"@,
            StatusCode::EarlyHints => "Early Hints"@,
            // Success.
            StatusCode::OK => "OK"@,
            StatusCode::Created => "Created"@,
            StatusCode::Accepted => "Accepted"@,
            StatusCode::NonAuthoritativeInformation => "Non-Authoritative Information"@,
            StatusCode::NoContent => "No Content"@,
            StatusCode::ResetContent => "Reset Content"@,
            StatusCode::PartialContent => "Partial Content"@,
            StatusCode::MultiStatus => "Multi-Status"@,
            StatusCode::AlreadyReported => "Already Reported"@,
            StatusCode::IMUsed => "IM Used"@,
            // Redirection.
            StatusCode::MultipleChoices => "Multiple Choices"@,
            StatusCode::MovedPermanently => "Moved Permanently"@,
            StatusCode::Found => "Found"@,
            StatusCode::SeeOther => "See Other"@,
            StatusCode::NotModified => "Not Modified"@,
            StatusCode::UseProxy => "Use Proxy"@,
            StatusCode::SwitchProxy => "Switch Proxy"@,
            StatusCode::TemporaryRedirect => "Temporary Redirect"@,
            StatusCode::PermanentRedirect => "Permanent Redirect"@,
            // Client errors.
            StatusCode::BadRequest => "Bad Request"@,
            StatusCode::Unauthorized => "Unauthorized"@,
            StatusCode::PaymentRequired => "Payment Required"@,
            StatusCode::Forbidden => "Forbidden"@,
            StatusCode::NotFound => "Not Found"@,
            StatusCode::MethodNotAllowed => "Method Not Allowed"@,
            StatusCode::NotAcceptable => "Not Acceptable"@,
            StatusCode::ProxyAuthenticationRequired => "Proxy Authentication Required"@,
            StatusCode::RequestTimeout => "Request Timeout"@,
            StatusCode::Conflict => "Conflict"@,
            StatusCode::Gone => "Gone"@,
            StatusCode::LengthRequired => "Length Required"@,
            StatusCode::PreconditionFailed => "Precondition Failed"@,
            StatusCode::PayloadTooLarge => "Payload Too Large"@,
            StatusCode::URITooLong => "URI Too Long"@,
            StatusCode::UnsupportedMediaType => "Unsupported Media Type"@,
            StatusCode::RangeNotSatisfiable => "Range Not Satisfiable"@,
            StatusCode::ExpectationFailed => "Expectation Failed"@,
            StatusCode::ImATeapot => "I'm a teapot"@,
            StatusCode::MisdirectedRequest => "Misdirected Request"@,
            StatusCode::UnprocessableEntity => "Unprocessable Entity"@,
            StatusCode::Locked => "Locked"@,
            StatusCode::FailedDependency => "Failed Dependency"@,
            StatusCode::UpgradeRequired => "Upgrade Required"@,
            StatusCode::PreconditionRequired => "Precondition Required"@,
            StatusCode::TooManyRequests => "Too Many Requests"@,
            StatusCode::RequestHeaderFieldsTooLarge => "Request Header Fields Too Large"@,
            StatusCode::UnavailableForLegalReasons => "Unavailable For Legal Reasons"@,
            // Server errors.
            StatusCode::InternalServerError => "Internal Server Error"@,
            StatusCode::NotImplemented => "Not Implemented"@,
            StatusCode::BadGateway => "Bad Gateway"@,
            StatusCode::ServiceUnavailable => "Service Unavailable"@,
            StatusCode::GatewayTimeout => "Gateway Timeout"@,
            StatusCode::HTTPVersionNotSupported => "HTTP Version Not Supported"@,
            StatusCode::VariantAlsoNegotiates => "Variant Also Negotiates"@,
            StatusCode::InsufficientStorage => "Insufficient Storage"@,
            StatusCode::LoopDetected => "Loop Detected"@,
            StatusCode::NotExtended => "Not Extended"@,
            StatusCode::NetworkAuthenticationRequired => "Network Authentication Required"@,
        }
    }

    /// Looks a number up in the registry.
    pub fn from(code: u16) -> (r: Option<StatusCode>)
        ensures
            r == StatusCode::spec_from(code),
    {
        let r = if code == 100 {
            Some(StatusCode::Continue)
        } else if code == 101 {
            Some(StatusCode::SwitchingProtocols)
        } else if code == 102 {
            Some(StatusCode::Processing)
        } else if code == 103 {
            Some(StatusCode::EarlyHints)
        } else if code == 200 {
            Some(StatusCode::OK)
        } else if code == 201 {
            Some(StatusCode::Created)
        } else if code == 202 {
            Some(StatusCode::Accepted)
        } else if code == 203 {
            Some(StatusCode::NonAuthoritativeInformation)
        } else if code == 204 {
            Some(StatusCode::NoContent)
        } else if code == 205 {
            Some(StatusCode::ResetContent)
        } else if code == 206 {
            Some(StatusCode::PartialContent)
        } else if code == 207 {
            Some(StatusCode::MultiStatus)
        } else if code == 208 {
            Some(StatusCode::AlreadyReported)
        } else if code == 226 {
            Some(StatusCode::IMUsed)
        } else if code == 300 {
            Some(StatusCode::MultipleChoices)
        } else if code == 301 {
            Some(StatusCode::MovedPermanently)
        } else if code == 302 {
            Some(StatusCode::Found)
        } else if code == 303 {
            Some(StatusCode::SeeOther)
        } else if code == 304 {
            Some(StatusCode::NotModified)
        } else if code == 305 {
            Some(StatusCode::UseProxy)
        } else if code == 306 {
            Some(StatusCode::SwitchProxy)
        } else if code == 307 {
            Some(StatusCode::TemporaryRedirect)
        } else if code == 308 {
            Some(StatusCode::PermanentRedirect)
        } else if code == 400 {
            Some(StatusCode::BadRequest)
        } else if code == 401 {
            Some(StatusCode::Unauthorized)
        } else if code == 402 {
            Some(StatusCode::PaymentRequired)
        } else if code == 403 {
            Some(StatusCode::Forbidden)
        } else if code == 404 {
            Some(StatusCode::NotFound)
        } else if code == 405 {
            Some(StatusCode::MethodNotAllowed)
        } else if code == 406 {
            Some(StatusCode::NotAcceptable)
        } else if code == 407 {
            Some(StatusCode::ProxyAuthenticationRequired)
        } else if code == 408 {
            Some(StatusCode::RequestTimeout)
        } else if code == 409 {
            Some(StatusCode::Conflict)
        } else if code == 410 {
            Some(StatusCode::Gone)
        } else if code == 411 {
            Some(StatusCode::LengthRequired)
        } else if code == 412 {
            Some(StatusCode::PreconditionFailed)
        } else if code == 413 {
            Some(StatusCode::PayloadTooLarge)
        } else if code == 414 {
            Some(StatusCode::URITooLong)
        } else if code == 415 {
            Some(StatusCode::UnsupportedMediaType)
        } else if code == 416 {
            Some(StatusCode::RangeNotSatisfiable)
        } else if code == 417 {
            Some(StatusCode::ExpectationFailed)
        } else if code == 418 {
            Some(StatusCode::ImATeapot)
        } else if code == 421 {
            Some(StatusCode::MisdirectedRequest)
        } else if code == 422 {
            Some(StatusCode::UnprocessableEntity)
        } else if code == 423 {
            Some(StatusCode::Locked)
        } else if code == 424 {
            Some(StatusCode::FailedDependency)
        } else if code == 426 {
            Some(StatusCode::UpgradeRequired)
        } else if code == 428 {
            Some(StatusCode::PreconditionRequired)
        } else if code == 429 {
            Some(StatusCode::TooManyRequests)
        } else if code == 431 {
            Some(StatusCode::RequestHeaderFieldsTooLarge)
        } else if code == 451 {
            Some(StatusCode::UnavailableForLegalReasons)
        } else if code == 500 {
            Some(StatusCode::InternalServerError)
        } else if code == 501 {
            Some(StatusCode::NotImplemented)
        } else if code == 502 {
            Some(StatusCode::BadGateway)
        } else if code == 503 {
            Some(StatusCode::ServiceUnavailable)
        } else if code == 504 {
            Some(StatusCode::GatewayTimeout)
        } else if code == 505 {
            Some(StatusCode::HTTPVersionNotSupported)
        } else if code == 506 {
            Some(StatusCode::VariantAlsoNegotiates)
        } else if code == 507 {
            Some(StatusCode::InsufficientStorage)
        } else if code == 508 {
            Some(StatusCode::LoopDetected)
        } else if code == 510 {
            Some(StatusCode::NotExtended)
        } else if code == 511 {
            Some(StatusCode::NetworkAuthenticationRequired)
        } else {
            None
        };
        proof {
            match r {
                Some(status) => {
                    assert(status.number() == code);
                    lemma_numbers_differ(StatusCode::spec_from(code)->0, status);
                },
                None => {
                    assert forall|status: StatusCode| status.number() != code by {}
                },
            }
        }
        r
    }

    /// The number of the status.
    pub fn code(&self) -> (c: u16)
        ensures
            c == self.number(),
            100 <= c <= 599,
    {
        match self {
            // Informational.
            StatusCode::Continue => 100,
            StatusCode::SwitchingProtocols => 101,
            StatusCode::Processing => 102,
            StatusCode::EarlyHints => 103,
            // Success.
            StatusCode::OK => 200,
            StatusCode::Created => 201,
            StatusCode::Accepted => 202,
            StatusCode::NonAuthoritativeInformation => 203,
            StatusCode::NoContent => 204,
            StatusCode::ResetContent => 205,
            StatusCode::PartialContent => 206,
            StatusCode::MultiStatus => 207,
            StatusCode::AlreadyReported => 208,
            StatusCode::IMUsed => 226,
            // Redirection.
            StatusCode::MultipleChoices => 300,
            StatusCode::MovedPermanently => 301,
            StatusCode::Found => 302,
            StatusCode::SeeOther => 303,
            StatusCode::NotModified => 304,
            StatusCode::UseProxy => 305,
            StatusCode::SwitchProxy => 306,
            StatusCode::TemporaryRedirect => 307,
            StatusCode::PermanentRedirect => 308,
            // Client errors.
            StatusCode::BadRequest => 400,
            StatusCode::Unauthorized => 401,
            StatusCode::PaymentRequired => 402,
            StatusCode::Forbidden => 403,
            StatusCode::NotFound => 404,
            StatusCode::MethodNotAllowed => 405,
            StatusCode::NotAcceptable => 406,
            StatusCode::ProxyAuthenticationRequired => 407,
            StatusCode::RequestTimeout => 408,
            StatusCode::Conflict => 409,
            StatusCode::Gone => 410,
            StatusCode::LengthRequired => 411,
            StatusCode::PreconditionFailed => 412,
            StatusCode::PayloadTooLarge => 413,
            StatusCode::URITooLong => 414,
            StatusCode::UnsupportedMediaType => 415,
            StatusCode::RangeNotSatisfiable => 416,
            StatusCode::ExpectationFailed => 417,
            StatusCode::ImATeapot => 418,
            StatusCode::MisdirectedRequest => 421,
            StatusCode::UnprocessableEntity => 422,
            StatusCode::Locked => 423,
            StatusCode::FailedDependency => 424,
            StatusCode::UpgradeRequired => 426,
            StatusCode::PreconditionRequired => 428,
            StatusCode::TooManyRequests => 429,
            StatusCode::RequestHeaderFieldsTooLarge => 431,
            StatusCode::UnavailableForLegalReasons => 451,
            // Server errors.
            StatusCode::InternalServerError => 500,
            StatusCode::NotImplemented => 501,
            StatusCode::BadGateway => 502,
            StatusCode::ServiceUnavailable => 503,
            StatusCode::GatewayTimeout => 504,
            StatusCode::HTTPVersionNotSupported => 505,
            StatusCode::VariantAlsoNegotiates => 506,
            StatusCode::InsufficientStorage => 507,
            StatusCode::LoopDetected => 508,
            StatusCode::NotExtended => 510,
            StatusCode::NetworkAuthenticationRequired => 511,
        }
    }

    /// The canonical reason phrase of the status, whatever text came with
    /// the number on the wire.
    pub fn phrase(&self) -> (s: &'static str)
        ensures
            s@ == self.reason(),
    {
        match self {
            // Informational.
            StatusCode::Continue => "Continue",
            StatusCode::SwitchingProtocols => "Switching Protocols",
            StatusCode::Processing => "Processing",
            StatusCode::EarlyHints => "Early Hints",
            // Success.
            StatusCode::OK => "OK",
            StatusCode::Created => "Created",
            StatusCode::Accepted => "Accepted",
            StatusCode::NonAuthoritativeInformation => "Non-Authoritative Information",
            StatusCode::NoContent => "No Content",
            StatusCode::ResetContent => "Reset Content",
            StatusCode::PartialContent => "Partial Content",
            StatusCode::MultiStatus => "Multi-Status",
            StatusCode::AlreadyReported => "Already Reported",
            StatusCode::IMUsed => "IM Used",
            // Redirection.
            StatusCode::MultipleChoices => "Multiple Choices",
            StatusCode::MovedPermanently => "Moved Permanently",
            StatusCode::Found => "Found",
            StatusCode::SeeOther => "See Other",
            StatusCode::NotModified => "Not Modified",
            StatusCode::UseProxy => "Use Proxy",
            StatusCode::SwitchProxy => "Switch Proxy",
            StatusCode::TemporaryRedirect => "Temporary Redirect",
            StatusCode::PermanentRedirect => "Permanent Redirect",
            // Client errors.
            StatusCode::BadRequest => "Bad Request",
            StatusCode::Unauthorized => "Unauthorized",
            StatusCode::PaymentRequired => "Payment Required",
            StatusCode::Forbidden => "Forbidden",
            StatusCode::NotFound => "Not Found",
            StatusCode::MethodNotAllowed => "Method Not Allowed",
            StatusCode::NotAcceptable => "Not Acceptable",
            StatusCode::ProxyAuthenticationRequired => "Proxy Authentication Required",
            StatusCode::RequestTimeout => "Request Timeout",
            StatusCode::Conflict => "Conflict",
            StatusCode::Gone => "Gone",
            StatusCode::LengthRequired => "Length Required",
            StatusCode::PreconditionFailed => "Precondition Failed",
            StatusCode::PayloadTooLarge => "Payload Too Large",
            StatusCode::URITooLong => "URI Too Long",
            StatusCode::UnsupportedMediaType => "Unsupported Media Type",
            StatusCode::RangeNotSatisfiable => "Range Not Satisfiable",
            StatusCode::ExpectationFailed => "Expectation Failed",
            StatusCode::ImATeapot => "I'm a teapot",
            StatusCode::MisdirectedRequest => "Misdirected Request",
            StatusCode::UnprocessableEntity => "Unprocessable Entity",
            StatusCode::Locked => "Locked",
            StatusCode::FailedDependency => "Failed Dependency",
            StatusCode::UpgradeRequired => "Upgrade Required",
            StatusCode::PreconditionRequired => "Precondition Required",
            StatusCode::TooManyRequests => "Too Many Requests",
            StatusCode::RequestHeaderFieldsTooLarge => "Request Header Fields Too Large",
            StatusCode::UnavailableForLegalReasons => "Unavailable For Legal Reasons",
            // Server errors.
            StatusCode::InternalServerError => "Internal Server Error",
            StatusCode::NotImplemented => "Not Implemented",
            StatusCode::BadGateway => "Bad Gateway",
            StatusCode::ServiceUnavailable => "Service Unavailable",
            StatusCode::GatewayTimeout => "Gateway Timeout",
            StatusCode::HTTPVersionNotSupported => "HTTP Version Not Supported",
            StatusCode::VariantAlsoNegotiates => "Variant Also Negotiates",
            StatusCode::InsufficientStorage => "Insufficient Storage",
            StatusCode::LoopDetected => "Loop Detected",
            StatusCode::NotExtended => "Not Extended",
            StatusCode::NetworkAuthenticationRequired => "Network Authentication Required",
        }
    }
}

/// No two statuses share a number.
pub proof fn lemma_numbers_differ(a: StatusCode, b: StatusCode)
    ensures
        a.number() == b.number() ==> a == b,
{
}

/// A reason phrase holds no line feed.
pub proof fn lemma_reason_is_one_line(status: StatusCode)
    ensures
        !status.reason().contains('\n'),
{
    match status {
        StatusCode::Continue => {
            reveal_strlit("Continue");
        },
        StatusCode::SwitchingProtocols => {
            reveal_strlit("Switching Protocols");
        },
        StatusCode::Processing => {
            reveal_strlit("Processing");
        },
        StatusCode::EarlyHints => {
            reveal_strlit("Early Hints");
        },
        StatusCode::OK => {
            reveal_strlit("OK");
        },
        StatusCode::Created => {
            reveal_strlit("Created");
        },
        StatusCode::Accepted => {
            reveal_strlit("Accepted");
        },
        StatusCode::NonAuthoritativeInformation => {
            reveal_strlit("Non-Authoritative Information");
        },
        StatusCode::NoContent => {
            reveal_strlit("No Content");
        },
        StatusCode::ResetContent => {
            reveal_strlit("Reset Content");
        },
        StatusCode::PartialContent => {
            reveal_strlit("Partial Content");
        },
        StatusCode::MultiStatus => {
            reveal_strlit("Multi-Status");
        },
        StatusCode::AlreadyReported => {
            reveal_strlit("Already Reported");
        },
        StatusCode::IMUsed => {
            reveal_strlit("IM Used");
        },
        StatusCode::MultipleChoices => {
            reveal_strlit("Multiple Choices");
        },
        StatusCode::MovedPermanently => {
            reveal_strlit("Moved Permanently");
        },
        StatusCode::Found => {
            reveal_strlit("Found");
        },
        StatusCode::SeeOther => {
            reveal_strlit("See Other");
        },
        StatusCode::NotModified => {
            reveal_strlit("Not Modified");
        },
        StatusCode::UseProxy => {
            reveal_strlit("Use Proxy");
        },
        StatusCode::SwitchProxy => {
            reveal_strlit("Switch Proxy");
        },
        StatusCode::TemporaryRedirect => {
            reveal_strlit("Temporary Redirect");
        },
        StatusCode::PermanentRedirect => {
            reveal_strlit("Permanent Redirect");
        },
        StatusCode::BadRequest => {
            reveal_strlit("Bad Request");
        },
        StatusCode::Unauthorized => {
            reveal_strlit("Unauthorized");
        },
        StatusCode::PaymentRequired => {
            reveal_strlit("Payment Required");
        },
        StatusCode::Forbidden => {
            reveal_strlit("Forbidden");
        },
        StatusCode::NotFound => {
            reveal_strlit("Not Found");
        },
        StatusCode::MethodNotAllowed => {
            reveal_strlit("Method Not Allowed");
        },
        StatusCode::NotAcceptable => {
            reveal_strlit("Not Acceptable");
        },
        StatusCode::ProxyAuthenticationRequired => {
            reveal_strlit("Proxy Authentication Required");
        },
        StatusCode::RequestTimeout => {
            reveal_strlit("Request Timeout");
        },
        StatusCode::Conflict => {
            reveal_strlit("Conflict");
        },
        StatusCode::Gone => {
            reveal_strlit("Gone");
        },
        StatusCode::LengthRequired => {
            reveal_strlit("Length Required");
        },
        StatusCode::PreconditionFailed => {
            reveal_strlit("Precondition Failed");
        },
        StatusCode::PayloadTooLarge => {
            reveal_strlit("Payload Too Large");
        },
        StatusCode::URITooLong => {
            reveal_strlit("URI Too Long");
        },
        StatusCode::UnsupportedMediaType => {
            reveal_strlit("Unsupported Media Type");
        },
        StatusCode::RangeNotSatisfiable => {
            reveal_strlit("Range Not Satisfiable");
        },
        StatusCode::ExpectationFailed => {
            reveal_strlit("Expectation Failed");
        },
        StatusCode::ImATeapot => {
            reveal_strlit("I'm a teapot");
        },
        StatusCode::MisdirectedRequest => {
            reveal_strlit("Misdirected Request");
        },
        StatusCode::UnprocessableEntity => {
            reveal_strlit("Unprocessable Entity");
        },
        StatusCode::Locked => {
            reveal_strlit("Locked");
        },
        StatusCode::FailedDependency => {
            reveal_strlit("Failed Dependency");
        },
        StatusCode::UpgradeRequired => {
            reveal_strlit("Upgrade Required");
        },
        StatusCode::PreconditionRequired => {
            reveal_strlit("Precondition Required");
        },
        StatusCode::TooManyRequests => {
            reveal_strlit("Too Many Requests");
        },
        StatusCode::RequestHeaderFieldsTooLarge => {
            reveal_strlit("Request Header Fields Too Large");
        },
        StatusCode::UnavailableForLegalReasons => {
            reveal_strlit("Unavailable For Legal Reasons");
        },
        StatusCode::InternalServerError => {
            reveal_strlit("Internal Server Error");
        },
        StatusCode::NotImplemented => {
            reveal_strlit("Not Implemented");
        },
        StatusCode::BadGateway => {
            reveal_strlit("Bad Gateway");
        },
        StatusCode::ServiceUnavailable => {
            reveal_strlit("Service Unavailable");
        },
        StatusCode::GatewayTimeout => {
            reveal_strlit("Gateway Timeout");
        },
        StatusCode::HTTPVersionNotSupported => {
            reveal_strlit("HTTP Version Not Supported");
        },
        StatusCode::VariantAlsoNegotiates => {
            reveal_strlit("Variant Also Negotiates");
        },
        StatusCode::InsufficientStorage => {
            reveal_strlit("Insufficient Storage");
        },
        StatusCode::LoopDetected => {
            reveal_strlit("Loop Detected");
        },
        StatusCode::NotExtended => {
            reveal_strlit("Not Extended");
        },
        StatusCode::NetworkAuthenticationRequired => {
            reveal_strlit("Network Authentication Required");
        },
    }
    let reason = status.reason();
    assert forall|i: int| 0 <= i < reason.len() implies ' ' <= #[trigger] reason[i] by {}
}

/// The registry pairs statuses and numbers one to one: every status is found
/// again under its own number, a number leads to a status only if it is that
/// status's number, and every registered number lies from 100 to 599.
pub proof fn law_registry_is_one_to_one(status: StatusCode, code: u16)
    ensures
        StatusCode::spec_from(status.number()) == Some(status),
        StatusCode::spec_from(code) == Some(status) <==> code == status.number(),
        100 <= status.number() <= 599,
{
    if StatusCode::spec_from(code) is Some {
        lemma_numbers_differ(StatusCode::spec_from(code)->0, status);
    }
    lemma_numbers_differ(StatusCode::spec_from(status.number())->0, status);
}

} // verus!
