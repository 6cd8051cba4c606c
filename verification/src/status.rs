//! The status vocabulary: named response codes, their numbers and their
//! canonical names.

use vstd::prelude::*;
use crate::text::same_text;

verus! {

/// A status code: one of a closed set of named response codes.
#[derive(Clone, Copy, Debug, PartialEq, Eq, Structural)]
pub enum HttpCode {
    Continue,
    SwitchingProtocols,
    Processing,
    EarlyHints,
    OK,
    Created,
    Accepted,
    NonAuthoritativeInformation,
    NoContent,
    ResetContent,
    PartialContent,
    MultiStatus,
    AlreadyReported,
    ImUsed,
    MultipleChoices,
    MovedPermanently,
    Found,
    SeeOther,
    NotModified,
    UseProxy,
    TemporaryRedirect,
    PermanentRedirect,
    BadRequest,
    Unauthorized,
    PaymentRequired,
    Forbidden,
    NotFound,
    MethodNotAllowed,
    NotAcceptable,
    ProxyAuthenticationRequired,
    RequestTimeout,
    Conflict,
    Gone,
    LengthRequired,
    PreconditionFailed,
    PayloadTooLarge,
    UriTooLong,
    UnsupportedMediaType,
    RangeNotSatisfiable,
    ExpectationFailed,
    ImATeapot,
    MisdirectedRequest,
    UnprocessableEntity,
    Locked,
    FailedDependency,
    TooEarly,
    UpgradeRequired,
    PreconditionRequired,
    TooManyRequests,
    RequestHeaderFieldsTooLarge,
    UnavailableForLegalReasons,
    InternalServerError,
    NotImplemented,
    BadGateway,
    ServiceUnavailable,
    GatewayTimeout,
    HttpVersionNotSupported,
    VariantAlsoNegotiates,
    InsufficientStorage,
    LoopDetected,
    NotExtended,
    NetworkAuthenticationRequired,
}

/// The number of codes in the vocabulary.
pub const HTTP_CODE_COUNT: usize = 62;

impl HttpCode {
    /// The number of this code.
    pub open spec fn number(self) -> u16 {
        match self {
            HttpCode::Continue => 100,
            HttpCode::SwitchingProtocols => 101,
            HttpCode::Processing => 102,
            HttpCode::EarlyHints => 103,
            HttpCode::OK => 200,
            HttpCode::Created => 201,
            HttpCode::Accepted => 202,
            HttpCode::NonAuthoritativeInformation => 203,
            HttpCode::NoContent => 204,
            HttpCode::ResetContent => 205,
            HttpCode::PartialContent => 206,
            HttpCode::MultiStatus => 207,
            HttpCode::AlreadyReported => 208,
            HttpCode::ImUsed => 226,
            HttpCode::MultipleChoices => 300,
            HttpCode::MovedPermanently => 301,
            HttpCode::Found => 302,
            HttpCode::SeeOther => 303,
            HttpCode::NotModified => 304,
            HttpCode::UseProxy => 305,
            HttpCode::TemporaryRedirect => 307,
            HttpCode::PermanentRedirect => 308,
            HttpCode::BadRequest => 400,
            HttpCode::Unauthorized => 401,
            HttpCode::PaymentRequired => 402,
            HttpCode::Forbidden => 403,
            HttpCode::NotFound => 404,
            HttpCode::MethodNotAllowed => 405,
            HttpCode::NotAcceptable => 406,
            HttpCode::ProxyAuthenticationRequired => 407,
            HttpCode::RequestTimeout => 408,
            HttpCode::Conflict => 409,
            HttpCode::Gone => 410,
            HttpCode::LengthRequired => 411,
            HttpCode::PreconditionFailed => 412,
            HttpCode::PayloadTooLarge => 413,
            HttpCode::UriTooLong => 414,
            HttpCode::UnsupportedMediaType => 415,
            HttpCode::RangeNotSatisfiable => 416,
            HttpCode::ExpectationFailed => 417,
            HttpCode::ImATeapot => 418,
            HttpCode::MisdirectedRequest => 421,
            HttpCode::UnprocessableEntity => 422,
            HttpCode::Locked => 423,
            HttpCode::FailedDependency => 424,
            HttpCode::TooEarly => 425,
            HttpCode::UpgradeRequired => 426,
            HttpCode::PreconditionRequired => 428,
            HttpCode::TooManyRequests => 429,
            HttpCode::RequestHeaderFieldsTooLarge => 431,
            HttpCode::UnavailableForLegalReasons => 451,
            HttpCode::InternalServerError => 500,
            HttpCode::NotImplemented => 501,
            HttpCode::BadGateway => 502,
            HttpCode::ServiceUnavailable => 503,
            HttpCode::GatewayTimeout => 504,
            HttpCode::HttpVersionNotSupported => 505,
            HttpCode::VariantAlsoNegotiates => 506,
            HttpCode::InsufficientStorage => 507,
            HttpCode::LoopDetected => 508,
            HttpCode::NotExtended => 510,
            HttpCode::NetworkAuthenticationRequired => 511,
        }
    }

    /// The canonical name of this code.
    pub open spec fn canonical_name(self) -> Seq<char> {
        match self {
            HttpCode::Continue => "Continue"@,
            HttpCode::SwitchingProtocols => "Switching Protocols"@,
            HttpCode::Processing => "Processing"@,
            HttpCode::EarlyHints => "Early Hints"@,
            HttpCode::OK => "OK"@,
            HttpCode::Created => "Created"@,
            HttpCode::Accepted => "Accepted"@,
            HttpCode::NonAuthoritativeInformation => "Non-Authoritative Information"@,
            HttpCode::NoContent => "No Content"@,
            HttpCode::ResetContent => "Reset Content"@,
            HttpCode::PartialContent => "Partial Content"@,
            HttpCode::MultiStatus => "Multi-Status"@,
            HttpCode::AlreadyReported => "Already Reported"@,
            HttpCode::ImUsed => "IM Used"@,
            HttpCode::MultipleChoices => "Multiple Choices"@,
            HttpCode::MovedPermanently => "Moved Permanently"@,
            HttpCode::Found => "Found"@,
            HttpCode::SeeOther => "See Other"@,
            HttpCode::NotModified => "Not Modified"@,
            HttpCode::UseProxy => "Use Proxy"@,
            HttpCode::TemporaryRedirect => "Temporary Redirect"@,
            HttpCode::PermanentRedirect => "Permanent Redirect"@,
            HttpCode::BadRequest => "Bad Request"@,
            HttpCode::Unauthorized => "Unauthorized"@,
            HttpCode::PaymentRequired => "Payment Required"@,
            HttpCode::Forbidden => "Forbidden"@,
            HttpCode::NotFound => "Not Found"@,
            HttpCode::MethodNotAllowed => "Method Not Allowed"@,
            HttpCode::NotAcceptable => "Not Acceptable"@,
            HttpCode::ProxyAuthenticationRequired => "Proxy Authentication Required"@,
            HttpCode::RequestTimeout => "Request Timeout"@,
            HttpCode::Conflict => "Conflict"@,
            HttpCode::Gone => "Gone"@,
            HttpCode::LengthRequired => "Length Required"@,
            HttpCode::PreconditionFailed => "Precondition Failed"@,
            HttpCode::PayloadTooLarge => "Payload Too Large"@,
            HttpCode::UriTooLong => "URI Too Long"@,
            HttpCode::UnsupportedMediaType => "Unsupported Media Type"@,
            HttpCode::RangeNotSatisfiable => "Range Not Satisfiable"@,
            HttpCode::ExpectationFailed => "Expectation Failed"@,
            HttpCode::ImATeapot => "I'm a teapot"@,
            HttpCode::MisdirectedRequest => "Misdirected Request"@,
            HttpCode::UnprocessableEntity => "Unprocessable Entity"@,
            HttpCode::Locked => "Locked"@,
            HttpCode::FailedDependency => "Failed Dependency"@,
            HttpCode::TooEarly => "Too Early"@,
            HttpCode::UpgradeRequired => "Upgrade Required"@,
            HttpCode::PreconditionRequired => "Precondition Required"@,
            HttpCode::TooManyRequests => "Too Many Requests"@,
            HttpCode::RequestHeaderFieldsTooLarge => "Request Header Fields Too Large"@,
            HttpCode::UnavailableForLegalReasons => "Unavailable For Legal Reasons"@,
            HttpCode::InternalServerError => "Internal Server Error"@,
            HttpCode::NotImplemented => "Not Implemented"@,
            HttpCode::BadGateway => "Bad Gateway"@,
            HttpCode::ServiceUnavailable => "Service Unavailable"@,
            HttpCode::GatewayTimeout => "Gateway Timeout"@,
            HttpCode::HttpVersionNotSupported => "HTTP Version Not Supported"@,
            HttpCode::VariantAlsoNegotiates => "Variant Also Negotiates"@,
            HttpCode::InsufficientStorage => "Insufficient Storage"@,
            HttpCode::LoopDetected => "Loop Detected"@,
            HttpCode::NotExtended => "Not Extended"@,
            HttpCode::NetworkAuthenticationRequired => "Network Authentication Required"@,
        }
    }

    /// The place of this code in the vocabulary, counted from zero.
    pub open spec fn position(self) -> nat {
        match self {
            HttpCode::Continue => 0,
            HttpCode::SwitchingProtocols => 1,
            HttpCode::Processing => 2,
            HttpCode::EarlyHints => 3,
            HttpCode::OK => 4,
            HttpCode::Created => 5,
            HttpCode::Accepted => 6,
            HttpCode::NonAuthoritativeInformation => 7,
            HttpCode::NoContent => 8,
            HttpCode::ResetContent => 9,
            HttpCode::PartialContent => 10,
            HttpCode::MultiStatus => 11,
            HttpCode::AlreadyReported => 12,
            HttpCode::ImUsed => 13,
            HttpCode::MultipleChoices => 14,
            HttpCode::MovedPermanently => 15,
            HttpCode::Found => 16,
            HttpCode::SeeOther => 17,
            HttpCode::NotModified => 18,
            HttpCode::UseProxy => 19,
            HttpCode::TemporaryRedirect => 20,
            HttpCode::PermanentRedirect => 21,
            HttpCode::BadRequest => 22,
            HttpCode::Unauthorized => 23,
            HttpCode::PaymentRequired => 24,
            HttpCode::Forbidden => 25,
            HttpCode::NotFound => 26,
            HttpCode::MethodNotAllowed => 27,
            HttpCode::NotAcceptable => 28,
            HttpCode::ProxyAuthenticationRequired => 29,
            HttpCode::RequestTimeout => 30,
            HttpCode::Conflict => 31,
            HttpCode::Gone => 32,
            HttpCode::LengthRequired => 33,
            HttpCode::PreconditionFailed => 34,
            HttpCode::PayloadTooLarge => 35,
            HttpCode::UriTooLong => 36,
            HttpCode::UnsupportedMediaType => 37,
            HttpCode::RangeNotSatisfiable => 38,
            HttpCode::ExpectationFailed => 39,
            HttpCode::ImATeapot => 40,
            HttpCode::MisdirectedRequest => 41,
            HttpCode::UnprocessableEntity => 42,
            HttpCode::Locked => 43,
            HttpCode::FailedDependency => 44,
            HttpCode::TooEarly => 45,
            HttpCode::UpgradeRequired => 46,
            HttpCode::PreconditionRequired => 47,
            HttpCode::TooManyRequests => 48,
            HttpCode::RequestHeaderFieldsTooLarge => 49,
            HttpCode::UnavailableForLegalReasons => 50,
            HttpCode::InternalServerError => 51,
            HttpCode::NotImplemented => 52,
            HttpCode::BadGateway => 53,
            HttpCode::ServiceUnavailable => 54,
            HttpCode::GatewayTimeout => 55,
            HttpCode::HttpVersionNotSupported => 56,
            HttpCode::VariantAlsoNegotiates => 57,
            HttpCode::InsufficientStorage => 58,
            HttpCode::LoopDetected => 59,
            HttpCode::NotExtended => 60,
            HttpCode::NetworkAuthenticationRequired => 61,
        }
    }

    /// The code with the number `n`, if the vocabulary has one.
    pub open spec fn with_number(n: u16) -> Option<HttpCode> {
        if exists|c: HttpCode| c.number() == n {
            Some(choose|c: HttpCode| c.number() == n)
        } else {
            None
        }
    }

    /// The code with the canonical name `name`, if the vocabulary has one.
    pub open spec fn with_name(name: Seq<char>) -> Option<HttpCode> {
        if exists|c: HttpCode| c.canonical_name() == name {
            Some(choose|c: HttpCode| c.canonical_name() == name)
        } else {
            None
        }
    }

    /// The number of this code.
    pub fn code(self) -> (n: u16)
        ensures
            n == self.number(),
    {
        match self {
            HttpCode::Continue => 100,
            HttpCode::SwitchingProtocols => 101,
            HttpCode::Processing => 102,
            HttpCode::EarlyHints => 103,
            HttpCode::OK => 200,
            HttpCode::Created => 201,
            HttpCode::Accepted => 202,
            HttpCode::NonAuthoritativeInformation => 203,
            HttpCode::NoContent => 204,
            HttpCode::ResetContent => 205,
            HttpCode::PartialContent => 206,
            HttpCode::MultiStatus => 207,
            HttpCode::AlreadyReported => 208,
            HttpCode::ImUsed => 226,
            HttpCode::MultipleChoices => 300,
            HttpCode::MovedPermanently => 301,
            HttpCode::Found => 302,
            HttpCode::SeeOther => 303,
            HttpCode::NotModified => 304,
            HttpCode::UseProxy => 305,
            HttpCode::TemporaryRedirect => 307,
            HttpCode::PermanentRedirect => 308,
            HttpCode::BadRequest => 400,
            HttpCode::Unauthorized => 401,
            HttpCode::PaymentRequired => 402,
            HttpCode::Forbidden => 403,
            HttpCode::NotFound => 404,
            HttpCode::MethodNotAllowed => 405,
            HttpCode::NotAcceptable => 406,
            HttpCode::ProxyAuthenticationRequired => 407,
            HttpCode::RequestTimeout => 408,
            HttpCode::Conflict => 409,
            HttpCode::Gone => 410,
            HttpCode::LengthRequired => 411,
            HttpCode::PreconditionFailed => 412,
            HttpCode::PayloadTooLarge => 413,
            HttpCode::UriTooLong => 414,
            HttpCode::UnsupportedMediaType => 415,
            HttpCode::RangeNotSatisfiable => 416,
            HttpCode::ExpectationFailed => 417,
            HttpCode::ImATeapot => 418,
            HttpCode::MisdirectedRequest => 421,
            HttpCode::UnprocessableEntity => 422,
            HttpCode::Locked => 423,
            HttpCode::FailedDependency => 424,
            HttpCode::TooEarly => 425,
            HttpCode::UpgradeRequired => 426,
            HttpCode::PreconditionRequired => 428,
            HttpCode::TooManyRequests => 429,
            HttpCode::RequestHeaderFieldsTooLarge => 431,
            HttpCode::UnavailableForLegalReasons => 451,
            HttpCode::InternalServerError => 500,
            HttpCode::NotImplemented => 501,
            HttpCode::BadGateway => 502,
            HttpCode::ServiceUnavailable => 503,
            HttpCode::GatewayTimeout => 504,
            HttpCode::HttpVersionNotSupported => 505,
            HttpCode::VariantAlsoNegotiates => 506,
            HttpCode::InsufficientStorage => 507,
            HttpCode::LoopDetected => 508,
            HttpCode::NotExtended => 510,
            HttpCode::NetworkAuthenticationRequired => 511,
        }
    }

    /// The canonical name of this code.
    pub fn name(self) -> (name: &'static str)
        ensures
            name@ == self.canonical_name(),
    {
        match self {
            HttpCode::Continue => "Continue",
            HttpCode::SwitchingProtocols => "Switching Protocols",
            HttpCode::Processing => "Processing",
            HttpCode::EarlyHints => "Early Hints",
            HttpCode::OK => "OK",
            HttpCode::Created => "Created",
            HttpCode::Accepted => "Accepted",
            HttpCode::NonAuthoritativeInformation => "Non-Authoritative Information",
            HttpCode::NoContent => "No Content",
            HttpCode::ResetContent => "Reset Content",
            HttpCode::PartialContent => "Partial Content",
            HttpCode::MultiStatus => "Multi-Status",
            HttpCode::AlreadyReported => "Already Reported",
            HttpCode::ImUsed => "IM Used",
            HttpCode::MultipleChoices => "Multiple Choices",
            HttpCode::MovedPermanently => "Moved Permanently",
            HttpCode::Found => "Found",
            HttpCode::SeeOther => "See Other",
            HttpCode::NotModified => "Not Modified",
            HttpCode::UseProxy => "Use Proxy",
            HttpCode::TemporaryRedirect => "Temporary Redirect",
            HttpCode::PermanentRedirect => "Permanent Redirect",
            HttpCode::BadRequest => "Bad Request",
            HttpCode::Unauthorized => "Unauthorized",
            HttpCode::PaymentRequired => "Payment Required",
            HttpCode::Forbidden => "Forbidden",
            HttpCode::NotFound => "Not Found",
            HttpCode::MethodNotAllowed => "Method Not Allowed",
            HttpCode::NotAcceptable => "Not Acceptable",
            HttpCode::ProxyAuthenticationRequired => "Proxy Authentication Required",
            HttpCode::RequestTimeout => "Request Timeout",
            HttpCode::Conflict => "Conflict",
            HttpCode::Gone => "Gone",
            HttpCode::LengthRequired => "Length Required",
            HttpCode::PreconditionFailed => "Precondition Failed",
            HttpCode::PayloadTooLarge => "Payload Too Large",
            HttpCode::UriTooLong => "URI Too Long",
            HttpCode::UnsupportedMediaType => "Unsupported Media Type",
            HttpCode::RangeNotSatisfiable => "Range Not Satisfiable",
            HttpCode::ExpectationFailed => "Expectation Failed",
            HttpCode::ImATeapot => "I'm a teapot",
            HttpCode::MisdirectedRequest => "Misdirected Request",
            HttpCode::UnprocessableEntity => "Unprocessable Entity",
            HttpCode::Locked => "Locked",
            HttpCode::FailedDependency => "Failed Dependency",
            HttpCode::TooEarly => "Too Early",
            HttpCode::UpgradeRequired => "Upgrade Required",
            HttpCode::PreconditionRequired => "Precondition Required",
            HttpCode::TooManyRequests => "Too Many Requests",
            HttpCode::RequestHeaderFieldsTooLarge => "Request Header Fields Too Large",
            HttpCode::UnavailableForLegalReasons => "Unavailable For Legal Reasons",
            HttpCode::InternalServerError => "Internal Server Error",
            HttpCode::NotImplemented => "Not Implemented",
            HttpCode::BadGateway => "Bad Gateway",
            HttpCode::ServiceUnavailable => "Service Unavailable",
            HttpCode::GatewayTimeout => "Gateway Timeout",
            HttpCode::HttpVersionNotSupported => "HTTP Version Not Supported",
            HttpCode::VariantAlsoNegotiates => "Variant Also Negotiates",
            HttpCode::InsufficientStorage => "Insufficient Storage",
            HttpCode::LoopDetected => "Loop Detected",
            HttpCode::NotExtended => "Not Extended",
            HttpCode::NetworkAuthenticationRequired => "Network Authentication Required",
        }
    }

    /// The canonical name of this code, as a string of its own.
    pub fn to_string(&self) -> (name: String)
        ensures
            name@ == self.canonical_name(),
    {
        self.name().to_owned()
    }

    /// The place of this code in the vocabulary, counted from zero.
    pub fn index(self) -> (index: usize)
        ensures
            index == self.position(),
            index < HTTP_CODE_COUNT,
    {
        match self {
            HttpCode::Continue => 0,
            HttpCode::SwitchingProtocols => 1,
            HttpCode::Processing => 2,
            HttpCode::EarlyHints => 3,
            HttpCode::OK => 4,
            HttpCode::Created => 5,
            HttpCode::Accepted => 6,
            HttpCode::NonAuthoritativeInformation => 7,
            HttpCode::NoContent => 8,
            HttpCode::ResetContent => 9,
            HttpCode::PartialContent => 10,
            HttpCode::MultiStatus => 11,
            HttpCode::AlreadyReported => 12,
            HttpCode::ImUsed => 13,
            HttpCode::MultipleChoices => 14,
            HttpCode::MovedPermanently => 15,
            HttpCode::Found => 16,
            HttpCode::SeeOther => 17,
            HttpCode::NotModified => 18,
            HttpCode::UseProxy => 19,
            HttpCode::TemporaryRedirect => 20,
            HttpCode::PermanentRedirect => 21,
            HttpCode::BadRequest => 22,
            HttpCode::Unauthorized => 23,
            HttpCode::PaymentRequired => 24,
            HttpCode::Forbidden => 25,
            HttpCode::NotFound => 26,
            HttpCode::MethodNotAllowed => 27,
            HttpCode::NotAcceptable => 28,
            HttpCode::ProxyAuthenticationRequired => 29,
            HttpCode::RequestTimeout => 30,
            HttpCode::Conflict => 31,
            HttpCode::Gone => 32,
            HttpCode::LengthRequired => 33,
            HttpCode::PreconditionFailed => 34,
            HttpCode::PayloadTooLarge => 35,
            HttpCode::UriTooLong => 36,
            HttpCode::UnsupportedMediaType => 37,
            HttpCode::RangeNotSatisfiable => 38,
            HttpCode::ExpectationFailed => 39,
            HttpCode::ImATeapot => 40,
            HttpCode::MisdirectedRequest => 41,
            HttpCode::UnprocessableEntity => 42,
            HttpCode::Locked => 43,
            HttpCode::FailedDependency => 44,
            HttpCode::TooEarly => 45,
            HttpCode::UpgradeRequired => 46,
            HttpCode::PreconditionRequired => 47,
            HttpCode::TooManyRequests => 48,
            HttpCode::RequestHeaderFieldsTooLarge => 49,
            HttpCode::UnavailableForLegalReasons => 50,
            HttpCode::InternalServerError => 51,
            HttpCode::NotImplemented => 52,
            HttpCode::BadGateway => 53,
            HttpCode::ServiceUnavailable => 54,
            HttpCode::GatewayTimeout => 55,
            HttpCode::HttpVersionNotSupported => 56,
            HttpCode::VariantAlsoNegotiates => 57,
            HttpCode::InsufficientStorage => 58,
            HttpCode::LoopDetected => 59,
            HttpCode::NotExtended => 60,
            HttpCode::NetworkAuthenticationRequired => 61,
        }
    }

    /// The code at `index` in the vocabulary.
    pub fn at(index: usize) -> (code: Option<HttpCode>)
        ensures
            index < HTTP_CODE_COUNT ==> code is Some && code->0.position() == index,
            index >= HTTP_CODE_COUNT ==> code is None,
    {
        match index {
            0 => Some(HttpCode::Continue),
            1 => Some(HttpCode::SwitchingProtocols),
            2 => Some(HttpCode::Processing),
            3 => Some(HttpCode::EarlyHints),
            4 => Some(HttpCode::OK),
            5 => Some(HttpCode::Created),
            6 => Some(HttpCode::Accepted),
            7 => Some(HttpCode::NonAuthoritativeInformation),
            8 => Some(HttpCode::NoContent),
            9 => Some(HttpCode::ResetContent),
            10 => Some(HttpCode::PartialContent),
            11 => Some(HttpCode::MultiStatus),
            12 => Some(HttpCode::AlreadyReported),
            13 => Some(HttpCode::ImUsed),
            14 => Some(HttpCode::MultipleChoices),
            15 => Some(HttpCode::MovedPermanently),
            16 => Some(HttpCode::Found),
            17 => Some(HttpCode::SeeOther),
            18 => Some(HttpCode::NotModified),
            19 => Some(HttpCode::UseProxy),
            20 => Some(HttpCode::TemporaryRedirect),
            21 => Some(HttpCode::PermanentRedirect),
            22 => Some(HttpCode::BadRequest),
            23 => Some(HttpCode::Unauthorized),
            24 => Some(HttpCode::PaymentRequired),
            25 => Some(HttpCode::Forbidden),
            26 => Some(HttpCode::NotFound),
            27 => Some(HttpCode::MethodNotAllowed),
            28 => Some(HttpCode::NotAcceptable),
            29 => Some(HttpCode::ProxyAuthenticationRequired),
            30 => Some(HttpCode::RequestTimeout),
            31 => Some(HttpCode::Conflict),
            32 => Some(HttpCode::Gone),
            33 => Some(HttpCode::LengthRequired),
            34 => Some(HttpCode::PreconditionFailed),
            35 => Some(HttpCode::PayloadTooLarge),
            36 => Some(HttpCode::UriTooLong),
            37 => Some(HttpCode::UnsupportedMediaType),
            38 => Some(HttpCode::RangeNotSatisfiable),
            39 => Some(HttpCode::ExpectationFailed),
            40 => Some(HttpCode::ImATeapot),
            41 => Some(HttpCode::MisdirectedRequest),
            42 => Some(HttpCode::UnprocessableEntity),
            43 => Some(HttpCode::Locked),
            44 => Some(HttpCode::FailedDependency),
            45 => Some(HttpCode::TooEarly),
            46 => Some(HttpCode::UpgradeRequired),
            47 => Some(HttpCode::PreconditionRequired),
            48 => Some(HttpCode::TooManyRequests),
            49 => Some(HttpCode::RequestHeaderFieldsTooLarge),
            50 => Some(HttpCode::UnavailableForLegalReasons),
            51 => Some(HttpCode::InternalServerError),
            52 => Some(HttpCode::NotImplemented),
            53 => Some(HttpCode::BadGateway),
            54 => Some(HttpCode::ServiceUnavailable),
            55 => Some(HttpCode::GatewayTimeout),
            56 => Some(HttpCode::HttpVersionNotSupported),
            57 => Some(HttpCode::VariantAlsoNegotiates),
            58 => Some(HttpCode::InsufficientStorage),
            59 => Some(HttpCode::LoopDetected),
            60 => Some(HttpCode::NotExtended),
            61 => Some(HttpCode::NetworkAuthenticationRequired),
            _ => None,
        }
    }

    /// Two codes at the same place are the same code.
    pub proof fn lemma_position_determines_code(a: HttpCode, b: HttpCode)
        requires
            a.position() == b.position(),
        ensures
            a == b,
    {
    }

    /// Every code has a place in the vocabulary.
    pub proof fn lemma_position_in_range(c: HttpCode)
        ensures
            c.position() < HTTP_CODE_COUNT,
    {
    }

    /// No two codes share a number.
    pub proof fn lemma_number_determines_code(a: HttpCode, b: HttpCode)
        requires
            a.number() == b.number(),
        ensures
            a == b,
    {
    }

    /// What sets the canonical names apart: the length, the first character
    /// and, where there is one, the fifth.
    closed spec fn name_mark(name: Seq<char>) -> (nat, char, char) {
        (name.len(), name[0], if name.len() > 4 { name[4] } else { ' ' })
    }

    /// The mark of the canonical name of each code, written out.
    closed spec fn mark_of(c: HttpCode) -> (nat, char, char) {
        match c {
            HttpCode::Continue => (8, 'C', 'i'),
            HttpCode::SwitchingProtocols => (19, 'S', 'c'),
            HttpCode::Processing => (10, 'P', 'e'),
            HttpCode::EarlyHints => (11, 'E', 'y'),
            HttpCode::OK => (2, 'O', ' '),
            HttpCode::Created => (7, 'C', 't'),
            HttpCode::Accepted => (8, 'A', 'p'),
            HttpCode::NonAuthoritativeInformation => (29, 'N', 'A'),
            HttpCode::NoContent => (10, 'N', 'o'),
            HttpCode::ResetContent => (13, 'R', 't'),
            HttpCode::PartialContent => (15, 'P', 'i'),
            HttpCode::MultiStatus => (12, 'M', 'i'),
            HttpCode::AlreadyReported => (16, 'A', 'a'),
            HttpCode::ImUsed => (7, 'I', 's'),
            HttpCode::MultipleChoices => (16, 'M', 'i'),
            HttpCode::MovedPermanently => (17, 'M', 'd'),
            HttpCode::Found => (5, 'F', 'd'),
            HttpCode::SeeOther => (9, 'S', 'O'),
            HttpCode::NotModified => (12, 'N', 'M'),
            HttpCode::UseProxy => (9, 'U', 'P'),
            HttpCode::TemporaryRedirect => (18, 'T', 'o'),
            HttpCode::PermanentRedirect => (18, 'P', 'a'),
            HttpCode::BadRequest => (11, 'B', 'R'),
            HttpCode::Unauthorized => (12, 'U', 't'),
            HttpCode::PaymentRequired => (16, 'P', 'e'),
            HttpCode::Forbidden => (9, 'F', 'i'),
            HttpCode::NotFound => (9, 'N', 'F'),
            HttpCode::MethodNotAllowed => (18, 'M', 'o'),
            HttpCode::NotAcceptable => (14, 'N', 'A'),
            HttpCode::ProxyAuthenticationRequired => (29, 'P', 'y'),
            HttpCode::RequestTimeout => (15, 'R', 'e'),
            HttpCode::Conflict => (8, 'C', 'l'),
            HttpCode::Gone => (4, 'G', ' '),
            HttpCode::LengthRequired => (15, 'L', 't'),
            HttpCode::PreconditionFailed => (19, 'P', 'o'),
            HttpCode::PayloadTooLarge => (17, 'P', 'o'),
            HttpCode::UriTooLong => (12, 'U', 'T'),
            HttpCode::UnsupportedMediaType => (22, 'U', 'p'),
            HttpCode::RangeNotSatisfiable => (21, 'R', 'e'),
            HttpCode::ExpectationFailed => (18, 'E', 'c'),
            HttpCode::ImATeapot => (12, 'I', 'a'),
            HttpCode::MisdirectedRequest => (19, 'M', 'i'),
            HttpCode::UnprocessableEntity => (20, 'U', 'o'),
            HttpCode::Locked => (6, 'L', 'e'),
            HttpCode::FailedDependency => (17, 'F', 'e'),
            HttpCode::TooEarly => (9, 'T', 'E'),
            HttpCode::UpgradeRequired => (16, 'U', 'a'),
            HttpCode::PreconditionRequired => (21, 'P', 'o'),
            HttpCode::TooManyRequests => (17, 'T', 'M'),
            HttpCode::RequestHeaderFieldsTooLarge => (31, 'R', 'e'),
            HttpCode::UnavailableForLegalReasons => (29, 'U', 'a'),
            HttpCode::InternalServerError => (21, 'I', 'r'),
            HttpCode::NotImplemented => (15, 'N', 'I'),
            HttpCode::BadGateway => (11, 'B', 'G'),
            HttpCode::ServiceUnavailable => (19, 'S', 'i'),
            HttpCode::GatewayTimeout => (15, 'G', 'w'),
            HttpCode::HttpVersionNotSupported => (26, 'H', ' '),
            HttpCode::VariantAlsoNegotiates => (23, 'V', 'a'),
            HttpCode::InsufficientStorage => (20, 'I', 'f'),
            HttpCode::LoopDetected => (13, 'L', ' '),
            HttpCode::NotExtended => (12, 'N', 'E'),
            HttpCode::NetworkAuthenticationRequired => (31, 'N', 'o'),
        }
    }

    /// The mark of each canonical name is the one written out.
    proof fn lemma_name_marks(c: HttpCode)
        ensures
            Self::name_mark(c.canonical_name()) == Self::mark_of(c),
    {
        reveal_strlit("Continue");
        reveal_strlit("Switching Protocols");
        reveal_strlit("Processing");
        reveal_strlit("Early Hints");
        reveal_strlit("OK");
        reveal_strlit("Created");
        reveal_strlit("Accepted");
        reveal_strlit("Non-Authoritative Information");
        reveal_strlit("No Content");
        reveal_strlit("Reset Content");
        reveal_strlit("Partial Content");
        reveal_strlit("Multi-Status");
        reveal_strlit("Already Reported");
        reveal_strlit("IM Used");
        reveal_strlit("Multiple Choices");
        reveal_strlit("Moved Permanently");
        reveal_strlit("Found");
        reveal_strlit("See Other");
        reveal_strlit("Not Modified");
        reveal_strlit("Use Proxy");
        reveal_strlit("Temporary Redirect");
        reveal_strlit("Permanent Redirect");
        reveal_strlit("Bad Request");
        reveal_strlit("Unauthorized");
        reveal_strlit("Payment Required");
        reveal_strlit("Forbidden");
        reveal_strlit("Not Found");
        reveal_strlit("Method Not Allowed");
        reveal_strlit("Not Acceptable");
        reveal_strlit("Proxy Authentication Required");
        reveal_strlit("Request Timeout");
        reveal_strlit("Conflict");
        reveal_strlit("Gone");
        reveal_strlit("Length Required");
        reveal_strlit("Precondition Failed");
        reveal_strlit("Payload Too Large");
        reveal_strlit("URI Too Long");
        reveal_strlit("Unsupported Media Type");
        reveal_strlit("Range Not Satisfiable");
        reveal_strlit("Expectation Failed");
        reveal_strlit("I'm a teapot");
        reveal_strlit("Misdirected Request");
        reveal_strlit("Unprocessable Entity");
        reveal_strlit("Locked");
        reveal_strlit("Failed Dependency");
        reveal_strlit("Too Early");
        reveal_strlit("Upgrade Required");
        reveal_strlit("Precondition Required");
        reveal_strlit("Too Many Requests");
        reveal_strlit("Request Header Fields Too Large");
        reveal_strlit("Unavailable For Legal Reasons");
        reveal_strlit("Internal Server Error");
        reveal_strlit("Not Implemented");
        reveal_strlit("Bad Gateway");
        reveal_strlit("Service Unavailable");
        reveal_strlit("Gateway Timeout");
        reveal_strlit("HTTP Version Not Supported");
        reveal_strlit("Variant Also Negotiates");
        reveal_strlit("Insufficient Storage");
        reveal_strlit("Loop Detected");
        reveal_strlit("Not Extended");
        reveal_strlit("Network Authentication Required");
    }

    /// No two codes share a canonical name.
    pub proof fn lemma_name_determines_code(a: HttpCode, b: HttpCode)
        requires
            a.canonical_name() == b.canonical_name(),
        ensures
            a == b,
    {
        Self::lemma_name_marks(a);
        Self::lemma_name_marks(b);
    }

    /// Going from a code to its number and back gives the code.
    pub proof fn lemma_number_round_trip(c: HttpCode)
        ensures
            HttpCode::with_number(c.number()) == Some(c),
    {
        let found = choose|d: HttpCode| d.number() == c.number();
        Self::lemma_number_determines_code(found, c);
    }

    /// Going from a code to its canonical name and back gives the code.
    pub proof fn lemma_name_round_trip(c: HttpCode)
        ensures
            HttpCode::with_name(c.canonical_name()) == Some(c),
    {
        let found = choose|d: HttpCode| d.canonical_name() == c.canonical_name();
        Self::lemma_name_determines_code(found, c);
    }

    /// The code with the number `n`; none where the vocabulary has no such
    /// number.
    pub fn from_code(n: u16) -> (code: Option<HttpCode>)
        ensures
            code == HttpCode::with_number(n),
    {
        let mut i: usize = 0;
        while i < HTTP_CODE_COUNT
            invariant
                i <= HTTP_CODE_COUNT,
                forall|c: HttpCode| c.position() < i ==> c.number() != n,
            decreases HTTP_CODE_COUNT - i,
        {
            match HttpCode::at(i) {
                Some(c) => {
                    if c.code() == n {
                        proof {
                            let found = choose|d: HttpCode| d.number() == n;
                            Self::lemma_number_determines_code(found, c);
                        }
                        return Some(c);
                    }
                    assert forall|d: HttpCode| d.position() < i + 1 implies d.number() != n by {
                        if d.position() == i {
                            Self::lemma_position_determines_code(d, c);
                        }
                    }
                },
                None => {},
            }
            i = i + 1;
        }
        assert forall|c: HttpCode| c.number() != n by {
            Self::lemma_position_in_range(c);
        }
        None
    }

    /// The code with the canonical name `name`; none where the vocabulary has
    /// no such name.
    pub fn from_name(name: &str) -> (code: Option<HttpCode>)
        ensures
            code == HttpCode::with_name(name@),
    {
        let mut i: usize = 0;
        while i < HTTP_CODE_COUNT
            invariant
                i <= HTTP_CODE_COUNT,
                forall|c: HttpCode| c.position() < i ==> c.canonical_name() != name@,
            decreases HTTP_CODE_COUNT - i,
        {
            match HttpCode::at(i) {
                Some(c) => {
                    if same_text(c.name(), name) {
                        proof {
                            let found = choose|d: HttpCode| d.canonical_name() == name@;
                            Self::lemma_name_determines_code(found, c);
                        }
                        return Some(c);
                    }
                    assert forall|d: HttpCode| d.position() < i + 1 implies d.canonical_name()
                        != name@ by {
                        if d.position() == i {
                            Self::lemma_position_determines_code(d, c);
                        }
                    }
                },
                None => {},
            }
            i = i + 1;
        }
        assert forall|c: HttpCode| c.canonical_name() != name@ by {
            Self::lemma_position_in_range(c);
        }
        None
    }
}

} // verus!
