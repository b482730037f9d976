//! The closed set of failures that an exchange can end in, and the table
//! from numeric codes to them.

use vstd::prelude::*;

verus! {

/// Why a call failed.
///
/// A response whose status is 400 or more becomes the variant of that
/// status; a status without a variant of its own becomes
/// `EXXXUnknownError`, which keeps the number.
#[derive(Debug, Clone, Copy, PartialEq, Eq, Structural)]
pub enum Error {
    /// A code or condition without a variant of its own; holds the code.
    EXXXUnknownError(isize),
    /// Status 400.
    E400BadRequest,
    /// Status 401.
    E401Unauthorized,
    /// Status 402.
    E402PaymentRequired,
    /// Status 403.
    E403Forbidden,
    /// Status 404.
    E404NotFound,
    /// Status 405.
    E405MethodNotAllowed,
    /// Status 406.
    E406NotAcceptable,
    /// Status 407.
    E407ProxyAuthRequired,
    /// Status 408.
    E408RequestTimeout,
    /// Status 409.
    E409Conflict,
    /// Status 410.
    E410Gone,
    /// Status 411.
    E411LengthRequired,
    /// Status 412.
    E412PreconditionFailed,
    /// Status 413.
    E413PayloadTooLarge,
    /// Status 414.
    E414URITooLong,
    /// Status 415.
    E415UnsupportedMediaType,
    /// Status 416.
    E416RangeNotSatisfiable,
    /// Status 417.
    E417ExpectationFailed,
    /// Status 418.
    E418ImATeapot,
    /// Status 421.
    E421MisdirectedRequest,
    /// Status 422.
    E422UnprocessableEntity,
    /// Status 423.
    E423Locked,
    /// Status 424.
    E424FailedDependency,
    /// Status 425.
    E425TooEarly,
    /// Status 426.
    E426UpgradeRequired,
    /// Status 428.
    E428PreconditionRequired,
    /// Status 429.
    E429TooManyRequests,
    /// Status 431.
    E431RequestHeaderFieldsTooLarge,
    /// Status 451.
    E451UnavailableForLegalReasons,
    /// Status 500.
    E500InternalServerError,
    /// Status 501.
    E501NotImplemented,
    /// The method selected for this request is disallowed by the server.
    CrossOriginResourceMethodDisallowed,
    /// The current origin of the connection is not allowed to request the resource.
    CrossOriginResourceOriginDisallowed,
    /// The connection to the server could not be opened.
    ConnectFailed,
    /// The connection to the server was not opened within the time allowed.
    TimeoutError,
    /// The secure session with the server could not be set up.
    TlsHandshakeFailed,
    /// The connection failed while the exchange was under way.
    TransportIo,
    /// The first line of the response holds no protocol and numeric status.
    MalformedStatusLine,
    /// A header line of the response holds no name and value.
    MalformedHeader,
    /// A cookie line of the response holds no cookie.
    MalformedCookie,
    /// The chunked body of the response is not framed as chunks.
    MalformedChunk,
    /// The body of the response is not text in UTF-8.
    MalformedBody,
    /// The server asked the upgraded request to upgrade once more.
    TooManyUpgrades,
    /// The address holds no scheme, host and port that a request can be sent to.
    InvalidUrl,
}

/// The four kinds of failures, and the catch-all.
#[derive(Debug, Clone, Copy, PartialEq, Eq, Structural)]
pub enum ErrorKind {
    /// Connect, timeout, handshake or I/O failure of the transport.
    Transport,
    /// A response that cannot be read as the protocol asks.
    Malformed,
    /// A response with a status of 400 or more.
    Status,
    /// A preflight that denied the method or the origin.
    Authorization,
    /// Anything else.
    Unknown,
}

/// The error that the table gives for `code`: 1 and 2 are the two preflight
/// denials, 9 is the second upgrade, the statuses from 400 on have their
/// variants, and every other code is unknown and kept.
pub open spec fn error_of_code(code: u16) -> Error {
    if code == 1 {
        Error::CrossOriginResourceMethodDisallowed
    } else if code == 2 {
        Error::CrossOriginResourceOriginDisallowed
    } else if code == 9 {
        Error::TooManyUpgrades
    } else if code == 400 {
        Error::E400BadRequest
    } else if code == 401 {
        Error::E401Unauthorized
    } else if code == 402 {
        Error::E402PaymentRequired
    } else if code == 403 {
        Error::E403Forbidden
    } else if code == 404 {
        Error::E404NotFound
    } else if code == 405 {
        Error::E405MethodNotAllowed
    } else if code == 406 {
        Error::E406NotAcceptable
    } else if code == 407 {
        Error::E407ProxyAuthRequired
    } else if code == 408 {
        Error::E408RequestTimeout
    } else if code == 409 {
        Error::E409Conflict
    } else if code == 410 {
        Error::E410Gone
    } else if code == 411 {
        Error::E411LengthRequired
    } else if code == 412 {
        Error::E412PreconditionFailed
    } else if code == 413 {
        Error::E413PayloadTooLarge
    } else if code == 414 {
        Error::E414URITooLong
    } else if code == 415 {
        Error::E415UnsupportedMediaType
    } else if code == 416 {
        Error::E416RangeNotSatisfiable
    } else if code == 417 {
        Error::E417ExpectationFailed
    } else if code == 418 {
        Error::E418ImATeapot
    } else if code == 421 {
        Error::E421MisdirectedRequest
    } else if code == 422 {
        Error::E422UnprocessableEntity
    } else if code == 423 {
        Error::E423Locked
    } else if code == 424 {
        Error::E424FailedDependency
    } else if code == 425 {
        Error::E425TooEarly
    } else if code == 426 {
        Error::E426UpgradeRequired
    } else if code == 428 {
        Error::E428PreconditionRequired
    } else if code == 429 {
        Error::E429TooManyRequests
    } else if code == 431 {
        Error::E431RequestHeaderFieldsTooLarge
    } else if code == 451 {
        Error::E451UnavailableForLegalReasons
    } else if code == 500 {
        Error::E500InternalServerError
    } else if code == 501 {
        Error::E501NotImplemented
    } else {
        Error::EXXXUnknownError(code as isize)
    }
}

/// The error that the table gives for `code`.
pub fn err_from_code(code: u16) -> (e: Error)
    ensures
        e == error_of_code(code),
        code >= 400 ==> e.status_code() == Some(code as isize),
{
    match code {
        1 => Error::CrossOriginResourceMethodDisallowed,
        2 => Error::CrossOriginResourceOriginDisallowed,
        9 => Error::TooManyUpgrades,
        400 => Error::E400BadRequest,
        401 => Error::E401Unauthorized,
        402 => Error::E402PaymentRequired,
        403 => Error::E403Forbidden,
        404 => Error::E404NotFound,
        405 => Error::E405MethodNotAllowed,
        406 => Error::E406NotAcceptable,
        407 => Error::E407ProxyAuthRequired,
        408 => Error::E408RequestTimeout,
        409 => Error::E409Conflict,
        410 => Error::E410Gone,
        411 => Error::E411LengthRequired,
        412 => Error::E412PreconditionFailed,
        413 => Error::E413PayloadTooLarge,
        414 => Error::E414URITooLong,
        415 => Error::E415UnsupportedMediaType,
        416 => Error::E416RangeNotSatisfiable,
        417 => Error::E417ExpectationFailed,
        418 => Error::E418ImATeapot,
        421 => Error::E421MisdirectedRequest,
        422 => Error::E422UnprocessableEntity,
        423 => Error::E423Locked,
        424 => Error::E424FailedDependency,
        425 => Error::E425TooEarly,
        426 => Error::E426UpgradeRequired,
        428 => Error::E428PreconditionRequired,
        429 => Error::E429TooManyRequests,
        431 => Error::E431RequestHeaderFieldsTooLarge,
        451 => Error::E451UnavailableForLegalReasons,
        500 => Error::E500InternalServerError,
        501 => Error::E501NotImplemented,
        _ => Error::EXXXUnknownError(code as isize),
    }
}

/// The error for a response of the given status: none below 400, and from
/// 400 on the variant of the status, or the unknown error with the status.
pub open spec fn error_of_status(status: isize) -> Option<Error> {
    if status < 400 {
        None
    } else if status <= u16::MAX {
        Some(error_of_code(status as u16))
    } else {
        Some(Error::EXXXUnknownError(status))
    }
}

/// The error for a response of the given status, if it is one.
pub fn classify_status(status: isize) -> (r: Option<Error>)
    ensures
        r == error_of_status(status),
        r is Some <==> status >= 400,
        r matches Some(e) ==> e.status_code() == Some(status),
{
    if status < 400 {
        None
    } else if status <= 65535 {
        Some(err_from_code(status as u16))
    } else {
        Some(Error::EXXXUnknownError(status))
    }
}

impl Error {
    /// The status that the error stands for, where it stands for one.
    pub open spec fn status_code(self) -> Option<isize> {
        match self {
            Error::EXXXUnknownError(code) => Some(code),
            Error::E400BadRequest => Some(400),
            Error::E401Unauthorized => Some(401),
            Error::E402PaymentRequired => Some(402),
            Error::E403Forbidden => Some(403),
            Error::E404NotFound => Some(404),
            Error::E405MethodNotAllowed => Some(405),
            Error::E406NotAcceptable => Some(406),
            Error::E407ProxyAuthRequired => Some(407),
            Error::E408RequestTimeout => Some(408),
            Error::E409Conflict => Some(409),
            Error::E410Gone => Some(410),
            Error::E411LengthRequired => Some(411),
            Error::E412PreconditionFailed => Some(412),
            Error::E413PayloadTooLarge => Some(413),
            Error::E414URITooLong => Some(414),
            Error::E415UnsupportedMediaType => Some(415),
            Error::E416RangeNotSatisfiable => Some(416),
            Error::E417ExpectationFailed => Some(417),
            Error::E418ImATeapot => Some(418),
            Error::E421MisdirectedRequest => Some(421),
            Error::E422UnprocessableEntity => Some(422),
            Error::E423Locked => Some(423),
            Error::E424FailedDependency => Some(424),
            Error::E425TooEarly => Some(425),
            Error::E426UpgradeRequired => Some(426),
            Error::E428PreconditionRequired => Some(428),
            Error::E429TooManyRequests => Some(429),
            Error::E431RequestHeaderFieldsTooLarge => Some(431),
            Error::E451UnavailableForLegalReasons => Some(451),
            Error::E500InternalServerError => Some(500),
            Error::E501NotImplemented => Some(501),
            _ => None,
        }
    }

    /// The status that the error stands for, where it stands for one.
    pub fn code(&self) -> (r: Option<isize>)
        ensures
            r == self.status_code(),
    {
        match self {
            Error::EXXXUnknownError(code) => Some(*code),
            Error::E400BadRequest => Some(400),
            Error::E401Unauthorized => Some(401),
            Error::E402PaymentRequired => Some(402),
            Error::E403Forbidden => Some(403),
            Error::E404NotFound => Some(404),
            Error::E405MethodNotAllowed => Some(405),
            Error::E406NotAcceptable => Some(406),
            Error::E407ProxyAuthRequired => Some(407),
            Error::E408RequestTimeout => Some(408),
            Error::E409Conflict => Some(409),
            Error::E410Gone => Some(410),
            Error::E411LengthRequired => Some(411),
            Error::E412PreconditionFailed => Some(412),
            Error::E413PayloadTooLarge => Some(413),
            Error::E414URITooLong => Some(414),
            Error::E415UnsupportedMediaType => Some(415),
            Error::E416RangeNotSatisfiable => Some(416),
            Error::E417ExpectationFailed => Some(417),
            Error::E418ImATeapot => Some(418),
            Error::E421MisdirectedRequest => Some(421),
            Error::E422UnprocessableEntity => Some(422),
            Error::E423Locked => Some(423),
            Error::E424FailedDependency => Some(424),
            Error::E425TooEarly => Some(425),
            Error::E426UpgradeRequired => Some(426),
            Error::E428PreconditionRequired => Some(428),
            Error::E429TooManyRequests => Some(429),
            Error::E431RequestHeaderFieldsTooLarge => Some(431),
            Error::E451UnavailableForLegalReasons => Some(451),
            Error::E500InternalServerError => Some(500),
            Error::E501NotImplemented => Some(501),
            _ => None,
        }
    }

    /// The kind of the failure.
    pub open spec fn kind_of(self) -> ErrorKind {
        match self {
            Error::EXXXUnknownError(_) => ErrorKind::Unknown,
            Error::CrossOriginResourceMethodDisallowed => ErrorKind::Authorization,
            Error::CrossOriginResourceOriginDisallowed => ErrorKind::Authorization,
            Error::ConnectFailed => ErrorKind::Transport,
            Error::TimeoutError => ErrorKind::Transport,
            Error::TlsHandshakeFailed => ErrorKind::Transport,
            Error::TransportIo => ErrorKind::Transport,
            Error::MalformedStatusLine => ErrorKind::Malformed,
            Error::MalformedHeader => ErrorKind::Malformed,
            Error::MalformedCookie => ErrorKind::Malformed,
            Error::MalformedChunk => ErrorKind::Malformed,
            Error::MalformedBody => ErrorKind::Malformed,
            Error::TooManyUpgrades => ErrorKind::Unknown,
            Error::InvalidUrl => ErrorKind::Unknown,
            _ => ErrorKind::Status,
        }
    }

    /// The kind of the failure.
    pub fn kind(&self) -> (k: ErrorKind)
        ensures
            k == self.kind_of(),
    {
        match self {
            Error::EXXXUnknownError(_) => ErrorKind::Unknown,
            Error::CrossOriginResourceMethodDisallowed => ErrorKind::Authorization,
            Error::CrossOriginResourceOriginDisallowed => ErrorKind::Authorization,
            Error::ConnectFailed => ErrorKind::Transport,
            Error::TimeoutError => ErrorKind::Transport,
            Error::TlsHandshakeFailed => ErrorKind::Transport,
            Error::TransportIo => ErrorKind::Transport,
            Error::MalformedStatusLine => ErrorKind::Malformed,
            Error::MalformedHeader => ErrorKind::Malformed,
            Error::MalformedCookie => ErrorKind::Malformed,
            Error::MalformedChunk => ErrorKind::Malformed,
            Error::MalformedBody => ErrorKind::Malformed,
            Error::TooManyUpgrades => ErrorKind::Unknown,
            Error::InvalidUrl => ErrorKind::Unknown,
            _ => ErrorKind::Status,
        }
    }

    /// The short text of the error.
    pub open spec fn display_text(self) -> Seq<char> {
        match self {
            Error::EXXXUnknownError(_) => "Unknown Error - Curio does not have a definition for this error"@,
            Error::E400BadRequest => "HTTP 400 - Bad Request"@,
            Error::E401Unauthorized => "HTTP 401 - Unauthorized"@,
            Error::E402PaymentRequired => "HTTP 402 - Payment Required"@,
            Error::E403Forbidden => "HTTP 403 - Forbidden"@,
            Error::E404NotFound => "HTTP 404 - Not Found"@,
            Error::E405MethodNotAllowed => "HTTP 405 - Method Not Allowed"@,
            Error::E406NotAcceptable => "HTTP 406 - Not Acceptable"@,
            Error::E407ProxyAuthRequired => "HTTP 407 - Proxy Auth Required"@,
            Error::E408RequestTimeout => "HTTP 408 - Request Timeout"@,
            Error::E409Conflict => "HTTP 409 - Conflict"@,
            Error::E410Gone => "HTTP 410 - Gone"@,
            Error::E411LengthRequired => "HTTP 411 - Length Required"@,
            Error::E412PreconditionFailed => "HTTP 412 - Precondition Failed"@,
            Error::E413PayloadTooLarge => "HTTP 413 - Payload Too Large"@,
            Error::E414URITooLong => "HTTP 414 - URI Too Long"@,
            Error::E415UnsupportedMediaType => "HTTP 415 - Unsupported Media Type"@,
            Error::E416RangeNotSatisfiable => "HTTP 416 - Range Not Satisfiable"@,
            Error::E417ExpectationFailed => "HTTP 417 - Expectation Failed"@,
            Error::E418ImATeapot => "HTTP 418 - I'm A Teapot"@,
            Error::E421MisdirectedRequest => "HTTP 421 - Misdirected Request"@,
            Error::E422UnprocessableEntity => "HTTP 422 - Unprocessable Entity"@,
            Error::E423Locked => "HTTP 423 - Locked"@,
            Error::E424FailedDependency => "HTTP 424 - Failed Dependency"@,
            Error::E425TooEarly => "HTTP 425 - Too Early"@,
            Error::E426UpgradeRequired => "HTTP 426 - Upgrade Required"@,
            Error::E428PreconditionRequired => "HTTP 428 - Precondition Required"@,
            Error::E429TooManyRequests => "HTTP 429 - Too Many Requests"@,
            Error::E431RequestHeaderFieldsTooLarge => "HTTP 431 - Request Header Fields Too Large"@,
            Error::E451UnavailableForLegalReasons => "HTTP 451 - Unavailable For Legal Reasons"@,
            Error::E500InternalServerError => "HTTP 500 - Internal Server Error"@,
            Error::E501NotImplemented => "HTTP 501 - Not Implemented"@,
            Error::CrossOriginResourceMethodDisallowed => "Cross Origin Resource Error"@,
            Error::CrossOriginResourceOriginDisallowed => "Cross Origin Resource Error"@,
            Error::ConnectFailed => "Transport Error - Connect Failed"@,
            Error::TimeoutError => "Transport Error - Timeout"@,
            Error::TlsHandshakeFailed => "Transport Error - TLS Handshake Failed"@,
            Error::TransportIo => "Transport Error - I/O"@,
            Error::MalformedStatusLine => "Malformed Response - Status Line"@,
            Error::MalformedHeader => "Malformed Response - Header"@,
            Error::MalformedCookie => "Malformed Response - Cookie"@,
            Error::MalformedChunk => "Malformed Response - Chunk"@,
            Error::MalformedBody => "Malformed Response - Body Encoding"@,
            Error::TooManyUpgrades => "Too Many Upgrades"@,
            Error::InvalidUrl => "Invalid URL"@,
        }
    }

    /// The short text of the error.
    pub fn to_string(&self) -> (s: String)
        ensures
            s@ == self.display_text(),
    {
        match self {
            Error::EXXXUnknownError(_) => "Unknown Error - Curio does not have a definition for this error".to_owned(),
            Error::E400BadRequest => "HTTP 400 - Bad Request".to_owned(),
            Error::E401Unauthorized => "HTTP 401 - Unauthorized".to_owned(),
            Error::E402PaymentRequired => "HTTP 402 - Payment Required".to_owned(),
            Error::E403Forbidden => "HTTP 403 - Forbidden".to_owned(),
            Error::E404NotFound => "HTTP 404 - Not Found".to_owned(),
            Error::E405MethodNotAllowed => "HTTP 405 - Method Not Allowed".to_owned(),
            Error::E406NotAcceptable => "HTTP 406 - Not Acceptable".to_owned(),
            Error::E407ProxyAuthRequired => "HTTP 407 - Proxy Auth Required".to_owned(),
            Error::E408RequestTimeout => "HTTP 408 - Request Timeout".to_owned(),
            Error::E409Conflict => "HTTP 409 - Conflict".to_owned(),
            Error::E410Gone => "HTTP 410 - Gone".to_owned(),
            Error::E411LengthRequired => "HTTP 411 - Length Required".to_owned(),
            Error::E412PreconditionFailed => "HTTP 412 - Precondition Failed".to_owned(),
            Error::E413PayloadTooLarge => "HTTP 413 - Payload Too Large".to_owned(),
            Error::E414URITooLong => "HTTP 414 - URI Too Long".to_owned(),
            Error::E415UnsupportedMediaType => "HTTP 415 - Unsupported Media Type".to_owned(),
            Error::E416RangeNotSatisfiable => "HTTP 416 - Range Not Satisfiable".to_owned(),
            Error::E417ExpectationFailed => "HTTP 417 - Expectation Failed".to_owned(),
            Error::E418ImATeapot => "HTTP 418 - I'm A Teapot".to_owned(),
            Error::E421MisdirectedRequest => "HTTP 421 - Misdirected Request".to_owned(),
            Error::E422UnprocessableEntity => "HTTP 422 - Unprocessable Entity".to_owned(),
            Error::E423Locked => "HTTP 423 - Locked".to_owned(),
            Error::E424FailedDependency => "HTTP 424 - Failed Dependency".to_owned(),
            Error::E425TooEarly => "HTTP 425 - Too Early".to_owned(),
            Error::E426UpgradeRequired => "HTTP 426 - Upgrade Required".to_owned(),
            Error::E428PreconditionRequired => "HTTP 428 - Precondition Required".to_owned(),
            Error::E429TooManyRequests => "HTTP 429 - Too Many Requests".to_owned(),
            Error::E431RequestHeaderFieldsTooLarge => "HTTP 431 - Request Header Fields Too Large".to_owned(),
            Error::E451UnavailableForLegalReasons => "HTTP 451 - Unavailable For Legal Reasons".to_owned(),
            Error::E500InternalServerError => "HTTP 500 - Internal Server Error".to_owned(),
            Error::E501NotImplemented => "HTTP 501 - Not Implemented".to_owned(),
            Error::CrossOriginResourceMethodDisallowed => "Cross Origin Resource Error".to_owned(),
            Error::CrossOriginResourceOriginDisallowed => "Cross Origin Resource Error".to_owned(),
            Error::ConnectFailed => "Transport Error - Connect Failed".to_owned(),
            Error::TimeoutError => "Transport Error - Timeout".to_owned(),
            Error::TlsHandshakeFailed => "Transport Error - TLS Handshake Failed".to_owned(),
            Error::TransportIo => "Transport Error - I/O".to_owned(),
            Error::MalformedStatusLine => "Malformed Response - Status Line".to_owned(),
            Error::MalformedHeader => "Malformed Response - Header".to_owned(),
            Error::MalformedCookie => "Malformed Response - Cookie".to_owned(),
            Error::MalformedChunk => "Malformed Response - Chunk".to_owned(),
            Error::MalformedBody => "Malformed Response - Body Encoding".to_owned(),
            Error::TooManyUpgrades => "Too Many Upgrades".to_owned(),
            Error::InvalidUrl => "Invalid URL".to_owned(),
        }
    }

    /// The sentence that explains the error.
    pub open spec fn description_text(self) -> Seq<char> {
        match self {
            Error::EXXXUnknownError(_) => "The error code is not implemented, try reading up, the log should be written there."@,
            Error::E400BadRequest => "The request was malformed"@,
            Error::E401Unauthorized => "The authentication provided is not valid and the request has been denied"@,
            Error::E402PaymentRequired => "The endpoint requires payment"@,
            Error::E403Forbidden => "The client is forbidden from accessing this resource without authentication"@,
            Error::E404NotFound => "The requested resource is unable to be located"@,
            Error::E405MethodNotAllowed => "The method used to request the resource, is not allowed"@,
            Error::E406NotAcceptable => "The request could not produce an acceptable response due to the content of the `accept` header provided"@,
            Error::E407ProxyAuthRequired => "The client must first authenticate with the proxy"@,
            Error::E408RequestTimeout => "The request timed out"@,
            Error::E409Conflict => "Access to the requested resource was denied to prevent a conflict of data"@,
            Error::E410Gone => "The requested resource is no longer available and should not be requested again"@,
            Error::E411LengthRequired => "The client did not specify a body length and the request was denied"@,
            Error::E412PreconditionFailed => "The server does not meet one of the conditions provided by the client"@,
            Error::E413PayloadTooLarge => "The request is larger than the server is willing, or able to process"@,
            Error::E414URITooLong => "The provided uri was too long, the server is unwilling, or unable to process it"@,
            Error::E415UnsupportedMediaType => "The request entity has a media type which cannot be processed by the server"@,
            Error::E416RangeNotSatisfiable => "The requested portion of the resource cannot be supplied by the server"@,
            Error::E417ExpectationFailed => "The server cannot meet the requirements of the Expect header in the request"@,
            Error::E418ImATeapot => "The server refuses to brew coffee because it is, permanently, a teapot"@,
            Error::E421MisdirectedRequest => "The request was directed at a server which is unable to produce a response"@,
            Error::E422UnprocessableEntity => "The request was well formed, but unable to be followed due to semantic errors"@,
            Error::E423Locked => "The requested resource is locked"@,
            Error::E424FailedDependency => "The request failed because it relied on a previous request, which also failed"@,
            Error::E425TooEarly => "The server is unwilling to risk processing a request which might be replayed"@,
            Error::E426UpgradeRequired => "The client should switch to a different protocol specified in the `Upgrade` header field"@,
            Error::E428PreconditionRequired => "The server requires a request to be conditional"@,
            Error::E429TooManyRequests => "The client has sent too many requests in a given amount of time"@,
            Error::E431RequestHeaderFieldsTooLarge => "The client sent a request containing one or more header fields which the server is unable to process due to size limitations"@,
            Error::E451UnavailableForLegalReasons => "The server operator has received a legal demand to deny access to a resource, or set of resources including this resource"@,
            Error::E500InternalServerError => "The server encountered an error and was unable to process the request"@,
            Error::E501NotImplemented => "The server either does not recognize the request method, or lacks the ability to fulfill the request"@,
            Error::CrossOriginResourceMethodDisallowed => "The method selected for this request is disallowed by the server"@,
            Error::CrossOriginResourceOriginDisallowed => "The current origin of the connection is not allowed to request the resource"@,
            Error::ConnectFailed => "The connection to the server could not be opened"@,
            Error::TimeoutError => "The connection to the server was not opened within the time allowed"@,
            Error::TlsHandshakeFailed => "The secure session with the server could not be set up"@,
            Error::TransportIo => "The connection failed while the exchange was under way"@,
            Error::MalformedStatusLine => "The first line of the response holds no protocol and numeric status"@,
            Error::MalformedHeader => "A header line of the response holds no name and value"@,
            Error::MalformedCookie => "A cookie line of the response holds no cookie"@,
            Error::MalformedChunk => "The chunked body of the response is not framed as chunks"@,
            Error::MalformedBody => "The body of the response is not text in UTF-8"@,
            Error::TooManyUpgrades => "The server asked the upgraded request to upgrade once more"@,
            Error::InvalidUrl => "The address holds no scheme, host and port that a request can be sent to"@,
        }
    }

    /// The sentence that explains the error.
    pub fn description(&self) -> (s: &'static str)
        ensures
            s@ == self.description_text(),
    {
        match self {
            Error::EXXXUnknownError(_) => "The error code is not implemented, try reading up, the log should be written there.",
            Error::E400BadRequest => "The request was malformed",
            Error::E401Unauthorized => "The authentication provided is not valid and the request has been denied",
            Error::E402PaymentRequired => "The endpoint requires payment",
            Error::E403Forbidden => "The client is forbidden from accessing this resource without authentication",
            Error::E404NotFound => "The requested resource is unable to be located",
            Error::E405MethodNotAllowed => "The method used to request the resource, is not allowed",
            Error::E406NotAcceptable => "The request could not produce an acceptable response due to the content of the `accept` header provided",
            Error::E407ProxyAuthRequired => "The client must first authenticate with the proxy",
            Error::E408RequestTimeout => "The request timed out",
            Error::E409Conflict => "Access to the requested resource was denied to prevent a conflict of data",
            Error::E410Gone => "The requested resource is no longer available and should not be requested again",
            Error::E411LengthRequired => "The client did not specify a body length and the request was denied",
            Error::E412PreconditionFailed => "The server does not meet one of the conditions provided by the client",
            Error::E413PayloadTooLarge => "The request is larger than the server is willing, or able to process",
            Error::E414URITooLong => "The provided uri was too long, the server is unwilling, or unable to process it",
            Error::E415UnsupportedMediaType => "The request entity has a media type which cannot be processed by the server",
            Error::E416RangeNotSatisfiable => "The requested portion of the resource cannot be supplied by the server",
            Error::E417ExpectationFailed => "The server cannot meet the requirements of the Expect header in the request",
            Error::E418ImATeapot => "The server refuses to brew coffee because it is, permanently, a teapot",
            Error::E421MisdirectedRequest => "The request was directed at a server which is unable to produce a response",
            Error::E422UnprocessableEntity => "The request was well formed, but unable to be followed due to semantic errors",
            Error::E423Locked => "The requested resource is locked",
            Error::E424FailedDependency => "The request failed because it relied on a previous request, which also failed",
            Error::E425TooEarly => "The server is unwilling to risk processing a request which might be replayed",
            Error::E426UpgradeRequired => "The client should switch to a different protocol specified in the `Upgrade` header field",
            Error::E428PreconditionRequired => "The server requires a request to be conditional",
            Error::E429TooManyRequests => "The client has sent too many requests in a given amount of time",
            Error::E431RequestHeaderFieldsTooLarge => "The client sent a request containing one or more header fields which the server is unable to process due to size limitations",
            Error::E451UnavailableForLegalReasons => "The server operator has received a legal demand to deny access to a resource, or set of resources including this resource",
            Error::E500InternalServerError => "The server encountered an error and was unable to process the request",
            Error::E501NotImplemented => "The server either does not recognize the request method, or lacks the ability to fulfill the request",
            Error::CrossOriginResourceMethodDisallowed => "The method selected for this request is disallowed by the server",
            Error::CrossOriginResourceOriginDisallowed => "The current origin of the connection is not allowed to request the resource",
            Error::ConnectFailed => "The connection to the server could not be opened",
            Error::TimeoutError => "The connection to the server was not opened within the time allowed",
            Error::TlsHandshakeFailed => "The secure session with the server could not be set up",
            Error::TransportIo => "The connection failed while the exchange was under way",
            Error::MalformedStatusLine => "The first line of the response holds no protocol and numeric status",
            Error::MalformedHeader => "A header line of the response holds no name and value",
            Error::MalformedCookie => "A cookie line of the response holds no cookie",
            Error::MalformedChunk => "The chunked body of the response is not framed as chunks",
            Error::MalformedBody => "The body of the response is not text in UTF-8",
            Error::TooManyUpgrades => "The server asked the upgraded request to upgrade once more",
            Error::InvalidUrl => "The address holds no scheme, host and port that a request can be sent to",
        }
    }
}

} // verus!
