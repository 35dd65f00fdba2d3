use vstd::prelude::*;
use vstd::string::StringExecFns;

verus! {

/// The closed taxonomy of failure kinds. Every failure a call can surface is
/// one of these, and each maps to exactly one transport status and one
/// numeric wire code.
#[derive(Debug, Clone, Copy, PartialEq, Eq, Structural)]
pub enum RpcStatus {
    ParseError,
    BadRequest,
    InternalServerError,
    NotImplemented,
    BadGateway,
    ServiceUnavailable,
    GatewayTimeout,
    Unauthorized,
    Forbidden,
    NotFound,
    MethodNotSupported,
    Timeout,
    Conflict,
    PreconditionFailed,
    PayloadTooLarge,
    UnsupportedMediaType,
    UnprocessableContent,
    TooManyRequests,
    ClientClosedRequest,
}

impl RpcStatus {
    /// The transport status each failure kind maps to, as a total function.
    pub open spec fn http_status_spec(self) -> u16 {
        match self {
            RpcStatus::ParseError => 400,
            RpcStatus::BadRequest => 400,
            RpcStatus::InternalServerError => 500,
            RpcStatus::NotImplemented => 501,
            RpcStatus::BadGateway => 502,
            RpcStatus::ServiceUnavailable => 503,
            RpcStatus::GatewayTimeout => 504,
            RpcStatus::Unauthorized => 401,
            RpcStatus::Forbidden => 403,
            RpcStatus::NotFound => 404,
            RpcStatus::MethodNotSupported => 405,
            RpcStatus::Timeout => 408,
            RpcStatus::Conflict => 409,
            RpcStatus::PreconditionFailed => 412,
            RpcStatus::PayloadTooLarge => 413,
            RpcStatus::UnsupportedMediaType => 415,
            RpcStatus::UnprocessableContent => 422,
            RpcStatus::TooManyRequests => 429,
            RpcStatus::ClientClosedRequest => 408,
        }
    }

    pub fn to_http_status(&self) -> (r: u16)
        ensures
            r == self.http_status_spec(),
    {
        match self {
            RpcStatus::ParseError => 400,
            RpcStatus::BadRequest => 400,
            RpcStatus::InternalServerError => 500,
            RpcStatus::NotImplemented => 501,
            RpcStatus::BadGateway => 502,
            RpcStatus::ServiceUnavailable => 503,
            RpcStatus::GatewayTimeout => 504,
            RpcStatus::Unauthorized => 401,
            RpcStatus::Forbidden => 403,
            RpcStatus::NotFound => 404,
            RpcStatus::MethodNotSupported => 405,
            RpcStatus::Timeout => 408,
            RpcStatus::Conflict => 409,
            RpcStatus::PreconditionFailed => 412,
            RpcStatus::PayloadTooLarge => 413,
            RpcStatus::UnsupportedMediaType => 415,
            RpcStatus::UnprocessableContent => 422,
            RpcStatus::TooManyRequests => 429,
            RpcStatus::ClientClosedRequest => 408,
        }
    }

    /// The symbolic wire name of each failure kind, as a total function.
    pub open spec fn status_name_spec(self) -> Seq<char> {
        match self {
            RpcStatus::ParseError => "PARSE_ERROR"@,
            RpcStatus::BadRequest => "BAD_REQUEST"@,
            RpcStatus::InternalServerError => "INTERNAL_SERVER_ERROR"@,
            RpcStatus::NotImplemented => "NOT_IMPLEMENTED"@,
            RpcStatus::BadGateway => "BAD_GATEWAY"@,
            RpcStatus::ServiceUnavailable => "SERVICE_UNAVAILABLE"@,
            RpcStatus::GatewayTimeout => "GATEWAY_TIMEOUT"@,
            RpcStatus::Unauthorized => "UNAUTHORIZED"@,
            RpcStatus::Forbidden => "FORBIDDEN"@,
            RpcStatus::NotFound => "NOT_FOUND"@,
            RpcStatus::MethodNotSupported => "METHOD_NOT_SUPPORTED"@,
            RpcStatus::Timeout => "TIMEOUT"@,
            RpcStatus::Conflict => "CONFLICT"@,
            RpcStatus::PreconditionFailed => "PRECONDITION_FAILED"@,
            RpcStatus::PayloadTooLarge => "PAYLOAD_TOO_LARGE"@,
            RpcStatus::UnsupportedMediaType => "UNSUPPORTED_MEDIA_TYPE"@,
            RpcStatus::UnprocessableContent => "UNPROCESSABLE_CONTENT"@,
            RpcStatus::TooManyRequests => "TOO_MANY_REQUESTS"@,
            RpcStatus::ClientClosedRequest => "CLIENT_CLOSED_REQUEST"@,
        }
    }

    pub fn to_string(&self) -> (r: String)
        ensures
            r@ == self.status_name_spec(),
    {
        match self {
            RpcStatus::ParseError => String::from_str("PARSE_ERROR"),
            RpcStatus::BadRequest => String::from_str("BAD_REQUEST"),
            RpcStatus::InternalServerError => String::from_str("INTERNAL_SERVER_ERROR"),
            RpcStatus::NotImplemented => String::from_str("NOT_IMPLEMENTED"),
            RpcStatus::BadGateway => String::from_str("BAD_GATEWAY"),
            RpcStatus::ServiceUnavailable => String::from_str("SERVICE_UNAVAILABLE"),
            RpcStatus::GatewayTimeout => String::from_str("GATEWAY_TIMEOUT"),
            RpcStatus::Unauthorized => String::from_str("UNAUTHORIZED"),
            RpcStatus::Forbidden => String::from_str("FORBIDDEN"),
            RpcStatus::NotFound => String::from_str("NOT_FOUND"),
            RpcStatus::MethodNotSupported => String::from_str("METHOD_NOT_SUPPORTED"),
            RpcStatus::Timeout => String::from_str("TIMEOUT"),
            RpcStatus::Conflict => String::from_str("CONFLICT"),
            RpcStatus::PreconditionFailed => String::from_str("PRECONDITION_FAILED"),
            RpcStatus::PayloadTooLarge => String::from_str("PAYLOAD_TOO_LARGE"),
            RpcStatus::UnsupportedMediaType => String::from_str("UNSUPPORTED_MEDIA_TYPE"),
            RpcStatus::UnprocessableContent => String::from_str("UNPROCESSABLE_CONTENT"),
            RpcStatus::TooManyRequests => String::from_str("TOO_MANY_REQUESTS"),
            RpcStatus::ClientClosedRequest => String::from_str("CLIENT_CLOSED_REQUEST"),
        }
    }

    /// The numeric wire code of each failure kind, as a total function.
    ///
    /// Two pairs of kinds share a code (`ServiceUnavailable` / `Forbidden` and
    /// `GatewayTimeout` / `NotFound`): the table is kept verbatim for wire
    /// compatibility, so the code map is total but not injective.
    pub open spec fn rpc_code_spec(self) -> i16 {
        match self {
            RpcStatus::ParseError => -32700i16,
            RpcStatus::BadRequest => -32600i16,
            RpcStatus::InternalServerError => -32603i16,
            RpcStatus::NotImplemented => -32601i16,
            RpcStatus::BadGateway => -32602i16,
            RpcStatus::ServiceUnavailable => -32003i16,
            RpcStatus::GatewayTimeout => -32004i16,
            RpcStatus::Unauthorized => -32001i16,
            RpcStatus::Forbidden => -32003i16,
            RpcStatus::NotFound => -32004i16,
            RpcStatus::MethodNotSupported => -32005i16,
            RpcStatus::Timeout => -32008i16,
            RpcStatus::Conflict => -32009i16,
            RpcStatus::PreconditionFailed => -32012i16,
            RpcStatus::PayloadTooLarge => -32013i16,
            RpcStatus::UnsupportedMediaType => -32015i16,
            RpcStatus::UnprocessableContent => -32022i16,
            RpcStatus::TooManyRequests => -32029i16,
            RpcStatus::ClientClosedRequest => -32099i16,
        }
    }

    pub fn to_rpc_code(&self) -> (r: i16)
        ensures
            r == self.rpc_code_spec(),
    {
        match self {
            RpcStatus::ParseError => -32700i16,
            RpcStatus::BadRequest => -32600i16,
            RpcStatus::InternalServerError => -32603i16,
            RpcStatus::NotImplemented => -32601i16,
            RpcStatus::BadGateway => -32602i16,
            RpcStatus::ServiceUnavailable => -32003i16,
            RpcStatus::GatewayTimeout => -32004i16,
            RpcStatus::Unauthorized => -32001i16,
            RpcStatus::Forbidden => -32003i16,
            RpcStatus::NotFound => -32004i16,
            RpcStatus::MethodNotSupported => -32005i16,
            RpcStatus::Timeout => -32008i16,
            RpcStatus::Conflict => -32009i16,
            RpcStatus::PreconditionFailed => -32012i16,
            RpcStatus::PayloadTooLarge => -32013i16,
            RpcStatus::UnsupportedMediaType => -32015i16,
            RpcStatus::UnprocessableContent => -32022i16,
            RpcStatus::TooManyRequests => -32029i16,
            RpcStatus::ClientClosedRequest => -32099i16,
        }
    }
}

/// Law: the status tables are total functions of the symbolic status. Every
/// status maps to exactly one numeric code, one transport status and one wire
/// name, so two lookups of one and the same status always agree.
pub proof fn lemma_status_table_stable(a: RpcStatus, b: RpcStatus)
    requires
        a == b,
    ensures
        a.rpc_code_spec() == b.rpc_code_spec(),
        a.http_status_spec() == b.http_status_spec(),
        a.status_name_spec() == b.status_name_spec(),
{
}

/// A failure as a procedure reports it: a symbolic status and a message for
/// the caller.
#[derive(Debug, Clone)]
pub struct RpcError {
    pub status: RpcStatus,
    pub message: String,
}

impl RpcError {
    pub fn new(status: RpcStatus, message: String) -> (r: Self)
        ensures
            r.status == status,
            r.message == message,
    {
        Self { status, message }
    }
}

} // verus!
