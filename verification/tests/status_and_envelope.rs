use juno::errors::{RpcError, RpcStatus};
use juno::response::{response_of_outcome, success_response, IntoRpcResponse};
use juno::value::Value;

fn all_statuses() -> Vec<RpcStatus> {
    vec![
        RpcStatus::ParseError,
        RpcStatus::BadRequest,
        RpcStatus::InternalServerError,
        RpcStatus::NotImplemented,
        RpcStatus::BadGateway,
        RpcStatus::ServiceUnavailable,
        RpcStatus::GatewayTimeout,
        RpcStatus::Unauthorized,
        RpcStatus::Forbidden,
        RpcStatus::NotFound,
        RpcStatus::MethodNotSupported,
        RpcStatus::Timeout,
        RpcStatus::Conflict,
        RpcStatus::PreconditionFailed,
        RpcStatus::PayloadTooLarge,
        RpcStatus::UnsupportedMediaType,
        RpcStatus::UnprocessableContent,
        RpcStatus::TooManyRequests,
        RpcStatus::ClientClosedRequest,
    ]
}

#[test]
fn status_table_rpc_codes() {
    let expected: Vec<i16> = vec![
        -32700, -32600, -32603, -32601, -32602, -32003, -32004, -32001, -32003, -32004, -32005,
        -32008, -32009, -32012, -32013, -32015, -32022, -32029, -32099,
    ];
    let statuses = all_statuses();
    assert_eq!(statuses.len(), 19);
    for (s, code) in statuses.iter().zip(expected.iter()) {
        assert_eq!(s.to_rpc_code(), *code);
    }
}

#[test]
fn status_table_http_statuses() {
    let expected: Vec<u16> = vec![
        400, 400, 500, 501, 502, 503, 504, 401, 403, 404, 405, 408, 409, 412, 413, 415, 422, 429,
        408,
    ];
    for (s, http) in all_statuses().iter().zip(expected.iter()) {
        assert_eq!(s.to_http_status(), *http);
    }
}

#[test]
fn status_table_names() {
    let expected = vec![
        "PARSE_ERROR",
        "BAD_REQUEST",
        "INTERNAL_SERVER_ERROR",
        "NOT_IMPLEMENTED",
        "BAD_GATEWAY",
        "SERVICE_UNAVAILABLE",
        "GATEWAY_TIMEOUT",
        "UNAUTHORIZED",
        "FORBIDDEN",
        "NOT_FOUND",
        "METHOD_NOT_SUPPORTED",
        "TIMEOUT",
        "CONFLICT",
        "PRECONDITION_FAILED",
        "PAYLOAD_TOO_LARGE",
        "UNSUPPORTED_MEDIA_TYPE",
        "UNPROCESSABLE_CONTENT",
        "TOO_MANY_REQUESTS",
        "CLIENT_CLOSED_REQUEST",
    ];
    for (s, name) in all_statuses().iter().zip(expected.iter()) {
        assert_eq!(s.to_string(), name.to_string());
    }
}

#[test]
fn status_table_stable_across_repeated_lookups() {
    for s in all_statuses() {
        assert_eq!(s.to_rpc_code(), s.to_rpc_code());
        assert_eq!(s.to_http_status(), s.to_http_status());
        assert_eq!(s.to_string(), s.to_string());
    }
}

fn obj(fields: Vec<(&str, Value)>) -> Value {
    Value::Obj(
        fields
            .into_iter()
            .map(|(k, v)| (k.to_string(), v))
            .collect(),
    )
}

#[test]
fn failure_envelope_shape() {
    let r = RpcError::new(RpcStatus::NotFound, "missing thing".to_string()).into_rpc_response();
    assert_eq!(r.status(), 404);
    let expected = obj(vec![(
        "error",
        obj(vec![
            ("message", Value::Str("missing thing".to_string())),
            ("code", Value::Int(-32004)),
            (
                "data",
                obj(vec![
                    ("code", Value::Str("NOT_FOUND".to_string())),
                    ("httpStatus", Value::Int(404)),
                ]),
            ),
        ]),
    )]);
    assert_eq!(*r.value(), expected);
}

#[test]
fn success_envelope_shape() {
    let r = success_response(Value::Int(42));
    assert_eq!(r.status(), 200);
    let expected = obj(vec![("result", obj(vec![("data", Value::Int(42))]))]);
    assert_eq!(*r.value(), expected);
}

#[test]
fn outcome_ok_is_success_envelope() {
    let r = response_of_outcome(Ok(Value::Str("fine".to_string())));
    assert_eq!(r.status(), 200);
    let expected = obj(vec![(
        "result",
        obj(vec![("data", Value::Str("fine".to_string()))]),
    )]);
    assert_eq!(*r.value(), expected);
}

#[test]
fn outcome_err_surfaces_status_and_message() {
    let r: juno::response::RpcResponse =
        Err::<Value, RpcError>(RpcError::new(RpcStatus::Conflict, "busy".to_string()))
            .into_rpc_response();
    assert_eq!(r.status(), 409);
    let expected = obj(vec![(
        "error",
        obj(vec![
            ("message", Value::Str("busy".to_string())),
            ("code", Value::Int(-32009)),
            (
                "data",
                obj(vec![
                    ("code", Value::Str("CONFLICT".to_string())),
                    ("httpStatus", Value::Int(409)),
                ]),
            ),
        ]),
    )]);
    assert_eq!(*r.value(), expected);
}

#[test]
fn rpc_error_new_keeps_fields() {
    let e = RpcError::new(RpcStatus::Timeout, "late".to_string());
    assert_eq!(e.status, RpcStatus::Timeout);
    assert_eq!(e.message, "late".to_string());
}

#[test]
fn rpc_response_accessors() {
    let r = juno::response::RpcResponse::new(204, Value::Null);
    assert_eq!(r.status(), 204);
    assert_eq!(*r.value(), Value::Null);
}
