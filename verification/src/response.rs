use vstd::prelude::*;
use vstd::string::StringExecFns;
use crate::errors::{RpcError, RpcStatus};
use crate::value::Value;

verus! {

/// What a call hands back to the transport boundary: a transport status code
/// and the wire-envelope body.
#[derive(Debug)]
pub struct RpcResponse(pub u16, pub Value);

impl RpcResponse {
    pub fn new(status: u16, value: Value) -> (r: Self)
        ensures
            r.0 == status,
            r.1 == value,
    {
        Self(status, value)
    }

    pub fn status(&self) -> (r: u16)
        ensures
            r == self.0,
    {
        self.0
    }

    pub fn value(&self) -> (r: &Value)
        ensures
            *r == self.1,
    {
        &self.1
    }
}

/// The success envelope: an object `{ result: { data: <data> } }` and nothing
/// else.
pub open spec fn is_success_body(b: Value, data: Value) -> bool {
    b matches Value::Obj(fs) && fs@.len() == 1 && fs@[0].0@ == "result"@ && (fs@[0].1 matches Value::Obj(
        inner,
    ) && inner@.len() == 1 && inner@[0].0@ == "data"@ && inner@[0].1 == data)
}

/// The failure envelope: an object
/// `{ error: { message, code, data: { code, httpStatus } } }` whose numeric
/// code, symbolic name and transport status all come from the one status
/// table.
pub open spec fn is_error_body(b: Value, status: RpcStatus, msg: Seq<char>) -> bool {
    b matches Value::Obj(fs) && fs@.len() == 1 && fs@[0].0@ == "error"@ && (fs@[0].1 matches Value::Obj(
        e,
    ) && e@.len() == 3 && e@[0].0@ == "message"@ && (e@[0].1 matches Value::Str(m) && m@ == msg)
        && e@[1].0@ == "code"@ && e@[1].1 == Value::Int(status.rpc_code_spec() as i64) && e@[2].0@
        == "data"@ && (e@[2].1 matches Value::Obj(d) && d@.len() == 2 && d@[0].0@ == "code"@ && (
    d@[0].1 matches Value::Str(n) && n@ == status.status_name_spec()) && d@[1].0@ == "httpStatus"@
        && d@[1].1 == Value::Int(status.http_status_spec() as i64)))
}

/// A response is one envelope or the other, never both and never anything
/// else.
pub open spec fn is_envelope(r: RpcResponse) -> bool {
    (r.0 == 200 && exists|data: Value| is_success_body(r.1, data)) || (exists|
        st: RpcStatus,
        msg: Seq<char>,
    |
        r.0 == st.http_status_spec() && is_error_body(r.1, st, msg))
}

impl RpcError {
    /// Render this failure as its wire envelope.
    pub fn to_response(&self) -> (r: RpcResponse)
        ensures
            r.0 == self.status.http_status_spec(),
            is_error_body(r.1, self.status, self.message@),
    {
        let code = self.status.to_rpc_code();
        let http = self.status.to_http_status();
        let name = self.status.to_string();
        let mut data_fields: Vec<(String, Value)> = Vec::new();
        data_fields.push((String::from_str("code"), Value::Str(name)));
        data_fields.push((String::from_str("httpStatus"), Value::Int(http as i64)));
        let mut error_fields: Vec<(String, Value)> = Vec::new();
        error_fields.push((String::from_str("message"), Value::Str(self.message.clone())));
        error_fields.push((String::from_str("code"), Value::Int(code as i64)));
        error_fields.push((String::from_str("data"), Value::Obj(data_fields)));
        let mut top: Vec<(String, Value)> = Vec::new();
        top.push((String::from_str("error"), Value::Obj(error_fields)));
        RpcResponse(http, Value::Obj(top))
    }
}

/// Wrap a success value in the success envelope, with transport status OK.
pub fn success_response(data: Value) -> (r: RpcResponse)
    ensures
        r.0 == 200,
        is_success_body(r.1, data),
{
    let mut inner: Vec<(String, Value)> = Vec::new();
    inner.push((String::from_str("data"), data));
    let mut top: Vec<(String, Value)> = Vec::new();
    top.push((String::from_str("result"), Value::Obj(inner)));
    RpcResponse(200, Value::Obj(top))
}

/// Shape a procedure outcome into the wire envelope: a success value becomes
/// the success envelope, a failure surfaces exactly its status and message.
pub fn response_of_outcome(outcome: Result<Value, RpcError>) -> (r: RpcResponse)
    ensures
        is_envelope(r),
        match outcome {
            Ok(data) => r.0 == 200 && is_success_body(r.1, data),
            Err(e) => r.0 == e.status.http_status_spec() && is_error_body(
                r.1,
                e.status,
                e.message@,
            ),
        },
{
    match outcome {
        Ok(data) => success_response(data),
        Err(e) => e.to_response(),
    }
}

/// Anything that can shape itself into the uniform wire envelope.
pub trait IntoRpcResponse {
    fn into_rpc_response(self) -> RpcResponse;
}

impl IntoRpcResponse for RpcError {
    fn into_rpc_response(self) -> (r: RpcResponse)
        ensures
            r.0 == self.status.http_status_spec(),
            is_error_body(r.1, self.status, self.message@),
    {
        self.to_response()
    }
}

impl IntoRpcResponse for Result<Value, RpcError> {
    fn into_rpc_response(self) -> (r: RpcResponse)
        ensures
            is_envelope(r),
            match self {
                Ok(data) => r.0 == 200 && is_success_body(r.1, data),
                Err(e) => r.0 == e.status.http_status_spec() && is_error_body(
                    r.1,
                    e.status,
                    e.message@,
                ),
            },
    {
        response_of_outcome(self)
    }
}

} // verus!
