//! The envelope model: validated requests and composed responses.
//!
//! A [`JsonRpcResponse`] carries exactly one of a result or an error, and an
//! `id` that mirrors the request's. A response whose `id` is structurally
//! absent stands for "no response": it belongs to a notification and is
//! never rendered. That internal suppression signal is distinct from a
//! response whose `id` holds the JSON value null.

use vstd::prelude::*;
use crate::errors::{error_json, valid_code, ErrorCode, ErrorCodeModel, ErrorJsonRpc, ErrorModel};
use crate::json::{opt_model, JsonModel, JsonValue};

verus! {

/// The spec-level mirror of [`JsonRpcRequest`].
pub struct RequestModel {
    pub method: Seq<char>,
    pub params: Option<JsonModel>,
    pub id: Option<JsonModel>,
}

/// A validated client request.
pub struct JsonRpcRequest<'a> {
    /// Name of the remote procedure to call.
    pub method: &'a str,
    /// Parameters to the method: an array (request by position) or an
    /// object (request by name), where given.
    pub params: Option<&'a JsonValue>,
    /// The request id. `None` means the client sent a notification and
    /// wants no response. Kept private so that handlers cannot read it.
    pub(crate) id: Option<&'a JsonValue>,
}

impl<'a> View for JsonRpcRequest<'a> {
    type V = RequestModel;

    open(crate) spec fn view(&self) -> RequestModel {
        RequestModel {
            method: self.method@,
            params: match self.params {
                Some(p) => Some(p@),
                None => None,
            },
            id: match self.id {
                Some(i) => Some(i@),
                None => None,
            },
        }
    }
}

/// The spec-level mirror of [`JsonRpcResponse`].
pub struct ResponseModel {
    pub result: Option<JsonModel>,
    pub error: Option<ErrorModel>,
    pub id: Option<JsonModel>,
}

/// The response composed for a failure: the kind is coerced to
/// `InternalError` where its custom code lies outside the reserved range,
/// and the given id is echoed. An absent id suppresses the response.
pub open spec fn error_response(
    kind: ErrorCodeModel,
    data: Option<JsonModel>,
    id: Option<JsonModel>,
) -> ResponseModel {
    let surfaced = if valid_code(kind) {
        kind
    } else {
        ErrorCodeModel::InternalError
    };
    ResponseModel { result: None, error: Some(ErrorModel { kind: surfaced, data }), id }
}

/// The response composed for a handler result. A call echoes the request's
/// id beside the result. A notification whose handler returned JSON null is
/// suppressed; one whose handler returned anything else is surfaced as an
/// internal error with a null id.
pub open spec fn result_response(id: Option<JsonModel>, value: JsonModel) -> ResponseModel {
    match id {
        Some(_) => ResponseModel { result: Some(value), error: None, id },
        None => if value == JsonModel::Null {
            ResponseModel { result: Some(value), error: None, id: None }
        } else {
            error_response(ErrorCodeModel::InternalError, None, Some(JsonModel::Null))
        },
    }
}

/// The response composed for a valid request once its handler has
/// answered: a result is echoed back under the request's id, an error is
/// reported under it.
pub open spec fn outcome_response(
    id: Option<JsonModel>,
    outcome: Result<JsonModel, ErrorModel>,
) -> ResponseModel {
    match outcome {
        Ok(value) => result_response(id, value),
        Err(e) => error_response(e.kind, e.data, id),
    }
}

/// The wire shape of a response that is rendered at all: an object with the
/// protocol version, the result or the error, and the echoed id.
pub open spec fn response_json(r: ResponseModel) -> JsonModel {
    let members = seq![("jsonrpc"@, JsonModel::Str("2.0"@))] + (match r.result {
        Some(v) => seq![("result"@, v)],
        None => Seq::empty(),
    }) + (match r.error {
        Some(e) => seq![("error"@, error_json(e))],
        None => Seq::empty(),
    }) + seq![
        ("id"@, match r.id {
            Some(i) => i,
            None => JsonModel::Null,
        }),
    ];
    JsonModel::Obj(members)
}

/// Describes a response from the server to a client.
pub struct JsonRpcResponse {
    /// The result of the method invocation; `None` where an error occurred.
    pub(crate) result: Option<JsonValue>,
    /// Describes the error; `None` on success.
    pub(crate) error: Option<ErrorJsonRpc>,
    /// The response id, exactly matching the request's. `None` only for a
    /// notification, whose response is never rendered.
    pub(crate) id: Option<JsonValue>,
}

impl View for JsonRpcResponse {
    type V = ResponseModel;

    open(crate) spec fn view(&self) -> ResponseModel {
        ResponseModel {
            result: opt_model(self.result),
            error: match self.error {
                Some(e) => Some(e@),
                None => None,
            },
            id: opt_model(self.id),
        }
    }
}

impl JsonRpcResponse {
    /// Build the response for a failure, coercing an invalid custom error
    /// kind to `InternalError`.
    pub fn new_error(err: ErrorCode, data: Option<JsonValue>, id: Option<JsonValue>) -> (r:
        JsonRpcResponse)
        ensures
            r@ == error_response(err@, opt_model(data), opt_model(id)),
    {
        let error = if err.is_valid() {
            err
        } else {
            ErrorCode::InternalError
        };
        JsonRpcResponse {
            result: None,
            error: Some(
                match data {
                    Some(data) => ErrorJsonRpc::new_data(error, data),
                    None => ErrorJsonRpc::new(error),
                },
            ),
            id,
        }
    }

    /// Build the response for a handler result, echoing the request's id;
    /// see [`result_response`] for the notification rule.
    pub fn new_result(req: &JsonRpcRequest, data: JsonValue) -> (r: JsonRpcResponse)
        ensures
            r@ == result_response(req@.id, data@),
    {
        match req.id {
            Some(id) => JsonRpcResponse {
                result: Some(data),
                error: None,
                id: Some(id.duplicate()),
            },
            None => {
                if data.is_null() {
                    JsonRpcResponse { result: Some(data), error: None, id: None }
                } else {
                    JsonRpcResponse {
                        result: None,
                        error: Some(ErrorJsonRpc::new(ErrorCode::InternalError)),
                        id: Some(JsonValue::Null),
                    }
                }
            },
        }
    }

    /// The response's wire shape: nothing for a suppressed notification
    /// response, the response object otherwise.
    pub fn to_json(self) -> (r: Option<JsonValue>)
        ensures
            match r {
                Some(j) => self@.id is Some && j@ == response_json(self@),
                None => self@.id is None,
            },
    {
        let ghost m = self@;
        match self.id {
            None => None,
            Some(id) => {
                let mut members: Vec<(String, JsonValue)> = Vec::new();
                members.push(("jsonrpc".to_owned(), JsonValue::Str("2.0".to_owned())));
                match self.result {
                    Some(value) => {
                        members.push(("result".to_owned(), value));
                    },
                    None => {},
                }
                match self.error {
                    Some(err) => {
                        members.push(("error".to_owned(), err.to_json()));
                    },
                    None => {},
                }
                members.push(("id".to_owned(), id));
                let j = JsonValue::Object(members);
                proof {
                    let pairs = j@->Obj_0;
                    let sp = response_json(m)->Obj_0;
                    let nr: int = if m.result is Some {
                        1
                    } else {
                        0
                    };
                    let ne: int = if m.error is Some {
                        1
                    } else {
                        0
                    };
                    assert(members@.len() == 2 + nr + ne);
                    assert(sp.len() == 2 + nr + ne);
                    assert forall|i: int| 0 <= i < pairs.len() implies pairs[i] == sp[i] by {
                        assert(pairs[i] == (members@[i].0@, members@[i].1.model()));
                        if i == 0 {
                            assert(members@[0].0@ == "jsonrpc"@);
                            assert(sp[0] == ("jsonrpc"@, JsonModel::Str("2.0"@)));
                        } else if i == 1 && nr == 1 {
                            assert(members@[1].0@ == "result"@);
                            assert(sp[1] == ("result"@, m.result->0));
                        } else if i == nr + 1 && ne == 1 {
                            assert(members@[i].0@ == "error"@);
                            assert(sp[i] == ("error"@, error_json(m.error->0)));
                        } else {
                            assert(i == 1 + nr + ne);
                            assert(members@[i].0@ == "id"@);
                            assert(sp[i] == ("id"@, m.id->0));
                        }
                    }
                    assert(pairs =~= sp);
                }
                Some(j)
            },
        }
    }
}

/// The classification of a failure by how much of the request id was known
/// when it was detected.
pub(crate) enum InternalErrorCode {
    /// The request id was already resolved; `None` stands for a
    /// notification, whose error response is suppressed.
    WithId(ErrorCode, Option<JsonValue>, Option<JsonValue>),
    /// The failure came before the request id could be trusted; the
    /// response reports a null id.
    WithoutId(ErrorCode, Option<JsonValue>),
}

/// The response a classified failure turns into.
pub(crate) open spec fn recovery_response(e: InternalErrorCode) -> ResponseModel {
    match e {
        InternalErrorCode::WithId(err, id, data) => error_response(
            err@,
            opt_model(data),
            opt_model(id),
        ),
        InternalErrorCode::WithoutId(err, data) => error_response(
            err@,
            opt_model(data),
            Some(JsonModel::Null),
        ),
    }
}

impl InternalErrorCode {
    /// Converts the classified failure to a response.
    pub(crate) fn into_response(self) -> (r: JsonRpcResponse)
        ensures
            r@ == recovery_response(self),
    {
        let (err, id, data) = match self {
            InternalErrorCode::WithId(err, id, data) => (err, id, data),
            InternalErrorCode::WithoutId(err, data) => (err, Some(JsonValue::Null), data),
        };
        JsonRpcResponse::new_error(err, data, id)
    }
}

} // verus!
