//! The JSON-RPC processing unit: envelope screening, dispatch to a handler,
//! and batch handling.
//!
//! [`validate_request`] is the mathematical statement of the screening rules
//! of JSON-RPC 2.0; [`single_response`] and [`process_response`] state what
//! response the engine composes from a request tree and the handler's
//! outcomes. The executable dispatcher is verified against them: every
//! output is the rendering demanded by those functions for some sequence of
//! handler outcomes.

use vstd::prelude::*;
use crate::errors::{ErrorCode, ErrorCodeModel, ErrorJsonRpc, ErrorModel};
use crate::json::{lookup, seq_model, JsonModel, JsonValue};
use crate::response::{
    error_response, outcome_response, recovery_response, response_json, InternalErrorCode,
    JsonRpcRequest, JsonRpcResponse, RequestModel, ResponseModel,
};
use crate::wire;
use crate::wire::parse_result;

verus! {

/// Handler for processing requests: the registry contract. The engine
/// resolves a method by handing the whole validated request to the handler,
/// which answers with a result value or a classified error; a name that
/// resolves to nothing is reported as `MethodNotFound` by the handler
/// itself.
pub trait Handler {
    /// Extra state handed through to every invocation.
    type Context;

    /// Produce the result or the classified failure for one request.
    fn handle(&self, req: &JsonRpcRequest, custom: &Self::Context) -> Result<
        JsonValue,
        ErrorJsonRpc,
    >;
}

/// A registry with no methods: every request fails with `MethodNotFound`.
pub struct EmptyRegistry;

impl Handler for EmptyRegistry {
    type Context = ();

    fn handle(&self, _req: &JsonRpcRequest, _custom: &()) -> (r: Result<JsonValue, ErrorJsonRpc>)
        ensures
            r matches Err(e) && e@.kind is MethodNotFound && e@.data is None,
    {
        Err(ErrorJsonRpc::new(ErrorCode::MethodNotFound))
    }
}

/// What envelope screening makes of one JSON value.
pub enum Validated {
    /// Not a valid request; the value is the id the error response must
    /// report, JSON null where none could be trusted.
    Rejected(JsonModel),
    /// A valid request.
    Valid(RequestModel),
}

/// The screening rules of JSON-RPC 2.0, applied to one JSON value in strict
/// order: the value must be an object whose `jsonrpc` member is the string
/// "2.0"; an `id` member may be anything but an object, and is trusted only
/// from here on; `method` must be a string; `params`, where present, must
/// be an array or an object.
pub open spec fn validate_request(v: JsonModel) -> Validated {
    if !(v is Obj) {
        Validated::Rejected(JsonModel::Null)
    } else {
        let m = v->Obj_0;
        if lookup(m, "jsonrpc"@) != Some(JsonModel::Str("2.0"@)) {
            Validated::Rejected(JsonModel::Null)
        } else if lookup(m, "id"@) matches Some(i) && i is Obj {
            Validated::Rejected(JsonModel::Null)
        } else {
            let id = lookup(m, "id"@);
            let known_id = match id {
                Some(i) => i,
                None => JsonModel::Null,
            };
            match lookup(m, "method"@) {
                Some(JsonModel::Str(name)) => match lookup(m, "params"@) {
                    None => Validated::Valid(RequestModel { method: name, params: None, id }),
                    Some(p) => if p is Arr || p is Obj {
                        Validated::Valid(RequestModel { method: name, params: Some(p), id })
                    } else {
                        Validated::Rejected(known_id)
                    },
                },
                _ => Validated::Rejected(known_id),
            }
        }
    }
}

/// The response the engine owes for one JSON value, given the outcome the
/// handler would answer with. A rejected value never reaches a handler, so
/// its response ignores the outcome.
pub open spec fn single_response(v: JsonModel, outcome: Result<JsonModel, ErrorModel>) -> ResponseModel {
    match validate_request(v) {
        Validated::Rejected(id) => error_response(
            ErrorCodeModel::InvalidRequest,
            None,
            Some(id),
        ),
        Validated::Valid(req) => outcome_response(req.id, outcome),
    }
}

/// The output-bearing response objects of a batch's first `n` elements, in
/// element order: each element's response, with the suppressed notification
/// responses left out.
pub open spec fn emitted_json(
    elems: Seq<JsonModel>,
    outs: Seq<Result<JsonModel, ErrorModel>>,
    n: int,
) -> Seq<JsonModel>
    decreases n,
{
    if n <= 0 {
        Seq::empty()
    } else {
        let prev = emitted_json(elems, outs, n - 1);
        let r = single_response(elems[n - 1], outs[n - 1]);
        if r.id is Some {
            prev.push(response_json(r))
        } else {
            prev
        }
    }
}

/// `emitted_json` reads only the first `n` outcomes.
proof fn lemma_emitted_prefix(
    elems: Seq<JsonModel>,
    o1: Seq<Result<JsonModel, ErrorModel>>,
    o2: Seq<Result<JsonModel, ErrorModel>>,
    n: int,
)
    requires
        forall|j: int| 0 <= j < n ==> o1[j] == o2[j],
    ensures
        emitted_json(elems, o1, n) == emitted_json(elems, o2, n),
    decreases n,
{
    if n > 0 {
        lemma_emitted_prefix(elems, o1, o2, n - 1);
    }
}

/// The wire shape of the error that reports an unparseable request text.
pub open spec fn parse_error_json() -> JsonModel {
    response_json(error_response(ErrorCodeModel::ParseError, None, Some(JsonModel::Null)))
}

/// The wire shape of the error that reports an invalid request with no
/// trusted id.
pub open spec fn invalid_request_json() -> JsonModel {
    response_json(error_response(ErrorCodeModel::InvalidRequest, None, Some(JsonModel::Null)))
}

/// The JSON tree the engine renders for a parsed request text, given the
/// outcomes the handlers would answer with, or nothing where every response
/// is suppressed. Unparseable text earns the parse error object; a
/// top-level value that is neither object nor array, and the empty batch,
/// earn the invalid-request object; a batch answers with the array of its
/// output-bearing responses, unless there are none.
pub open spec fn process_response(
    parsed: Option<JsonModel>,
    outs: Seq<Result<JsonModel, ErrorModel>>,
) -> Option<JsonModel> {
    match parsed {
        None => Some(parse_error_json()),
        Some(v) => match v {
            JsonModel::Obj(_) => {
                let r = single_response(v, outs[0]);
                if r.id is Some {
                    Some(response_json(r))
                } else {
                    None
                }
            },
            JsonModel::Arr(elems) => if elems.len() == 0 {
                Some(invalid_request_json())
            } else {
                let em = emitted_json(elems, outs, elems.len() as int);
                if em.len() == 0 {
                    None
                } else {
                    Some(JsonModel::Arr(em))
                }
            },
            _ => Some(invalid_request_json()),
        },
    }
}

/// The model of the exec result of one dispatch step: a classified failure
/// stands for the response it turns into.
pub(crate) open spec fn resolved(r: Result<JsonRpcResponse, InternalErrorCode>) -> ResponseModel {
    match r {
        Ok(resp) => resp@,
        Err(e) => recovery_response(e),
    }
}

/// The output tree of the whole engine run, read off its exec result.
pub(crate) open spec fn request_output(r: Result<Option<JsonValue>, InternalErrorCode>) -> Option<
    JsonModel,
> {
    match r {
        Ok(None) => None,
        Ok(Some(j)) => Some(j@),
        Err(e) => {
            let rm = recovery_response(e);
            if rm.id is Some {
                Some(response_json(rm))
            } else {
                None
            }
        },
    }
}

/// JSON-RPC processing unit.
pub struct JsonRpcServer<H: Handler> {
    handler: H,
}

impl JsonRpcServer<EmptyRegistry> {
    /// Create a new default instance of `JsonRpcServer`, with no methods
    /// registered.
    pub fn new() -> (s: JsonRpcServer<EmptyRegistry>)
        ensures
            s.registry() == EmptyRegistry,
    {
        JsonRpcServer { handler: EmptyRegistry }
    }
}

impl<H: Handler<Context = ()>> JsonRpcServer<H> {
    /// Specialized entry point for handlers that need no context.
    pub fn handle_request(&self, request: &str) -> (r: Option<String>)
        ensures
            exists|outs: Seq<Result<JsonModel, ErrorModel>>|
                match (r, #[trigger] process_response(parse_result(request@), outs)) {
                    (Some(text), Some(tree)) => text@ == wire::rendered(tree),
                    (None, None) => true,
                    _ => false,
                },
            parse_result(request@) is None ==> (r matches Some(text) && text@ == wire::rendered(
                parse_error_json(),
            )),
    {
        self.handle_request_context(request, &())
    }
}

impl<H: Handler> JsonRpcServer<H> {
    /// The handler the server dispatches to.
    pub closed spec fn registry(&self) -> H {
        self.handler
    }

    /// Create an instance of `JsonRpcServer` with a custom handler.
    pub fn new_handler(h: H) -> (s: JsonRpcServer<H>)
        ensures
            s.registry() == h,
    {
        JsonRpcServer { handler: h }
    }

    /// Get a handler reference.
    pub fn get_handler(&self) -> (r: &H)
        ensures
            *r == self.registry(),
    {
        &self.handler
    }

    /// Get a mutable handler reference.
    pub fn get_handler_mut(&mut self) -> (r: &mut H)
        ensures
            *r == old(self).registry(),
    {
        &mut self.handler
    }

    /// Validate one JSON value as a request and, where it passes, let the
    /// handler answer it; the result is the owed response, or the
    /// classified failure that turns into it.
    fn _handle_single(&self, req: &JsonValue, custom: &H::Context) -> (r: Result<
        JsonRpcResponse,
        InternalErrorCode,
    >)
        ensures
            exists|outcome: Result<JsonModel, ErrorModel>|
                resolved(r) == single_response(req@, outcome),
    {
        let ghost nul = Ok::<JsonModel, ErrorModel>(JsonModel::Null);
        match req {
            JsonValue::Object(_) => {},
            _ => {
                proof {
                    assert(resolved(Err(InternalErrorCode::WithoutId(ErrorCode::InvalidRequest, None)))
                        == single_response(req@, nul));
                }
                return Err(InternalErrorCode::WithoutId(ErrorCode::InvalidRequest, None));
            },
        }
        let ghost m = req@->Obj_0;

        // The jsonrpc member must hold the string "2.0".
        let version_ok: bool = match req.get("jsonrpc") {
            Some(v) => match v {
                JsonValue::Str(s) => {
                    let v20: String = "2.0".to_owned();
                    *s == v20
                },
                _ => false,
            },
            None => false,
        };
        if !version_ok {
            proof {
                assert(validate_request(req@) == Validated::Rejected(JsonModel::Null));
                assert(resolved(Err(InternalErrorCode::WithoutId(ErrorCode::InvalidRequest, None)))
                    == single_response(req@, nul));
            }
            return Err(InternalErrorCode::WithoutId(ErrorCode::InvalidRequest, None));
        }

        // Read the id, before which no failure may echo one; an object is
        // not a legal id.
        let request_id: Option<&JsonValue> = req.get("id");
        match request_id {
            Some(i) => match i {
                JsonValue::Object(_) => {
                    proof {
                        assert(validate_request(req@) == Validated::Rejected(JsonModel::Null));
                        assert(resolved(Err(InternalErrorCode::WithoutId(ErrorCode::InvalidRequest, None)))
                            == single_response(req@, nul));
                    }
                    return Err(InternalErrorCode::WithoutId(ErrorCode::InvalidRequest, None));
                },
                _ => {},
            },
            None => {},
        }
        let ghost known_id = match lookup(m, "id"@) {
            Some(i) => i,
            None => JsonModel::Null,
        };

        // The method member must hold a string.
        let request_method: &String = match req.get("method") {
            Some(v) => match v {
                JsonValue::Str(s) => s,
                _ => {
                    let id_echo = Some(duplicate_or_null(request_id));
                    proof {
                        assert(validate_request(req@) == Validated::Rejected(known_id));
                    }
                    return Err(InternalErrorCode::WithId(ErrorCode::InvalidRequest, id_echo, None));
                },
            },
            None => {
                let id_echo = Some(duplicate_or_null(request_id));
                proof {
                    assert(validate_request(req@) == Validated::Rejected(known_id));
                }
                return Err(InternalErrorCode::WithId(ErrorCode::InvalidRequest, id_echo, None));
            },
        };

        // The params member, where present, must hold an array or an
        // object.
        let request_params: Option<&JsonValue> = match req.get("params") {
            Some(p) => match p {
                JsonValue::Array(_) | JsonValue::Object(_) => Some(p),
                _ => {
                    let id_echo = Some(duplicate_or_null(request_id));
                    proof {
                        assert(validate_request(req@) == Validated::Rejected(known_id));
                    }
                    return Err(InternalErrorCode::WithId(ErrorCode::InvalidRequest, id_echo, None));
                },
            },
            None => None,
        };

        // From here on the request is valid.
        let request = JsonRpcRequest {
            method: request_method.as_str(),
            params: request_params,
            id: request_id,
        };
        proof {
            assert(validate_request(req@) == Validated::Valid(request@));
        }
        match self.handler.handle(&request, custom) {
            Ok(data) => {
                let ghost outcome = Ok::<JsonModel, ErrorModel>(data@);
                let resp = JsonRpcResponse::new_result(&request, data);
                proof {
                    assert(resolved(Ok(resp)) == single_response(req@, outcome));
                }
                Ok(resp)
            },
            Err(e) => {
                let ghost outcome = Err::<JsonModel, ErrorModel>(e@);
                let id_echo = match request.id {
                    Some(i) => Some(i.duplicate()),
                    None => None,
                };
                let failure = InternalErrorCode::WithId(e.error, id_echo, e.data);
                proof {
                    assert(resolved(Err(failure)) == single_response(req@, outcome));
                }
                Err(failure)
            },
        }
    }

    /// Apply the single-request path to each element of a batch array and
    /// gather the output-bearing responses in element order.
    fn _handle_multiple(&self, array: &Vec<JsonValue>, custom: &H::Context) -> (r: Result<
        Option<JsonValue>,
        InternalErrorCode,
    >)
        ensures
            ({
                let elems = seq_model(array@);
                if elems.len() == 0 {
                    r matches Err(e) && recovery_response(e) == error_response(
                        ErrorCodeModel::InvalidRequest,
                        None,
                        Some(JsonModel::Null),
                    )
                } else {
                    exists|outs: Seq<Result<JsonModel, ErrorModel>>|
                        outs.len() == elems.len() && (match r {
                            Ok(None) => emitted_json(elems, outs, elems.len() as int).len() == 0,
                            Ok(Some(j)) => {
                                let em = emitted_json(elems, outs, elems.len() as int);
                                em.len() > 0 && j@ == JsonModel::Arr(em)
                            },
                            Err(_) => false,
                        })
                }
            }),
    {
        if array.len() == 0 {
            return Err(InternalErrorCode::WithoutId(ErrorCode::InvalidRequest, None));
        }
        let ghost elems = seq_model(array@);
        let mut responses: Vec<JsonValue> = Vec::new();
        let ghost mut outs: Seq<Result<JsonModel, ErrorModel>> = Seq::empty();
        let mut k: usize = 0;
        while k < array.len()
            invariant
                k <= array@.len(),
                outs.len() == k,
                elems == seq_model(array@),
                seq_model(responses@) == emitted_json(elems, outs, k as int),
            decreases array@.len() - k,
        {
            let step = self._handle_single(&array[k], custom);
            let ghost rm = resolved(step);
            let ghost o = choose|o: Result<JsonModel, ErrorModel>|
                rm == single_response(elems[k as int], o);
            proof {
                assert(array@[k as int]@ == elems[k as int]);
                assert(rm == single_response(elems[k as int], o));
            }
            let response = match step {
                Ok(resp) => resp,
                Err(e) => e.into_response(),
            };
            match response.to_json() {
                Some(jv) => {
                    responses.push(jv);
                },
                None => {},
            }
            proof {
                let outs0 = outs;
                outs = outs.push(o);
                lemma_emitted_prefix(elems, outs0, outs, k as int);
                assert(seq_model(responses@) =~= emitted_json(elems, outs, k as int + 1));
            }
            k += 1;
        }
        if responses.len() == 0 {
            proof {
                assert(emitted_json(elems, outs, elems.len() as int).len() == 0);
            }
            Ok(None)
        } else {
            let out = JsonValue::Array(responses);
            proof {
                assert(out@->Arr_0 =~= emitted_json(elems, outs, elems.len() as int));
            }
            Ok(Some(out))
        }
    }

    /// Parse the request text and run the single or the batch path, as the
    /// top-level shape demands.
    fn _handle_request(&self, request: &str, custom: &H::Context) -> (r: Result<
        Option<JsonValue>,
        InternalErrorCode,
    >)
        ensures
            exists|outs: Seq<Result<JsonModel, ErrorModel>>|
                request_output(r) == process_response(parse_result(request@), outs),
    {
        let ghost no_outs = Seq::<Result<JsonModel, ErrorModel>>::empty();
        let parsed = wire::parse_json(request);
        match parsed {
            None => {
                proof {
                    assert(request_output(Err(InternalErrorCode::WithoutId(ErrorCode::ParseError, None)))
                        == process_response(parse_result(request@), no_outs));
                }
                Err(InternalErrorCode::WithoutId(ErrorCode::ParseError, None))
            },
            Some(v) => match &v {
                JsonValue::Object(_) => {
                    let step = self._handle_single(&v, custom);
                    let ghost o = choose|o: Result<JsonModel, ErrorModel>|
                        resolved(step) == single_response(v@, o);
                    let ghost outs = seq![o];
                    match step {
                        Ok(resp) => {
                            let r = Ok(resp.to_json());
                            proof {
                                assert(request_output(r) == process_response(
                                    parse_result(request@),
                                    outs,
                                ));
                            }
                            r
                        },
                        Err(e) => {
                            proof {
                                assert(request_output(Err(e)) == process_response(
                                    parse_result(request@),
                                    outs,
                                ));
                            }
                            Err(e)
                        },
                    }
                },
                JsonValue::Array(elements) => {
                    let r = self._handle_multiple(elements, custom);
                    proof {
                        let elems = seq_model(elements@);
                        assert(v@->Arr_0 =~= elems);
                        if elems.len() == 0 {
                            assert(request_output(r) == process_response(
                                parse_result(request@),
                                no_outs,
                            ));
                        } else {
                            let outs = choose|outs: Seq<Result<JsonModel, ErrorModel>>|
                                outs.len() == elems.len() && (match r {
                                    Ok(None) => emitted_json(elems, outs, elems.len() as int).len()
                                        == 0,
                                    Ok(Some(j)) => {
                                        let em = emitted_json(elems, outs, elems.len() as int);
                                        em.len() > 0 && j@ == JsonModel::Arr(em)
                                    },
                                    Err(_) => false,
                                });
                            assert(request_output(r) == process_response(
                                parse_result(request@),
                                outs,
                            ));
                        }
                    }
                    r
                },
                _ => {
                    proof {
                        assert(request_output(Err(InternalErrorCode::WithoutId(ErrorCode::InvalidRequest, None)))
                            == process_response(parse_result(request@), no_outs));
                    }
                    Err(InternalErrorCode::WithoutId(ErrorCode::InvalidRequest, None))
                },
            },
        }
    }

    /// Process one request text against the registered handler: the
    /// rendered response text, or nothing where the request was a
    /// notification (or a batch of notifications) and owes no bytes.
    pub fn handle_request_context(&self, request: &str, custom: &H::Context) -> (r: Option<String>)
        ensures
            exists|outs: Seq<Result<JsonModel, ErrorModel>>|
                match (r, #[trigger] process_response(parse_result(request@), outs)) {
                    (Some(text), Some(tree)) => text@ == wire::rendered(tree),
                    (None, None) => true,
                    _ => false,
                },
            parse_result(request@) is None ==> (r matches Some(text) && text@ == wire::rendered(
                parse_error_json(),
            )),
    {
        let step = self._handle_request(request, custom);
        let ghost outs = choose|outs: Seq<Result<JsonModel, ErrorModel>>|
            request_output(step) == process_response(parse_result(request@), outs);
        match step {
            Ok(Some(resp)) => {
                let text = wire::render_json(&resp);
                proof {
                    assert(text@ == wire::rendered(process_response(
                        parse_result(request@),
                        outs,
                    )->Some_0));
                }
                Some(text)
            },
            Ok(None) => None,
            Err(err) => match err.into_response().to_json() {
                Some(j) => {
                    let text = wire::render_json(&j);
                    Some(text)
                },
                None => None,
            },
        }
    }
}

/// An owned copy of an optional id value, JSON null where there is none.
fn duplicate_or_null(id: Option<&JsonValue>) -> (r: JsonValue)
    ensures
        r@ == match id {
            Some(i) => i@,
            None => JsonModel::Null,
        },
{
    match id {
        Some(i) => i.duplicate(),
        None => JsonValue::Null,
    }
}

} // verus!
