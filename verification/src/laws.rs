//! The engine's laws: what the composition functions promise for whole
//! classes of inputs, proved once and for all.

use vstd::prelude::*;
use crate::errors::{error_json, valid_code, ErrorCodeModel, ErrorModel};
use crate::json::{lookup, JsonModel};
use crate::response::{error_response, response_json, RequestModel, ResponseModel};
use crate::server::{
    emitted_json, invalid_request_json, process_response, single_response, validate_request,
    Validated,
};
use crate::wire::parse_result;

verus! {

/// A valid call whose handler answers with a value earns exactly the
/// response object `{"jsonrpc": "2.0", "result": value, "id": id}`, the id
/// echoed from the request.
pub proof fn lemma_result_echoed(v: JsonModel, req: RequestModel, value: JsonModel)
    requires
        validate_request(v) == Validated::Valid(req),
        req.id is Some,
    ensures
        single_response(v, Ok(value)) == (ResponseModel {
            result: Some(value),
            error: None,
            id: req.id,
        }),
        response_json(single_response(v, Ok(value))) == JsonModel::Obj(
            seq![
                ("jsonrpc"@, JsonModel::Str("2.0"@)),
                ("result"@, value),
                ("id"@, req.id->Some_0),
            ],
        ),
{
    assert(response_json(single_response(v, Ok(value)))->Obj_0 =~= seq![
        ("jsonrpc"@, JsonModel::Str("2.0"@)),
        ("result"@, value),
        ("id"@, req.id->Some_0),
    ]);
}

/// A request without an id is a notification and earns no response: a
/// handler error is swallowed, and a null result is suppressed. Only a
/// handler that answers a notification with something other than JSON null
/// is surfaced, as an internal error under a null id.
pub proof fn lemma_notification_silent(
    v: JsonModel,
    req: RequestModel,
    outcome: Result<JsonModel, ErrorModel>,
)
    requires
        validate_request(v) == Validated::Valid(req),
        req.id is None,
    ensures
        (outcome matches Ok(value) && value == JsonModel::Null) ==> single_response(
            v,
            outcome,
        ).id is None,
        outcome is Err ==> single_response(v, outcome).id is None,
        (outcome matches Ok(value) && value != JsonModel::Null) ==> single_response(v, outcome)
            == error_response(ErrorCodeModel::InternalError, None, Some(JsonModel::Null)),
{
}

/// Text that does not parse earns exactly the parse error object
/// `{"jsonrpc": "2.0", "error": {"code": -32700, "message": "Parse
/// error"}, "id": null}`, whatever the handlers would have answered.
pub proof fn lemma_parse_error(s: Seq<char>, outs: Seq<Result<JsonModel, ErrorModel>>)
    requires
        parse_result(s) is None,
    ensures
        process_response(parse_result(s), outs) == Some(
            JsonModel::Obj(
                seq![
                    ("jsonrpc"@, JsonModel::Str("2.0"@)),
                    (
                        "error"@,
                        JsonModel::Obj(
                            seq![
                                ("code"@, JsonModel::Int(-32700i64)),
                                ("message"@, JsonModel::Str("Parse error"@)),
                            ],
                        ),
                    ),
                    ("id"@, JsonModel::Null),
                ],
            ),
        ),
{
    let e = error_response(ErrorCodeModel::ParseError, None, Some(JsonModel::Null));
    assert(error_json(e.error->Some_0)->Obj_0 =~= seq![
        ("code"@, JsonModel::Int(-32700i64)),
        ("message"@, JsonModel::Str("Parse error"@)),
    ]);
    assert(response_json(e)->Obj_0 =~= seq![
        ("jsonrpc"@, JsonModel::Str("2.0"@)),
        ("error"@, error_json(e.error->Some_0)),
        ("id"@, JsonModel::Null),
    ]);
}

/// A request object bearing the right version but an object-valued id, or
/// neither an id nor a method, earns the invalid-request error under a
/// null id, whatever the handler would have answered.
pub proof fn lemma_invalid_envelope(v: JsonModel, outcome: Result<JsonModel, ErrorModel>)
    requires
        v is Obj,
        lookup(v->Obj_0, "jsonrpc"@) == Some(JsonModel::Str("2.0"@)),
    ensures
        (lookup(v->Obj_0, "id"@) matches Some(i) && i is Obj) ==> single_response(v, outcome)
            == error_response(ErrorCodeModel::InvalidRequest, None, Some(JsonModel::Null)),
        (lookup(v->Obj_0, "id"@) is None && lookup(v->Obj_0, "method"@) is None)
            ==> single_response(v, outcome) == error_response(
            ErrorCodeModel::InvalidRequest,
            None,
            Some(JsonModel::Null),
        ),
        (lookup(v->Obj_0, "id"@) is None && (lookup(v->Obj_0, "method"@) matches Some(mv)
            && !(mv is Str))) ==> single_response(v, outcome) == error_response(
            ErrorCodeModel::InvalidRequest,
            None,
            Some(JsonModel::Null),
        ),
{
}

/// A valid call whose handler reports an error with a lawful code earns
/// the error response under the request's id, the error relayed untouched.
pub proof fn lemma_error_relayed(v: JsonModel, req: RequestModel, e: ErrorModel)
    requires
        validate_request(v) == Validated::Valid(req),
        req.id is Some,
        valid_code(e.kind),
    ensures
        single_response(v, Err(e)) == (ResponseModel { result: None, error: Some(e), id: req.id }),
{
}

/// The empty batch earns the single invalid-request error object, not an
/// array, whatever the handlers would have answered.
pub proof fn lemma_empty_batch(outs: Seq<Result<JsonModel, ErrorModel>>)
    ensures
        process_response(Some(JsonModel::Arr(Seq::empty())), outs) == Some(
            invalid_request_json(),
        ),
{
}

/// A batch none of whose elements is an object earns one invalid-request
/// error object per element, order preserved.
pub proof fn lemma_invalid_batch(
    elems: Seq<JsonModel>,
    outs: Seq<Result<JsonModel, ErrorModel>>,
    n: int,
)
    requires
        0 <= n <= elems.len(),
        forall|i: int| 0 <= i < elems.len() ==> !(elems[i] is Obj),
    ensures
        emitted_json(elems, outs, n) =~= Seq::new(n as nat, |i: int| invalid_request_json()),
    decreases n,
{
    if n > 0 {
        lemma_invalid_batch(elems, outs, n - 1);
    }
}

/// The batch output holds exactly the output-bearing responses of its
/// elements, in element order: the element responses, filtered down to
/// those that carry an id, rendered one by one. Notifications carry no id
/// and so contribute nothing.
pub proof fn lemma_batch_order(
    elems: Seq<JsonModel>,
    outs: Seq<Result<JsonModel, ErrorModel>>,
    n: int,
)
    requires
        0 <= n,
    ensures
        emitted_json(elems, outs, n) == Seq::new(
            n as nat,
            |i: int| single_response(elems[i], outs[i]),
        ).filter(|r: ResponseModel| r.id is Some).map_values(
            |r: ResponseModel| response_json(r),
        ),
    decreases n,
{
    broadcast use Seq::lemma_filter_push;

    let pred = |r: ResponseModel| r.id is Some;
    let render = |r: ResponseModel| response_json(r);
    let all = Seq::new(n as nat, |i: int| single_response(elems[i], outs[i]));
    if n == 0 {
        assert(all.len() == 0);
        assert(all.filter(pred) =~= Seq::empty()) by {
            reveal(Seq::filter);
        }
        assert(all.filter(pred).map_values(render) =~= Seq::empty());
    } else {
        lemma_batch_order(elems, outs, n - 1);
        let prev = Seq::new((n - 1) as nat, |i: int| single_response(elems[i], outs[i]));
        let last = single_response(elems[n - 1], outs[n - 1]);
        assert(all =~= prev.push(last));
        assert(prev.push(last).filter(pred) == if pred(last) {
            prev.filter(pred).push(last)
        } else {
            prev.filter(pred)
        });
        if pred(last) {
            assert(all.filter(pred).map_values(render) =~= prev.filter(pred).map_values(
                render,
            ).push(response_json(last)));
        } else {
            assert(all.filter(pred).map_values(render) =~= prev.filter(pred).map_values(render));
        }
    }
}

/// Every response the engine composes carries exactly one of a result and
/// an error, never both and never neither.
pub proof fn lemma_exactly_one_outcome(v: JsonModel, outcome: Result<JsonModel, ErrorModel>)
    ensures
        ({
            let r = single_response(v, outcome);
            r.result is Some <==> r.error is None
        }),
{
}

/// The engine itself only ever originates `InvalidRequest` and
/// `InternalError`; any other kind in a composed response was relayed from
/// the handler's own answer, untouched.
pub proof fn lemma_kinds_relayed(v: JsonModel, outcome: Result<JsonModel, ErrorModel>)
    ensures
        ({
            let r = single_response(v, outcome);
            r.error matches Some(e) ==> e.kind is InvalidRequest || e.kind is InternalError || (
            outcome matches Err(handler_error) && e.kind == handler_error.kind)
        }),
{
}

/// With the same request text and the same handler outcomes, the engine
/// owes byte-identical output: processing is a function of the two and of
/// nothing else.
pub proof fn lemma_deterministic(
    s1: Seq<char>,
    s2: Seq<char>,
    o1: Seq<Result<JsonModel, ErrorModel>>,
    o2: Seq<Result<JsonModel, ErrorModel>>,
)
    requires
        s1 == s2,
        o1 == o2,
    ensures
        process_response(parse_result(s1), o1) == process_response(parse_result(s2), o2),
{
}

} // verus!
