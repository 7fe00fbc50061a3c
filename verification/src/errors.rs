//! The error taxonomy of JSON-RPC 2.0.
//!
//! Every failure the engine can report is one of the kinds of [`ErrorCode`].
//! The predefined kinds carry fixed numeric codes and messages; a custom
//! `ServerError` is valid only when its code lies in the reserved range
//! [-32099, -32000] and is coerced to `InternalError` when it does not.

use vstd::prelude::*;
use crate::json::{opt_model, JsonModel, JsonValue};

verus! {

/// Enum with the possible error kinds.
pub enum ErrorCode {
    /// The request text is not valid JSON.
    ParseError,
    /// The request envelope is not a valid request object.
    InvalidRequest,
    /// No method with the requested name exists.
    MethodNotFound,
    /// The requested method is not defined for the given parameters.
    InvalidParams,
    /// Internal server error.
    InternalError,
    /// A custom server error; its code must lie in [-32099, -32000].
    ServerError(i32, &'static str),
}

/// The spec-level mirror of [`ErrorCode`].
pub enum ErrorCodeModel {
    ParseError,
    InvalidRequest,
    MethodNotFound,
    InvalidParams,
    InternalError,
    ServerError(int, Seq<char>),
}

/// The numeric code of an error kind.
pub open spec fn code_of(kind: ErrorCodeModel) -> int {
    match kind {
        ErrorCodeModel::ParseError => -32700,
        ErrorCodeModel::InvalidRequest => -32600,
        ErrorCodeModel::MethodNotFound => -32601,
        ErrorCodeModel::InvalidParams => -32602,
        ErrorCodeModel::InternalError => -32603,
        ErrorCodeModel::ServerError(code, _) => code,
    }
}

/// The short description of an error kind.
pub open spec fn desc_of(kind: ErrorCodeModel) -> Seq<char> {
    match kind {
        ErrorCodeModel::ParseError => "Parse error"@,
        ErrorCodeModel::InvalidRequest => "Invalid Request"@,
        ErrorCodeModel::MethodNotFound => "Method not found"@,
        ErrorCodeModel::InvalidParams => "Invalid params"@,
        ErrorCodeModel::InternalError => "Internal error"@,
        ErrorCodeModel::ServerError(_, desc) => desc,
    }
}

/// Whether an error kind may be surfaced as it stands: every predefined kind
/// may; a custom one only when its code lies in the reserved range.
pub open spec fn valid_code(kind: ErrorCodeModel) -> bool {
    match kind {
        ErrorCodeModel::ServerError(code, _) => -32099 <= code <= -32000,
        _ => true,
    }
}

impl View for ErrorCode {
    type V = ErrorCodeModel;

    open spec fn view(&self) -> ErrorCodeModel {
        match self {
            ErrorCode::ParseError => ErrorCodeModel::ParseError,
            ErrorCode::InvalidRequest => ErrorCodeModel::InvalidRequest,
            ErrorCode::MethodNotFound => ErrorCodeModel::MethodNotFound,
            ErrorCode::InvalidParams => ErrorCodeModel::InvalidParams,
            ErrorCode::InternalError => ErrorCodeModel::InternalError,
            ErrorCode::ServerError(code, desc) => ErrorCodeModel::ServerError(*code as int, desc@),
        }
    }
}

impl ErrorCode {
    /// Retrieve the numeric code for the error.
    pub fn get_code(&self) -> (code: i32)
        ensures
            code as int == code_of(self@),
    {
        match self {
            ErrorCode::ParseError => -32700,
            ErrorCode::InvalidRequest => -32600,
            ErrorCode::MethodNotFound => -32601,
            ErrorCode::InvalidParams => -32602,
            ErrorCode::InternalError => -32603,
            ErrorCode::ServerError(code, _) => *code,
        }
    }

    /// Get the short description for the error.
    pub fn get_desc(&self) -> (desc: &'static str)
        ensures
            desc@ == desc_of(self@),
    {
        match self {
            ErrorCode::ParseError => "Parse error",
            ErrorCode::InvalidRequest => "Invalid Request",
            ErrorCode::MethodNotFound => "Method not found",
            ErrorCode::InvalidParams => "Invalid params",
            ErrorCode::InternalError => "Internal error",
            ErrorCode::ServerError(_, desc) => desc,
        }
    }

    /// Sanity check that a requested custom error code is in the valid
    /// range; well-defined errors are always valid.
    pub fn is_valid(&self) -> (valid: bool)
        ensures
            valid == valid_code(self@),
    {
        match self {
            ErrorCode::ServerError(code, _) => -32099 <= *code && *code <= -32000,
            _ => true,
        }
    }
}

/// The spec-level mirror of [`ErrorJsonRpc`]: an error kind with its
/// optional diagnostic data.
pub struct ErrorModel {
    pub kind: ErrorCodeModel,
    pub data: Option<JsonModel>,
}

/// An error to be reported in a response: a kind and optional extra data.
pub struct ErrorJsonRpc {
    pub(crate) error: ErrorCode,
    pub(crate) data: Option<JsonValue>,
}

impl View for ErrorJsonRpc {
    type V = ErrorModel;

    open(crate) spec fn view(&self) -> ErrorModel {
        ErrorModel { kind: self.error@, data: opt_model(self.data) }
    }
}

/// The wire shape of an error: an object with `code` and `message` members,
/// and a `data` member only where data is present.
pub open spec fn error_json(e: ErrorModel) -> JsonModel {
    let base = seq![
        ("code"@, JsonModel::Int(code_of(e.kind) as i64)),
        ("message"@, JsonModel::Str(desc_of(e.kind))),
    ];
    JsonModel::Obj(
        match e.data {
            Some(d) => base.push(("data"@, d)),
            None => base,
        },
    )
}

impl ErrorJsonRpc {
    /// Make a new error without additional data.
    pub fn new(err: ErrorCode) -> (e: ErrorJsonRpc)
        ensures
            e@ == (ErrorModel { kind: err@, data: None }),
    {
        ErrorJsonRpc { error: err, data: None }
    }

    /// Make a new error with an additional data field.
    pub fn new_data(err: ErrorCode, data: JsonValue) -> (e: ErrorJsonRpc)
        ensures
            e@ == (ErrorModel { kind: err@, data: Some(data@) }),
    {
        ErrorJsonRpc { error: err, data: Some(data) }
    }

    /// Get the numeric code for the error.
    pub fn get_code(&self) -> (code: i32)
        ensures
            code as int == code_of(self@.kind),
    {
        self.error.get_code()
    }

    /// Get the short description message for the error.
    pub fn get_message(&self) -> (msg: &str)
        ensures
            msg@ == desc_of(self@.kind),
    {
        self.error.get_desc()
    }

    /// Get the additional data for the error.
    pub fn get_data(&self) -> (data: Option<&JsonValue>)
        ensures
            match data {
                Some(d) => self@.data == Some(d@),
                None => self@.data is None,
            },
    {
        self.data.as_ref()
    }

    /// The error's wire shape, as a JSON value.
    pub fn to_json(self) -> (j: JsonValue)
        ensures
            j@ == error_json(self@),
    {
        let ghost e = self@;
        let code = self.error.get_code();
        let desc = self.error.get_desc();
        let mut members: Vec<(String, JsonValue)> = Vec::new();
        members.push(("code".to_owned(), JsonValue::Int(code as i64)));
        members.push(("message".to_owned(), JsonValue::Str(desc.to_owned())));
        match self.data {
            Some(d) => {
                members.push(("data".to_owned(), d));
            },
            None => {},
        }
        let j = JsonValue::Object(members);
        proof {
            let pairs = j@->Obj_0;
            let spec_pairs = error_json(e)->Obj_0;
            assert(pairs[0] == (members@[0].0@, members@[0].1.model()));
            assert(pairs[0] == spec_pairs[0]);
            assert(pairs[1] == (members@[1].0@, members@[1].1.model()));
            assert(pairs[1] == spec_pairs[1]);
            if e.data is Some {
                assert(pairs[2] == (members@[2].0@, members@[2].1.model()));
                assert(pairs[2] == spec_pairs[2]);
            }
            assert(pairs =~= spec_pairs);
        }
        j
    }
}

} // verus!
