//! The boundary to the JSON text parser and encoder.
//!
//! Parsing and encoding are done by `rustc_serialize`; the engine trusts the
//! small functions here and is verified against their contracts. The names
//! [`parse_result`] and [`rendered`] stand for what the parser and the
//! encoder yield; both depend on their argument alone.

use vstd::prelude::*;
use crate::json::{float_bits, FloatLeaf, JsonModel, JsonValue};
use rustc_serialize::json::Json;

verus! {

/// What parsing a text yields: the parsed tree, or nothing where the text is
/// not well-formed JSON. It depends on the text alone.
pub uninterp spec fn parse_result(s: Seq<char>) -> Option<JsonModel>;

/// The text the JSON encoder writes for a tree. It depends on the tree
/// alone: object members are written sorted by key, with a later duplicate
/// key winning, so the member order in the tree does not show; and a
/// floating-point leaf holds a number leaf alone, which its bit pattern in
/// the tree determines.
pub uninterp spec fn rendered(v: JsonModel) -> Seq<char>;

/// Relies on `rustc_serialize::json::Json::from_str`, which parses a text
/// into a `Json` tree or reports a syntax error; `from_json` rebuilds the
/// tree as the library's own value type.
#[verifier::external_body]
pub(crate) fn parse_json(s: &str) -> (r: Option<JsonValue>)
    ensures
        r is Some <==> parse_result(s@) is Some,
        r matches Some(v) ==> parse_result(s@) == Some(v@),
{
    match Json::from_str(s) {
        Ok(j) => Some(from_json(j)),
        Err(_) => None,
    }
}

/// The converter behind [`parse_json`]: rebuilds a parsed `Json` tree as the
/// library's own value type, one variant at a time; a floating-point leaf is
/// carried through as the leaf itself.
#[verifier::external_body]
fn from_json(j: Json) -> JsonValue {
    match j {
        Json::Null => JsonValue::Null,
        Json::Boolean(b) => JsonValue::Bool(b),
        Json::I64(i) => JsonValue::Int(i),
        Json::U64(u) => JsonValue::Uint(u),
        Json::F64(x) => JsonValue::Float(FloatLeaf { leaf: Json::F64(x) }),
        Json::String(s) => JsonValue::Str(s),
        Json::Array(a) => JsonValue::Array(a.into_iter().map(from_json).collect()),
        Json::Object(o) => JsonValue::Object(o.into_iter().map(|(k, v)| (k, from_json(v))).collect()),
    }
}

/// Relies on `Json`'s `Display` encoder, which writes a tree as compact JSON
/// text; `to_json` rebuilds the value as a `rustc_serialize` tree first.
#[verifier::external_body]
pub(crate) fn render_json(v: &JsonValue) -> (r: String)
    ensures
        r@ == rendered(v@),
{
    to_json(v).to_string()
}

/// The converter behind [`render_json`]: rebuilds the library's value as a
/// `rustc_serialize` tree, one variant at a time.
#[verifier::external_body]
fn to_json(v: &JsonValue) -> Json {
    match v {
        JsonValue::Null => Json::Null,
        JsonValue::Bool(b) => Json::Boolean(*b),
        JsonValue::Int(i) => Json::I64(*i),
        JsonValue::Uint(u) => Json::U64(*u),
        JsonValue::Float(fl) => fl.leaf.clone(),
        JsonValue::Str(s) => Json::String(s.clone()),
        JsonValue::Array(a) => Json::Array(a.iter().map(to_json).collect()),
        JsonValue::Object(m) => Json::Object(m.iter().map(|p| (p.0.clone(), to_json(&p.1))).collect()),
    }
}

/// Relies on `Json::clone`: the copy of a floating-point leaf holds the same
/// number, bit for bit.
#[verifier::external_body]
pub(crate) fn clone_json(j: &Json) -> (r: Json)
    ensures
        float_bits(r) == float_bits(*j),
{
    j.clone()
}

} // verus!
