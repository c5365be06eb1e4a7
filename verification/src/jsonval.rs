//! Trusted boundary to serde_json for decoding response bodies.
//!
//! serde_json parses the body text; its tree is converted, arm by arm,
//! into the library's own [`Json`] tree of plain values, so that every
//! schema decision over a parsed body is made by verified code. The parse
//! is named: [`spec_parsed`] stands for what serde_json's deterministic
//! parser yields on a given text, and the one trusted wrapper pins its
//! result to that name.

use vstd::prelude::*;

verus! {

/// serde_json's parsed tree, held opaquely while it is converted.
#[verifier::external_type_specification]
#[verifier::external_body]
pub struct ExValue(serde_json::Value);

/// A JSON tree as plain values. Numbers keep serde_json's reading:
/// unsigned where `u64` holds the value, signed where `i64` does, and the
/// number's text otherwise; object members keep serde_json's member order.
pub enum Json {
    Null,
    Bool(bool),
    UInt(u64),
    Int(i64),
    Num(String),
    Str(String),
    Arr(Vec<Json>),
    Obj(Vec<(String, Json)>),
}

/// What serde_json's parser yields on a text: the converted tree where
/// the text is well-formed JSON the parser accepts, `None` otherwise. The
/// result depends on the characters alone.
pub uninterp spec fn spec_parsed(s: Seq<char>) -> Option<Json>;

/// Relies on `serde_json::Value`'s variants and the `Number` accessors:
/// one arm per variant, each field carried over one for one.
#[verifier::external_body]
fn to_tree(v: &serde_json::Value) -> Json {
    match v {
        serde_json::Value::Null => Json::Null,
        serde_json::Value::Bool(b) => Json::Bool(*b),
        serde_json::Value::Number(n) => match (n.as_u64(), n.as_i64()) {
            (Some(u), _) => Json::UInt(u),
            (None, Some(i)) => Json::Int(i),
            _ => Json::Num(n.to_string()),
        },
        serde_json::Value::String(s) => Json::Str(s.clone()),
        serde_json::Value::Array(a) => Json::Arr(a.iter().map(to_tree).collect()),
        serde_json::Value::Object(m) => Json::Obj(
            m.iter().map(|(k, w)| (k.clone(), to_tree(w))).collect(),
        ),
    }
}

/// Relies on `serde_json::from_str::<Value>`: parsing is deterministic,
/// depends on the text alone, and succeeds exactly on the JSON texts the
/// parser accepts; the accepted tree is handed over as [`Json`].
#[verifier::external_body]
pub(crate) fn parse_tree(s: &str) -> (r: Option<Json>)
    ensures
        r == spec_parsed(s@),
{
    serde_json::from_str::<serde_json::Value>(s).ok().map(|v| to_tree(&v))
}

} // verus!
