//! Reading a JSON document from text.
//!
//! The parsing itself is `serde_json`'s. What it returns is carried over into
//! [`Json`], and everything after that step is this crate's own, verified code.

use crate::json::{Json, JsonValue};
use serde_json::Value;
use vstd::prelude::*;

verus! {

/// `serde_json::Value`, a parsed document. Nothing of its inside is known
/// here: it is carried from `decode` to `lift`.
#[verifier::external_type_specification]
#[verifier::external_body]
pub struct ExValue(serde_json::Value);

/// `serde_json::Error`, the reason why a text is no document. It is carried
/// from `decode` to `explain`.
#[verifier::external_type_specification]
#[verifier::external_body]
pub struct ExError(serde_json::Error);

/// What `serde_json::from_str` makes of `text`: the document's content, or the
/// text of the error.
pub uninterp spec fn document(text: Seq<char>) -> Result<JsonValue, Seq<char>>;

/// What a `serde_json::Value` holds.
pub uninterp spec fn content(value: serde_json::Value) -> JsonValue;

/// What a `serde_json::Error` prints.
pub uninterp spec fn explanation(error: serde_json::Error) -> Seq<char>;

/// `serde_json::from_str`, at the type `serde_json::Value`. The contract claims
/// only that the outcome is determined by the text: a value whose content is
/// the document, or an error whose printed form is the one that `document`
/// names.
#[verifier::external_body]
fn decode(text: &str) -> (outcome: Result<serde_json::Value, serde_json::Error>)
    ensures
        match outcome {
            Ok(value) => document(text@) == Ok::<JsonValue, Seq<char>>(content(value)),
            Err(error) => document(text@) == Err::<JsonValue, Seq<char>>(explanation(error)),
        },
{
    serde_json::from_str::<Value>(text)
}

/// Carries a `serde_json::Value` over into [`Json`], variant by variant. A
/// number goes to `Unsigned` where `as_u64` gives it, else to `Signed` where
/// `as_i64` gives it, else to `Real` with the text that it prints. The
/// contract claims only that the result denotes what the value holds.
#[verifier::external_body]
fn lift(value: serde_json::Value) -> (json: Json)
    ensures
        json@ == content(value),
{
    match value {
        Value::Null => Json::Null,
        Value::Bool(b) => Json::Bool(b),
        Value::Number(n) => match (n.as_u64(), n.as_i64()) {
            (Some(u), _) => Json::Unsigned(u),
            (_, Some(i)) => Json::Signed(i),
            _ => Json::Real(n.to_string()),
        },
        Value::String(s) => Json::Text(s),
        Value::Array(a) => Json::Array(a.into_iter().map(lift).collect()),
        Value::Object(m) => Json::Object(m.into_iter().map(|(k, v)| (k, lift(v))).collect()),
    }
}

/// `serde_json::Error`'s `Display`: the message, with the line and column
/// where the document went wrong.
#[verifier::external_body]
fn explain(error: &serde_json::Error) -> (message: String)
    ensures
        message@ == explanation(*error),
{
    error.to_string()
}

/// What a decoding outcome denotes.
pub open spec fn outcome_view(outcome: Result<Json, String>) -> Result<JsonValue, Seq<char>> {
    match outcome {
        Ok(json) => Ok(json@),
        Err(message) => Err(message@),
    }
}

/// Reads a JSON document from `text`.
pub fn read_document(text: &str) -> (outcome: Result<Json, String>)
    ensures
        outcome_view(outcome) == document(text@),
{
    match decode(text) {
        Ok(value) => Ok(lift(value)),
        Err(error) => Err(explain(&error)),
    }
}

} // verus!
