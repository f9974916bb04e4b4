//! The boundary to the JSON crates: the outside types that the library
//! carries, names for what the outside functions return, and one wrapper for
//! each outside function. Nothing in this file is proved; the rest of the
//! library is proved from what it states.

use assert_json_diff::{CompareMode, Config};
use serde_json::{Error, Value};
use vstd::prelude::*;

verus! {

/// `serde_json::Value`: a JSON value tree. The library carries it and never
/// looks inside.
#[verifier::external_type_specification]
#[verifier::external_body]
pub struct ExValue(serde_json::Value);

/// `serde_json::Error`: why parsing, deserializing or serializing failed.
#[verifier::external_type_specification]
#[verifier::external_body]
pub struct ExError(serde_json::Error);

/// What `serde_json::from_str::<Value>` returns for a text: the value tree
/// it describes, or the reason it is not well-formed JSON.
pub uninterp spec fn parse_outcome(text: Seq<char>) -> Result<Value, Error>;

/// What a `serde_json::Error` displays as.
pub uninterp spec fn error_text(error: Error) -> Seq<char>;

/// What `serde_json::to_string_pretty` returns for a value tree: its indented
/// text, or the reason it could not be written.
pub uninterp spec fn pretty_outcome(value: Value) -> Result<Seq<char>, Error>;

/// Whether `assert_json_diff` finds no difference between two value trees
/// when it compares them strictly: objects by key set whatever the order of
/// their keys, arrays element by element, atoms by `==`.
pub uninterp spec fn strictly_equal(lhs: Value, rhs: Value) -> bool;

/// A text result as contracts see it: the text by its characters.
pub open spec fn text_view(result: Result<String, Error>) -> Result<Seq<char>, Error> {
    match result {
        Ok(text) => Ok(text@),
        Err(error) => Err(error),
    }
}

/// Calls `serde_json::from_str::<Value>`. The contract claims only that the
/// result is a function of the text.
#[verifier::external_body]
pub(crate) fn parse_value(text: &str) -> (parsed: Result<Value, Error>)
    ensures
        parsed == parse_outcome(text@),
{
    serde_json::from_str::<Value>(text)
}

/// Formats a `serde_json::Error` through its `Display` impl. The contract
/// claims only that the text is a function of the error.
#[verifier::external_body]
pub(crate) fn error_message(error: &Error) -> (message: String)
    ensures
        message@ == error_text(*error),
{
    format!("{}", error)
}

/// Calls `serde_json::to_string_pretty` on a value tree. The contract claims
/// only that the result is a function of the value.
#[verifier::external_body]
pub(crate) fn pretty_text(value: &Value) -> (pretty: Result<String, Error>)
    ensures
        text_view(pretty) == pretty_outcome(*value),
{
    serde_json::to_string_pretty(value)
}

/// Calls `assert_json_diff::assert_json_matches_no_panic` in strict mode, the
/// comparison behind `assert_json_eq!`. It returns `Ok` exactly when it finds
/// no difference. Of the message nothing is claimed: it lists every
/// difference, in an order that may change from run to run.
#[verifier::external_body]
pub(crate) fn strict_diff(lhs: &Value, rhs: &Value) -> (diff: Result<(), String>)
    ensures
        diff is Ok <==> strictly_equal(*lhs, *rhs),
{
    assert_json_diff::assert_json_matches_no_panic(lhs, rhs, Config::new(CompareMode::Strict))
}

} // verus!
