//! Pretty-printing of a JSON body for a human reader.

use crate::json::{error_message, error_text, parse_outcome, parse_value, pretty_outcome, pretty_text};
use serde_json::{Error, Value};
use vstd::prelude::*;
use vstd::string::StringExecFns;

verus! {

/// What stands in place of the pretty text where the body is not JSON.
pub open spec fn parse_failure_text(detail: Seq<char>) -> Seq<char> {
    "Error parsing JSON: "@ + detail
}

/// What stands in place of the pretty text where the value cannot be written.
pub open spec fn format_failure_text(detail: Seq<char>) -> Seq<char> {
    "Error formatting JSON: "@ + detail
}

/// The text shown for a parse result: the indented JSON, or a line that says
/// what went wrong.
pub open spec fn formatted(parsed: Result<Value, Error>) -> Seq<char> {
    match parsed {
        Ok(value) => match pretty_outcome(value) {
            Ok(text) => text,
            Err(error) => format_failure_text(error_text(error)),
        },
        Err(error) => parse_failure_text(error_text(error)),
    }
}

/// The line shown for a body that is not JSON.
pub fn parse_failure(detail: &str) -> (line: String)
    ensures
        line@ == parse_failure_text(detail@),
{
    "Error parsing JSON: ".to_owned().concat(detail)
}

/// The line shown for a value that cannot be written.
pub fn format_failure(detail: &str) -> (line: String)
    ensures
        line@ == format_failure_text(detail@),
{
    "Error formatting JSON: ".to_owned().concat(detail)
}

/// Renders an already parsed body.
pub fn format_parsed(parsed: Result<Value, Error>) -> (out: String)
    ensures
        out@ == formatted(parsed),
{
    match parsed {
        Ok(value) => match pretty_text(&value) {
            Ok(text) => text,
            Err(error) => format_failure(error_message(&error).as_str()),
        },
        Err(error) => parse_failure(error_message(&error).as_str()),
    }
}

/// Renders a JSON body for display. It never fails: a body that is not JSON
/// yields a line that says so.
pub fn format_json(input: &str) -> (out: String)
    ensures
        out@ == formatted(parse_outcome(input@)),
{
    format_parsed(parse_value(input))
}

} // verus!
