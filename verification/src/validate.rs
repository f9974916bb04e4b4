//! Round-trip validation: a JSON body is parsed, handed through a typed model
//! and back, and the two value trees are compared.

use crate::json::{error_message, error_text, parse_outcome, parse_value, strict_diff, strictly_equal};
use serde_json::{Error, Value};
use vstd::prelude::*;
use vstd::string::StringExecFns;

verus! {

/// Why a body failed its validation.
#[derive(Clone, Debug, PartialEq, Eq)]
pub enum ValidationError {
    /// The body is not well-formed JSON.
    Parse(String),
    /// The body is JSON, and the model did not take it or could not write it
    /// back.
    Deserialize(String),
    /// The model took the body and wrote back something else.
    Mismatch(String),
}

/// A `ValidationError` as contracts see it: the kind, and the detail by its
/// characters.
pub enum Failure {
    /// Not well-formed JSON, with the parser's message.
    Parse(Seq<char>),
    /// Refused by the model, with the model's message.
    Deserialize(Seq<char>),
    /// Changed by the round trip, with the list of differences.
    Mismatch(Seq<char>),
}

impl View for ValidationError {
    type V = Failure;

    open spec fn view(&self) -> Failure {
        match self {
            ValidationError::Parse(detail) => Failure::Parse(detail@),
            ValidationError::Deserialize(detail) => Failure::Deserialize(detail@),
            ValidationError::Mismatch(detail) => Failure::Mismatch(detail@),
        }
    }
}

impl Failure {
    /// The detail that the failure carries.
    pub open spec fn detail(self) -> Seq<char> {
        match self {
            Failure::Parse(detail) => detail,
            Failure::Deserialize(detail) => detail,
            Failure::Mismatch(detail) => detail,
        }
    }

    /// The words that a description of the failure starts with.
    pub open spec fn heading(self) -> Seq<char> {
        match self {
            Failure::Parse(_) => "ParseError: "@,
            Failure::Deserialize(_) => "DeserializeError: "@,
            Failure::Mismatch(_) => "MismatchError: "@,
        }
    }

    /// The failure in words: its heading, then its detail.
    pub open spec fn description(self) -> Seq<char> {
        self.heading() + self.detail()
    }
}

impl ValidationError {
    /// The detail that the error carries: the parser's or the model's
    /// message, or the list of differences.
    pub fn detail(&self) -> (detail: &str)
        ensures
            detail@ == self@.detail(),
    {
        match self {
            ValidationError::Parse(detail) => detail.as_str(),
            ValidationError::Deserialize(detail) => detail.as_str(),
            ValidationError::Mismatch(detail) => detail.as_str(),
        }
    }

    /// The error in words, for a diagnostic.
    pub fn describe(&self) -> (text: String)
        ensures
            text@ == self@.description(),
    {
        match self {
            ValidationError::Parse(detail) => "ParseError: ".to_owned().concat(detail.as_str()),
            ValidationError::Deserialize(detail) => "DeserializeError: ".to_owned().concat(
                detail.as_str(),
            ),
            ValidationError::Mismatch(detail) => "MismatchError: ".to_owned().concat(
                detail.as_str(),
            ),
        }
    }
}

/// Whether a body survives the round trip, given what parsing it gave and
/// what the round trip through the model gave: it parsed, the model took it
/// and wrote it back, and the two value trees are structurally equal.
pub open spec fn round_trips(parsed: Result<Value, Error>, round_trip: Result<Value, String>) -> bool {
    &&& parsed is Ok
    &&& round_trip is Ok
    &&& strictly_equal(parsed->Ok_0, round_trip->Ok_0)
}

/// Whether `outcome` is the right answer to a validation. A body that is not
/// JSON is a parse error with the parser's message, whatever the model did. A
/// body that the model refused is a deserialize error with the model's
/// message. A body that came back changed is a mismatch, and one that came
/// back structurally equal is a success.
pub open spec fn answers(
    outcome: Result<(), ValidationError>,
    parsed: Result<Value, Error>,
    round_trip: Result<Value, String>,
) -> bool {
    match parsed {
        Err(error) => outcome matches Err(e) && e@ == Failure::Parse(error_text(error)),
        Ok(original) => match round_trip {
            Err(refusal) => outcome matches Err(e) && e@ == Failure::Deserialize(refusal@),
            Ok(value) => if strictly_equal(original, value) {
                outcome is Ok
            } else {
                outcome matches Err(e) && e@ is Mismatch
            },
        },
    }
}

/// Turns the result of the comparison into the outcome of the validation:
/// no difference is success, and a list of differences is a mismatch that
/// carries the list.
pub fn mismatch_from(diff: Result<(), String>) -> (outcome: Result<(), ValidationError>)
    ensures
        diff is Ok ==> outcome is Ok,
        diff matches Err(detail) ==> outcome matches Err(e) && e@ == Failure::Mismatch(detail@),
{
    match diff {
        Ok(()) => Ok(()),
        Err(detail) => Err(ValidationError::Mismatch(detail)),
    }
}

/// Compares the value tree that a body parsed to with the one that the model
/// wrote back. The comparison is strict: the order of the keys of an object
/// does not count, and everything else does. A number is compared as it is
/// held, so an integer and a float of the same value differ.
pub fn compare_round_trip(original: &Value, round_tripped: &Value) -> (outcome: Result<
    (),
    ValidationError,
>)
    ensures
        outcome is Ok <==> strictly_equal(*original, *round_tripped),
        outcome matches Err(e) ==> e@ is Mismatch,
{
    mismatch_from(strict_diff(original, round_tripped))
}

/// The validation of an already parsed body.
pub fn validate_parsed(parsed: Result<Value, Error>, round_trip: Result<Value, String>) -> (outcome:
    Result<(), ValidationError>)
    ensures
        answers(outcome, parsed, round_trip),
        outcome is Ok <==> round_trips(parsed, round_trip),
{
    match parsed {
        Err(error) => Err(ValidationError::Parse(error_message(&error))),
        Ok(original) => match round_trip {
            Err(refusal) => Err(ValidationError::Deserialize(refusal)),
            Ok(value) => compare_round_trip(&original, &value),
        },
    }
}

/// Validates that a JSON body survived the round trip through its typed
/// model. `round_trip` is what deserializing the body into the model and
/// serializing the model again gave: the value tree that the model wrote
/// back, or the message of the model where it refused. A failure concerns
/// this one body only.
pub fn validate_serialization(zmq_json_str: &str, round_trip: Result<Value, String>) -> (outcome:
    Result<(), ValidationError>)
    ensures
        answers(outcome, parse_outcome(zmq_json_str@), round_trip),
        outcome is Ok <==> round_trips(parse_outcome(zmq_json_str@), round_trip),
{
    validate_parsed(parse_value(zmq_json_str), round_trip)
}

/// Exactly the bodies that survive the round trip pass: an outcome that
/// answers a validation is a success if and only if the body parsed, the model
/// took it and wrote it back, and the two value trees are structurally equal.
pub proof fn lemma_passes_iff_round_trips(
    outcome: Result<(), ValidationError>,
    parsed: Result<Value, Error>,
    round_trip: Result<Value, String>,
)
    requires
        answers(outcome, parsed, round_trip),
    ensures
        outcome is Ok <==> round_trips(parsed, round_trip),
{
}

/// Whatever the model loses, adds or changes is caught: where the value tree
/// that it wrote back is not structurally equal to the one that the body
/// parsed to, the outcome is a mismatch.
pub proof fn lemma_changed_body_is_a_mismatch(
    outcome: Result<(), ValidationError>,
    original: Value,
    written: Value,
)
    requires
        answers(outcome, Ok(original), Ok(written)),
        !strictly_equal(original, written),
    ensures
        outcome matches Err(e) && e@ is Mismatch,
{
}

} // verus!
