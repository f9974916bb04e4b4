//! What is shown for one message: the pure part of handling it, from the
//! decoded text of the message to the text of its diagnostics.

use crate::json::parse_outcome;
use crate::message_type::{lemma_labels_hold_no_colon, lemma_resolve_label, MessageType};
use crate::pretty::{format_json, formatted};
use crate::validate::{Failure, ValidationError};
use crate::wire::{body_of, label_of, lemma_split_of_joined, DecodedMessage};
use vstd::prelude::*;
use vstd::string::StringExecFns;

verus! {

/// A message as first looked at: taken apart, its body rendered, its label
/// resolved. `selection` says which model the body is to be validated
/// against; `None` means the label is unknown and there is nothing to
/// validate.
#[derive(Clone, Debug, PartialEq, Eq)]
pub struct Inspection {
    /// The type label, as it stood on the wire.
    pub msg_type: String,
    /// The JSON body, as it stood on the wire.
    pub body: String,
    /// The body rendered for display.
    pub formatted: String,
    /// The model that the label selects, if it is a known label.
    pub selection: Option<MessageType>,
}

/// The text that announces a message: its type label, then its rendered
/// body, each on a line of its own.
pub open spec fn announcement_text(msg_type: Seq<char>, formatted: Seq<char>) -> Seq<char> {
    "Received zmq message type: "@ + msg_type + "\n"@ + formatted + "\n"@
}

/// The text that reports a label that selects no model: the raw label, then
/// the raw body.
pub open spec fn unknown_type_text(msg_type: Seq<char>, body: Seq<char>) -> Seq<char> {
    "Received unknown message type: "@ + msg_type + "\n"@ + "Message body: "@ + body
}

/// The text that reports a failed validation: the failure in words, then the
/// raw body that failed.
pub open spec fn failure_text(failure: Failure, body: Seq<char>) -> Seq<char> {
    "Validation failed: "@ + failure.description() + "\n"@ + "Message body: "@ + body
}

impl Inspection {
    /// Whether this is what inspecting `wire` gives.
    pub open spec fn describes(&self, wire: Seq<char>) -> bool {
        &&& self.msg_type@ == label_of(wire)
        &&& self.body@ == body_of(wire)
        &&& self.formatted@ == formatted(parse_outcome(body_of(wire)))
        &&& self.selection == MessageType::resolve(label_of(wire))
    }

    /// Shown for every message.
    pub fn announcement(&self) -> (text: String)
        ensures
            text@ == announcement_text(self.msg_type@, self.formatted@),
    {
        "Received zmq message type: ".to_owned().concat(self.msg_type.as_str()).concat("\n").concat(
            self.formatted.as_str(),
        ).concat("\n")
    }

    /// Shown where the label selects no model.
    pub fn unknown_type_report(&self) -> (text: String)
        ensures
            text@ == unknown_type_text(self.msg_type@, self.body@),
    {
        "Received unknown message type: ".to_owned().concat(self.msg_type.as_str()).concat(
            "\n",
        ).concat("Message body: ").concat(self.body.as_str())
    }

    /// Shown where the body failed its validation.
    pub fn failure_report(&self, error: &ValidationError) -> (text: String)
        ensures
            text@ == failure_text(error@, self.body@),
    {
        "Validation failed: ".to_owned().concat(error.describe().as_str()).concat("\n").concat(
            "Message body: ",
        ).concat(self.body.as_str())
    }
}

/// Looks at one message from the wire: splits it at its first `:`, renders
/// the body, and resolves the label.
pub fn inspect(wire: &str) -> (seen: Inspection)
    ensures
        seen.describes(wire@),
{
    let DecodedMessage { msg_type, body } = DecodedMessage::split(wire);
    let formatted = format_json(body.as_str());
    let selection = MessageType::from_str(msg_type.as_str());
    Inspection { msg_type, body, formatted, selection }
}

/// A message made of a known label, a `:` and any body splits into that label
/// and that body, and its label selects the label's own message type. So
/// whatever describes such a message holds these three.
pub proof fn lemma_known_message(kind: MessageType, body: Seq<char>)
    ensures
        label_of(kind.label() + seq![':'] + body) == kind.label(),
        body_of(kind.label() + seq![':'] + body) == body,
        MessageType::resolve(label_of(kind.label() + seq![':'] + body)) == Some(kind),
{
    lemma_labels_hold_no_colon(kind);
    lemma_split_of_joined(kind.label(), body);
    lemma_resolve_label(kind);
}

} // verus!
