//! The wire form of a message: a type label, a `:`, and a JSON body.

use crate::text::{lemma_colon_encoding, lemma_colon_is_encoded, lemma_encoding_injective, COLON_BYTE};
use vstd::prelude::*;
use vstd::string::StringSliceAdditionalSpecFns;
use vstd::utf8::*;

verus! {

/// Whether `at` is the position of the first `:` in `wire`.
pub open spec fn is_delimiter(wire: Seq<char>, at: int) -> bool {
    &&& 0 <= at < wire.len()
    &&& wire[at] == ':'
    &&& forall|j: int| 0 <= j < at ==> wire[j] != ':'
}

/// The position of the first `:` in `wire`, or the length of `wire` where it
/// holds none.
pub open spec fn delimiter_index(wire: Seq<char>) -> int {
    if exists|at: int| is_delimiter(wire, at) {
        choose|at: int| is_delimiter(wire, at)
    } else {
        wire.len() as int
    }
}

/// The type label of a wire message: all that stands before its first `:`,
/// or the whole message where it holds none.
pub open spec fn label_of(wire: Seq<char>) -> Seq<char> {
    wire.subrange(0, delimiter_index(wire))
}

/// The body of a wire message: all that follows its first `:`, or nothing
/// where it holds none.
pub open spec fn body_of(wire: Seq<char>) -> Seq<char> {
    if delimiter_index(wire) < wire.len() {
        wire.subrange(delimiter_index(wire) + 1, wire.len() as int)
    } else {
        Seq::empty()
    }
}

/// One message taken apart: the raw type label and the raw JSON body.
#[derive(Clone, Debug, PartialEq, Eq)]
pub struct DecodedMessage {
    /// The type label, as it stood on the wire.
    pub msg_type: String,
    /// The JSON body, as it stood on the wire.
    pub body: String,
}

impl DecodedMessage {
    /// Splits a wire message at its first `:`. Later colons belong to the body.
    pub fn split(wire: &str) -> (decoded: DecodedMessage)
        ensures
            decoded.msg_type@ == label_of(wire@),
            decoded.body@ == body_of(wire@),
    {
        let bytes = wire.as_bytes();
        proof {
            encode_utf8_valid_utf8(wire@);
            encode_utf8_decode_utf8(wire@);
        }
        let mut i: usize = 0;
        while i < bytes.len() && bytes[i] != COLON_BYTE
            invariant
                i <= bytes.len(),
                forall|j: int| 0 <= j < i ==> bytes@[j] != COLON_BYTE,
            decreases bytes.len() - i,
        {
            i += 1;
        }
        if i == bytes.len() {
            proof {
                // No byte is a `:`, so no character is one.
                if wire@.contains(':') {
                    lemma_colon_is_encoded(wire@);
                }
                lemma_no_colon(wire@);
            }
            DecodedMessage { msg_type: wire.to_owned(), body: String::new() }
        } else {
            proof {
                // The byte of a `:` continues no character, so one starts here.
                is_char_boundary_iff_not_is_continuation_byte(bytes@, i as int);
            }
            let (label, rest) = wire.split_at(i);
            proof {
                // That character is one byte wide, so the next starts at 1.
                encode_utf8_valid_utf8(rest@);
                reveal_with_fuel(is_char_boundary, 2);
            }
            let (colon, body) = rest.split_at(1);
            proof {
                // The three pieces decode to the label, the `:` and the body.
                decode_utf8_split(bytes@, i as int);
                decode_utf8_split(rest.spec_bytes(), 1);
                encode_utf8_decode_utf8(label@);
                encode_utf8_decode_utf8(rest@);
                encode_utf8_decode_utf8(colon@);
                encode_utf8_decode_utf8(body@);
                lemma_colon_encoding();
                lemma_encoding_injective(colon@, seq![':']);
                assert(wire@ =~= label@ + seq![':'] + body@);
                // The label holds no `:`, or a byte before `i` would be one.
                if label@.contains(':') {
                    lemma_colon_is_encoded(label@);
                }
                lemma_split_of_joined(label@, body@);
            }
            DecodedMessage { msg_type: label.to_owned(), body: body.to_owned() }
        }
    }
}

/// A message has at most one first `:`.
pub proof fn lemma_delimiter_unique(wire: Seq<char>, at: int)
    requires
        is_delimiter(wire, at),
    ensures
        delimiter_index(wire) == at,
{
    let found = choose|k: int| is_delimiter(wire, k);
    assert(is_delimiter(wire, found));
    if found < at {
        assert(wire[found] != ':');
    } else if at < found {
        assert(wire[at] != ':');
    }
}

/// A message without a `:` is all label and has an empty body.
pub proof fn lemma_no_colon(wire: Seq<char>)
    requires
        !wire.contains(':'),
    ensures
        label_of(wire) == wire,
        body_of(wire) == Seq::<char>::empty(),
{
    assert forall|at: int| !is_delimiter(wire, at) by {
        if is_delimiter(wire, at) {
            assert(wire.contains(wire[at]));
        }
    }
    assert(wire.subrange(0, wire.len() as int) =~= wire);
}

/// Splitting undoes joining: a label without a `:`, joined to any body by a
/// `:`, splits back into that label and that body, whatever colons the body
/// holds.
pub proof fn lemma_split_of_joined(label: Seq<char>, body: Seq<char>)
    requires
        !label.contains(':'),
    ensures
        label_of(label + seq![':'] + body) == label,
        body_of(label + seq![':'] + body) == body,
{
    let wire = label + seq![':'] + body;
    let at = label.len() as int;
    assert forall|j: int| 0 <= j < at implies wire[j] != ':' by {
        assert(wire[j] == label[j]);
        assert(label.contains(label[j]));
    }
    assert(is_delimiter(wire, at));
    lemma_delimiter_unique(wire, at);
    assert(wire.subrange(0, at) =~= label);
    assert(wire.subrange(at + 1, wire.len() as int) =~= body);
}

/// A message with a `:` is its label, a `:` and its body, and the label holds
/// no `:`.
pub proof fn lemma_split_rejoins(wire: Seq<char>)
    requires
        wire.contains(':'),
    ensures
        wire == label_of(wire) + seq![':'] + body_of(wire),
        !label_of(wire).contains(':'),
{
    lemma_first_colon_exists(wire, wire.len() as int);
    let at = delimiter_index(wire);
    assert(is_delimiter(wire, at));
    assert(wire =~= label_of(wire) + seq![':'] + body_of(wire));
    if label_of(wire).contains(':') {
        let j = choose|j: int| 0 <= j < label_of(wire).len() && label_of(wire)[j] == ':';
        assert(wire[j] == ':');
    }
}

/// Where the first `upto` characters of a message hold a `:`, one of them is
/// its first.
proof fn lemma_first_colon_exists(wire: Seq<char>, upto: int)
    requires
        0 <= upto <= wire.len(),
        exists|k: int| 0 <= k < upto && wire[k] == ':',
    ensures
        exists|at: int| is_delimiter(wire, at),
    decreases upto,
{
    let k = choose|k: int| 0 <= k < upto && wire[k] == ':';
    if exists|j: int| 0 <= j < k && wire[j] == ':' {
        lemma_first_colon_exists(wire, k);
    } else {
        assert(is_delimiter(wire, k));
    }
}

} // verus!
