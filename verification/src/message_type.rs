//! The closed set of message types and the wire labels that name them.

use crate::text::str_eq;
use vstd::prelude::*;

verus! {

/// The kind of notification a message carries. Each variant selects one model.
#[derive(Clone, Copy, Debug, PartialEq, Eq, PartialOrd, Ord, Hash, Structural)]
pub enum MessageType {
    /// A minimal chain-tip record: a single object.
    JsonMinimalChainMain,
    /// Minimal mempool-addition records: an array of objects.
    JsonMinimalTxPoolAdd,
    /// Full chain-tip records: an array of objects.
    JsonFullChainMain,
    /// Full mempool-addition records: an array of objects.
    JsonFullTxPoolAdd,
    /// A miner template-update record: a single object.
    JsonFullMinerData,
}

impl MessageType {
    /// The wire label that names this message type.
    pub open spec fn label(self) -> Seq<char> {
        match self {
            MessageType::JsonMinimalChainMain => "json-minimal-chain_main"@,
            MessageType::JsonMinimalTxPoolAdd => "json-minimal-txpool_add"@,
            MessageType::JsonFullChainMain => "json-full-chain_main"@,
            MessageType::JsonFullTxPoolAdd => "json-full-txpool_add"@,
            MessageType::JsonFullMinerData => "json-full-miner_data"@,
        }
    }

    /// The message type that `tag` names: the one whose label is exactly
    /// `tag`, or `None` where no label is.
    pub open spec fn resolve(tag: Seq<char>) -> Option<MessageType> {
        if exists|m: MessageType| m.label() == tag {
            Some(choose|m: MessageType| m.label() == tag)
        } else {
            None
        }
    }

    /// The wire label of this message type, as text.
    pub fn as_str(self) -> (label: &'static str)
        ensures
            label@ == self.label(),
    {
        match self {
            MessageType::JsonMinimalChainMain => "json-minimal-chain_main",
            MessageType::JsonMinimalTxPoolAdd => "json-minimal-txpool_add",
            MessageType::JsonFullChainMain => "json-full-chain_main",
            MessageType::JsonFullTxPoolAdd => "json-full-txpool_add",
            MessageType::JsonFullMinerData => "json-full-miner_data",
        }
    }

    /// Resolves a label taken from the wire. The match is exact: case,
    /// whitespace and punctuation all count. A label that names no message
    /// type is no error; it resolves to `None`.
    pub fn from_str(s: &str) -> (selection: Option<MessageType>)
        ensures
            selection == Self::resolve(s@),
            forall|m: MessageType| selection == Some(m) <==> #[trigger] m.label() == s@,
    {
        let selection = if str_eq(s, "json-minimal-chain_main") {
            Some(MessageType::JsonMinimalChainMain)
        } else if str_eq(s, "json-minimal-txpool_add") {
            Some(MessageType::JsonMinimalTxPoolAdd)
        } else if str_eq(s, "json-full-chain_main") {
            Some(MessageType::JsonFullChainMain)
        } else if str_eq(s, "json-full-txpool_add") {
            Some(MessageType::JsonFullTxPoolAdd)
        } else if str_eq(s, "json-full-miner_data") {
            Some(MessageType::JsonFullMinerData)
        } else {
            None
        };
        proof {
            lemma_labels_distinct();
            if let Some(m) = selection {
                lemma_resolve_label(m);
            }
        }
        selection
    }
}

/// No two message types share a label.
pub proof fn lemma_labels_distinct()
    ensures
        forall|a: MessageType, b: MessageType| a.label() == b.label() ==> a == b,
{
    reveal_strlit("json-minimal-chain_main");
    reveal_strlit("json-minimal-txpool_add");
    reveal_strlit("json-full-chain_main");
    reveal_strlit("json-full-txpool_add");
    reveal_strlit("json-full-miner_data");
    assert forall|a: MessageType, b: MessageType| a.label() == b.label() implies a == b by {
        if a != b {
            if a.label().len() == b.label().len() {
                if a.label().len() == 23 {
                    assert(a.label()[13] != b.label()[13]);
                } else {
                    assert(a.label()[10] != b.label()[10]);
                }
            }
        }
    }
}

/// No label holds a `:`.
pub proof fn lemma_labels_hold_no_colon(kind: MessageType)
    ensures
        !kind.label().contains(':'),
{
    reveal_strlit("json-minimal-chain_main");
    reveal_strlit("json-minimal-txpool_add");
    reveal_strlit("json-full-chain_main");
    reveal_strlit("json-full-txpool_add");
    reveal_strlit("json-full-miner_data");
    let label = kind.label();
    assert forall|i: int| 0 <= i < label.len() implies label[i] != ':' by {}
}

/// Each of the five labels resolves to its own message type.
pub proof fn lemma_resolve_label(m: MessageType)
    ensures
        MessageType::resolve(m.label()) == Some(m),
{
    lemma_labels_distinct();
    let found = choose|k: MessageType| k.label() == m.label();
    assert(found.label() == m.label());
}

/// A string resolves to a message type exactly when it is that type's label,
/// so any string that is none of the five labels resolves to nothing.
pub proof fn lemma_resolve_exact(tag: Seq<char>, m: MessageType)
    ensures
        MessageType::resolve(tag) == Some(m) <==> tag == m.label(),
        MessageType::resolve(tag) is None <==> forall|k: MessageType| k.label() != tag,
{
    if tag == m.label() {
        lemma_resolve_label(m);
    }
}

} // verus!
