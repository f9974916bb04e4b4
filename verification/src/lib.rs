//! Diagnostics for a feed of typed, JSON-encoded notifications: splitting a
//! message into its type label and body, resolving the label to a model, and
//! validating that a body survives the round trip through that model.

pub mod json;
pub mod message_type;
pub mod pretty;
pub mod report;
pub mod text;
pub mod validate;
pub mod wire;

pub use message_type::MessageType;
pub use pretty::format_json;
pub use report::{inspect, Inspection};
pub use validate::{validate_serialization, ValidationError};
pub use wire::DecodedMessage;
