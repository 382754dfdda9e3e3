//! Typed message and value model for a charge-point communication protocol,
//! with a verified wire codec: value objects encode to and decode from a
//! JSON-shaped tree, timestamps are carried as UTC instants with a canonical
//! RFC3339 text form, and enumerations are closed sets of exact string tags.

pub mod codec;
pub mod datatypes;
pub mod decimal;
pub mod digits;
pub mod enums;
pub mod error;
pub mod instant;
pub mod json;
pub mod messages;
