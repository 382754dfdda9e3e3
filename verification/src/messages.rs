//! Message envelopes: paired request/response record types for protocol
//! operations, each independently encodable and decodable under the value
//! object rules.

pub mod transaction_event;
